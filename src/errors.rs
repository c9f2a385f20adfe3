use vstd::prelude::*;
use vstd::string::*;

verus! {

/// The JSON library's error type, carried through as the cause of a failure.
#[verifier::external_type_specification]
#[verifier::external_body]
pub struct ExJsonError(serde_json::Error);

/// Everything an invocation of the worker can fail with.
#[allow(inconsistent_fields)]
#[derive(Debug)]
pub enum ZammError {
    /// The worker could not be started.
    SidecarSpawn { expected_path: String, tauri_error: String },
    /// The worker answered with text that did not parse as the expected type.
    SidecarResponse { source: SidecarResponseError },
    /// The worker signalled an explicit error.
    SidecarCommandErr { line: String },
    /// The worker's event stream held an event of no recognised kind.
    SidecarUnexpectedCommandEvent,
    /// The input could not be encoded as JSON.
    Serde { source: serde_json::Error },
    /// The process framework reported a failure of its own.
    Tauri { message: String },
}

/// The postmortem record of a response that did not parse.
#[derive(Debug)]
pub struct SidecarResponseError {
    /// Expected worker path, command name and JSON input, in that order.
    pub request: Vec<String>,
    /// The raw text that came back, unaltered.
    pub response: String,
    /// Why it did not parse.
    pub source: serde_json::Error,
}

pub type ZammResult<T> = Result<T, ZammError>;

/// The text of each argument of a request.
pub open spec fn args_view(args: Seq<String>) -> Seq<Seq<char>> {
    args.map_values(|a: String| a@)
}

/// Each argument followed by a space, in order.
pub open spec fn request_text(args: Seq<Seq<char>>) -> Seq<char>
    decreases args.len(),
{
    if args.len() == 0 {
        Seq::empty()
    } else {
        request_text(args.drop_last()) + args.last() + seq![' ']
    }
}

/// The report of a response that did not parse, whose cause reads `cause`.
pub open spec fn response_error_text(request: Seq<Seq<char>>, response: Seq<char>, cause: Seq<char>) -> Seq<char> {
    "Failed to parse sidecar JSON.\n"@ + "Request: "@ + request_text(request) + "\n"@ + "Response: "@ + response + "\n"@
        + "Error: "@ + cause
}

/// The flat text of `e`, where the JSON library's cause, if any, reads `cause`.
pub open spec fn error_text(e: ZammError, cause: Seq<char>) -> Seq<char> {
    match e {
        ZammError::SidecarSpawn { expected_path, tauri_error } => "Failed to spawn sidecar at "@ + expected_path@ + ": "@
            + tauri_error@,
        ZammError::SidecarResponse { source } => response_error_text(args_view(source.request@), source.response@, cause),
        ZammError::SidecarCommandErr { line } => "Sidecar command error event: "@ + line@,
        ZammError::SidecarUnexpectedCommandEvent => "Unexpected sidecar command event"@,
        ZammError::Serde { .. } => cause,
        ZammError::Tauri { message } => message@,
    }
}

/// Relies on the `Display` impl of serde_json::Error for the error's message.
#[verifier::external_body]
fn json_error_text(e: &serde_json::Error) -> (r: String) {
    e.to_string()
}

impl SidecarResponseError {
    /// The report of this failure, with `cause` as the text of its cause.
    pub fn describe(&self, cause: &str) -> (r: String)
        ensures
            r@ == response_error_text(args_view(self.request@), self.response@, cause@),
    {
        let mut msg = String::from_str("Failed to parse sidecar JSON.\n");
        msg.append("Request: ");
        let ghost head = "Failed to parse sidecar JSON.\n"@ + "Request: "@;
        let mut i: usize = 0;
        while i < self.request.len()
            invariant
                0 <= i <= self.request@.len(),
                msg@ == head + request_text(args_view(self.request@).subrange(0, i as int)),
            decreases self.request@.len() - i,
        {
            proof {
                let a = args_view(self.request@);
                assert(a.subrange(0, i + 1).drop_last() =~= a.subrange(0, i as int));
                assert(a.subrange(0, i + 1).last() == self.request@[i as int]@);
            }
            msg.append(self.request[i].as_str());
            msg.append(" ");
            proof {
                reveal_strlit(" ");
                assert(" "@ =~= seq![' ']);
            }
            i += 1;
            proof {
                let a = args_view(self.request@);
                assert(msg@ =~= head + request_text(a.subrange(0, i as int)));
            }
        }
        proof {
            assert(args_view(self.request@).subrange(0, i as int) =~= args_view(self.request@));
        }
        msg.append("\n");
        msg.append("Response: ");
        msg.append(self.response.as_str());
        msg.append("\n");
        msg.append("Error: ");
        msg.append(cause);
        proof {
            assert(msg@ =~= response_error_text(args_view(self.request@), self.response@, cause@));
        }
        msg
    }

    /// The flat, human-readable report of this failure.
    pub fn to_display_string(&self) -> (r: String)
        ensures
            exists|cause: Seq<char>| r@ == response_error_text(args_view(self.request@), self.response@, cause),
    {
        let cause = json_error_text(&self.source);
        self.describe(cause.as_str())
    }
}

impl ZammError {
    /// The flat text of this error, with `cause` as the text of the JSON
    /// library's cause where there is one.
    pub fn describe(&self, cause: &str) -> (r: String)
        ensures
            r@ == error_text(*self, cause@),
    {
        match self {
            ZammError::SidecarSpawn { expected_path, tauri_error } => {
                let mut msg = String::from_str("Failed to spawn sidecar at ");
                msg.append(expected_path.as_str());
                msg.append(": ");
                msg.append(tauri_error.as_str());
                msg
            },
            ZammError::SidecarResponse { source } => source.describe(cause),
            ZammError::SidecarCommandErr { line } => {
                let mut msg = String::from_str("Sidecar command error event: ");
                msg.append(line.as_str());
                msg
            },
            ZammError::SidecarUnexpectedCommandEvent => String::from_str("Unexpected sidecar command event"),
            ZammError::Serde { .. } => String::from_str(cause),
            ZammError::Tauri { message } => message.clone(),
        }
    }

    /// The flat, human-readable text of this error, for display at the
    /// boundary to the user.
    pub fn to_display_string(&self) -> (r: String)
        ensures
            exists|cause: Seq<char>| r@ == error_text(*self, cause),
    {
        match self {
            ZammError::SidecarResponse { source } => self.describe(json_error_text(&source.source).as_str()),
            ZammError::Serde { source } => self.describe(json_error_text(source).as_str()),
            _ => self.describe(""),
        }
    }
}

} // verus!
