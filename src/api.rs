use vstd::prelude::*;
use vstd::string::*;

use crate::errors::{args_view, SidecarResponseError, ZammError, ZammResult};
use crate::json::ToJson;
use crate::path::{relative_command_path, resolved_spec, Platform};

verus! {

/// The capability to run a worker: spawn `command` with `args`, drain its
/// events and hand back its output or a structured failure.
pub trait SidecarExecutor: Sized {
    /// Whether one run of `command` with `args` may leave this executor as
    /// `after` and answer `r`. An executor that states nothing may do
    /// anything.
    open spec fn executes(&self, after: Self, command: Seq<char>, args: Seq<Seq<char>>, r: ZammResult<String>) -> bool {
        true
    }

    fn execute(&mut self, command: &str, args: &Vec<String>) -> (r: ZammResult<String>)
        ensures
            old(self).executes(*final(self), command@, args_view(args@), r),
    ;
}

/// A stand-in executor with one canned answer, which records every call.
pub struct MockSidecarExecutor {
    pub response: Option<ZammResult<String>>,
    pub calls: Vec<(String, Vec<String>)>,
}

impl MockSidecarExecutor {
    /// A stand-in that answers its first call with `response`.
    pub fn new(response: ZammResult<String>) -> (r: MockSidecarExecutor)
        ensures
            r.response == Some(response),
            r.calls@.len() == 0,
    {
        MockSidecarExecutor { response: Some(response), calls: Vec::new() }
    }
}

impl SidecarExecutor for MockSidecarExecutor {
    /// The canned answer is given once, and the call is recorded.
    open spec fn executes(&self, after: Self, command: Seq<char>, args: Seq<Seq<char>>, r: ZammResult<String>) -> bool {
        &&& after.calls@ == self.calls@.push(after.calls@.last())
        &&& after.calls@.last().0@ == command
        &&& args_view(after.calls@.last().1@) == args
        &&& after.response is None
        &&& match self.response {
            Some(canned) => r == canned,
            None => r matches Err(ZammError::Tauri { .. }),
        }
    }

    fn execute(&mut self, command: &str, args: &Vec<String>) -> (r: ZammResult<String>) {
        let call = (String::from_str(command), args.clone());
        self.calls.push(call);
        match self.response.take() {
            Some(canned) => canned,
            None => Err(ZammError::Tauri { message: String::from_str("no canned response left") }),
        }
    }
}

/// The arguments of one invocation: the command name, then the JSON input.
pub fn sidecar_args(command: &str, input_json: &str) -> (r: Vec<String>)
    ensures
        args_view(r@) == seq![command@, input_json@],
{
    let mut args: Vec<String> = Vec::new();
    args.push(String::from_str(command));
    args.push(String::from_str(input_json));
    proof {
        assert(args_view(args@) =~= seq![command@, input_json@]);
    }
    args
}

/// Whether `path` can come out of resolving the worker `binary`.
pub open spec fn path_resolved(path: Result<String, ZammError>, binary: Seq<char>) -> bool {
    exists|exe_dir: Result<Option<String>, String>, platform: Platform|
        resolved_spec(exe_dir, binary, platform, path)
}

/// The failure reported for a response that did not parse, given how the
/// worker's path resolved: the full request and the raw response, or the
/// resolution's own failure.
pub open spec fn parse_failure_spec(
    path: Result<String, ZammError>,
    command: Seq<char>,
    input_json: Seq<char>,
    raw: String,
    cause: serde_json::Error,
    e: ZammError,
) -> bool {
    match path {
        Ok(p) => e matches ZammError::SidecarResponse { source }
            && args_view(source.request@) == seq![p@, command, input_json]
            && source.response == raw
            && source.source == cause,
        Err(pe) => e == pe,
    }
}

/// Builds the postmortem of a response that did not parse.
pub fn response_error(
    path: Result<String, ZammError>,
    command: &str,
    input_json: String,
    raw: String,
    cause: serde_json::Error,
) -> (e: ZammError)
    ensures
        parse_failure_spec(path, command@, input_json@, raw, cause, e),
{
    match path {
        Ok(p) => {
            let ghost pv = p@;
            let ghost jv = input_json@;
            let mut request: Vec<String> = Vec::new();
            request.push(p);
            request.push(String::from_str(command));
            request.push(input_json);
            proof {
                assert(args_view(request@) =~= seq![pv, command@, jv]);
            }
            ZammError::SidecarResponse {
                source: SidecarResponseError { request, response: raw, source: cause },
            }
        },
        Err(pe) => pe,
    }
}

/// The result of an invocation once the worker's text `raw` was decoded as
/// `decoded`.
pub open spec fn decoded_spec<U>(
    decoded: Result<U, serde_json::Error>,
    binary: Seq<char>,
    command: Seq<char>,
    input_json: Seq<char>,
    raw: String,
    r: ZammResult<U>,
) -> bool {
    match decoded {
        Ok(v) => r matches Ok(x) && x == v,
        Err(cause) => r matches Err(e) && exists|path: Result<String, ZammError>|
            path_resolved(path, binary) && parse_failure_spec(path, command, input_json, raw, cause, e),
    }
}

/// The result of an invocation whose executor answered `executed`.
pub open spec fn executed_spec<U, D: Fn(&String) -> Result<U, serde_json::Error>>(
    executed: ZammResult<String>,
    decode: D,
    binary: Seq<char>,
    command: Seq<char>,
    input_json: Seq<char>,
    r: ZammResult<U>,
) -> bool {
    match executed {
        Ok(raw) => exists|decoded: Result<U, serde_json::Error>|
            decode.ensures((&raw,), decoded) && decoded_spec(decoded, binary, command, input_json, raw, r),
        Err(e) => r matches Err(x) && x == e,
    }
}

/// Decodes the worker's answer `raw`; where it does not decode, reports the
/// request and the answer as they were.
pub fn parse_response<U, D: Fn(&String) -> Result<U, serde_json::Error>>(
    binary: &str,
    command: &str,
    input_json: String,
    raw: String,
    decode: &D,
) -> (r: ZammResult<U>)
    requires
        decode.requires((&raw,)),
    ensures
        exists|decoded: Result<U, serde_json::Error>|
            decode.ensures((&raw,), decoded) && decoded_spec(decoded, binary@, command@, input_json@, raw, r),
{
    let decoded = decode(&raw);
    let ghost d = decoded;
    match decoded {
        Ok(v) => {
            let r = Ok(v);
            assert(decode.ensures((&raw,), d) && decoded_spec(d, binary@, command@, input_json@, raw, r));
            r
        },
        Err(cause) => {
            let ghost jv = input_json@;
            let ghost rawv = raw;
            let ghost c = cause;
            let path = relative_command_path(binary);
            let ghost pathv = path;
            let e = response_error(path, command, input_json, raw, cause);
            proof {
                assert(path_resolved(pathv, binary@));
                assert(parse_failure_spec(pathv, command@, jv, rawv, c, e));
                assert(decoded_spec(d, binary@, command@, jv, rawv, Err::<U, ZammError>(e)));
            }
            Err(e)
        },
    }
}

/// The outcome of invoking `command` of the worker `binary` with an input
/// whose encoding came out as `encoded`, on an executor that went from `s`
/// to `after`: a failed encoding is returned with its cause and runs
/// nothing; otherwise the worker runs once, with `[command, json]`.
pub open spec fn process_spec<E: SidecarExecutor, U, D: Fn(&String) -> Result<U, serde_json::Error>>(
    s: E,
    after: E,
    binary: Seq<char>,
    command: Seq<char>,
    encoded: Result<Seq<char>, serde_json::Error>,
    decode: D,
    r: ZammResult<U>,
) -> bool {
    if encoded is Err {
        after == s && (r matches Err(ZammError::Serde { source }) && source == encoded->Err_0)
    } else {
        exists|executed: ZammResult<String>|
            s.executes(after, binary, seq![command, encoded->Ok_0], executed)
                && #[trigger] executed_spec(executed, decode, binary, command, encoded->Ok_0, r)
    }
}

/// Invokes `command` of the worker `binary` as a typed call: encodes `input`
/// as JSON, runs the worker with the arguments `[command, json]` and decodes
/// its output with `decode`. One spawn, one drain, one parse.
pub fn process<E: SidecarExecutor, T: ToJson, U, D: Fn(&String) -> Result<U, serde_json::Error>>(
    s: &mut E,
    binary: &str,
    command: &str,
    input: &T,
    decode: &D,
) -> (r: ZammResult<U>)
    requires
        forall|t: &String| decode.requires((t,)),
    ensures
        process_spec(*old(s), *final(s), binary@, command@, input.json_spec(), *decode, r),
{
    let input_json = match input.to_json() {
        Ok(j) => j,
        Err(source) => {
            return Err(ZammError::Serde { source });
        },
    };
    let args = sidecar_args(command, input_json.as_str());
    let ghost jv = input_json@;
    let ghost s0 = *old(s);
    let executed = s.execute(binary, &args);
    let ghost ex = executed;
    let ghost s1 = *s;
    assert(s0.executes(s1, binary@, args_view(args@), ex));
    let r = match executed {
        Ok(raw) => parse_response(binary, command, input_json, raw, decode),
        Err(e) => Err(e),
    };
    proof {
        assert(executed_spec(ex, *decode, binary@, command@, jv, r));
        assert(s0.executes(s1, binary@, seq![command@, jv], ex));
        let enc = input.json_spec();
        assert(enc is Ok);
        assert(enc->Ok_0 == jv);
        assert(seq![command@, enc->Ok_0] == seq![command@, jv]);
        assert(s0.executes(s1, binary@, seq![command@, enc->Ok_0], ex));
        assert(executed_spec(ex, *decode, binary@, command@, enc->Ok_0, r));
        assert(process_spec(s0, s1, binary@, command@, enc, *decode, r));
    }
    r
}

} // verus!

verus! {

/// Whether every run of `command` with `args` on `s` answers `raw`.
pub open spec fn only_answer<E: SidecarExecutor>(s: E, command: Seq<char>, args: Seq<Seq<char>>, raw: String) -> bool {
    forall|a: E, x: ZammResult<String>| #[trigger] s.executes(a, command, args, x) ==> x == Ok::<String, ZammError>(raw)
}

/// Round trip: when the executor's only answer to `[command, json]` is the
/// text `raw`, and `raw` decodes to exactly `v`, an invocation whose input
/// encoded as `json` returns `v` itself.
pub proof fn lemma_round_trip<E: SidecarExecutor, U, D: Fn(&String) -> Result<U, serde_json::Error>>(
    s: E,
    after: E,
    binary: Seq<char>,
    command: Seq<char>,
    input_json: Seq<char>,
    raw: String,
    decode: D,
    v: U,
    r: ZammResult<U>,
)
    requires
        only_answer(s, binary, seq![command, input_json], raw),
        forall|d: Result<U, serde_json::Error>| decode.ensures((&raw,), d) ==> d == Ok::<U, serde_json::Error>(v),
        process_spec(s, after, binary, command, Ok::<Seq<char>, serde_json::Error>(input_json), decode, r),
    ensures
        r matches Ok(x) && x == v,
{
    let executed = choose|executed: ZammResult<String>|
        s.executes(after, binary, seq![command, input_json], executed)
            && executed_spec(executed, decode, binary, command, input_json, r);
    assert(executed == Ok::<String, ZammError>(raw));
}

/// Parse-failure fidelity: when the executor's only answer is `raw` and `raw`
/// does not decode, an invocation whose input encoded as `json` fails with the
/// postmortem of the request, whose command and JSON input are those sent and
/// whose response is `raw` unaltered, unless the worker's path itself failed
/// to resolve, whose error is then returned as it is.
pub proof fn lemma_parse_failure_fidelity<E: SidecarExecutor, U, D: Fn(&String) -> Result<U, serde_json::Error>>(
    s: E,
    after: E,
    binary: Seq<char>,
    command: Seq<char>,
    input_json: Seq<char>,
    raw: String,
    decode: D,
    r: ZammResult<U>,
)
    requires
        only_answer(s, binary, seq![command, input_json], raw),
        forall|d: Result<U, serde_json::Error>| decode.ensures((&raw,), d) ==> d is Err,
        process_spec(s, after, binary, command, Ok::<Seq<char>, serde_json::Error>(input_json), decode, r),
    ensures
        r matches Err(e) && (e is SidecarResponse || e is Tauri),
        r matches Err(ZammError::SidecarResponse { source }) ==> {
            &&& source.response == raw
            &&& source.request@.len() == 3
            &&& source.request@[1]@ == command
            &&& source.request@[2]@ == input_json
        },
{
    let executed = choose|executed: ZammResult<String>|
        s.executes(after, binary, seq![command, input_json], executed)
            && executed_spec(executed, decode, binary, command, input_json, r);
    assert(executed == Ok::<String, ZammError>(raw));
    let decoded = choose|decoded: Result<U, serde_json::Error>|
        decode.ensures((&raw,), decoded) && decoded_spec(decoded, binary, command, input_json, raw, r);
    assert(decoded is Err);
    let e = r->Err_0;
    let path = choose|path: Result<String, ZammError>|
        path_resolved(path, binary) && parse_failure_spec(path, command, input_json, raw, decoded->Err_0, e);
    let (exe_dir, platform) = choose|exe_dir: Result<Option<String>, String>, platform: Platform|
        resolved_spec(exe_dir, binary, platform, path);
    if let ZammError::SidecarResponse { source } = e {
        if path is Ok {
            assert(args_view(source.request@) == seq![path->Ok_0@, command, input_json]);
            assert(args_view(source.request@)[1] == source.request@[1]@);
            assert(args_view(source.request@)[2] == source.request@[2]@);
        }
    }
}

} // verus!
