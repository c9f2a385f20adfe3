use vstd::prelude::*;
use vstd::string::*;

use crate::python_api::GreetArgs;

verus! {

/// The lower-case hexadecimal digits, by value.
pub open spec fn hex_digits() -> Seq<char> {
    seq!['0', '1', '2', '3', '4', '5', '6', '7', '8', '9', 'a', 'b', 'c', 'd', 'e', 'f']
}

/// How one character appears inside a JSON string: the quote and the
/// backslash escaped, the usual short escapes for backspace, tab, line feed,
/// form feed and carriage return, `\u00XX` for the other control characters,
/// and every other character as it is.
pub open spec fn json_escape_char(c: char) -> Seq<char> {
    if c == '"' {
        seq!['\\', '"']
    } else if c == '\\' {
        seq!['\\', '\\']
    } else if c == '\u{8}' {
        seq!['\\', 'b']
    } else if c == '\t' {
        seq!['\\', 't']
    } else if c == '\n' {
        seq!['\\', 'n']
    } else if c == '\u{c}' {
        seq!['\\', 'f']
    } else if c == '\r' {
        seq!['\\', 'r']
    } else if (c as u32) < 0x20 {
        seq!['\\', 'u', '0', '0', hex_digits()[((c as u32) / 16) as int], hex_digits()[((c as u32) % 16) as int]]
    } else {
        seq![c]
    }
}

/// Each character of `s` as it appears inside a JSON string.
pub open spec fn json_escaped(s: Seq<char>) -> Seq<char>
    decreases s.len(),
{
    if s.len() == 0 {
        Seq::empty()
    } else {
        json_escaped(s.drop_last()) + json_escape_char(s.last())
    }
}

/// The JSON text of a string value: quoted and escaped.
pub open spec fn json_string_literal(s: Seq<char>) -> Seq<char> {
    seq!['"'] + json_escaped(s) + seq!['"']
}

/// Relies on serde_json::to_string applied to a `str`: it writes the quoted,
/// escaped string into a `Vec`, which cannot fail.
#[verifier::external_body]
fn json_quote(s: &str) -> (r: Result<String, serde_json::Error>)
    ensures
        r is Ok,
        r->Ok_0@ == json_string_literal(s@),
{
    serde_json::to_string(s)
}

/// A value that can be sent to the worker as a JSON document.
pub trait ToJson {
    /// The outcome of encoding this value: its JSON text, or why it has none.
    spec fn json_spec(&self) -> Result<Seq<char>, serde_json::Error>;

    /// Encodes this value, with exactly the outcome `json_spec`.
    fn to_json(&self) -> (r: Result<String, serde_json::Error>)
        ensures
            match r {
                Ok(j) => self.json_spec() == Ok::<Seq<char>, serde_json::Error>(j@),
                Err(e) => self.json_spec() == Err::<Seq<char>, serde_json::Error>(e),
            },
    ;
}

/// The JSON object with the single field `name` holding `name`.
pub open spec fn greet_args_json(name: Seq<char>) -> Seq<char> {
    seq!['{', '"', 'n', 'a', 'm', 'e', '"', ':'] + json_string_literal(name) + seq!['}']
}

impl ToJson for GreetArgs {
    open spec fn json_spec(&self) -> Result<Seq<char>, serde_json::Error> {
        Ok(greet_args_json(self.name@))
    }

    fn to_json(&self) -> (r: Result<String, serde_json::Error>) {
        let quoted = json_quote(self.name.as_str());
        match quoted {
            Ok(q) => {
                let mut out = String::from_str("{\"name\":");
                out.append(q.as_str());
                out.append("}");
                proof {
                    reveal_strlit("{\"name\":");
                    reveal_strlit("}");
                    assert(out@ =~= greet_args_json(self.name@));
                }
                Ok(out)
            },
            Err(e) => Err(e),
        }
    }
}

} // verus!
