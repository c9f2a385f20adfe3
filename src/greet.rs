use vstd::prelude::*;
use vstd::string::*;

use crate::api::{process, process_spec, SidecarExecutor};
use crate::errors::{ZammError, ZammResult};
use crate::json::greet_args_json;
use crate::python_api::{GreetArgs, GreetResponse};

verus! {

/// The greeting handed back to the user: the worker's greeting, marked as
/// having come through the host.
pub open spec fn via_rust(greeting: Seq<char>) -> Seq<char> {
    greeting + " via Rust"@
}

/// What the greet command returns once the worker call gave `r0`.
pub open spec fn greeted_spec(r0: ZammResult<GreetResponse>, r: ZammResult<String>) -> bool {
    match r0 {
        Ok(g) => r matches Ok(s) && s@ == via_rust(g.greeting@),
        Err(e) => r matches Err(x) && x == e,
    }
}

/// Appends the host's mark to a greeting.
pub fn greeting_via_rust(greeting: &str) -> (r: String)
    ensures
        r@ == via_rust(greeting@),
{
    let mut out = String::from_str(greeting);
    out.append(" via Rust");
    out
}

/// Asks the worker `zamm-python` to greet `name`, decoding its answer with
/// `decode`, and marks the greeting as having come through the host.
pub fn greet_helper<E: SidecarExecutor, D: Fn(&String) -> Result<GreetResponse, serde_json::Error>>(
    t: &mut E,
    name: &str,
    decode: &D,
) -> (r: ZammResult<String>)
    requires
        forall|x: &String| decode.requires((x,)),
    ensures
        exists|r0: ZammResult<GreetResponse>|
            process_spec(
                *old(t),
                *final(t),
                "zamm-python"@,
                "greet"@,
                Ok::<Seq<char>, serde_json::Error>(greet_args_json(name@)),
                *decode,
                r0,
            ) && greeted_spec(r0, r),
{
    let args = GreetArgs { name: String::from_str(name) };
    let result = process(t, "zamm-python", "greet", &args, decode);
    let ghost r0 = result;
    let r = match result {
        Ok(response) => Ok(greeting_via_rust(response.greeting.as_str())),
        Err(e) => Err(e),
    };
    assert(greeted_spec(r0, r));
    r
}

} // verus!
