use vstd::prelude::*;

verus! {

/// One message of a conversation with a language model.
#[derive(Clone, Debug)]
pub struct ChatMessage {
    pub message: String,
    pub role: String,
}

/// The input of the worker's `greet` command.
#[derive(Clone, Debug)]
pub struct GreetArgs {
    pub name: String,
}

/// The output of the worker's `greet` command.
#[derive(Clone, Debug)]
pub struct GreetResponse {
    pub greeting: String,
}

} // verus!
