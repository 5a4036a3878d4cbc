//! Answers to the frontend: the envelope of a result or an error, and the
//! script that posts it.
use vstd::prelude::*;
use vstd::string::StringExecFns;

verus! {

/// A call as the frontend sends it.
#[derive(Debug, Clone)]
pub struct IpcRequest {
    pub id: i32,
    pub event: String,
    pub payload: Option<String>,
}

/// The answer to a call: the call's number and the result.
#[derive(Debug, Clone)]
pub struct IpcResponse<T> {
    pub id: i32,
    pub result: T,
}

/// The answer to a call that failed: the call's number and what went wrong.
#[derive(Debug, Clone)]
pub struct IpcError {
    pub id: i32,
    pub error: String,
}

/// The script that posts a message, given as JSON text, to the frontend.
pub open spec fn post_message_script(json: Seq<char>) -> Seq<char> {
    "window.postMessage("@ + json + ")"@
}

/// Builds the script that posts a message to the frontend.
pub fn build_post_message_script(json: &str) -> (script: String)
    ensures
        script@ == post_message_script(json@),
{
    let mut script = String::from_str("window.postMessage(");
    script.append(json);
    script.append(")");
    script
}

} // verus!
