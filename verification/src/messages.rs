use vstd::prelude::*;
use vstd::string::*;

verus! {

/// What start answers once its spawn succeeded and the server had time to
/// boot: a success line naming the endpoint the server listens on.
pub open spec fn started_message() -> Seq<char> {
    "Next.js server started on "@ + crate::proxy::base_url()
}

/// What start answers when the slot already holds, or is about to hold, a
/// process: still a success, just informational.
pub open spec fn already_running_message() -> Seq<char> {
    "Next.js server is already running"@
}

/// What stop answers once the kill request went through.
pub open spec fn stopped_message() -> Seq<char> {
    "Next.js server stopped"@
}

/// What stop answers when the slot was empty.
pub open spec fn not_running_message() -> Seq<char> {
    "Next.js server is not running"@
}

/// The start failure line when the runtime could not build the sidecar
/// command, around the underlying cause.
pub open spec fn command_error_message(cause: Seq<char>) -> Seq<char> {
    "Failed to create sidecar command: "@ + cause
}

/// The start failure line when the spawn itself failed, around the
/// underlying cause.
pub open spec fn spawn_error_message(cause: Seq<char>) -> Seq<char> {
    "Failed to spawn sidecar: "@ + cause
}

/// The stop failure line when the kill request failed, around the
/// underlying cause.
pub open spec fn kill_error_message(cause: Seq<char>) -> Seq<char> {
    "Failed to kill sidecar: "@ + cause
}

/// Builds the start success line; it names the fixed endpoint exactly.
pub fn started_text() -> (r: String)
    ensures
        r@ == started_message(),
{
    let mut r = String::from_str("Next.js server started on ");
    r.append("http://localhost:3001");
    r
}

/// start's answer for an occupied slot: success with the informational line.
pub fn already_running_result() -> (r: Result<String, String>)
    ensures
        r matches Ok(s) && s@ == already_running_message(),
{
    Ok(String::from_str("Next.js server is already running"))
}

/// stop's answer for an empty slot: the not-running failure.
pub fn not_running_result() -> (r: Result<String, String>)
    ensures
        r matches Err(s) && s@ == not_running_message(),
{
    Err(String::from_str("Next.js server is not running"))
}

/// stop's answer once the kill attempt came back: success reports the stop,
/// failure wraps the cause in the kill error line.
pub fn stop_result(kill_outcome: Result<(), String>) -> (r: Result<String, String>)
    ensures
        kill_outcome is Ok ==> (r matches Ok(s) && s@ == stopped_message()),
        kill_outcome matches Err(c) ==> (r matches Err(s) && s@ == kill_error_message(c@)),
{
    match kill_outcome {
        Ok(()) => Ok(String::from_str("Next.js server stopped")),
        Err(c) => {
            let mut m = String::from_str("Failed to kill sidecar: ");
            m.append(c.as_str());
            Err(m)
        },
    }
}

/// Wraps a cause in the command creation error line.
pub fn command_error_text(cause: &str) -> (r: String)
    ensures
        r@ == command_error_message(cause@),
{
    let mut m = String::from_str("Failed to create sidecar command: ");
    m.append(cause);
    m
}

/// Wraps a cause in the spawn error line.
pub fn spawn_error_text(cause: &str) -> (r: String)
    ensures
        r@ == spawn_error_message(cause@),
{
    let mut m = String::from_str("Failed to spawn sidecar: ");
    m.append(cause);
    m
}

} // verus!
