use vstd::prelude::*;
use vstd::string::*;

verus! {

/// The greeting the UI shows for a given name: a fixed salutation around
/// the name, verbatim.
pub open spec fn greeting_message(name: Seq<char>) -> Seq<char> {
    "你好, "@ + name + "! 欢迎使用 Tauri 2.0!"@
}

/// Builds the greeting for a name.
pub fn greet(name: &str) -> (r: String)
    ensures
        r@ == greeting_message(name@),
{
    let mut r = String::from_str("你好, ");
    r.append(name);
    r.append("! 欢迎使用 Tauri 2.0!");
    r
}

} // verus!
