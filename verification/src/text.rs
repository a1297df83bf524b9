//! The texts the service answers with.

use vstd::prelude::*;

verus! {

/// The greeting addressed to `who`: `Hello `, then `who`, then `!`.
pub open spec fn greeting(who: Seq<char>) -> Seq<char> {
    "Hello "@ + who + "!"@
}

/// The fixed text that confirms a change of name.
pub open spec fn acknowledgement() -> Seq<char> {
    "Nice name!"@
}

/// The name held until one is set.
pub open spec fn initial_name() -> Seq<char> {
    "Unknown"@
}

/// Builds the greeting addressed to `who`. Any text is greeted as it is, the
/// empty one too.
pub fn greet(who: &str) -> (text: String)
    ensures
        text@ == greeting(who@),
{
    let mut text = "Hello ".to_owned();
    text.append(who);
    text.append("!");
    text
}

/// Builds the text that confirms a change of name.
pub fn acknowledge() -> (text: String)
    ensures
        text@ == acknowledgement(),
{
    "Nice name!".to_owned()
}

/// Builds the name held until one is set.
pub fn unknown() -> (name: String)
    ensures
        name@ == initial_name(),
{
    "Unknown".to_owned()
}

} // verus!
