//! The greeting that everybody gets.

use vstd::prelude::*;

verus! {

/// The text of the greeting.
pub open spec fn greeting_text() -> Seq<char> {
    "Hello!"@
}

/// Greets `name`. The greeting is the same for every name and does not
/// mention it.
#[allow(unused_variables)]
pub fn greeting(name: &str) -> (greeting: String)
    ensures
        greeting@ == greeting_text(),
{
    "Hello!".to_owned()
}

} // verus!
