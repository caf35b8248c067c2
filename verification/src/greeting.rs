//! The greeting the shell answers a visitor with.

use vstd::prelude::*;
use vstd::string::*;

verus! {

/// The greeting for `name`.
pub open spec fn spec_greet(name: Seq<char>) -> Seq<char> {
    "Hello, "@ + name + "! You've been greeted from Rust!"@
}

/// Greets `name`.
pub fn greet(name: &str) -> (greeting: String)
    ensures
        greeting@ == spec_greet(name@),
{
    let mut greeting = "Hello, ".to_owned();
    greeting.append(name);
    greeting.append("! You've been greeted from Rust!");
    greeting
}

} // verus!
