//! The front end's connectivity check.

use vstd::prelude::*;
use vstd::string::*;

verus! {

/// The greeting sent back to a caller named `name`.
pub open spec fn greeting_spec(name: Seq<char>) -> Seq<char> {
    "Hello, "@ + name + "! You've been greeted from Rust!"@
}

/// Greets `name`.
pub fn greet(name: &str) -> (r: String)
    ensures
        r@ == greeting_spec(name@),
{
    let mut r = String::from_str("Hello, ");
    r.append(name);
    r.append("! You've been greeted from Rust!");
    r
}

} // verus!
