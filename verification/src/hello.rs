//! Greetings.

use vstd::prelude::*;
use vstd::string::StringExecFns;

verus! {

/// The greeting of `name`.
pub open spec fn greeting(name: Seq<char>) -> Seq<char> {
    "Hello, "@ + name + "!"@
}

/// The greeting of the world.
pub fn say_hello() -> (s: String)
    ensures
        s@ == "Hello, World!"@,
{
    String::from_str("Hello, World!")
}

/// The greeting of `name`.
pub fn say_hello_to(name: &str) -> (s: String)
    ensures
        s@ == greeting(name@),
{
    let mut s = String::from_str("Hello, ");
    s.append(name);
    s.append("!");
    s
}

} // verus!
