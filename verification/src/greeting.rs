//! The greeting formatter: wraps a caller-supplied name in a fixed
//! salutation and suffix.

use vstd::prelude::*;
use vstd::string::StringExecFns;

verus! {

/// The exact text of the greeting built around `name`.
pub open spec fn greeting_of(name: Seq<char>) -> Seq<char> {
    "Hello, "@ + name + " from Rust + WASM! (Auto-rebuilt!)"@
}

/// Returns the greeting text around `name`, character for character.
pub fn greet(name: &str) -> (r: String)
    ensures
        r@ == greeting_of(name@),
{
    let mut r: String = "Hello, ".to_owned();
    r.append(name);
    r.append(" from Rust + WASM! (Auto-rebuilt!)");
    r
}

} // verus!
