//! The one computable command of the native window shell: a fixed greeting
//! around a given name. Showing the window itself is plain window-system
//! work and lives outside the library.

use vstd::prelude::*;
use vstd::string::StringExecFns;

verus! {

/// The greeting shown for `name`: a fixed opening, the name, a fixed
/// closing, nothing else.
pub fn greet(name: &str) -> (r: String)
    ensures
        r@ == "<strong>Hello, "@ + name@ + "! You've been greeted from Rust!</strong>"@,
{
    let mut s: String = "<strong>Hello, ".to_owned();
    s.append(name);
    s.append("! You've been greeted from Rust!</strong>");
    proof {
        assert(s@ =~= "<strong>Hello, "@ + name@ + "! You've been greeted from Rust!</strong>"@);
    }
    s
}

} // verus!
