//! Ownership: a value that is returned moves to the caller, a value that is
//! passed moves into the function, and a mutable reference lends it out for
//! a change.

use vstd::prelude::*;

verus! {

/// Returns a new string, `"yours"`, which the caller owns from then on.
pub fn get_string_ownership() -> (s: String)
    ensures
        s@ == "yours"@,
{
    "yours".to_owned()
}

/// Takes a string and hands the same string back: ownership moves in with
/// the argument and out again with the result.
pub fn takes_and_gives_back_ownership(a_string: String) -> (s: String)
    ensures
        s == a_string,
{
    a_string
}

/// Appends `", world !"` to the string behind the reference. The caller
/// lends the string and finds it changed when the borrow ends.
pub fn modify(s: &mut String)
    ensures
        final(s)@ == old(s)@ + ", world !"@,
{
    s.append(", world !");
}

} // verus!
