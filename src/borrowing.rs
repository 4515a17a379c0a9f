//! Functions that read through shared references and write through exclusive ones.

use vstd::prelude::*;
use vstd::utf8::encode_utf8;

verus! {

/// The length of a text in bytes, in its UTF-8 encoding.
pub open spec fn byte_len(s: Seq<char>) -> nat {
    encode_utf8(s).len()
}

/// Returns the length of `s` in bytes, borrowing it without taking ownership.
pub fn calculate_length(s: &String) -> (r: usize)
    ensures
        r == byte_len(s@) as usize,
{
    s.as_str().len()
}

/// Appends `", world"` to the string behind the exclusive reference.
pub fn change(some_string: &mut String)
    ensures
        final(some_string)@ == old(some_string)@ + ", world"@,
{
    some_string.append(", world");
}

/// Returns `x` when it is strictly longer than `y` in bytes, and `y` otherwise
/// (a tie goes to `y`); the result lives as long as both arguments.
pub fn longest<'a>(x: &'a str, y: &'a str) -> (r: &'a str)
    ensures
        r == (if x.len() > y.len() {
            x
        } else {
            y
        }),
{
    if x.len() > y.len() {
        x
    } else {
        y
    }
}

} // verus!
