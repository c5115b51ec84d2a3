//! Small value-level utilities: arithmetic, ownership hand-off, and string
//! measurements.

use vstd::prelude::*;
use vstd::utf8::encode_utf8;

verus! {

/// Adds two numbers; the inputs must not overflow a machine integer.
pub fn adder(a: i32, b: i32) -> (r: i32)
    requires
        i32::MIN <= a + b <= i32::MAX,
    ensures
        r == a + b,
{
    a + b
}

/// Hands its argument back to the caller, moving ownership out.
pub fn gives_ownership(a_string: String) -> (r: String)
    ensures
        r == a_string,
{
    a_string
}

/// The length in bytes of a borrowed string.
pub fn borrow_and_len(s: &String) -> (r: usize)
    ensures
        r == encode_utf8(s@).len(),
{
    s.as_str().as_bytes().len()
}

/// The length in bytes of an owned string, consuming it.
pub fn length_of_string(s: String) -> (r: usize)
    ensures
        r == encode_utf8(s@).len(),
{
    s.as_str().as_bytes().len()
}

/// Appends `", world"` to the borrowed string in place.
pub fn change_ref(some_string: &mut String)
    ensures
        final(some_string)@ == old(some_string)@ + ", world"@,
{
    some_string.append(", world");
}

/// The byte length of the first word of `s`: the index of the first space
/// byte, or the whole byte length when `s` has no space.
pub fn first_word_len(s: &String) -> (r: usize)
    ensures
        r <= encode_utf8(s@).len(),
        forall|j: int| 0 <= j < r ==> encode_utf8(s@)[j] != 32,
        r < encode_utf8(s@).len() ==> encode_utf8(s@)[r as int] == 32,
{
    let bytes = s.as_str().as_bytes();
    let n = bytes.len();
    let mut i: usize = 0;
    while i < n
        invariant
            i <= n,
            n == bytes@.len(),
            bytes@ == encode_utf8(s@),
            forall|j: int| 0 <= j < i ==> bytes@[j] != 32,
        decreases n - i,
    {
        if bytes[i] == 32u8 {
            return i;
        }
        i = i + 1;
    }
    n
}

/// The longer of two strings, measured in bytes; ties go to the second.
pub fn longest<'a>(x: &'a str, y: &'a str) -> (r: &'a str)
    ensures
        encode_utf8(x@).len() > encode_utf8(y@).len() ==> r@ == x@,
        encode_utf8(x@).len() <= encode_utf8(y@).len() ==> r@ == y@,
{
    if x.as_bytes().len() > y.as_bytes().len() {
        x
    } else {
        y
    }
}

} // verus!
