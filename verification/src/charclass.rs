//! Character classes that the loader-script templates distinguish.

use vstd::prelude::*;

verus! {

/// Whether `c` is a whitespace character: one with the Unicode property
/// `White_Space`.
pub open spec fn is_space(c: char) -> bool {
    let n = c as u32;
    (0x09 <= n <= 0x0D) || n == 0x20 || n == 0x85 || n == 0xA0 || n == 0x1680 || (0x2000 <= n
        <= 0x200A) || n == 0x2028 || n == 0x2029 || n == 0x202F || n == 0x205F || n == 0x3000
}

/// Whether `c` may occur in the value of a placeholder: an ASCII letter, an
/// ASCII digit or an underscore.
pub open spec fn is_ident(c: char) -> bool {
    ('A' <= c <= 'Z') || ('a' <= c <= 'z') || ('0' <= c <= '9') || c == '_'
}

/// Tests a character for whitespace.
pub fn space(c: char) -> (r: bool)
    ensures
        r == is_space(c),
{
    let n: u32 = c as u32;
    (0x09 <= n && n <= 0x0D) || n == 0x20 || n == 0x85 || n == 0xA0 || n == 0x1680 || (0x2000 <= n
        && n <= 0x200A) || n == 0x2028 || n == 0x2029 || n == 0x202F || n == 0x205F || n == 0x3000
}

/// Tests a character for membership in the placeholder alphabet.
pub fn ident(c: char) -> (r: bool)
    ensures
        r == is_ident(c),
{
    ('A' <= c && c <= 'Z') || ('a' <= c && c <= 'z') || ('0' <= c && c <= '9') || c == '_'
}

/// No character is both whitespace and part of the placeholder alphabet.
pub proof fn lemma_space_not_ident(c: char)
    ensures
        !(is_space(c) && is_ident(c)),
{
}

} // verus!
