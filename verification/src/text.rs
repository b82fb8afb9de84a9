//! Conversions between strings and sequences of characters.

use vstd::prelude::*;

verus! {

/// The character of `s` at position `i`, or a blank where `s` is too short.
pub open spec fn at(s: Seq<char>, i: int) -> char {
    if 0 <= i < s.len() {
        s[i]
    } else {
        ' '
    }
}

/// A few features of `s` that tell short names apart: its length, and its
/// characters at the positions 0, 1, 3 and 5.
pub open spec fn mark(s: Seq<char>) -> (int, char, char, char, char) {
    (s.len() as int, at(s, 0), at(s, 1), at(s, 3), at(s, 5))
}

/// The characters of `s`, in order.
pub fn chars_of(s: &str) -> (r: Vec<char>)
    ensures
        r@ == s@,
{
    let mut r: Vec<char> = Vec::new();
    for c in it: s.chars()
        invariant
            r@ == it.seq().take(it.index()),
            it.seq() == s@,
    {
        r.push(c);
    }
    r
}

/// Whether the characters `a` spell exactly the string `b`.
pub fn spells(a: &[char], b: &str) -> (r: bool)
    ensures
        r == (a@ == b@),
{
    let mut i: usize = 0;
    for c in it: b.chars()
        invariant
            i == it.index(),
            i <= a@.len(),
            it.seq() == b@,
            a@.take(i as int) == b@.take(i as int),
    {
        if i >= a.len() || a[i] != c {
            assert(a@ != b@) by {
                if a@ == b@ {
                    assert(a@[i as int] == b@[i as int]);
                }
            }
            return false;
        }
        assert(a@.take(i + 1) == a@.take(i as int).push(a@[i as int]));
        assert(b@.take(i + 1) == b@.take(i as int).push(b@[i as int]));
        i += 1;
    }
    assert(b@.take(i as int) == b@);
    if i == a.len() {
        assert(a@.take(i as int) == a@);
        true
    } else {
        false
    }
}

} // verus!
