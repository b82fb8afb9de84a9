//! Templates for generated text: what they are made of, which texts conform
//! to them, and how a template is read from its written form.

use vstd::prelude::*;
use crate::charclass::{is_ident, is_space, space};
use crate::text::chars_of;

verus! {

/// One step of a template.
#[derive(Copy, Clone, Debug, PartialEq, Eq, Structural)]
pub enum Segment {
    /// Exactly this character.
    Literal(char),
    /// Any run of whitespace, the empty one included.
    Space,
    /// One or more characters of the placeholder alphabet.
    Placeholder,
}

/// Every character of `s` is whitespace.
pub open spec fn all_space(s: Seq<char>) -> bool {
    forall|i: int| 0 <= i < s.len() ==> is_space(#[trigger] s[i])
}

/// Every character of `s` belongs to the placeholder alphabet.
pub open spec fn all_ident(s: Seq<char>) -> bool {
    forall|i: int| 0 <= i < s.len() ==> is_ident(#[trigger] s[i])
}

/// Whether the segment `seg` may stand for the piece of text `piece`.
pub open spec fn accepts(seg: Segment, piece: Seq<char>) -> bool {
    match seg {
        Segment::Literal(c) => piece.len() == 1 && piece[0] == c,
        Segment::Space => all_space(piece),
        Segment::Placeholder => piece.len() >= 1 && all_ident(piece),
    }
}

/// Whether the text `s` conforms to the template `segs`: `s` can be cut into
/// as many consecutive pieces as there are segments, each accepted by its
/// segment.
pub open spec fn conforms(segs: Seq<Segment>, s: Seq<char>) -> bool
    decreases segs.len(),
{
    if segs.len() == 0 {
        s.len() == 0
    } else {
        exists|k: int|
            0 <= k <= s.len() && conforms(segs.drop_last(), #[trigger] s.take(k)) && accepts(
                segs.last(),
                s.skip(k),
            )
    }
}

/// Whether `s`, cut at `k`, conforms to `segs`: what comes before the cut
/// conforms to all segments but the last, and the last accepts the rest.
pub open spec fn cut(segs: Seq<Segment>, s: Seq<char>, k: int) -> bool {
    &&& segs.len() > 0
    &&& 0 <= k <= s.len()
    &&& conforms(segs.drop_last(), s.take(k))
    &&& accepts(segs.last(), s.skip(k))
}

/// A text conforms to a template that is not empty exactly if it can be cut.
pub proof fn lemma_conforms_cut(segs: Seq<Segment>, s: Seq<char>)
    requires
        segs.len() > 0,
    ensures
        conforms(segs, s) <==> exists|k: int| cut(segs, s, k),
{
    if conforms(segs, s) {
        let k = choose|k: int|
            0 <= k <= s.len() && conforms(segs.drop_last(), #[trigger] s.take(k)) && accepts(
                segs.last(),
                s.skip(k),
            );
        assert(cut(segs, s, k));
    }
    if exists|k: int| cut(segs, s, k) {
        let k = choose|k: int| cut(segs, s, k);
        assert(conforms(segs.drop_last(), s.take(k)));
    }
}

/// The token that marks a placeholder in a written template.
pub const SENTINEL: &'static str = "XXX";

/// Whether `t` begins with the token that marks a placeholder.
pub open spec fn at_sentinel(t: Seq<char>) -> bool {
    t.len() >= 3 && t[0] == 'X' && t[1] == 'X' && t[2] == 'X'
}

/// The sequence that begins with `x` and goes on with `rest`.
pub open spec fn cons(x: Segment, rest: Seq<Segment>) -> Seq<Segment> {
    Seq::empty().push(x) + rest
}

/// The template that the written form `t` stands for. Each maximal run of
/// whitespace is one `Space`; each occurrence of the sentinel, read from the
/// left, is one `Placeholder`; every other character is itself.
pub open spec fn compiled(t: Seq<char>) -> Seq<Segment>
    decreases t.len(),
{
    if t.len() == 0 {
        Seq::empty()
    } else if is_space(t[0]) {
        if t.len() >= 2 && is_space(t[1]) {
            compiled(t.skip(1))
        } else {
            cons(Segment::Space, compiled(t.skip(1)))
        }
    } else if at_sentinel(t) {
        cons(Segment::Placeholder, compiled(t.skip(3)))
    } else {
        cons(Segment::Literal(t[0]), compiled(t.skip(1)))
    }
}

proof fn lemma_join_front(a: Seq<Segment>, x: Segment, b: Seq<Segment>)
    ensures
        a + cons(x, b) == a.push(x) + b,
{
    assert(a + cons(x, b) =~= a.push(x) + b);
}

/// Reads a template from its written form.
pub fn compile_segments(template_text: &str) -> (segs: Vec<Segment>)
    ensures
        segs@ == compiled(template_text@),
{
    let cs = chars_of(template_text);
    let n = cs.len();
    let mut out: Vec<Segment> = Vec::new();
    let mut i: usize = 0;
    assert(cs@.skip(0) =~= cs@);
    assert(Seq::<Segment>::empty() + compiled(cs@) =~= compiled(cs@));
    while i < n
        invariant
            n == cs@.len(),
            i <= n,
            compiled(cs@) == out@ + compiled(cs@.skip(i as int)),
        decreases n - i,
    {
        let ghost rest = cs@.skip(i as int);
        let ghost before = out@;
        let c = cs[i];
        assert(rest[0] == c);
        if space(c) {
            assert(rest.skip(1) =~= cs@.skip(i + 1));
            if n - i > 1 && space(cs[i + 1]) {
                assert(rest[1] == cs@[i + 1]);
            } else {
                out.push(Segment::Space);
                proof {
                    lemma_join_front(before, Segment::Space, compiled(rest.skip(1)));
                }
            }
            i += 1;
        } else if c == 'X' && n - i > 2 && cs[i + 1] == 'X' && cs[i + 2] == 'X' {
            out.push(Segment::Placeholder);
            assert(rest[1] == cs@[i + 1] && rest[2] == cs@[i + 2]);
            assert(rest.skip(3) =~= cs@.skip(i + 3));
            proof {
                lemma_join_front(before, Segment::Placeholder, compiled(rest.skip(3)));
            }
            i += 3;
        } else {
            out.push(Segment::Literal(c));
            assert(!at_sentinel(rest)) by {
                if at_sentinel(rest) {
                    assert(rest[1] == cs@[i + 1] && rest[2] == cs@[i + 2]);
                }
            }
            assert(rest.skip(1) =~= cs@.skip(i + 1));
            proof {
                lemma_join_front(before, Segment::Literal(c), compiled(rest.skip(1)));
            }
            i += 1;
        }
    }
    assert(compiled(cs@.skip(n as int)) == Seq::<Segment>::empty());
    assert(out@ + Seq::<Segment>::empty() =~= out@);
    out
}

} // verus!

