//! Templates that can be read in one way only. In such a template no
//! character can both lengthen what a wildcard has taken and begin what
//! comes after the wildcard, so two conforming beginnings of one text differ
//! only by what the last wildcards take.

use vstd::prelude::*;
use crate::charclass::{ident, is_ident, is_space, lemma_space_not_ident, space};
use crate::template::{accepts, conforms, cut, lemma_conforms_cut, Segment};

verus! {

/// Whether `c` may be the first character of a piece that `seg` accepts.
pub open spec fn takes(seg: Segment, c: char) -> bool {
    match seg {
        Segment::Literal(d) => c == d,
        Segment::Space => is_space(c),
        Segment::Placeholder => is_ident(c),
    }
}

/// Whether a piece that `seg` accepts may be made longer by `c`.
pub open spec fn soaks(seg: Segment, c: char) -> bool {
    match seg {
        Segment::Literal(_) => false,
        Segment::Space => is_space(c),
        Segment::Placeholder => is_ident(c),
    }
}

/// Whether a text that conforms to `segs` may still conform with `c` put
/// after it, by what the segments themselves allow: the last segment soaks
/// `c`, or it is whitespace, which may be empty, and the segments before it
/// absorb `c`.
pub open spec fn absorbs(segs: Seq<Segment>, c: char) -> bool
    decreases segs.len(),
{
    if segs.len() == 0 {
        false
    } else {
        soaks(segs.last(), c) || (segs.last() == Segment::Space && absorbs(segs.drop_last(), c))
    }
}

/// Only whitespace and characters of the placeholder alphabet are absorbed.
pub proof fn lemma_absorbs_wild(segs: Seq<Segment>, c: char)
    requires
        absorbs(segs, c),
    ensures
        is_space(c) || is_ident(c),
    decreases segs.len(),
{
    if segs.len() > 0 && !soaks(segs.last(), c) {
        lemma_absorbs_wild(segs.drop_last(), c);
    }
}

/// Whether `segs` can be read in one way only from the left: no character
/// that the segments before a segment absorb may begin that segment.
pub open spec fn steady(segs: Seq<Segment>) -> bool {
    forall|j: int, c: char|
        0 <= j < segs.len() && #[trigger] absorbs(segs.take(j), c) ==> !#[trigger] takes(
            segs[j],
            c,
        )
}

/// A beginning of a steady template is steady.
pub proof fn lemma_steady_beginning(segs: Seq<Segment>, m: int)
    requires
        steady(segs),
        0 <= m <= segs.len(),
    ensures
        steady(segs.take(m)),
{
    let part = segs.take(m);
    assert forall|j: int, c: char|
        0 <= j < part.len() && #[trigger] absorbs(part.take(j), c) implies !#[trigger] takes(
        part[j],
        c,
    ) by {
        assert(part.take(j) =~= segs.take(j));
    }
}

/// What a segment accepts begins with a character that the segment takes.
proof fn lemma_accepts_takes(seg: Segment, piece: Seq<char>)
    requires
        accepts(seg, piece),
        piece.len() > 0,
    ensures
        takes(seg, piece[0]),
{
}

/// Of two conforming beginnings of one text, the longer goes on with a
/// character that the template absorbs: in a steady template, nothing else
/// can follow a conforming beginning inside a longer one.
pub proof fn lemma_longer_absorbs(segs: Seq<Segment>, text: Seq<char>, shorter: int, longer: int)
    requires
        steady(segs),
        0 <= shorter < longer <= text.len(),
        conforms(segs, text.take(shorter)),
        conforms(segs, text.take(longer)),
    ensures
        absorbs(segs, text[shorter]),
    decreases segs.len(),
{
    let a = text.take(shorter);
    let b = text.take(longer);
    if segs.len() == 0 {
        assert(b.len() == 0);
    } else {
        let init = segs.drop_last();
        let last = segs.last();
        assert(init =~= segs.take(segs.len() - 1));
        lemma_steady_beginning(segs, segs.len() - 1);
        lemma_conforms_cut(segs, a);
        lemma_conforms_cut(segs, b);
        let ka = choose|k: int| cut(segs, a, k);
        let kb = choose|k: int| cut(segs, b, k);
        assert(a.take(ka) =~= text.take(ka));
        assert(b.take(kb) =~= text.take(kb));
        let pa = a.skip(ka);
        let pb = b.skip(kb);
        if ka == kb {
            assert(pb[shorter - ka] == text[shorter]);
            match last {
                Segment::Literal(c) => {
                    assert(pa.len() == 1 && pb.len() == 1);
                },
                Segment::Space => {},
                Segment::Placeholder => {},
            }
        } else if ka < kb {
            lemma_longer_absorbs(init, text, ka, kb);
            if ka < shorter {
                assert(pa[0] == text[ka]);
                lemma_accepts_takes(last, pa);
                assert(absorbs(segs.take(segs.len() - 1), text[ka]));
                assert(takes(segs[segs.len() - 1], text[ka]));
            }
        } else {
            lemma_longer_absorbs(init, text, kb, ka);
            assert(pb[0] == text[kb]);
            lemma_accepts_takes(last, pb);
            assert(absorbs(segs.take(segs.len() - 1), text[kb]));
            assert(takes(segs[segs.len() - 1], text[kb]));
        }
    }
}

/// In a steady template, a conforming beginning that is followed by a
/// character which the template does not absorb is the longest one.
pub proof fn lemma_steady_longest(segs: Seq<Segment>, text: Seq<char>, e: int)
    requires
        steady(segs),
        0 <= e <= text.len(),
        conforms(segs, text.take(e)),
        e < text.len() ==> !absorbs(segs, text[e]),
    ensures
        forall|k: int| e < k <= text.len() ==> !conforms(segs, #[trigger] text.take(k)),
{
    assert forall|k: int| e < k <= text.len() implies !conforms(segs, #[trigger] text.take(k)) by {
        if conforms(segs, text.take(k)) {
            lemma_longer_absorbs(segs, text, e, k);
        }
    }
}

/// What `absorbs` says after one more segment.
proof fn lemma_absorbs_next(segs: Seq<Segment>, j: int, c: char)
    requires
        0 <= j < segs.len(),
    ensures
        absorbs(segs.take(j + 1), c) == (soaks(segs[j], c) || (segs[j] == Segment::Space
            && absorbs(segs.take(j), c))),
{
    assert(segs.take(j + 1).drop_last() =~= segs.take(j));
    assert(segs.take(j + 1).last() == segs[j]);
}

/// Tests whether a template can be read in one way only from the left.
pub fn is_steady(segs: &[Segment]) -> (r: bool)
    ensures
        r == steady(segs@),
{
    let n = segs.len();
    let mut space_open = false;
    let mut ident_open = false;
    let mut j: usize = 0;
    assert(segs@.take(0).len() == 0);
    while j < n
        invariant
            n == segs@.len(),
            j <= n,
            forall|c: char| #[trigger]
                absorbs(segs@.take(j as int), c) == ((space_open && is_space(c)) || (ident_open
                    && is_ident(c))),
            forall|i: int, c: char|
                0 <= i < j && #[trigger] absorbs(segs@.take(i), c) ==> !#[trigger] takes(
                    segs@[i],
                    c,
                ),
        decreases n - j,
    {
        let seg = segs[j];
        let clash = match seg {
            Segment::Literal(d) => (space_open && space(d)) || (ident_open && ident(d)),
            Segment::Space => space_open,
            Segment::Placeholder => ident_open,
        };
        if clash {
            proof {
                let witness = match seg {
                    Segment::Literal(d) => d,
                    Segment::Space => ' ',
                    Segment::Placeholder => 'a',
                };
                assert(absorbs(segs@.take(j as int), witness));
                assert(takes(segs@[j as int], witness));
            }
            return false;
        }
        proof {
            assert forall|c: char| absorbs(segs@.take(j as int), c) implies !takes(
                segs@[j as int],
                c,
            ) by {
                lemma_space_not_ident(c);
            }
            assert forall|c: char| #[trigger]
                absorbs(segs@.take(j + 1), c) == (soaks(seg, c) || (seg == Segment::Space
                    && absorbs(segs@.take(j as int), c))) by {
                lemma_absorbs_next(segs@, j as int, c);
            }
        }
        match seg {
            Segment::Literal(_) => {
                space_open = false;
                ident_open = false;
            },
            Segment::Space => {
                space_open = true;
            },
            Segment::Placeholder => {
                space_open = false;
                ident_open = true;
            },
        }
        j += 1;
    }
    true
}

} // verus!
