//! Finding the longest beginning of a text that conforms to a template.
//!
//! The search keeps, for the segments read so far, the set of positions at
//! which a conforming beginning of the text may end, and moves that set
//! forward one segment at a time.

use vstd::prelude::*;
use crate::charclass::{ident, is_ident, is_space, space};
use crate::template::{conforms, cut, lemma_conforms_cut, accepts, Segment};

verus! {

/// Whether the first `p` characters of `text` conform to the first `j`
/// segments of `segs`.
pub open spec fn reach(segs: Seq<Segment>, text: Seq<char>, j: int, p: int) -> bool {
    0 <= j <= segs.len() && 0 <= p <= text.len() && conforms(segs.take(j), text.take(p))
}

/// Whether the first `p` characters of `text` conform to the segments up to
/// and with segment `j`.
pub open spec fn past(segs: Seq<Segment>, text: Seq<char>, j: int, p: int) -> bool {
    reach(segs, text, j + 1, p)
}

/// Whether position `q` reaches position `p` across segment `j`: the first
/// `q` characters conform to the segments before it, and it accepts the
/// characters from `q` to `p`.
pub open spec fn hop(segs: Seq<Segment>, text: Seq<char>, j: int, q: int, p: int) -> bool {
    0 <= q <= p && reach(segs, text, j, q) && accepts(segs[j], text.subrange(q, p))
}

/// A text conforms to the first `j + 1` segments exactly if it can be cut in
/// two, the first part conforming to the first `j` segments and the second
/// accepted by the segment after them.
pub proof fn lemma_reach_step(segs: Seq<Segment>, text: Seq<char>, j: int, p: int)
    requires
        0 <= j < segs.len(),
        0 <= p <= text.len(),
    ensures
        reach(segs, text, j + 1, p) <==> exists|q: int| #[trigger] hop(segs, text, j, q, p),
{
    let upto = segs.take(j + 1);
    let head = text.take(p);
    assert(upto.drop_last() =~= segs.take(j));
    assert(upto.last() == segs[j]);
    lemma_conforms_cut(upto, head);
    if reach(segs, text, j + 1, p) {
        let k = choose|k: int| cut(upto, head, k);
        assert(head.take(k) =~= text.take(k));
        assert(head.skip(k) =~= text.subrange(k, p));
        assert(hop(segs, text, j, k, p));
    }
    if exists|q: int| #[trigger] hop(segs, text, j, q, p) {
        let q = choose|q: int| #[trigger] hop(segs, text, j, q, p);
        assert(head.take(q) =~= text.take(q));
        assert(head.skip(q) =~= text.subrange(q, p));
        assert(cut(upto, head, q));
    }
}

/// Only the empty beginning conforms to no segments.
pub proof fn lemma_reach_start(segs: Seq<Segment>, text: Seq<char>, p: int)
    ensures
        reach(segs, text, 0, p) <==> p == 0,
{
    assert(segs.take(0).len() == 0);
    if 0 <= p <= text.len() {
        assert(text.take(p).len() == p);
    }
}

/// A literal is reached from the position just before it.
proof fn lemma_step_literal(segs: Seq<Segment>, text: Seq<char>, j: int, p: int, c: char)
    requires
        0 <= j < segs.len(),
        0 <= p <= text.len(),
        segs[j] == Segment::Literal(c),
    ensures
        reach(segs, text, j + 1, p) <==> (p >= 1 && text[p - 1] == c && reach(
            segs,
            text,
            j,
            p - 1,
        )),
{
    lemma_reach_step(segs, text, j, p);
    if reach(segs, text, j + 1, p) {
        let q = choose|q: int| #[trigger] hop(segs, text, j, q, p);
        assert(text.subrange(q, p).len() == 1);
        assert(text.subrange(q, p)[0] == text[q]);
    }
    if p >= 1 && text[p - 1] == c && reach(segs, text, j, p - 1) {
        assert(text.subrange(p - 1, p)[0] == text[p - 1]);
        assert(hop(segs, text, j, p - 1, p));
    }
}

/// A whitespace run ends where the segments before it end, or one whitespace
/// character after a place where it may end.
proof fn lemma_step_space(segs: Seq<Segment>, text: Seq<char>, j: int, p: int)
    requires
        0 <= j < segs.len(),
        0 <= p <= text.len(),
        segs[j] == Segment::Space,
    ensures
        reach(segs, text, j + 1, p) <==> (reach(segs, text, j, p) || (p >= 1 && is_space(
            text[p - 1],
        ) && reach(segs, text, j + 1, p - 1))),
{
    lemma_reach_step(segs, text, j, p);
    if p >= 1 {
        lemma_reach_step(segs, text, j, p - 1);
    }
    if reach(segs, text, j + 1, p) {
        let q = choose|q: int| #[trigger] hop(segs, text, j, q, p);
        if q < p {
            let piece = text.subrange(q, p);
            assert(piece[p - 1 - q] == text[p - 1]);
            assert forall|i: int| 0 <= i < p - 1 - q implies is_space(
                #[trigger] text.subrange(q, p - 1)[i],
            ) by {
                assert(piece[i] == text.subrange(q, p - 1)[i]);
            }
            assert(hop(segs, text, j, q, p - 1));
        }
    }
    if reach(segs, text, j, p) {
        assert(text.subrange(p, p).len() == 0);
        assert(hop(segs, text, j, p, p));
    }
    if p >= 1 && is_space(text[p - 1]) && reach(segs, text, j + 1, p - 1) {
        let q = choose|q: int| #[trigger] hop(segs, text, j, q, p - 1);
        let shorter = text.subrange(q, p - 1);
        assert forall|i: int| 0 <= i < p - q implies is_space(#[trigger] text.subrange(q, p)[i]) by {
            if i < p - 1 - q {
                assert(shorter[i] == text.subrange(q, p)[i]);
            }
        }
        assert(hop(segs, text, j, q, p));
    }
}

/// A placeholder's value ends one character of its alphabet after the
/// segments before it end, or after a place where the value may end.
proof fn lemma_step_placeholder(segs: Seq<Segment>, text: Seq<char>, j: int, p: int)
    requires
        0 <= j < segs.len(),
        0 <= p <= text.len(),
        segs[j] == Segment::Placeholder,
    ensures
        reach(segs, text, j + 1, p) <==> (p >= 1 && is_ident(text[p - 1]) && (reach(
            segs,
            text,
            j,
            p - 1,
        ) || reach(segs, text, j + 1, p - 1))),
{
    lemma_reach_step(segs, text, j, p);
    if p >= 1 {
        lemma_reach_step(segs, text, j, p - 1);
    }
    if reach(segs, text, j + 1, p) {
        let q = choose|q: int| #[trigger] hop(segs, text, j, q, p);
        let piece = text.subrange(q, p);
        assert(piece[p - 1 - q] == text[p - 1]);
        if q < p - 1 {
            assert forall|i: int| 0 <= i < p - 1 - q implies is_ident(
                #[trigger] text.subrange(q, p - 1)[i],
            ) by {
                assert(piece[i] == text.subrange(q, p - 1)[i]);
            }
            assert(hop(segs, text, j, q, p - 1));
        }
    }
    if p >= 1 && is_ident(text[p - 1]) {
        if reach(segs, text, j, p - 1) {
            assert forall|i: int| 0 <= i < 1 implies is_ident(
                #[trigger] text.subrange(p - 1, p)[i],
            ) by {}
            assert(hop(segs, text, j, p - 1, p));
        } else if reach(segs, text, j + 1, p - 1) {
            let q = choose|q: int| #[trigger] hop(segs, text, j, q, p - 1);
            let shorter = text.subrange(q, p - 1);
            assert forall|i: int| 0 <= i < p - q implies is_ident(
                #[trigger] text.subrange(q, p)[i],
            ) by {
                if i < p - 1 - q {
                    assert(shorter[i] == text.subrange(q, p)[i]);
                }
            }
            assert(hop(segs, text, j, q, p));
        }
    }
}

/// Nothing is reached across a segment before the first position reached
/// without it.
proof fn lemma_none_before(segs: Seq<Segment>, text: Seq<char>, j: int, lo: int, p: int)
    requires
        0 <= j < segs.len(),
        0 <= p < lo,
        forall|q: int| 0 <= q < lo ==> !reach(segs, text, j, q),
    ensures
        !reach(segs, text, j + 1, p),
{
    if p <= text.len() {
        lemma_reach_step(segs, text, j, p);
    }
}

/// Past the last position reached without a segment, the positions reached
/// across it are consecutive: once one is missing, none follows.
proof fn lemma_none_after(segs: Seq<Segment>, text: Seq<char>, j: int, hi: int, gap: int, p: int)
    requires
        0 <= j < segs.len(),
        forall|q: int| q > hi ==> !reach(segs, text, j, q),
        hi + 1 < gap <= p,
        !reach(segs, text, j + 1, gap - 1),
    ensures
        !reach(segs, text, j + 1, p),
{
    if 0 <= p <= text.len() && reach(segs, text, j + 1, p) {
        lemma_reach_step(segs, text, j, p);
        lemma_reach_step(segs, text, j, gap - 1);
        let q = choose|q: int| #[trigger] hop(segs, text, j, q, p);
        assert(q <= hi);
        let piece = text.subrange(q, p);
        let shorter = text.subrange(q, gap - 1);
        assert(shorter.len() >= 1);
        match segs[j] {
            Segment::Literal(c) => {},
            Segment::Space => {
                assert forall|i: int| 0 <= i < shorter.len() implies is_space(
                    #[trigger] shorter[i],
                ) by {
                    assert(piece[i] == shorter[i]);
                }
            },
            Segment::Placeholder => {
                assert forall|i: int| 0 <= i < shorter.len() implies is_ident(
                    #[trigger] shorter[i],
                ) by {
                    assert(piece[i] == shorter[i]);
                }
            },
        }
        assert(hop(segs, text, j, q, gap - 1));
    }
}

/// If a beginning of the text conforms to the whole template, a beginning of
/// it conforms to each beginning of the template.
pub proof fn lemma_conforms_beginning(segs: Seq<Segment>, s: Seq<char>, j: int)
    requires
        0 <= j <= segs.len(),
        conforms(segs, s),
    ensures
        exists|q: int| 0 <= q <= s.len() && #[trigger] conforms(segs.take(j), s.take(q)),
    decreases segs.len(),
{
    if j == segs.len() {
        assert(segs.take(j) =~= segs);
        assert(s.take(s.len() as int) =~= s);
    } else {
        lemma_conforms_cut(segs, s);
        let k = choose|k: int| cut(segs, s, k);
        lemma_conforms_beginning(segs.drop_last(), s.take(k), j);
        let q = choose|q: int|
            0 <= q <= s.take(k).len() && #[trigger] conforms(
                segs.drop_last().take(j),
                s.take(k).take(q),
            );
        assert(segs.drop_last().take(j) =~= segs.take(j));
        assert(s.take(k).take(q) =~= s.take(q));
    }
}

/// Whether the window of flags `bits`, whose first flag stands for position
/// `lo`, marks position `p`.
pub open spec fn marked(lo: int, bits: Seq<bool>, p: int) -> bool {
    lo <= p < lo + bits.len() && bits[p - lo]
}

/// Whether the window marks exactly the positions reached with the first `j`
/// segments, beginning and ending with a marked position.
pub open spec fn tracks(
    segs: Seq<Segment>,
    text: Seq<char>,
    j: int,
    lo: int,
    bits: Seq<bool>,
) -> bool {
    &&& 0 <= lo
    &&& bits.len() >= 1
    &&& lo + bits.len() <= text.len() + 1
    &&& bits[0]
    &&& bits[bits.len() - 1]
    &&& forall|p: int| reach(segs, text, j, p) <==> #[trigger] marked(lo, bits, p)
}

fn is_marked(lo: usize, bits: &Vec<bool>, p: usize) -> (r: bool)
    ensures
        r == marked(lo as int, bits@, p as int),
{
    p >= lo && p - lo < bits.len() && bits[p - lo]
}

/// Moves a window across one segment. `None` says that no beginning of the
/// text conforms to the segments up to and with this one.
fn advance(
    seg: Segment,
    text: &[char],
    lo: usize,
    bits: &Vec<bool>,
    Ghost(segs): Ghost<Seq<Segment>>,
    Ghost(j): Ghost<int>,
) -> (r: Option<(usize, Vec<bool>)>)
    requires
        0 <= j < segs.len(),
        segs[j] == seg,
        tracks(segs, text@, j, lo as int, bits@),
    ensures
        match r {
            Some((lo2, bits2)) => tracks(segs, text@, j + 1, lo2 as int, bits2@),
            None => forall|p: int| !#[trigger] past(segs, text@, j, p),
        },
{
    let n = text.len();
    let hi: usize = lo + (bits.len() - 1);
    let mut out: Vec<bool> = Vec::new();
    let mut out_lo: usize = lo;
    let mut p: usize = lo;
    let mut prev: bool = false;
    let mut at_end: bool = false;
    proof {
        assert forall|q: int| 0 <= q < lo implies !reach(segs, text@, j, q) by {
            assert(!marked(lo as int, bits@, q));
        }
        assert forall|q: int| q > hi implies !reach(segs, text@, j, q) by {
            assert(!marked(lo as int, bits@, q));
        }
        if lo >= 1 {
            lemma_none_before(segs, text@, j, lo as int, lo - 1);
        }
        assert forall|q: int| q < lo implies !past(segs, text@, j, q) by {
            if 0 <= q {
                lemma_none_before(segs, text@, j, lo as int, q);
            }
        }
    }
    loop
        invariant
            0 <= j < segs.len(),
            segs[j] == seg,
            tracks(segs, text@, j, lo as int, bits@),
            n == text@.len(),
            hi == lo + bits@.len() - 1,
            lo <= p <= n,
            forall|q: int| q > hi ==> !reach(segs, text@, j, q),
            !at_end ==> prev == (p >= 1 && past(segs, text@, j, p - 1)),
            at_end ==> p == n,
            out@.len() == 0 ==> forall|q: int|
                (q < p || at_end) ==> !past(segs, text@, j, q),
            out@.len() > 0 ==> {
                &&& lo <= out_lo
                &&& out@[0]
                &&& out_lo + out@.len() == (if at_end {
                    p + 1
                } else {
                    p as int
                })
                &&& forall|q: int|
                    (q < p || at_end) ==> (past(segs, text@, j, q) <==> #[trigger] marked(
                        out_lo as int,
                        out@,
                        q,
                    ))
            },
        ensures
            at_end || (p > hi + 1 && !prev),
        decreases n - p + (if at_end { 0int } else { 1int }),
    {
        if at_end || !(p == 0 || p - 1 <= hi || prev) {
            break;
        }
        let before = p >= 1 && is_marked(lo, bits, p - 1);
        let here = is_marked(lo, bits, p);
        let v = match seg {
            Segment::Literal(c) => before && text[p - 1] == c,
            Segment::Space => here || (p >= 1 && prev && space(text[p - 1])),
            Segment::Placeholder => p >= 1 && ident(text[p - 1]) && (before || prev),
        };
        proof {
            match seg {
                Segment::Literal(c) => lemma_step_literal(segs, text@, j, p as int, c),
                Segment::Space => lemma_step_space(segs, text@, j, p as int),
                Segment::Placeholder => lemma_step_placeholder(segs, text@, j, p as int),
            }
            assert(v == past(segs, text@, j, p as int));
        }
        let ghost old_out = out@;
        let ghost old_lo = out_lo;
        if v || out.len() > 0 {
            if out.len() == 0 {
                out_lo = p;
            }
            out.push(v);
        }
        prev = v;
        proof {
            if out@.len() > 0 {
                assert forall|q: int| q <= p implies (past(segs, text@, j, q) <==> marked(
                    out_lo as int,
                    out@,
                    q,
                )) by {
                    if q < p {
                        if old_out.len() > 0 {
                            assert(marked(old_lo as int, old_out, q) == marked(
                                out_lo as int,
                                out@,
                                q,
                            ));
                        }
                    }
                }
            }
        }
        if p == n {
            at_end = true;
        } else {
            p += 1;
        }
    }
    proof {
        if !at_end {
            assert forall|q: int| q >= p implies !past(segs, text@, j, q) by {
                lemma_none_after(segs, text@, j, hi as int, p as int, q);
            }
        }
    }
    if out.len() == 0 {
        return None;
    }
    let ghost full = out@;
    while !out[out.len() - 1]
        invariant
            out@.len() >= 1,
            out@[0],
            out@.len() <= full.len(),
            forall|q: int| marked(out_lo as int, full, q) <==> marked(out_lo as int, out@, q),
        decreases out@.len(),
    {
        let ghost longer = out@;
        out.pop();
        assert forall|q: int| marked(out_lo as int, longer, q) <==> marked(
            out_lo as int,
            out@,
            q,
        ) by {}
    }
    proof {
        assert forall|q: int| past(segs, text@, j, q) <==> #[trigger] marked(
            out_lo as int,
            out@,
            q,
        ) by {
            assert(marked(out_lo as int, full, q) <==> marked(out_lo as int, out@, q));
        }
    }
    Some((out_lo, out))
}

/// Where the longest beginning of `text` that conforms to `segs` ends, or
/// `None` if no beginning conforms.
pub fn longest_beginning(segs: &[Segment], text: &[char]) -> (r: Option<usize>)
    ensures
        match r {
            Some(e) => {
                &&& e <= text@.len()
                &&& conforms(segs@, text@.take(e as int))
                &&& forall|k: int| e < k <= text@.len() ==> !conforms(segs@, #[trigger] text@.take(k))
            },
            None => forall|k: int| 0 <= k <= text@.len() ==> !conforms(segs@, #[trigger] text@.take(k)),
        },
{
    let m = segs.len();
    let mut lo: usize = 0;
    let mut bits: Vec<bool> = Vec::new();
    bits.push(true);
    let mut j: usize = 0;
    proof {
        assert forall|p: int| reach(segs@, text@, 0, p) <==> #[trigger] marked(0, bits@, p) by {
            lemma_reach_start(segs@, text@, p);
        }
    }
    while j < m
        invariant
            m == segs@.len(),
            j <= m,
            tracks(segs@, text@, j as int, lo as int, bits@),
        decreases m - j,
    {
        match advance(segs[j], text, lo, &bits, Ghost(segs@), Ghost(j as int)) {
            None => {
                proof {
                    assert forall|k: int| 0 <= k <= text@.len() implies !conforms(
                        segs@,
                        #[trigger] text@.take(k),
                    ) by {
                        if conforms(segs@, text@.take(k)) {
                            lemma_conforms_beginning(segs@, text@.take(k), j + 1);
                            let q = choose|q: int|
                                0 <= q <= text@.take(k).len() && #[trigger] conforms(
                                    segs@.take(j + 1),
                                    text@.take(k).take(q),
                                );
                            assert(text@.take(k).take(q) =~= text@.take(q));
                            assert(past(segs@, text@, j as int, q));
                        }
                    }
                }
                return None;
            },
            Some((lo2, bits2)) => {
                lo = lo2;
                bits = bits2;
            },
        }
        j += 1;
    }
    let n = text.len();
    assert(lo + bits@.len() <= n + 1);
    let e = lo + (bits.len() - 1);
    proof {
        assert(segs@.take(m as int) =~= segs@);
        assert(marked(lo as int, bits@, e as int));
        assert(reach(segs@, text@, m as int, e as int));
        assert forall|k: int| e < k <= text@.len() implies !conforms(
            segs@,
            #[trigger] text@.take(k),
        ) by {
            assert(!marked(lo as int, bits@, k));
            assert(!reach(segs@, text@, m as int, k));
        }
    }
    Some(e)
}

} // verus!
