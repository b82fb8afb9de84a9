//! Reading a template from the right: a text conforms to a template exactly
//! if the text read backwards conforms to the template read backwards.

use vstd::prelude::*;
use crate::template::{accepts, conforms, cut, lemma_conforms_cut, Segment};

verus! {

/// Whether `s`, cut at `k`, conforms to `segs` with the cut after the first
/// segment: the first segment accepts what comes before the cut, and what
/// comes after it conforms to the other segments.
pub open spec fn front_cut(segs: Seq<Segment>, s: Seq<char>, k: int) -> bool {
    &&& segs.len() > 0
    &&& 0 <= k <= s.len()
    &&& accepts(segs[0], s.take(k))
    &&& conforms(segs.drop_first(), s.skip(k))
}

proof fn lemma_front_cut_from_cut(segs: Seq<Segment>, s: Seq<char>)
    requires
        segs.len() > 0,
        conforms(segs, s),
    ensures
        exists|k: int| front_cut(segs, s, k),
    decreases segs.len(),
{
    lemma_conforms_cut(segs, s);
    let k = choose|k: int| cut(segs, s, k);
    let init = segs.drop_last();
    if init.len() == 0 {
        assert(s.take(k).len() == 0);
        assert(s.skip(0) =~= s.take(s.len() as int));
        assert(segs.drop_first().len() == 0);
        assert(s.skip(s.len() as int).len() == 0);
        assert(front_cut(segs, s, s.len() as int));
    } else {
        lemma_front_cut_from_cut(init, s.take(k));
        let k1 = choose|k1: int| front_cut(init, s.take(k), k1);
        let tail = segs.drop_first();
        assert(s.take(k).take(k1) =~= s.take(k1));
        assert(tail.drop_last() =~= init.drop_first());
        assert(tail.last() == segs.last());
        assert(s.skip(k1).take(k - k1) =~= s.take(k).skip(k1));
        assert(s.skip(k1).skip(k - k1) =~= s.skip(k));
        assert(cut(tail, s.skip(k1), k - k1));
        lemma_conforms_cut(tail, s.skip(k1));
        assert(front_cut(segs, s, k1));
    }
}

proof fn lemma_cut_from_front_cut(segs: Seq<Segment>, s: Seq<char>, k: int)
    requires
        front_cut(segs, s, k),
    ensures
        conforms(segs, s),
    decreases segs.len(),
{
    let tail = segs.drop_first();
    lemma_conforms_cut(segs, s);
    if tail.len() == 0 {
        assert(s.skip(k).len() == 0);
        assert(s.take(0).len() == 0);
        assert(segs.drop_last().len() == 0);
        assert(s.skip(0) =~= s.take(k));
        assert(cut(segs, s, 0));
    } else {
        lemma_conforms_cut(tail, s.skip(k));
        let k2 = choose|k2: int| cut(tail, s.skip(k), k2);
        let init = segs.drop_last();
        let head = s.take(k + k2);
        assert(head.take(k) =~= s.take(k));
        assert(init.drop_first() =~= tail.drop_last());
        assert(head.skip(k) =~= s.skip(k).take(k2));
        assert(front_cut(init, head, k));
        lemma_cut_from_front_cut(init, head, k);
        assert(s.skip(k + k2) =~= s.skip(k).skip(k2));
        assert(tail.last() == segs.last());
        assert(cut(segs, s, k + k2));
    }
}

/// A text conforms to a template that is not empty exactly if it can be cut
/// after the first segment.
pub proof fn lemma_conforms_front_cut(segs: Seq<Segment>, s: Seq<char>)
    requires
        segs.len() > 0,
    ensures
        conforms(segs, s) <==> exists|k: int| front_cut(segs, s, k),
{
    if conforms(segs, s) {
        lemma_front_cut_from_cut(segs, s);
    }
    if exists|k: int| front_cut(segs, s, k) {
        let k = choose|k: int| front_cut(segs, s, k);
        lemma_cut_from_front_cut(segs, s, k);
    }
}

/// A segment accepts a piece exactly if it accepts the piece read backwards.
pub proof fn lemma_accepts_mirror(seg: Segment, piece: Seq<char>)
    ensures
        accepts(seg, piece.reverse()) <==> accepts(seg, piece),
{
    let back = piece.reverse();
    assert forall|i: int| 0 <= i < piece.len() implies #[trigger] piece[i] == back[piece.len() - 1
        - i] by {}
    assert forall|i: int| 0 <= i < piece.len() implies #[trigger] back[i] == piece[piece.len() - 1
        - i] by {}
}

/// A text conforms to a template exactly if the text read backwards conforms
/// to the template read backwards.
pub proof fn lemma_conforms_mirror(segs: Seq<Segment>, s: Seq<char>)
    ensures
        conforms(segs.reverse(), s.reverse()) <==> conforms(segs, s),
    decreases segs.len(),
{
    let back_segs = segs.reverse();
    let back = s.reverse();
    let n = s.len() as int;
    if segs.len() > 0 {
        lemma_conforms_cut(back_segs, back);
        lemma_conforms_front_cut(segs, s);
        assert(back_segs.last() == segs[0]);
        assert(back_segs.drop_last() =~= segs.drop_first().reverse());
        assert forall|k: int| 0 <= k <= n implies (cut(back_segs, back, k) <==> front_cut(
            segs,
            s,
            n - k,
        )) by {
            assert(back.take(k) =~= s.skip(n - k).reverse());
            assert(back.skip(k) =~= s.take(n - k).reverse());
            lemma_accepts_mirror(segs[0], s.take(n - k));
            lemma_conforms_mirror(segs.drop_first(), s.skip(n - k));
        }
        if conforms(back_segs, back) {
            let k = choose|k: int| cut(back_segs, back, k);
            assert(front_cut(segs, s, n - k));
        }
        if conforms(segs, s) {
            let k = choose|k: int| front_cut(segs, s, k);
            assert(cut(back_segs, back, n - k));
        }
    }
}

} // verus!
