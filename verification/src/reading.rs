//! Telling from a written template whether what is read from it is steady.
//!
//! A template is steady if, going through it, no segment meets a wildcard
//! that is still open: one that could take the segment's own characters. The
//! same can be told from the written form, character by character.

use vstd::prelude::*;
use crate::charclass::{is_ident, is_space, lemma_space_not_ident};
use crate::steady::{absorbs, soaks, steady, takes};
use crate::template::{at_sentinel, compiled, cons, Segment};

verus! {

/// The wildcards that are open at some place in a template: whether
/// whitespace and whether a placeholder's value could still go on there.
#[derive(Copy, Clone, Debug, PartialEq, Eq, Structural)]
pub struct Open {
    pub space: bool,
    pub ident: bool,
}

/// No wildcard is open.
pub open spec fn closed() -> Open {
    Open { space: false, ident: false }
}

/// Whether one of the open wildcards takes `c`.
pub open spec fn open_takes(o: Open, c: char) -> bool {
    (o.space && is_space(c)) || (o.ident && is_ident(c))
}

/// Whether `seg` may begin with a character that an open wildcard takes.
pub open spec fn clash(o: Open, seg: Segment) -> bool {
    match seg {
        Segment::Literal(d) => open_takes(o, d),
        Segment::Space => o.space,
        Segment::Placeholder => o.ident,
    }
}

/// The wildcards that are open after `seg`. A literal closes all; a
/// placeholder leaves only itself open; whitespace, which may be empty,
/// leaves open what was, and itself.
pub open spec fn after(o: Open, seg: Segment) -> Open {
    match seg {
        Segment::Literal(_) => closed(),
        Segment::Space => Open { space: true, ident: o.ident },
        Segment::Placeholder => Open { space: false, ident: true },
    }
}

/// Goes through `segs` from the left with `o` open at first. Gives what is
/// open at the end, or `None` if a segment clashes on the way.
pub open spec fn run(o: Open, segs: Seq<Segment>) -> Option<Open>
    decreases segs.len(),
{
    if segs.len() == 0 {
        Some(o)
    } else if clash(o, segs[0]) {
        None
    } else {
        run(after(o, segs[0]), segs.drop_first())
    }
}

/// Goes through `segs` from the right. Gives what is open before the first
/// segment, or `None` if a segment clashes on the way.
pub open spec fn run_back(segs: Seq<Segment>) -> Option<Open>
    decreases segs.len(),
{
    if segs.len() == 0 {
        Some(closed())
    } else {
        match run_back(segs.drop_first()) {
            None => None,
            Some(o) => if clash(o, segs[0]) {
                None
            } else {
                Some(after(o, segs[0]))
            },
        }
    }
}

/// Whether the sentinel stands in `t` at position `i`.
pub open spec fn sentinel_at(t: Seq<char>, i: int) -> bool {
    0 <= i && i + 3 <= t.len() && t[i] == 'X' && t[i + 1] == 'X' && t[i + 2] == 'X'
}

/// Goes through the written template `t` from position `i` to its end, with
/// `o` open at first, as `run` goes through what is read from it.
pub open spec fn walk(t: Seq<char>, i: int, o: Open) -> Option<Open>
    decreases t.len() - i,
{
    if i < 0 || i >= t.len() {
        Some(o)
    } else if is_space(t[i]) {
        if i + 1 < t.len() && is_space(t[i + 1]) {
            walk(t, i + 1, o)
        } else if o.space {
            None
        } else {
            walk(t, i + 1, Open { space: true, ident: o.ident })
        }
    } else if sentinel_at(t, i) {
        if o.ident {
            None
        } else {
            walk(t, i + 3, Open { space: false, ident: true })
        }
    } else if o.ident && is_ident(t[i]) {
        None
    } else {
        walk(t, i + 1, closed())
    }
}

/// Goes through the written template `t` from its end back to position `i`,
/// as `run_back` goes through what is read from it.
pub open spec fn walk_back(t: Seq<char>, i: int) -> Option<Open>
    decreases t.len() - i,
{
    if i < 0 || i >= t.len() {
        Some(closed())
    } else if is_space(t[i]) {
        if i + 1 < t.len() && is_space(t[i + 1]) {
            walk_back(t, i + 1)
        } else {
            match walk_back(t, i + 1) {
                None => None,
                Some(o) => if o.space {
                    None
                } else {
                    Some(Open { space: true, ident: o.ident })
                },
            }
        }
    } else if sentinel_at(t, i) {
        match walk_back(t, i + 3) {
            None => None,
            Some(o) => if o.ident {
                None
            } else {
                Some(Open { space: false, ident: true })
            },
        }
    } else {
        match walk_back(t, i + 1) {
            None => None,
            Some(o) => if o.ident && is_ident(t[i]) {
                None
            } else {
                Some(closed())
            },
        }
    }
}

/// A segment that does not clash takes nothing that an open wildcard takes.
proof fn lemma_no_clash(o: Open, seg: Segment, c: char)
    requires
        !clash(o, seg),
        open_takes(o, c),
    ensures
        !takes(seg, c),
{
    lemma_space_not_ident(c);
}

/// A steady template stays steady with one more segment that does not clash
/// with what the template absorbs, and absorbs what is open after it.
proof fn lemma_steady_push(a: Seq<Segment>, o: Open, x: Segment)
    requires
        steady(a),
        forall|c: char| #[trigger] absorbs(a, c) == open_takes(o, c),
        !clash(o, x),
    ensures
        steady(a.push(x)),
        forall|c: char| #[trigger] absorbs(a.push(x), c) == open_takes(after(o, x), c),
{
    let b = a.push(x);
    assert(b.drop_last() =~= a);
    assert forall|j: int, c: char|
        0 <= j < b.len() && #[trigger] absorbs(b.take(j), c) implies !#[trigger] takes(
        b[j],
        c,
    ) by {
        if j < a.len() {
            assert(b.take(j) =~= a.take(j));
        } else {
            assert(b.take(j) =~= a);
            lemma_no_clash(o, x, c);
        }
    }
    assert forall|c: char| #[trigger] absorbs(b, c) == open_takes(after(o, x), c) by {
        lemma_space_not_ident(c);
        assert(b.last() == x);
        assert(absorbs(a, c) == open_takes(o, c));
        assert(absorbs(b, c) == (soaks(x, c) || (x == Segment::Space && absorbs(
            b.drop_last(),
            c,
        ))));
    }
}

/// A steady template followed by segments that `run` goes through without
/// a clash is steady, and absorbs what is open at the end of the run.
pub proof fn lemma_run_steady(a: Seq<Segment>, o: Open, b: Seq<Segment>)
    requires
        steady(a),
        forall|c: char| #[trigger] absorbs(a, c) == open_takes(o, c),
        run(o, b) is Some,
    ensures
        steady(a + b),
        forall|c: char| #[trigger] absorbs(a + b, c) == open_takes(run(o, b)->0, c),
    decreases b.len(),
{
    if b.len() == 0 {
        assert(a + b =~= a);
    } else {
        lemma_steady_push(a, o, b[0]);
        lemma_run_steady(a.push(b[0]), after(o, b[0]), b.drop_first());
        assert(a.push(b[0]) + b.drop_first() =~= a + b);
    }
}

/// Segments that `run` goes through from the left without a clash, with
/// nothing open at first, are steady, and absorb what is open at the end.
pub proof fn lemma_run_from_start(segs: Seq<Segment>)
    requires
        run(closed(), segs) is Some,
    ensures
        steady(segs),
        forall|c: char| #[trigger] absorbs(segs, c) == open_takes(run(closed(), segs)->0, c),
{
    let none = Seq::<Segment>::empty();
    assert(none + segs =~= segs);
    lemma_run_steady(none, closed(), segs);
}

/// Segments that `run_back` goes through without a clash are steady when
/// read from the right, and absorb, so read, what is open at the end.
pub proof fn lemma_run_back_steady(segs: Seq<Segment>)
    requires
        run_back(segs) is Some,
    ensures
        steady(segs.reverse()),
        forall|c: char| #[trigger] absorbs(segs.reverse(), c) == open_takes(run_back(segs)->0, c),
    decreases segs.len(),
{
    if segs.len() == 0 {
        assert(segs.reverse() =~= Seq::<Segment>::empty());
    } else {
        let rest = segs.drop_first();
        lemma_run_back_steady(rest);
        let o = run_back(rest)->0;
        lemma_steady_push(rest.reverse(), o, segs[0]);
        assert(rest.reverse().push(segs[0]) =~= segs.reverse());
    }
}

/// What `cons` puts together.
proof fn lemma_cons_parts(x: Segment, rest: Seq<Segment>)
    ensures
        cons(x, rest).len() == rest.len() + 1,
        cons(x, rest)[0] == x,
        cons(x, rest).drop_first() == rest,
{
    assert(cons(x, rest).drop_first() =~= rest);
}

/// How what is read from `t` at position `i` begins, and where it goes on.
proof fn lemma_compiled_at(t: Seq<char>, i: int)
    requires
        0 <= i < t.len(),
    ensures
        is_space(t[i]) && i + 1 < t.len() && is_space(t[i + 1]) ==> compiled(t.skip(i))
            == compiled(t.skip(i + 1)),
        is_space(t[i]) && !(i + 1 < t.len() && is_space(t[i + 1])) ==> compiled(t.skip(i))
            == cons(Segment::Space, compiled(t.skip(i + 1))),
        !is_space(t[i]) && sentinel_at(t, i) ==> compiled(t.skip(i)) == cons(
            Segment::Placeholder,
            compiled(t.skip(i + 3)),
        ),
        !is_space(t[i]) && !sentinel_at(t, i) ==> compiled(t.skip(i)) == cons(
            Segment::Literal(t[i]),
            compiled(t.skip(i + 1)),
        ),
{
    let rest = t.skip(i);
    assert(rest[0] == t[i]);
    assert(rest.skip(1) =~= t.skip(i + 1));
    if i + 1 < t.len() {
        assert(rest[1] == t[i + 1]);
    }
    if i + 3 <= t.len() {
        assert(rest[2] == t[i + 2]);
        assert(rest.skip(3) =~= t.skip(i + 3));
    }
    assert(at_sentinel(rest) == sentinel_at(t, i));
}

/// Going through a written template is going through what is read from it.
pub proof fn lemma_walk_is_run(t: Seq<char>, i: int, o: Open)
    requires
        0 <= i <= t.len(),
    ensures
        walk(t, i, o) == run(o, compiled(t.skip(i))),
    decreases t.len() - i,
{
    if i == t.len() {
        assert(t.skip(i).len() == 0);
    } else {
        lemma_compiled_at(t, i);
        if is_space(t[i]) {
            if i + 1 < t.len() && is_space(t[i + 1]) {
                lemma_walk_is_run(t, i + 1, o);
            } else {
                lemma_cons_parts(Segment::Space, compiled(t.skip(i + 1)));
                lemma_walk_is_run(t, i + 1, Open { space: true, ident: o.ident });
            }
        } else if sentinel_at(t, i) {
            lemma_cons_parts(Segment::Placeholder, compiled(t.skip(i + 3)));
            lemma_walk_is_run(t, i + 3, Open { space: false, ident: true });
        } else {
            lemma_cons_parts(Segment::Literal(t[i]), compiled(t.skip(i + 1)));
            lemma_walk_is_run(t, i + 1, closed());
        }
    }
}

/// Going back through a written template is going back through what is
/// read from it.
pub proof fn lemma_walk_back_is_run_back(t: Seq<char>, i: int)
    requires
        0 <= i <= t.len(),
    ensures
        walk_back(t, i) == run_back(compiled(t.skip(i))),
    decreases t.len() - i,
{
    if i == t.len() {
        assert(t.skip(i).len() == 0);
    } else {
        lemma_compiled_at(t, i);
        if is_space(t[i]) {
            lemma_walk_back_is_run_back(t, i + 1);
            if !(i + 1 < t.len() && is_space(t[i + 1])) {
                lemma_cons_parts(Segment::Space, compiled(t.skip(i + 1)));
            }
        } else if sentinel_at(t, i) {
            lemma_cons_parts(Segment::Placeholder, compiled(t.skip(i + 3)));
            lemma_walk_back_is_run_back(t, i + 3);
        } else {
            lemma_cons_parts(Segment::Literal(t[i]), compiled(t.skip(i + 1)));
            lemma_walk_back_is_run_back(t, i + 1);
        }
    }
}

/// A written template that `walk` goes through without a clash stands for
/// a steady template, which absorbs what is open at the end of the walk.
pub proof fn lemma_walk_steady(t: Seq<char>)
    requires
        walk(t, 0, closed()) is Some,
    ensures
        steady(compiled(t)),
        forall|c: char| #[trigger]
            absorbs(compiled(t), c) == open_takes(walk(t, 0, closed())->0, c),
{
    assert(t.skip(0) =~= t);
    lemma_walk_is_run(t, 0, closed());
    lemma_run_from_start(compiled(t));
}

/// A written template that `walk_back` goes through without a clash stands
/// for a template that is steady when read from the right, and that absorbs,
/// so read, what is open at the end of the walk.
pub proof fn lemma_walk_back_steady(t: Seq<char>)
    requires
        walk_back(t, 0) is Some,
    ensures
        steady(compiled(t).reverse()),
        forall|c: char| #[trigger]
            absorbs(compiled(t).reverse(), c) == open_takes(walk_back(t, 0)->0, c),
{
    assert(t.skip(0) =~= t);
    lemma_walk_back_is_run_back(t, 0);
    lemma_run_back_steady(compiled(t));
}

} // verus!
