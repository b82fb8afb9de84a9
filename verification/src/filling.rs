//! What a written template stands for: the shape of what is read from it,
//! and the texts that come of filling its placeholders in.

use vstd::prelude::*;
use crate::charclass::is_space;
use crate::mirror::{front_cut, lemma_conforms_front_cut};
use crate::template::{all_ident, at_sentinel, compiled, conforms, cons, Segment, SENTINEL};

verus! {

/// The written template `t` with `name` in the place of each sentinel.
pub open spec fn filled(t: Seq<char>, name: Seq<char>) -> Seq<char>
    decreases t.len(),
{
    if t.len() == 0 {
        Seq::empty()
    } else if at_sentinel(t) {
        name + filled(t.skip(3), name)
    } else {
        Seq::empty().push(t[0]) + filled(t.skip(1), name)
    }
}

/// Whether `seg` is anything but a literal whitespace character.
pub open spec fn plain(seg: Segment) -> bool {
    match seg {
        Segment::Literal(c) => !is_space(c),
        _ => true,
    }
}

/// Whether `segs` holds no whitespace as a literal and no two whitespace
/// wildcards side by side.
pub open spec fn tidy(segs: Seq<Segment>) -> bool {
    &&& forall|i: int| 0 <= i < segs.len() ==> plain(#[trigger] segs[i])
    &&& forall|i: int|
        0 <= i < segs.len() - 1 && #[trigger] segs[i] == Segment::Space ==> segs[i + 1]
            != Segment::Space
}

/// What `cons` puts together.
proof fn lemma_cons(x: Segment, rest: Seq<Segment>)
    ensures
        cons(x, rest).len() == rest.len() + 1,
        cons(x, rest)[0] == x,
        cons(x, rest).drop_first() == rest,
        forall|i: int| 1 <= i <= rest.len() ==> #[trigger] cons(x, rest)[i] == rest[i - 1],
{
    assert(cons(x, rest).drop_first() =~= rest);
}

/// What is read from a written template begins with a whitespace wildcard
/// exactly if the written template begins with whitespace.
pub proof fn lemma_compiled_first(t: Seq<char>)
    ensures
        (t.len() > 0 && is_space(t[0])) <==> (compiled(t).len() > 0 && compiled(t)[0]
            == Segment::Space),
    decreases t.len(),
{
    if t.len() > 0 {
        if is_space(t[0]) {
            if t.len() >= 2 && is_space(t[1]) {
                assert(t.skip(1)[0] == t[1]);
                lemma_compiled_first(t.skip(1));
            } else {
                lemma_cons(Segment::Space, compiled(t.skip(1)));
            }
        } else if at_sentinel(t) {
            lemma_cons(Segment::Placeholder, compiled(t.skip(3)));
        } else {
            lemma_cons(Segment::Literal(t[0]), compiled(t.skip(1)));
        }
    }
}

/// What is read from a written template is tidy: each run of whitespace has
/// become one wildcard, and every literal is a character that is not
/// whitespace.
pub proof fn lemma_compiled_tidy(t: Seq<char>)
    ensures
        tidy(compiled(t)),
    decreases t.len(),
{
    if t.len() == 0 {
    } else if is_space(t[0]) {
        lemma_compiled_tidy(t.skip(1));
        if !(t.len() >= 2 && is_space(t[1])) {
            lemma_compiled_first(t.skip(1));
            lemma_tidy_cons(Segment::Space, compiled(t.skip(1)));
        }
    } else if at_sentinel(t) {
        lemma_compiled_tidy(t.skip(3));
        lemma_tidy_cons(Segment::Placeholder, compiled(t.skip(3)));
    } else {
        lemma_compiled_tidy(t.skip(1));
        lemma_tidy_cons(Segment::Literal(t[0]), compiled(t.skip(1)));
    }
}

proof fn lemma_tidy_cons(x: Segment, rest: Seq<Segment>)
    requires
        tidy(rest),
        x == Segment::Space ==> rest.len() == 0 || rest[0] != Segment::Space,
        plain(x),
    ensures
        tidy(cons(x, rest)),
{
    let all = cons(x, rest);
    lemma_cons(x, rest);
    assert forall|i: int| 0 <= i < all.len() implies plain(#[trigger] all[i]) by {
        if i > 0 {
            assert(plain(rest[i - 1]));
        }
    }
    assert forall|i: int|
        0 <= i < all.len() - 1 && #[trigger] all[i] == Segment::Space implies all[i + 1]
        != Segment::Space by {
        if i > 0 {
            assert(rest[i - 1] == Segment::Space);
        }
    }
}

/// A written template with a name in the place of each sentinel conforms to
/// what is read from it, whatever the name, provided it is one: not empty,
/// and made of the placeholder alphabet.
pub proof fn lemma_filled_conforms(t: Seq<char>, name: Seq<char>)
    requires
        name.len() > 0,
        all_ident(name),
    ensures
        conforms(compiled(t), filled(t, name)),
    decreases t.len(),
{
    let text = filled(t, name);
    if t.len() == 0 {
    } else if at_sentinel(t) {
        let rest = compiled(t.skip(3));
        let segs = cons(Segment::Placeholder, rest);
        lemma_filled_conforms(t.skip(3), name);
        lemma_cons(Segment::Placeholder, rest);
        assert(text.take(name.len() as int) =~= name);
        assert(text.skip(name.len() as int) =~= filled(t.skip(3), name));
        assert(front_cut(segs, text, name.len() as int));
        lemma_conforms_front_cut(segs, text);
    } else {
        let rest = compiled(t.skip(1));
        let after = filled(t.skip(1), name);
        lemma_filled_conforms(t.skip(1), name);
        assert(text.skip(1) =~= after);
        assert(text.take(1) =~= Seq::empty().push(t[0]));
        if is_space(t[0]) && t.len() >= 2 && is_space(t[1]) {
            assert(t.skip(1)[0] == t[1]);
            lemma_compiled_first(t.skip(1));
            lemma_conforms_front_cut(rest, after);
            let k = choose|k: int| front_cut(rest, after, k);
            assert(text.skip(k + 1) =~= after.skip(k));
            assert forall|i: int| 0 <= i < k + 1 implies is_space(
                #[trigger] text.take(k + 1)[i],
            ) by {
                if i > 0 {
                    assert(text.take(k + 1)[i] == after.take(k)[i - 1]);
                }
            }
            assert(front_cut(rest, text, k + 1));
            lemma_conforms_front_cut(rest, text);
        } else if is_space(t[0]) {
            let segs = cons(Segment::Space, rest);
            lemma_cons(Segment::Space, rest);
            assert(front_cut(segs, text, 1));
            lemma_conforms_front_cut(segs, text);
        } else {
            let segs = cons(Segment::Literal(t[0]), rest);
            lemma_cons(Segment::Literal(t[0]), rest);
            assert(front_cut(segs, text, 1));
            lemma_conforms_front_cut(segs, text);
        }
    }
}

/// A written template with the sentinel in the place of each sentinel is
/// the written template.
pub proof fn lemma_filled_with_sentinel(t: Seq<char>)
    ensures
        filled(t, SENTINEL@) == t,
    decreases t.len(),
{
    reveal_strlit("XXX");
    if t.len() == 0 {
        assert(filled(t, SENTINEL@) =~= t);
    } else if at_sentinel(t) {
        lemma_filled_with_sentinel(t.skip(3));
        assert(SENTINEL@ + t.skip(3) =~= t);
    } else {
        lemma_filled_with_sentinel(t.skip(1));
        assert(Seq::empty().push(t[0]) + t.skip(1) =~= t);
    }
}

/// A written template conforms to what is read from it.
pub proof fn lemma_written_conforms(t: Seq<char>)
    ensures
        conforms(compiled(t), t),
{
    reveal_strlit("XXX");
    lemma_filled_with_sentinel(t);
    lemma_filled_conforms(t, SENTINEL@);
}

} // verus!
