//! Anchored patterns: a template tied to the start or to the end of the text
//! it is looked for in, and the one place where it matches.

use vstd::prelude::*;
use crate::frontier::longest_beginning;
use crate::mirror::lemma_conforms_mirror;
use crate::template::{compile_segments, compiled, conforms, Segment};
use crate::text::chars_of;

verus! {

/// The end of the text that a pattern is tied to.
#[derive(Copy, Clone, Debug, PartialEq, Eq, Structural)]
pub enum Anchor {
    /// The match begins where the text begins.
    Start,
    /// The match ends where the text ends.
    End,
}

/// A template together with the end of the text it is tied to.
#[derive(Clone, Debug)]
pub struct Pattern {
    pub segments: Vec<Segment>,
    pub anchor: Anchor,
}

/// The place of a match: the characters from `start` up to, not including,
/// `end`, counted from 0.
#[derive(Copy, Clone, Debug, PartialEq, Eq, Structural)]
pub struct MatchSpan {
    pub start: usize,
    pub end: usize,
}

/// Whether the first `e` characters of `text` are its longest beginning that
/// conforms to `segs`.
pub open spec fn is_longest_beginning(segs: Seq<Segment>, text: Seq<char>, e: int) -> bool {
    &&& 0 <= e <= text.len()
    &&& conforms(segs, text.take(e))
    &&& forall|k: int| e < k <= text.len() ==> !conforms(segs, #[trigger] text.take(k))
}

/// Whether the characters of `text` from `s` on are its longest ending that
/// conforms to `segs`.
pub open spec fn is_longest_ending(segs: Seq<Segment>, text: Seq<char>, s: int) -> bool {
    &&& 0 <= s <= text.len()
    &&& conforms(segs, text.skip(s))
    &&& forall|k: int| 0 <= k < s ==> !conforms(segs, #[trigger] text.skip(k))
}

/// Where the longest beginning of `text` that conforms to `segs` ends, if
/// any beginning conforms.
pub open spec fn beginning_end(segs: Seq<Segment>, text: Seq<char>) -> Option<int> {
    if exists|e: int| is_longest_beginning(segs, text, e) {
        Some(choose|e: int| is_longest_beginning(segs, text, e))
    } else {
        None
    }
}

/// Where the longest ending of `text` that conforms to `segs` starts, if any
/// ending conforms.
pub open spec fn ending_start(segs: Seq<Segment>, text: Seq<char>) -> Option<int> {
    if exists|s: int| is_longest_ending(segs, text, s) {
        Some(choose|s: int| is_longest_ending(segs, text, s))
    } else {
        None
    }
}

/// The one place where the template `segs`, tied to `anchor`, matches in
/// `text`: its longest conforming beginning, or its longest conforming
/// ending. `None` if it matches nowhere.
pub open spec fn span(segs: Seq<Segment>, anchor: Anchor, text: Seq<char>) -> Option<(int, int)> {
    match anchor {
        Anchor::Start => match beginning_end(segs, text) {
            Some(e) => Some((0, e)),
            None => None,
        },
        Anchor::End => match ending_start(segs, text) {
            Some(s) => Some((s, text.len() as int)),
            None => None,
        },
    }
}

/// The longest conforming beginning is the only one that is longest.
pub proof fn lemma_beginning_end_is(segs: Seq<Segment>, text: Seq<char>, e: int)
    requires
        is_longest_beginning(segs, text, e),
    ensures
        beginning_end(segs, text) == Some(e),
{
    let c = choose|c: int| is_longest_beginning(segs, text, c);
    if c < e {
        assert(!conforms(segs, text.take(e)));
    }
    if e < c {
        assert(!conforms(segs, text.take(c)));
    }
}

/// The longest conforming ending is the only one that is longest.
pub proof fn lemma_ending_start_is(segs: Seq<Segment>, text: Seq<char>, s: int)
    requires
        is_longest_ending(segs, text, s),
    ensures
        ending_start(segs, text) == Some(s),
{
    let c = choose|c: int| is_longest_ending(segs, text, c);
    if c < s {
        assert(!conforms(segs, text.skip(c)));
    }
    if s < c {
        assert(!conforms(segs, text.skip(s)));
    }
}

/// No beginning conforms: there is no longest one.
pub proof fn lemma_beginning_end_none(segs: Seq<Segment>, text: Seq<char>)
    requires
        forall|k: int| 0 <= k <= text.len() ==> !conforms(segs, #[trigger] text.take(k)),
    ensures
        beginning_end(segs, text) is None,
{
    if exists|e: int| is_longest_beginning(segs, text, e) {
        let e = choose|e: int| is_longest_beginning(segs, text, e);
        assert(!conforms(segs, text.take(e)));
    }
}

/// No ending conforms: there is no longest one.
pub proof fn lemma_ending_start_none(segs: Seq<Segment>, text: Seq<char>)
    requires
        forall|k: int| 0 <= k <= text.len() ==> !conforms(segs, #[trigger] text.skip(k)),
    ensures
        ending_start(segs, text) is None,
{
    if exists|s: int| is_longest_ending(segs, text, s) {
        let s = choose|s: int| is_longest_ending(segs, text, s);
        assert(!conforms(segs, text.skip(s)));
    }
}

/// The items of `v` in the opposite order.
pub fn reversed<T: Copy>(v: &[T]) -> (r: Vec<T>)
    ensures
        r@ == v@.reverse(),
{
    let n = v.len();
    let mut r: Vec<T> = Vec::new();
    let mut i: usize = n;
    while i > 0
        invariant
            n == v@.len(),
            i <= n,
            r@.len() == n - i,
            forall|k: int| 0 <= k < r@.len() ==> r@[k] == v@[n - 1 - k],
        decreases i,
    {
        i -= 1;
        r.push(v[i]);
    }
    assert(r@ =~= v@.reverse());
    r
}

impl Pattern {
    /// Reads a pattern from the written form of its template.
    pub fn compile(template_text: &str, anchor: Anchor) -> (p: Pattern)
        ensures
            p.segments@ == compiled(template_text@),
            p.anchor == anchor,
    {
        Pattern { segments: compile_segments(template_text), anchor }
    }

    /// Looks for the pattern in `subject`.
    pub fn find(&self, subject: &str) -> (r: Option<MatchSpan>)
        ensures
            match r {
                Some(m) => span(self.segments@, self.anchor, subject@) == Some(
                    (m.start as int, m.end as int),
                ),
                None => span(self.segments@, self.anchor, subject@) is None,
            },
    {
        let cs = chars_of(subject);
        self.find_in(cs.as_slice())
    }

    /// Looks for the pattern in the characters `subject`.
    pub fn find_in(&self, subject: &[char]) -> (r: Option<MatchSpan>)
        ensures
            match r {
                Some(m) => span(self.segments@, self.anchor, subject@) == Some(
                    (m.start as int, m.end as int),
                ),
                None => span(self.segments@, self.anchor, subject@) is None,
            },
    {
        let n = subject.len();
        let ghost segs = self.segments@;
        let ghost text = subject@;
        match self.anchor {
            Anchor::Start => match longest_beginning(self.segments.as_slice(), subject) {
                Some(e) => {
                    proof {
                        lemma_beginning_end_is(segs, text, e as int);
                    }
                    Some(MatchSpan { start: 0, end: e })
                },
                None => {
                    proof {
                        lemma_beginning_end_none(segs, text);
                    }
                    None
                },
            },
            Anchor::End => {
                let back_segs = reversed(self.segments.as_slice());
                let back = reversed(subject);
                proof {
                    assert forall|k: int| 0 <= k <= n implies (conforms(
                        back_segs@,
                        #[trigger] back@.take(k),
                    ) <==> conforms(segs, text.skip(n - k))) by {
                        assert(back@.take(k) =~= text.skip(n - k).reverse());
                        lemma_conforms_mirror(segs, text.skip(n - k));
                    }
                }
                match longest_beginning(back_segs.as_slice(), back.as_slice()) {
                    Some(e) => {
                        proof {
                            assert(conforms(back_segs@, back@.take(e as int)));
                            assert forall|k: int| 0 <= k < n - e implies !conforms(
                                segs,
                                #[trigger] text.skip(k),
                            ) by {
                                assert(!conforms(back_segs@, back@.take(n - k)));
                            }
                            lemma_ending_start_is(segs, text, n - e);
                        }
                        Some(MatchSpan { start: n - e, end: n })
                    },
                    None => {
                        proof {
                            assert forall|k: int| 0 <= k <= n implies !conforms(
                                segs,
                                #[trigger] text.skip(k),
                            ) by {
                                assert(!conforms(back_segs@, back@.take(n - k)));
                            }
                            lemma_ending_start_none(segs, text);
                        }
                        None
                    },
                }
            },
        }
    }
}

} // verus!
