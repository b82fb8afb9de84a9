//! What holds of matching and extraction as a whole.

use vstd::prelude::*;
use crate::charclass::is_space;
use crate::error::PipelineError;
use crate::filling::{filled, lemma_filled_conforms};
use crate::frontier::lemma_conforms_beginning;
use crate::loader::{
    assembled, extracted, occurs, occurs_at, processed, renders, Flaw, ENTRY_POINT,
    EXPECTED_PREFIX, EXPECTED_SUFFIX,
};
use crate::shipped::{lemma_prefix_steady, lemma_suffix_steady};
use crate::mirror::lemma_conforms_mirror;
use crate::pattern::{
    is_longest_beginning, is_longest_ending, lemma_beginning_end_is, lemma_beginning_end_none,
    lemma_ending_start_is, lemma_ending_start_none, span, Anchor,
};
use crate::steady::{
    absorbs, lemma_longer_absorbs, lemma_steady_beginning, lemma_steady_longest, steady, takes,
};
use crate::template::{all_ident, compiled, conforms, cut, lemma_conforms_cut, Segment};

verus! {

/// Where some beginning of a text conforms, one of them is the longest.
pub proof fn lemma_longest_beginning_exists(segs: Seq<Segment>, text: Seq<char>, k: int)
    requires
        0 <= k <= text.len(),
        conforms(segs, text.take(k)),
    ensures
        exists|e: int| k <= e && is_longest_beginning(segs, text, e),
    decreases text.len() - k,
{
    if exists|m: int| k < m <= text.len() && conforms(segs, #[trigger] text.take(m)) {
        let m = choose|m: int| k < m <= text.len() && conforms(segs, #[trigger] text.take(m));
        lemma_longest_beginning_exists(segs, text, m);
    } else {
        assert(is_longest_beginning(segs, text, k));
    }
}

/// Where some ending of a text conforms, one of them is the longest.
pub proof fn lemma_longest_ending_exists(segs: Seq<Segment>, text: Seq<char>, k: int)
    requires
        0 <= k <= text.len(),
        conforms(segs, text.skip(k)),
    ensures
        exists|s: int| s <= k && is_longest_ending(segs, text, s),
    decreases k,
{
    if exists|m: int| 0 <= m < k && conforms(segs, #[trigger] text.skip(m)) {
        let m = choose|m: int| 0 <= m < k && conforms(segs, #[trigger] text.skip(m));
        lemma_longest_ending_exists(segs, text, m);
    } else {
        assert(is_longest_ending(segs, text, k));
    }
}

/// A pattern matches at no more than one place: whatever place meets what
/// `span` asks of a match is the place that `span` gives.
pub proof fn lemma_one_place(segs: Seq<Segment>, anchor: Anchor, text: Seq<char>, at: int)
    requires
        match anchor {
            Anchor::Start => is_longest_beginning(segs, text, at),
            Anchor::End => is_longest_ending(segs, text, at),
        },
    ensures
        span(segs, anchor, text) == match anchor {
            Anchor::Start => Some((0int, at)),
            Anchor::End => Some((at, text.len() as int)),
        },
{
    match anchor {
        Anchor::Start => lemma_beginning_end_is(segs, text, at),
        Anchor::End => lemma_ending_start_is(segs, text, at),
    }
}

/// A text that is made of a text conforming to one template, anything, and
/// a text conforming to another template is matched by both: by the first
/// at its start, at least as far as the first part goes, and by the second
/// at its end, at least from where the last part begins.
pub proof fn lemma_made_text_matches(
    pre: Seq<Segment>,
    suf: Seq<Segment>,
    head: Seq<char>,
    payload: Seq<char>,
    tail: Seq<char>,
)
    requires
        conforms(pre, head),
        conforms(suf, tail),
    ensures
        match span(pre, Anchor::Start, head + payload + tail) {
            Some((start, end)) => start == 0 && head.len() <= end,
            None => false,
        },
        match span(suf, Anchor::End, head + payload + tail) {
            Some((start, end)) => start <= head.len() + payload.len() && end == (head + payload
                + tail).len(),
            None => false,
        },
{
    let text = head + payload + tail;
    let h = head.len() as int;
    let t = (head.len() + payload.len()) as int;
    assert(text.take(h) =~= head);
    assert(text.skip(t) =~= tail);
    lemma_longest_beginning_exists(pre, text, h);
    let e = choose|e: int| h <= e && is_longest_beginning(pre, text, e);
    lemma_beginning_end_is(pre, text, e);
    lemma_longest_ending_exists(suf, text, t);
    let s = choose|s: int| s <= t && is_longest_ending(suf, text, s);
    lemma_ending_start_is(suf, text, s);
}

/// In a template that is steady when read from the right, a conforming
/// ending that stands after a character which the template, read from the
/// right, does not absorb is the longest one.
pub proof fn lemma_steady_longest_ending(segs: Seq<Segment>, text: Seq<char>, s: int)
    requires
        steady(segs.reverse()),
        0 <= s <= text.len(),
        conforms(segs, text.skip(s)),
        0 < s ==> !absorbs(segs.reverse(), text[s - 1]),
    ensures
        forall|k: int| 0 <= k < s ==> !conforms(segs, #[trigger] text.skip(k)),
{
    let back = text.reverse();
    let n = text.len() as int;
    assert forall|k: int| 0 <= k <= n implies (conforms(segs.reverse(), back.take(n - k))
        <==> conforms(segs, #[trigger] text.skip(k))) by {
        assert(back.take(n - k) =~= text.skip(k).reverse());
        lemma_conforms_mirror(segs, text.skip(k));
    }
    if s > 0 {
        assert(back[n - s] == text[s - 1]);
    }
    lemma_steady_longest(segs.reverse(), back, n - s);
    assert forall|k: int| 0 <= k < s implies !conforms(segs, #[trigger] text.skip(k)) by {
        assert(!conforms(segs.reverse(), back.take(n - k)));
    }
}

/// A payload put between a text that conforms to the one template and a
/// text that conforms to the other is taken out again exactly. Both
/// templates are steady, the first from the left and the second from the
/// right, and the payload neither begins with a character that the first
/// template absorbs nor ends with one that the second absorbs. An extraction
/// that lacks the entry point is refused for that and for nothing else.
pub proof fn lemma_payload_recovered(
    pre: Seq<Segment>,
    suf: Seq<Segment>,
    head: Seq<char>,
    payload: Seq<char>,
    tail: Seq<char>,
)
    requires
        conforms(pre, head),
        conforms(suf, tail),
        steady(pre),
        steady(suf.reverse()),
        payload.len() > 0,
        !absorbs(pre, payload.first()),
        !absorbs(suf.reverse(), payload.last()),
    ensures
        span(pre, Anchor::Start, head + payload + tail) == Some((0int, head.len() as int)),
        span(suf, Anchor::End, head + payload + tail) == Some(
            ((head.len() + payload.len()) as int, (head + payload + tail).len() as int),
        ),
        extracted(
            head + payload + tail,
            span(pre, Anchor::Start, head + payload + tail),
            span(suf, Anchor::End, head + payload + tail),
        ) == (if occurs(ENTRY_POINT@, payload) {
            Ok::<Seq<char>, Flaw>(payload)
        } else {
            Err::<Seq<char>, Flaw>(Flaw::MissingEntryPoint)
        }),
{
    let text = head + payload + tail;
    let h = head.len() as int;
    let t = (head.len() + payload.len()) as int;
    assert(text.take(h) =~= head);
    assert(text.skip(t) =~= tail);
    assert(text[h] == payload.first());
    assert(text[t - 1] == payload.last());
    lemma_steady_longest(pre, text, h);
    lemma_beginning_end_is(pre, text, h);
    lemma_steady_longest_ending(suf, text, t);
    lemma_ending_start_is(suf, text, t);
    assert(text.subrange(h, t) =~= payload);
}

/// A text in which a literal of the template is altered matches nowhere.
/// More exactly: the template is steady; a beginning of the text conforms to
/// what comes before one of the template's literals; the character after
/// that beginning is not the literal, nor one that the segments before the
/// literal absorb. Then no beginning of the text conforms to the template.
pub proof fn lemma_altered_literal(
    segs: Seq<Segment>,
    text: Seq<char>,
    j: int,
    at: int,
    c: char,
)
    requires
        steady(segs),
        0 <= j < segs.len(),
        segs[j] == Segment::Literal(c),
        0 <= at < text.len(),
        conforms(segs.take(j), text.take(at)),
        text[at] != c,
        !absorbs(segs.take(j), text[at]),
    ensures
        span(segs, Anchor::Start, text) is None,
{
    let before = segs.take(j);
    lemma_steady_beginning(segs, j);
    assert forall|k: int| 0 <= k <= text.len() implies !conforms(segs, #[trigger] text.take(k)) by {
        if conforms(segs, text.take(k)) {
            lemma_conforms_beginning(segs, text.take(k), j + 1);
            let q = choose|q: int|
                0 <= q <= text.take(k).len() && #[trigger] conforms(
                    segs.take(j + 1),
                    text.take(k).take(q),
                );
            assert(text.take(k).take(q) =~= text.take(q));
            let upto = segs.take(j + 1);
            lemma_conforms_cut(upto, text.take(q));
            let m = choose|m: int| cut(upto, text.take(q), m);
            assert(upto.drop_last() =~= before);
            assert(upto.last() == segs[j]);
            assert(text.take(q).take(m) =~= text.take(m));
            assert(text.take(q).skip(m)[0] == text[m]);
            assert(m == q - 1);
            assert(text[m] == c);
            if at < m {
                lemma_longer_absorbs(before, text, at, m);
            } else if m < at {
                lemma_longer_absorbs(before, text, m, at);
                assert(takes(segs[j], c));
            }
        }
    }
    lemma_beginning_end_none(segs, text);
}

/// A text in which a literal of the template is altered matches nowhere,
/// for a template tied to the end. The template is steady when read from
/// the right; an ending of the text conforms to what comes after one of the
/// template's literals; the character before that ending is not the literal,
/// nor one that the segments after the literal, read from the right, absorb.
/// Then no ending of the text conforms to the template.
pub proof fn lemma_altered_literal_ending(
    segs: Seq<Segment>,
    text: Seq<char>,
    j: int,
    at: int,
    c: char,
)
    requires
        steady(segs.reverse()),
        0 <= j < segs.len(),
        segs[j] == Segment::Literal(c),
        0 <= at < text.len(),
        conforms(segs.skip(j + 1), text.skip(at + 1)),
        text[at] != c,
        !absorbs(segs.skip(j + 1).reverse(), text[at]),
    ensures
        span(segs, Anchor::End, text) is None,
{
    let back_segs = segs.reverse();
    let back = text.reverse();
    let n = text.len() as int;
    let m = segs.len() as int;
    assert(back_segs.take(m - 1 - j) =~= segs.skip(j + 1).reverse());
    assert(back.take(n - 1 - at) =~= text.skip(at + 1).reverse());
    lemma_conforms_mirror(segs.skip(j + 1), text.skip(at + 1));
    assert(back_segs[m - 1 - j] == segs[j]);
    assert(back[n - 1 - at] == text[at]);
    lemma_altered_literal(back_segs, back, m - 1 - j, n - 1 - at, c);
    assert forall|k: int| 0 <= k <= n implies !conforms(segs, #[trigger] text.skip(k)) by {
        assert(back.take(n - k) =~= text.skip(k).reverse());
        lemma_conforms_mirror(segs, text.skip(k));
        if conforms(segs, text.skip(k)) {
            lemma_longest_beginning_exists(back_segs, back, n - k);
            let e = choose|e: int| n - k <= e && is_longest_beginning(back_segs, back, e);
            lemma_beginning_end_is(back_segs, back, e);
        }
    }
    lemma_ending_start_none(segs, text);
}

/// A script that the toolchain may have generated is processed into its
/// payload and the call. The script is made of a text that conforms to the
/// expected beginning, a payload, and a text that conforms to the expected
/// end; the payload neither begins nor ends with whitespace, which would
/// count as part of what surrounds it. A payload that does not name the
/// entry point is refused for that.
pub proof fn lemma_generated_script_processed(
    head: Seq<char>,
    payload: Seq<char>,
    tail: Seq<char>,
)
    requires
        conforms(compiled(EXPECTED_PREFIX@), head),
        conforms(compiled(EXPECTED_SUFFIX@), tail),
        payload.len() > 0,
        !is_space(payload.first()),
        !is_space(payload.last()),
    ensures
        span(compiled(EXPECTED_PREFIX@), Anchor::Start, head + payload + tail) == Some(
            (0int, head.len() as int),
        ),
        span(compiled(EXPECTED_SUFFIX@), Anchor::End, head + payload + tail) == Some(
            ((head.len() + payload.len()) as int, (head + payload + tail).len() as int),
        ),
        processed(head + payload + tail) == (if occurs(ENTRY_POINT@, payload) {
            Ok::<Seq<char>, Flaw>(assembled(payload))
        } else {
            Err::<Seq<char>, Flaw>(Flaw::MissingEntryPoint)
        }),
{
    lemma_prefix_steady();
    lemma_suffix_steady();
    lemma_payload_recovered(
        compiled(EXPECTED_PREFIX@),
        compiled(EXPECTED_SUFFIX@),
        head,
        payload,
        tail,
    );
}

/// The two written templates, each with a name in the place of its
/// sentinels, and a payload between them that names the entry point make a
/// script that is processed into that payload and the call. The names are
/// not empty and made of the placeholder alphabet; the payload neither
/// begins nor ends with whitespace.
pub proof fn lemma_filled_script_processed(
    first_name: Seq<char>,
    second_name: Seq<char>,
    payload: Seq<char>,
)
    requires
        first_name.len() > 0,
        all_ident(first_name),
        second_name.len() > 0,
        all_ident(second_name),
        occurs(ENTRY_POINT@, payload),
        !is_space(payload.first()),
        !is_space(payload.last()),
    ensures
        processed(
            filled(EXPECTED_PREFIX@, first_name) + payload + filled(EXPECTED_SUFFIX@, second_name),
        ) == Ok::<Seq<char>, Flaw>(assembled(payload)),
{
    reveal_strlit("__initialize");
    let i = choose|i: int| occurs_at(ENTRY_POINT@, payload, i);
    assert(occurs_at(ENTRY_POINT@, payload, i));
    lemma_filled_conforms(EXPECTED_PREFIX@, first_name);
    lemma_filled_conforms(EXPECTED_SUFFIX@, second_name);
    lemma_generated_script_processed(
        filled(EXPECTED_PREFIX@, first_name),
        payload,
        filled(EXPECTED_SUFFIX@, second_name),
    );
}

/// A generated script with an altered literal in its beginning is refused
/// as being of unexpected structure. A beginning of the script conforms to
/// what comes before one of the literals of the expected beginning; the
/// character after it is not that literal, nor one that the segments before
/// the literal absorb.
pub proof fn lemma_altered_beginning_refused(text: Seq<char>, j: int, at: int, c: char)
    requires
        0 <= j < compiled(EXPECTED_PREFIX@).len(),
        compiled(EXPECTED_PREFIX@)[j] == Segment::Literal(c),
        0 <= at < text.len(),
        conforms(compiled(EXPECTED_PREFIX@).take(j), text.take(at)),
        text[at] != c,
        !absorbs(compiled(EXPECTED_PREFIX@).take(j), text[at]),
    ensures
        processed(text) == Err::<Seq<char>, Flaw>(Flaw::UnexpectedStructure),
{
    lemma_prefix_steady();
    lemma_altered_literal(compiled(EXPECTED_PREFIX@), text, j, at, c);
}

/// A generated script with an altered literal in its end is refused as
/// being of unexpected structure. An ending of the script conforms to what
/// comes after one of the literals of the expected end; the character
/// before it is not that literal, nor one that the segments after the
/// literal, read from the right, absorb.
pub proof fn lemma_altered_ending_refused(text: Seq<char>, j: int, at: int, c: char)
    requires
        0 <= j < compiled(EXPECTED_SUFFIX@).len(),
        compiled(EXPECTED_SUFFIX@)[j] == Segment::Literal(c),
        0 <= at < text.len(),
        conforms(compiled(EXPECTED_SUFFIX@).skip(j + 1), text.skip(at + 1)),
        text[at] != c,
        !absorbs(compiled(EXPECTED_SUFFIX@).skip(j + 1).reverse(), text[at]),
    ensures
        processed(text) == Err::<Seq<char>, Flaw>(Flaw::UnexpectedStructure),
{
    lemma_suffix_steady();
    lemma_altered_literal_ending(compiled(EXPECTED_SUFFIX@), text, j, at, c);
}

/// A generated script whose beginning or whose end matches nowhere is
/// refused as being of unexpected structure, whatever else it holds.
pub proof fn lemma_unmatched_refused(text: Seq<char>)
    requires
        span(compiled(EXPECTED_PREFIX@), Anchor::Start, text) is None || span(
            compiled(EXPECTED_SUFFIX@),
            Anchor::End,
            text,
        ) is None,
    ensures
        processed(text) == Err::<Seq<char>, Flaw>(Flaw::UnexpectedStructure),
{
}

/// A payload without the entry point gives no script: where the beginning
/// and the end were found, in this order, and what lies between them does
/// not name the entry point, the extraction fails for that reason.
pub proof fn lemma_missing_entry_point(
    text: Seq<char>,
    prefix: (int, int),
    suffix: (int, int),
)
    requires
        0 <= prefix.1 <= suffix.0 <= text.len(),
        !occurs(ENTRY_POINT@, text.subrange(prefix.1, suffix.0)),
    ensures
        extracted(text, Some(prefix), Some(suffix)) == Err::<Seq<char>, Flaw>(
            Flaw::MissingEntryPoint,
        ),
{
}

/// Two runs on one input end alike: with the same script, character for
/// character, or with the same error.
pub proof fn lemma_same_input_same_output(
    first: Result<String, PipelineError>,
    second: Result<String, PipelineError>,
    file_name: Seq<char>,
    text: Seq<char>,
)
    requires
        renders(first, processed(text), file_name),
        renders(second, processed(text), file_name),
    ensures
        match (first, second) {
            (Ok(a), Ok(b)) => a@ == b@,
            (
                Err(PipelineError::UnexpectedStructure { file: a }),
                Err(PipelineError::UnexpectedStructure { file: b }),
            ) => a@ == b@,
            (Err(PipelineError::MissingEntryPoint), Err(PipelineError::MissingEntryPoint)) => true,
            _ => false,
        },
{
}

} // verus!
