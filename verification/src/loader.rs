//! From the generated loader script to the script that the host runs: what
//! the generated script must look like, what is taken out of it, and what is
//! put after it.

use vstd::prelude::*;
use vstd::slice::slice_subrange;
use vstd::string::*;
use crate::error::PipelineError;
use crate::pattern::{span, Anchor, MatchSpan, Pattern};
use crate::template::compiled;
use crate::text::chars_of;

verus! {

/// How the generated script begins. Whitespace may differ; `XXX` stands for
/// a name that the toolchain chooses.
pub const EXPECTED_PREFIX: &'static str = r#""use strict";

if( typeof Rust === "undefined" ) {
    var Rust = {};
}

(function( root, factory ) {
    if( typeof define === "function" && define.amd ) {
        define( [], factory );
    } else if( typeof module === "object" && module.exports ) {
        module.exports = factory();
    } else {
        Rust.XXX = factory();
    }
}( this, function() {
    "#;

/// How the generated script ends. Whitespace may differ; `XXX` stands for a
/// name that the toolchain chooses.
pub const EXPECTED_SUFFIX: &'static str = r#"


    if( typeof window === "undefined" ) {
        const fs = require( "fs" );
        const path = require( "path" );
        const wasm_path = path.join( __dirname, "XXX.wasm" );
        const buffer = fs.readFileSync( wasm_path );
        const mod = new WebAssembly.Module( buffer );

        return __initialize( mod, false );
    } else {
        return fetch( "XXX.wasm" )
            .then( response => response.arrayBuffer() )
            .then( bytes => WebAssembly.compile( bytes ) )
            .then( mod => __initialize( mod, true ) );
    }
}));
"#;

/// The name of the function that the generated script defines between its
/// beginning and its end, and that the host has to call.
pub const ENTRY_POINT: &'static str = "__initialize";

/// The call that starts the module on the host: the entry point, applied to
/// the compiled module, which the host hands out at once, and to `false`,
/// for a load that does not wait.
pub const SCREEPS_JS_INITIALIZE_CALL: &'static str = r#"
__initialize(new WebAssembly.Module(require('compiled')), false);
"#;

/// Whether `needle` occurs in `hay` as a run of consecutive characters.
pub open spec fn occurs(needle: Seq<char>, hay: Seq<char>) -> bool {
    exists|i: int| occurs_at(needle, hay, i)
}

/// Whether `needle` occurs in `hay` at position `i`.
pub open spec fn occurs_at(needle: Seq<char>, hay: Seq<char>, i: int) -> bool {
    0 <= i && i + needle.len() <= hay.len() && hay.subrange(i, i + needle.len()) == needle
}

/// The script for the host, made from what the generated script wraps: the
/// payload, a line break, and the call of the entry point.
pub open spec fn assembled(payload: Seq<char>) -> Seq<char> {
    payload.push('\n') + SCREEPS_JS_INITIALIZE_CALL@
}

/// What is wrong with a generated script.
#[derive(Copy, Clone, Debug, PartialEq, Eq, Structural)]
pub enum Flaw {
    /// Its beginning or its end is not the expected one, or the two overlap.
    UnexpectedStructure,
    /// What lies between them does not name the entry point.
    MissingEntryPoint,
}

/// What is made of a text whose expected beginning was found at `prefix` and
/// whose expected end was found at `suffix`; `None` stands for not found.
/// The payload is what lies between the two.
pub open spec fn extracted(
    text: Seq<char>,
    prefix: Option<(int, int)>,
    suffix: Option<(int, int)>,
) -> Result<Seq<char>, Flaw> {
    match (prefix, suffix) {
        (Some((_, prefix_end)), Some((suffix_start, _))) => {
            if 0 <= prefix_end <= suffix_start <= text.len() {
                let payload = text.subrange(prefix_end, suffix_start);
                if occurs(ENTRY_POINT@, payload) {
                    Ok(payload)
                } else {
                    Err(Flaw::MissingEntryPoint)
                }
            } else {
                Err(Flaw::UnexpectedStructure)
            }
        },
        _ => Err(Flaw::UnexpectedStructure),
    }
}

/// What is made of the generated script `text`: the script for the host, or
/// what is wrong with `text`.
pub open spec fn processed(text: Seq<char>) -> Result<Seq<char>, Flaw> {
    match extracted(
        text,
        span(compiled(EXPECTED_PREFIX@), Anchor::Start, text),
        span(compiled(EXPECTED_SUFFIX@), Anchor::End, text),
    ) {
        Ok(payload) => Ok(assembled(payload)),
        Err(flaw) => Err(flaw),
    }
}

/// Whether the result `r`, reached for the file `file_name`, is what the
/// outcome `expected` asks for.
pub open spec fn renders(
    r: Result<String, PipelineError>,
    expected: Result<Seq<char>, Flaw>,
    file_name: Seq<char>,
) -> bool {
    match (r, expected) {
        (Ok(got), Ok(text)) => got@ == text,
        (Err(PipelineError::UnexpectedStructure { file }), Err(Flaw::UnexpectedStructure)) => file@
            == file_name,
        (Err(PipelineError::MissingEntryPoint), Err(Flaw::MissingEntryPoint)) => true,
        _ => false,
    }
}

/// Tests whether `needle` occurs in `hay`.
pub fn contains(hay: &[char], needle: &[char]) -> (r: bool)
    ensures
        r == occurs(needle@, hay@),
{
    let n = hay.len();
    let k = needle.len();
    if n < k {
        assert(!occurs(needle@, hay@)) by {
            if occurs(needle@, hay@) {
                let i = choose|i: int| occurs_at(needle@, hay@, i);
                assert(occurs_at(needle@, hay@, i));
            }
        }
        return false;
    }
    let last = n - k;
    let mut i: usize = 0;
    while i <= last
        invariant
            i <= last + 1,
            last == n - k,
            n == hay@.len(),
            k == needle@.len(),
            forall|q: int| 0 <= q < i ==> !occurs_at(needle@, hay@, q),
        decreases last + 1 - i,
    {
        let mut j: usize = 0;
        while j < k && hay[i + j] == needle[j]
            invariant
                j <= k,
                k == needle@.len(),
                i + k <= n,
                n == hay@.len(),
                forall|q: int| 0 <= q < j ==> hay@[i + q] == needle@[q],
            decreases k - j,
        {
            j += 1;
        }
        if j == k {
            assert(hay@.subrange(i as int, i + k) =~= needle@);
            assert(occurs_at(needle@, hay@, i as int));
            return true;
        }
        assert(!occurs_at(needle@, hay@, i as int)) by {
            if occurs_at(needle@, hay@, i as int) {
                assert(hay@.subrange(i as int, i + k)[j as int] == needle@[j as int]);
            }
        }
        if i == last {
            assert(!occurs(needle@, hay@)) by {
                if occurs(needle@, hay@) {
                    let q = choose|q: int| occurs_at(needle@, hay@, q);
                    assert(occurs_at(needle@, hay@, q));
                }
            }
            return false;
        }
        i += 1;
    }
    assert(!occurs(needle@, hay@)) by {
        if occurs(needle@, hay@) {
            let q = choose|q: int| occurs_at(needle@, hay@, q);
            assert(occurs_at(needle@, hay@, q));
        }
    }
    false
}

/// Takes the payload out of `subject`, given where its expected beginning
/// and its expected end were found. The end must not start before the
/// beginning is over, and the payload must name the entry point.
pub fn extract(
    file_name: &str,
    subject: &str,
    prefix: Option<MatchSpan>,
    suffix: Option<MatchSpan>,
) -> (r: Result<String, PipelineError>)
    ensures
        renders(r, extracted(subject@, places(prefix), places(suffix)), file_name@),
{
    let cs = chars_of(subject);
    extract_from(file_name, subject, cs.as_slice(), prefix, suffix)
}

/// A match as a pair of positions.
pub open spec fn places(m: Option<MatchSpan>) -> Option<(int, int)> {
    match m {
        Some(m) => Some((m.start as int, m.end as int)),
        None => None,
    }
}

fn extract_from(
    file_name: &str,
    subject: &str,
    cs: &[char],
    prefix: Option<MatchSpan>,
    suffix: Option<MatchSpan>,
) -> (r: Result<String, PipelineError>)
    requires
        cs@ == subject@,
    ensures
        renders(r, extracted(subject@, places(prefix), places(suffix)), file_name@),
{
    let (from, to) = match (prefix, suffix) {
        (Some(p), Some(s)) => (p.end, s.start),
        _ => {
            return Err(PipelineError::UnexpectedStructure { file: String::from_str(file_name) });
        },
    };
    if !(from <= to && to <= cs.len()) {
        return Err(PipelineError::UnexpectedStructure { file: String::from_str(file_name) });
    }
    let marker = chars_of(ENTRY_POINT);
    if !contains(slice_subrange(cs, from, to), marker.as_slice()) {
        return Err(PipelineError::MissingEntryPoint);
    }
    Ok(String::from_str(subject.substring_char(from, to)))
}

/// Puts the call of the entry point after the payload.
pub fn assemble(payload: &str) -> (r: String)
    ensures
        r@ == assembled(payload@),
{
    let mut out = String::from_str(payload);
    out.append("\n");
    out.append(SCREEPS_JS_INITIALIZE_CALL);
    proof {
        reveal_strlit("\n");
        assert("\n"@ =~= Seq::<char>::empty().push('\n'));
        assert(payload@ + "\n"@ =~= payload@.push('\n'));
    }
    out
}

/// Turns the generated script `input`, read from the file `file_name`, into
/// the script for the host.
pub fn process_js(file_name: &str, input: &str) -> (r: Result<String, PipelineError>)
    ensures
        renders(r, processed(input@), file_name@),
{
    let cs = chars_of(input);
    let expected_prefix = Pattern::compile(EXPECTED_PREFIX, Anchor::Start);
    let expected_suffix = Pattern::compile(EXPECTED_SUFFIX, Anchor::End);
    let prefix_match = expected_prefix.find_in(cs.as_slice());
    let suffix_match = expected_suffix.find_in(cs.as_slice());
    match extract_from(file_name, input, cs.as_slice(), prefix_match, suffix_match) {
        Ok(payload) => Ok(assemble(payload.as_str())),
        Err(e) => Err(e),
    }
}

} // verus!
