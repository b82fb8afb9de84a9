use screeps_build::error::PipelineError;
use screeps_build::loader::{
    assemble, contains, extract, process_js, ENTRY_POINT, EXPECTED_PREFIX, EXPECTED_SUFFIX,
    SCREEPS_JS_INITIALIZE_CALL,
};
use screeps_build::pattern::{Anchor, MatchSpan, Pattern};

const CALL: &str = "\n__initialize(new WebAssembly.Module(require('compiled')), false);\n";

fn generated(name: &str, payload: &str) -> String {
    let prefix = EXPECTED_PREFIX.replace("XXX", name);
    let suffix = EXPECTED_SUFFIX.replace("XXX", name);
    format!("{}{}{}", prefix, payload, suffix)
}

fn respaced(template: &str, name: &str, gap: &str) -> String {
    let mut out = String::new();
    let mut in_space = false;
    for c in template.replace("XXX", name).chars() {
        if c.is_whitespace() {
            if !in_space {
                out.push_str(gap);
            }
            in_space = true;
        } else {
            out.push(c);
            in_space = false;
        }
    }
    out
}

fn unexpected(file: &str) -> Result<String, PipelineError> {
    Err(PipelineError::UnexpectedStructure { file: file.to_string() })
}

fn chars(s: &str) -> Vec<char> {
    s.chars().collect()
}

#[test]
fn the_call_is_the_fixed_one() {
    assert_eq!(SCREEPS_JS_INITIALIZE_CALL, CALL);
    assert_eq!(ENTRY_POINT, "__initialize");
    assert!(SCREEPS_JS_INITIALIZE_CALL.contains("__initialize("));
    assert!(SCREEPS_JS_INITIALIZE_CALL.contains(", false);"));
}

#[test]
fn exact_template_yields_payload_and_call() {
    let payload = "function __initialize(a,b){...}";
    let input = generated("out", payload);
    let script = process_js("out.js", &input).unwrap();
    assert_eq!(
        script,
        "function __initialize(a,b){...}\n\n__initialize(new WebAssembly.Module(require('compiled')), false);\n"
    );
    assert_eq!(script, format!("{}\n{}", payload, SCREEPS_JS_INITIALIZE_CALL));
    assert_eq!(script, assemble(payload));
}

#[test]
fn assemble_puts_the_call_on_a_line_of_its_own() {
    assert_eq!(assemble(""), format!("\n{}", CALL));
    assert_eq!(assemble("x"), format!("x\n{}", CALL));
    assert_eq!(assemble("\u{e9}\n"), format!("\u{e9}\n\n{}", CALL));
}

#[test]
fn whitespace_and_names_may_differ() {
    let payload = "function __initialize(a,b){ return 1; }";
    for gap in ["", " ", "\n", "\r\n", "\t \t", " \u{a0}\n\n  "] {
        for name in ["out", "my_crate", "A", "x9_"] {
            let input = format!(
                "{}{}{}",
                respaced(EXPECTED_PREFIX, name, gap),
                payload,
                respaced(EXPECTED_SUFFIX, name, gap)
            );
            assert_eq!(process_js("out.js", &input), Ok(assemble(payload)), "{:?} {:?}", gap, name);
        }
    }
}

#[test]
fn the_two_names_need_not_agree() {
    let payload = "function __initialize(a,b){}";
    let input = format!(
        "{}{}{}",
        EXPECTED_PREFIX.replace("XXX", "one"),
        payload,
        EXPECTED_SUFFIX.replacen("XXX", "two", 1).replace("XXX", "three")
    );
    assert_eq!(process_js("out.js", &input), Ok(assemble(payload)));
}

#[test]
fn whitespace_round_the_payload_belongs_to_the_templates() {
    let payload = "function __initialize(a,b){}";
    let input = generated("out", &format!("\n\n   {}  \n", payload));
    assert_eq!(process_js("out.js", &input), Ok(assemble(payload)));
}

#[test]
fn spans_of_the_exact_template() {
    let payload = "var __initialize;";
    let input = generated("out", payload);
    let prefix = Pattern::compile(EXPECTED_PREFIX, Anchor::Start).find(&input).unwrap();
    let suffix = Pattern::compile(EXPECTED_SUFFIX, Anchor::End).find(&input).unwrap();
    let head = EXPECTED_PREFIX.replace("XXX", "out").chars().count();
    let all = input.chars().count();
    assert_eq!(prefix, MatchSpan { start: 0, end: head });
    assert_eq!(suffix, MatchSpan { start: head + payload.chars().count(), end: all });
}

#[test]
fn missing_marker_is_reported() {
    let input = generated("out", "function start(a,b){...}");
    assert_eq!(process_js("out.js", &input), Err(PipelineError::MissingEntryPoint));
    let input = generated("out", "function __initializ(a,b){...}");
    assert_eq!(process_js("out.js", &input), Err(PipelineError::MissingEntryPoint));
    let input = generated("out", "_initialize__");
    assert_eq!(process_js("out.js", &input), Err(PipelineError::MissingEntryPoint));
}

#[test]
fn the_marker_in_the_suffix_does_not_count() {
    let input = generated("out", "x");
    assert!(input.contains(ENTRY_POINT));
    assert_eq!(process_js("out.js", &input), Err(PipelineError::MissingEntryPoint));
}

#[test]
fn altered_suffix_is_unexpected_structure() {
    let payload = "function __initialize(a,b){...}";
    let input = generated("out", payload).replace("return fetch(", "return load(");
    assert_eq!(process_js("target/out.js", &input), unexpected("target/out.js"));
}

#[test]
fn altered_prefix_is_unexpected_structure() {
    let payload = "function __initialize(a,b){...}";
    let input = generated("out", payload).replace("\"use strict\";", "\"use strict\"");
    assert_eq!(process_js("out.js", &input), unexpected("out.js"));
    let input = generated("out", payload).replace("Rust.out", "Rust.o-ut");
    assert_eq!(process_js("out.js", &input), unexpected("out.js"));
    let input = generated("out", payload).replace("Rust.out", "Rust.");
    assert_eq!(process_js("out.js", &input), unexpected("out.js"));
}

#[test]
fn every_altered_literal_is_unexpected_structure() {
    let payload = "function __initialize(a,b){...}";
    let input: Vec<char> = generated("out", payload).chars().collect();
    let head = EXPECTED_PREFIX.replace("XXX", "out").chars().count();
    let tail_from = head + payload.chars().count();
    let name_places: Vec<usize> = {
        let text: String = input.iter().collect();
        let mut v = Vec::new();
        for (at, _) in text.match_indices("out") {
            if at < head || at >= tail_from {
                v.extend(at..at + 3);
            }
        }
        v
    };
    for at in (0..head).chain(tail_from..input.len()) {
        if input[at].is_whitespace() || name_places.contains(&at) {
            continue;
        }
        let mut altered = input.clone();
        altered[at] = '#';
        let text: String = altered.iter().collect();
        assert_eq!(process_js("out.js", &text), unexpected("out.js"), "at {}", at);
    }
}

#[test]
fn overlapping_matches_are_unexpected_structure() {
    let input = format!(
        "{}{}",
        EXPECTED_PREFIX.replace("XXX", "out").trim_end(),
        EXPECTED_SUFFIX.replace("XXX", "out")
    );
    let prefix = Pattern::compile(EXPECTED_PREFIX, Anchor::Start).find(&input).unwrap();
    let suffix = Pattern::compile(EXPECTED_SUFFIX, Anchor::End).find(&input).unwrap();
    assert!(prefix.end > suffix.start);
    assert_eq!(process_js("out.js", &input), unexpected("out.js"));
}

#[test]
fn short_and_empty_inputs_are_unexpected_structure() {
    assert_eq!(process_js("out.js", ""), unexpected("out.js"));
    assert_eq!(process_js("out.js", "__initialize"), unexpected("out.js"));
    assert_eq!(process_js("", EXPECTED_PREFIX), unexpected(""));
    assert_eq!(process_js("out.js", EXPECTED_SUFFIX), unexpected("out.js"));
}

#[test]
fn unfilled_template_is_accepted_with_its_sentinel_as_the_name() {
    let payload = "__initialize";
    let input = format!("{}{}{}", EXPECTED_PREFIX, payload, EXPECTED_SUFFIX);
    assert_eq!(process_js("out.js", &input), Ok(assemble(payload)));
}

#[test]
fn extract_takes_what_lies_between() {
    let text = "ab__initialize()cd";
    let prefix = Some(MatchSpan { start: 0, end: 2 });
    let suffix = Some(MatchSpan { start: 16, end: 18 });
    assert_eq!(extract("f.js", text, prefix, suffix), Ok("__initialize()".to_string()));
    let text = "\u{e9}\u{e9}__initialize\u{e9}";
    let prefix = Some(MatchSpan { start: 0, end: 2 });
    let suffix = Some(MatchSpan { start: 14, end: 15 });
    assert_eq!(extract("f.js", text, prefix, suffix), Ok("__initialize".to_string()));
}

#[test]
fn extract_refuses_what_is_out_of_order_or_not_found() {
    let text = "ab__initialize()cd";
    let a = Some(MatchSpan { start: 0, end: 2 });
    let b = Some(MatchSpan { start: 16, end: 18 });
    assert_eq!(extract("f.js", text, b, a), unexpected("f.js"));
    assert_eq!(extract("f.js", text, None, b), unexpected("f.js"));
    assert_eq!(extract("f.js", text, a, None), unexpected("f.js"));
    assert_eq!(extract("f.js", text, None, None), unexpected("f.js"));
    let beyond = Some(MatchSpan { start: 19, end: 19 });
    assert_eq!(extract("f.js", text, a, beyond), unexpected("f.js"));
    let touching = Some(MatchSpan { start: 2, end: 18 });
    assert_eq!(extract("f.js", text, a, touching), Err(PipelineError::MissingEntryPoint));
}

#[test]
fn extract_without_marker_fails_whatever_the_spans() {
    let text = "ab__initializ()cd";
    for from in 0..=text.len() {
        for to in from..=text.len() {
            let prefix = Some(MatchSpan { start: 0, end: from });
            let suffix = Some(MatchSpan { start: to, end: text.len() });
            assert_eq!(extract("f.js", text, prefix, suffix), Err(PipelineError::MissingEntryPoint));
        }
    }
}

#[test]
fn contains_finds_runs_of_characters() {
    let hay = chars("xx__initialize__yy");
    let needle = chars("__initialize");
    assert!(contains(&hay, &needle));
    assert!(contains(&hay[2..14], &needle));
    assert!(!contains(&hay[3..14], &needle));
    assert!(!contains(&hay[2..13], &needle));
    assert!(contains(&hay[4..16], &chars("initialize__")));
    assert!(!contains(&[], &needle));
    assert!(contains(&hay, &[]));
    assert!(contains(&[], &[]));
    assert!(contains(&hay, &chars("yy")));
    assert!(contains(&hay, &chars("xx_")));
    assert!(!contains(&hay, &chars("yyy")));
    assert!(!contains(&hay, &chars("x_x")));
}

#[test]
fn two_runs_give_the_same_script() {
    let input = generated("out", "function __initialize(a,b){...}");
    assert_eq!(process_js("out.js", &input), process_js("out.js", &input));
    let broken = input.replace("fetch", "load");
    assert_eq!(process_js("out.js", &broken), process_js("out.js", &broken));
}

#[test]
fn a_blank_for_a_literal_passes_where_the_payload_repeats_the_literal() {
    let payload = "{ function __initialize(a,b){} }";
    let input = generated("out", payload);
    let head = EXPECTED_PREFIX.replace("XXX", "out");
    let brace = head.rfind('{').unwrap();
    let mut altered = input.clone();
    altered.replace_range(brace..brace + 1, " ");
    assert_eq!(process_js("out.js", &altered), Ok(assemble("function __initialize(a,b){} }")));
}
