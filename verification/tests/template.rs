use screeps_build::charclass::{ident, space};
use screeps_build::frontier::longest_beginning;
use screeps_build::loader::{EXPECTED_PREFIX, EXPECTED_SUFFIX};
use screeps_build::pattern::{reversed, Anchor, MatchSpan, Pattern};
use screeps_build::steady::is_steady;
use screeps_build::template::{compile_segments, Segment, SENTINEL};
use screeps_build::text::{chars_of, spells};

fn chars(s: &str) -> Vec<char> {
    s.chars().collect()
}

#[test]
fn character_classes() {
    for c in [' ', '\t', '\n', '\r', '\u{0B}', '\u{0C}', '\u{85}', '\u{A0}', '\u{2003}', '\u{3000}'] {
        assert!(space(c), "{:?}", c);
        assert!(!ident(c), "{:?}", c);
    }
    for c in ['a', 'z', 'A', 'Z', '0', '9', '_'] {
        assert!(ident(c), "{:?}", c);
        assert!(!space(c), "{:?}", c);
    }
    for c in ['-', '.', '$', '{', '\u{e9}', '\u{200B}'] {
        assert!(!ident(c), "{:?}", c);
        assert!(!space(c), "{:?}", c);
    }
}

#[test]
fn space_agrees_with_the_standard_library() {
    for n in 0..=0x3100u32 {
        if let Some(c) = char::from_u32(n) {
            assert_eq!(space(c), c.is_whitespace(), "{:x}", n);
        }
    }
}

#[test]
fn strings_become_characters() {
    assert_eq!(chars_of("a\u{e9}b"), vec!['a', '\u{e9}', 'b']);
    assert_eq!(chars_of(""), Vec::<char>::new());
    assert!(spells(&chars("wasm"), "wasm"));
    assert!(!spells(&chars("wasm"), "was"));
    assert!(!spells(&chars("was"), "wasm"));
    assert!(!spells(&chars("wasm"), "wasn"));
    assert!(spells(&[], ""));
}

#[test]
fn compile_reads_literals_runs_and_sentinels() {
    assert_eq!(SENTINEL, "XXX");
    assert_eq!(compile_segments(""), vec![]);
    assert_eq!(
        compile_segments("a b"),
        vec![Segment::Literal('a'), Segment::Space, Segment::Literal('b')]
    );
    assert_eq!(
        compile_segments("a \n\t b"),
        vec![Segment::Literal('a'), Segment::Space, Segment::Literal('b')]
    );
    assert_eq!(
        compile_segments("  x.XXX = 1;\n"),
        vec![
            Segment::Space,
            Segment::Literal('x'),
            Segment::Literal('.'),
            Segment::Placeholder,
            Segment::Space,
            Segment::Literal('='),
            Segment::Space,
            Segment::Literal('1'),
            Segment::Literal(';'),
            Segment::Space,
        ]
    );
}

#[test]
fn compile_reads_sentinels_from_the_left() {
    assert_eq!(compile_segments("XXX"), vec![Segment::Placeholder]);
    assert_eq!(compile_segments("XX"), vec![Segment::Literal('X'), Segment::Literal('X')]);
    assert_eq!(compile_segments("XXXX"), vec![Segment::Placeholder, Segment::Literal('X')]);
    assert_eq!(
        compile_segments("XXXXXXX"),
        vec![Segment::Placeholder, Segment::Placeholder, Segment::Literal('X')]
    );
    assert_eq!(
        compile_segments("XX X"),
        vec![Segment::Literal('X'), Segment::Literal('X'), Segment::Space, Segment::Literal('X')]
    );
}

#[test]
fn compile_escapes_nothing_but_matches_exactly() {
    let p = Pattern::compile("a.b(c)*", Anchor::Start);
    assert_eq!(p.find("a.b(c)*x"), Some(MatchSpan { start: 0, end: 7 }));
    assert_eq!(p.find("axb(c)*x"), None);
    assert_eq!(p.find("a.b(c)(c)"), None);
}

#[test]
fn start_anchor_takes_the_longest_beginning() {
    let p = Pattern::compile("a b ", Anchor::Start);
    assert_eq!(p.find("ab"), Some(MatchSpan { start: 0, end: 2 }));
    assert_eq!(p.find("a   b   c"), Some(MatchSpan { start: 0, end: 8 }));
    assert_eq!(p.find("a\nb\n\n"), Some(MatchSpan { start: 0, end: 5 }));
    assert_eq!(p.find(" ab"), None);
    assert_eq!(p.find("a"), None);
    assert_eq!(p.find(""), None);
}

#[test]
fn end_anchor_takes_the_longest_ending() {
    let p = Pattern::compile(" a b", Anchor::End);
    assert_eq!(p.find("ab"), Some(MatchSpan { start: 0, end: 2 }));
    assert_eq!(p.find("c   a   b"), Some(MatchSpan { start: 1, end: 9 }));
    assert_eq!(p.find("ab "), None);
    assert_eq!(p.find("b"), None);
    assert_eq!(p.find(""), None);
}

#[test]
fn empty_template_matches_the_empty_span() {
    let start = Pattern::compile("", Anchor::Start);
    let end = Pattern::compile("", Anchor::End);
    assert_eq!(start.find("abc"), Some(MatchSpan { start: 0, end: 0 }));
    assert_eq!(end.find("abc"), Some(MatchSpan { start: 3, end: 3 }));
    assert_eq!(start.find(""), Some(MatchSpan { start: 0, end: 0 }));
}

#[test]
fn placeholder_needs_one_character_at_least() {
    let p = Pattern::compile("x.XXX;", Anchor::Start);
    assert_eq!(p.find("x.name_1;"), Some(MatchSpan { start: 0, end: 9 }));
    assert_eq!(p.find("x.n;"), Some(MatchSpan { start: 0, end: 4 }));
    assert_eq!(p.find("x.;"), None);
    assert_eq!(p.find("x.na-me;"), None);
    assert_eq!(p.find("x.na me;"), None);
}

#[test]
fn placeholder_gives_back_what_a_later_literal_needs() {
    let p = Pattern::compile("XXXa", Anchor::Start);
    assert_eq!(p.find("bba"), Some(MatchSpan { start: 0, end: 3 }));
    assert_eq!(p.find("baaa."), Some(MatchSpan { start: 0, end: 4 }));
    assert_eq!(p.find("a"), None);
    let q = Pattern::compile("XXX ab", Anchor::Start);
    assert_eq!(q.find("fooab"), Some(MatchSpan { start: 0, end: 5 }));
    assert_eq!(q.find("foo ab"), Some(MatchSpan { start: 0, end: 6 }));
}

#[test]
fn matching_counts_characters_not_bytes() {
    let p = Pattern::compile("\u{e9} =", Anchor::Start);
    assert_eq!(p.find("\u{e9}\u{a0}\u{2003}=\u{e9}"), Some(MatchSpan { start: 0, end: 4 }));
    let q = Pattern::compile("= \u{e9}", Anchor::End);
    assert_eq!(q.find("\u{e9}=\u{3000}\u{e9}"), Some(MatchSpan { start: 1, end: 4 }));
}

#[test]
fn longest_beginning_on_slices() {
    let segs = compile_segments("a XXX");
    assert_eq!(longest_beginning(&segs, &chars("a  bc d")), Some(5));
    assert_eq!(longest_beginning(&segs, &chars("abc")), Some(3));
    assert_eq!(longest_beginning(&segs, &chars("a ")), None);
    assert_eq!(longest_beginning(&[], &chars("a ")), Some(0));
}

#[test]
fn reversed_turns_round() {
    assert_eq!(reversed(&[1, 2, 3]), vec![3, 2, 1]);
    assert_eq!(reversed::<char>(&[]), Vec::<char>::new());
    assert_eq!(reversed(&chars("ab c")), chars("c ba"));
}

#[test]
fn shipped_templates_are_steady() {
    assert!(is_steady(&compile_segments(EXPECTED_PREFIX)));
    assert!(is_steady(&reversed(&compile_segments(EXPECTED_SUFFIX))));
}

#[test]
fn steadiness_is_told_apart() {
    assert!(is_steady(&compile_segments("")));
    assert!(is_steady(&compile_segments("a b")));
    assert!(is_steady(&compile_segments("x.XXX = 1")));
    assert!(is_steady(&compile_segments("XXX.wasm")));
    assert!(!is_steady(&compile_segments("XXXa")));
    assert!(!is_steady(&compile_segments("XXX a")));
    assert!(!is_steady(&compile_segments("XXXXXX")));
    assert!(!is_steady(&[Segment::Space, Segment::Space]));
    assert!(!is_steady(&[Segment::Space, Segment::Literal(' ')]));
    assert!(is_steady(&[Segment::Literal(' '), Segment::Space]));
    assert!(is_steady(&[Segment::Space, Segment::Placeholder, Segment::Space]));
    assert!(!is_steady(&[Segment::Placeholder, Segment::Space, Segment::Placeholder]));
}

fn engine_pattern(template: &str) -> String {
    let runs = regex::Regex::new("\\s+").unwrap();
    runs.replace_all(&regex::escape(template), "\\s*").replace("XXX", "[A-Za-z0-9_]+")
}

fn engine_find(template: &str, anchor: Anchor, subject: &str) -> Option<MatchSpan> {
    let source = match anchor {
        Anchor::Start => format!("^{}", engine_pattern(template)),
        Anchor::End => format!("{}$", engine_pattern(template)),
    };
    let found = regex::Regex::new(&source).unwrap().find(subject)?;
    Some(MatchSpan {
        start: subject[..found.start()].chars().count(),
        end: subject[..found.end()].chars().count(),
    })
}

fn subjects() -> Vec<String> {
    let exact = format!(
        "{}function __initialize(a,b){{...}}{}",
        EXPECTED_PREFIX.replace("XXX", "out"),
        EXPECTED_SUFFIX.replace("XXX", "out")
    );
    let squeezed: String = {
        let mut s = String::new();
        let mut in_space = false;
        for c in exact.chars() {
            if c.is_whitespace() {
                if !in_space {
                    s.push(' ');
                }
                in_space = true;
            } else {
                s.push(c);
                in_space = false;
            }
        }
        s
    };
    vec![
        exact.clone(),
        squeezed,
        exact.replace("\n", "\r\n\t"),
        exact.replace("out", "my_crate_2"),
        exact.replace("out", ""),
        exact.replace("return fetch(", "return load("),
        exact.replace("\"use strict\";", "'use strict';"),
        exact.replace("typeof", "type of"),
        exact[..exact.len() / 2].to_string(),
        exact[exact.len() / 3..].to_string(),
        format!("{}\n\n", exact),
        format!("  {}", exact),
        String::new(),
        "\u{e9}t\u{e9}".to_string(),
    ]
}

#[test]
fn shipped_templates_agree_with_a_regular_expression_engine() {
    for subject in subjects() {
        for (template, anchor) in
            [(EXPECTED_PREFIX, Anchor::Start), (EXPECTED_SUFFIX, Anchor::End)]
        {
            let ours = Pattern::compile(template, anchor).find(&subject);
            assert_eq!(ours, engine_find(template, anchor, &subject), "{:?}", subject);
        }
    }
}

#[test]
fn small_templates_agree_with_a_regular_expression_engine() {
    let templates = ["a b", " a", "a ", "x.XXX = 1;", "f( XXX )", "XXX.wasm", "a.b(c)*", "{ XXX }\n"];
    let texts = [
        "a b", "ab", "a   b  ", "  a", "x.y = 1;", "x.y=1;", "x. = 1;", "f(a)", "f(  a_b  )", "f()",
        "k.wasm", ".wasm", "a.b(c)*", "aXb(c)*", "{k}", "{ k } ", "{ }", "  {\tk9\n}\n\n",
        "f( a ) f( b )", "x.y = 1;x.z = 1;",
    ];
    for template in templates {
        for text in texts {
            for anchor in [Anchor::Start, Anchor::End] {
                let ours = Pattern::compile(template, anchor).find(text);
                assert_eq!(ours, engine_find(template, anchor, text), "{:?} in {:?}", template, text);
            }
        }
    }
}

#[test]
fn long_texts_are_matched_quickly() {
    let mut payload = String::from("function __initialize(a,b){");
    for i in 0..40_000 {
        payload.push_str("  call_");
        payload.push_str(&i.to_string());
        payload.push_str("();\n");
    }
    payload.push('}');
    let text = format!(
        "{}{}{}",
        EXPECTED_PREFIX.replace("XXX", "out"),
        payload,
        EXPECTED_SUFFIX.replace("XXX", "out")
    );
    let prefix = Pattern::compile(EXPECTED_PREFIX, Anchor::Start).find(&text).unwrap();
    let suffix = Pattern::compile(EXPECTED_SUFFIX, Anchor::End).find(&text).unwrap();
    let all: Vec<char> = text.chars().collect();
    let between: String = all[prefix.end..suffix.start].iter().collect();
    assert_eq!(between, payload);
}
