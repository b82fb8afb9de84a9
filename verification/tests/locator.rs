use screeps_build::category::Category;
use screeps_build::error::PipelineError;
use screeps_build::category::{classify, BINARY_EXTENSION, SCRIPT_EXTENSION};
use screeps_build::locator::{scan, Located};

fn names(list: &[&str]) -> Vec<String> {
    list.iter().map(|s| s.to_string()).collect()
}

fn ambiguous(category: Category) -> Result<Located, PipelineError> {
    Err(PipelineError::AmbiguousArtifact { directory: "out/dir".to_string(), category })
}

fn missing(category: Category) -> Result<Located, PipelineError> {
    Err(PipelineError::MissingArtifact { directory: "out/dir".to_string(), category })
}

#[test]
fn classify_goes_by_the_extension() {
    assert_eq!(BINARY_EXTENSION, "wasm");
    assert_eq!(SCRIPT_EXTENSION, "js");
    assert_eq!(classify("out.wasm"), Category::BinaryModule);
    assert_eq!(classify("out.js"), Category::LoaderScript);
    assert_eq!(classify("a.b.wasm"), Category::BinaryModule);
    assert_eq!(classify("a.wasm.js"), Category::LoaderScript);
    assert_eq!(classify("..js"), Category::LoaderScript);
    assert_eq!(classify("out.d"), Category::Ignored);
    assert_eq!(classify("out.WASM"), Category::Ignored);
    assert_eq!(classify("out.wasm "), Category::Ignored);
    assert_eq!(classify("out.jsx"), Category::Ignored);
    assert_eq!(classify("outjs"), Category::Ignored);
    assert_eq!(classify("js"), Category::Ignored);
    assert_eq!(classify(".js"), Category::Ignored);
    assert_eq!(classify(".wasm"), Category::Ignored);
    assert_eq!(classify("wasm"), Category::Ignored);
    assert_eq!(classify("out."), Category::Ignored);
    assert_eq!(classify(""), Category::Ignored);
}

#[test]
fn classify_agrees_with_the_standard_library() {
    let all = [
        "out.wasm", "out.js", "a.b.wasm", "..js", ".js", ".wasm", "js", "out.", "out", "a.js.map",
        "x.wasm.d", "\u{e9}.js", "...wasm",
    ];
    for name in all {
        let expected = match std::path::Path::new(name).extension().and_then(|e| e.to_str()) {
            Some("wasm") => Category::BinaryModule,
            Some("js") => Category::LoaderScript,
            _ => Category::Ignored,
        };
        assert_eq!(classify(name), expected, "{:?}", name);
    }
}

#[test]
fn one_file_of_each_kind_is_found() {
    let found = scan("out/dir", &names(&["out.d", "out.wasm", "deps", "out.js"])).unwrap();
    assert_eq!(found, Located { binary: "out.wasm".to_string(), script: "out.js".to_string() });
    let found = scan("out/dir", &names(&["b.js", "a.wasm"])).unwrap();
    assert_eq!(found, Located { binary: "a.wasm".to_string(), script: "b.js".to_string() });
}

#[test]
fn a_missing_kind_is_named() {
    assert_eq!(scan("out/dir", &names(&[])), missing(Category::BinaryModule));
    assert_eq!(scan("out/dir", &names(&["out.js"])), missing(Category::BinaryModule));
    assert_eq!(scan("out/dir", &names(&["out.wasm"])), missing(Category::LoaderScript));
    assert_eq!(scan("out/dir", &names(&["out.d", "x.wasm.d"])), missing(Category::BinaryModule));
}

#[test]
fn a_repeated_kind_is_named() {
    assert_eq!(
        scan("out/dir", &names(&["a.wasm", "b.wasm", "a.js"])),
        ambiguous(Category::BinaryModule)
    );
    assert_eq!(
        scan("out/dir", &names(&["a.wasm", "a.js", "b.js"])),
        ambiguous(Category::LoaderScript)
    );
    assert_eq!(
        scan("out/dir", &names(&["a.wasm", "a.wasm"])),
        ambiguous(Category::BinaryModule)
    );
}

#[test]
fn the_first_repeat_wins_and_comes_before_what_is_missing() {
    assert_eq!(
        scan("out/dir", &names(&["a.js", "a.wasm", "b.js", "b.wasm"])),
        ambiguous(Category::LoaderScript)
    );
    assert_eq!(
        scan("out/dir", &names(&["a.js", "a.wasm", "b.wasm", "b.js"])),
        ambiguous(Category::BinaryModule)
    );
    assert_eq!(scan("out/dir", &names(&["a.js", "b.js"])), ambiguous(Category::LoaderScript));
}
