use screeps_build::category::Category;
use screeps_build::decimal::{push_decimal, push_digits};
use screeps_build::error::PipelineError;

fn decimal(n: i32) -> String {
    let mut out = String::new();
    push_decimal(&mut out, n);
    out
}

#[test]
fn digits_are_decimal() {
    for n in [0u64, 1, 9, 10, 11, 99, 100, 101, 1_000_000, u64::MAX] {
        let mut out = String::from("n=");
        push_digits(&mut out, n);
        assert_eq!(out, format!("n={}", n));
    }
}

#[test]
fn numbers_carry_their_sign() {
    for n in [0, 1, -1, 7, -7, 10, -10, 101, -128, 255, i32::MAX, i32::MIN, i32::MIN + 1] {
        assert_eq!(decimal(n), n.to_string());
    }
    let mut out = String::from("code ");
    push_decimal(&mut out, -42);
    assert_eq!(out, "code -42");
}

#[test]
fn extensions_of_the_categories() {
    assert_eq!(Category::BinaryModule.extension(), "wasm");
    assert_eq!(Category::LoaderScript.extension(), "js");
    assert_eq!(Category::Ignored.extension(), "");
}

#[test]
fn spawn_message_names_the_program() {
    let e = PipelineError::Spawn { program: "cargo".to_string() };
    assert_eq!(e.message(), "error: could not start 'cargo'");
}

#[test]
fn execution_message_carries_the_code() {
    let e = PipelineError::Execution { code: Some(101) };
    assert_eq!(e.message(), "error: the toolchain exited with a non-zero exit code: 101");
    let e = PipelineError::Execution { code: Some(-3) };
    assert_eq!(e.message(), "error: the toolchain exited with a non-zero exit code: -3");
    let e = PipelineError::Execution { code: None };
    assert_eq!(e.message(), "error: the toolchain was stopped before it left an exit code");
}

#[test]
fn artifact_messages_name_directory_and_category() {
    let e = PipelineError::MissingArtifact {
        directory: "target/x/release/".to_string(),
        category: Category::BinaryModule,
    };
    assert_eq!(e.message(), "error: no wasm files found in target/x/release/");
    let e = PipelineError::MissingArtifact {
        directory: "d".to_string(),
        category: Category::LoaderScript,
    };
    assert_eq!(e.message(), "error: no js files found in d");
    let e = PipelineError::AmbiguousArtifact {
        directory: "target/x/release/".to_string(),
        category: Category::LoaderScript,
    };
    assert_eq!(e.message(), "error: multiple js files found in target/x/release/");
    let e = PipelineError::AmbiguousArtifact {
        directory: "d".to_string(),
        category: Category::BinaryModule,
    };
    assert_eq!(e.message(), "error: multiple wasm files found in d");
}

#[test]
fn structure_message_names_the_file_and_asks_for_an_update() {
    let e = PipelineError::UnexpectedStructure { file: "target/out.js".to_string() };
    let message = e.message();
    assert!(message.ends_with(" target/out.js"));
    assert!(message.contains("unexpected structure"));
    assert!(message.contains("has to be updated"));
}

#[test]
fn entry_point_message_names_the_function() {
    assert_eq!(
        PipelineError::MissingEntryPoint.message(),
        "error: the toolchain generated a script without the function '__initialize'"
    );
}
