use screeps_build::runner::{CommandSpec, ExecutionResult, Mode, TARGET_FLAG, TOOLCHAIN};

#[test]
fn check_command() {
    let command = CommandSpec::for_mode(Mode::Check, "some/root");
    assert_eq!(command.program, "cargo");
    assert_eq!(command.args, vec!["check", "--target=wasm32-unknown-unknown"]);
    assert_eq!(command.working_dir, "some/root");
}

#[test]
fn build_command() {
    let command = CommandSpec::for_mode(Mode::Build, "");
    assert_eq!(command.program, TOOLCHAIN);
    assert_eq!(command.args, vec!["web", "build", TARGET_FLAG, "--release"]);
    assert_eq!(command.working_dir, "");
}

#[test]
fn only_code_zero_is_success() {
    assert!(ExecutionResult { code: Some(0) }.success());
    for code in [Some(1), Some(-1), Some(i32::MAX), Some(i32::MIN), None] {
        assert!(!ExecutionResult { code }.success());
    }
}
