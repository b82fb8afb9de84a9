use screeps_build::category::Category;
use screeps_build::error::PipelineError;
use screeps_build::loader::{assemble, EXPECTED_PREFIX, EXPECTED_SUFFIX};
use screeps_build::locator::Located;
use screeps_build::pipeline::{
    Action, Event, Pipeline, Stage, BINARY_OUTPUT, BUILD_OUTPUT_DIR, OUTPUT_DIR, SCRIPT_OUTPUT,
};
use screeps_build::runner::{CommandSpec, ExecutionResult, Mode, TARGET_FLAG, TOOLCHAIN};

const PAYLOAD: &str = "function __initialize(a,b){...}";

fn generated(payload: &str) -> String {
    format!(
        "{}{}{}",
        EXPECTED_PREFIX.replace("XXX", "out"),
        payload,
        EXPECTED_SUFFIX.replace("XXX", "out")
    )
}

/// A project directory that lives in memory, and a toolchain that leaves a
/// given exit code.
struct Project {
    exit: Option<Option<i32>>,
    build_output: Vec<(String, Vec<u8>)>,
    written: Vec<(String, Vec<u8>)>,
    commands: Vec<CommandSpec>,
}

impl Project {
    fn new(files: &[(&str, &[u8])]) -> Project {
        Project {
            exit: Some(Some(0)),
            build_output: files.iter().map(|(n, b)| (n.to_string(), b.to_vec())).collect(),
            written: Vec::new(),
            commands: Vec::new(),
        }
    }

    fn file(&self, name: &str) -> Vec<u8> {
        self.build_output.iter().find(|(n, _)| n == name).unwrap().1.clone()
    }

    fn run(&mut self, mode: Mode) -> Result<(), PipelineError> {
        let (mut state, mut action) = Pipeline::start(mode, "/project");
        loop {
            let event = match action {
                Action::Run(command) => {
                    self.commands.push(command);
                    match self.exit {
                        None => Event::SpawnFailed,
                        Some(code) => Event::Exited(ExecutionResult { code }),
                    }
                }
                Action::List => Event::Listed {
                    directory: format!("/project/{}", BUILD_OUTPUT_DIR),
                    entries: self.build_output.iter().map(|(n, _)| n.clone()).collect(),
                },
                Action::ReadScript { name } => Event::Read {
                    file: format!("/project/{}{}", BUILD_OUTPUT_DIR, name),
                    text: String::from_utf8(self.file(&name)).unwrap(),
                },
                Action::Write { binary, script } => {
                    let module = self.file(&binary);
                    self.written.retain(|(n, _)| n != BINARY_OUTPUT && n != SCRIPT_OUTPUT);
                    self.written.push((BINARY_OUTPUT.to_string(), module));
                    self.written.push((SCRIPT_OUTPUT.to_string(), script.into_bytes()));
                    Event::Written
                }
                Action::Finish(result) => {
                    assert!(state.is_finished());
                    return result;
                }
                Action::Ignore => unreachable!(),
            };
            let next = state.step(event);
            state = next.0;
            action = next.1;
        }
    }
}

#[test]
fn fixed_places() {
    assert_eq!(BUILD_OUTPUT_DIR, "target/wasm32-unknown-unknown/release/");
    assert_eq!(OUTPUT_DIR, "target");
    assert_eq!(BINARY_OUTPUT, "compiled.wasm");
    assert_eq!(SCRIPT_OUTPUT, "main.js");
}

#[test]
fn build_writes_module_and_script() {
    let script = generated(PAYLOAD);
    let mut project =
        Project::new(&[("out.wasm", b"\0asm\x01\0\0\0"), ("out.js", script.as_bytes())]);
    assert_eq!(project.run(Mode::Build), Ok(()));
    assert_eq!(
        project.written,
        vec![
            ("compiled.wasm".to_string(), b"\0asm\x01\0\0\0".to_vec()),
            (
                "main.js".to_string(),
                format!(
                    "{}\n\n__initialize(new WebAssembly.Module(require('compiled')), false);\n",
                    PAYLOAD
                )
                .into_bytes()
            ),
        ]
    );
    assert_eq!(project.commands.len(), 1);
    assert_eq!(project.commands[0].program, "cargo");
    assert_eq!(
        project.commands[0].args,
        vec!["web", "build", "--target=wasm32-unknown-unknown", "--release"]
    );
    assert_eq!(project.commands[0].working_dir, "/project");
}

#[test]
fn two_modules_write_nothing() {
    let script = generated(PAYLOAD);
    let mut project = Project::new(&[
        ("a.wasm", b"one"),
        ("out.js", script.as_bytes()),
        ("b.wasm", b"two"),
    ]);
    assert_eq!(
        project.run(Mode::Build),
        Err(PipelineError::AmbiguousArtifact {
            directory: "/project/target/wasm32-unknown-unknown/release/".to_string(),
            category: Category::BinaryModule,
        })
    );
    assert!(project.written.is_empty());
}

#[test]
fn no_script_writes_nothing() {
    let mut project = Project::new(&[("a.wasm", b"one"), ("a.d", b"")]);
    assert_eq!(
        project.run(Mode::Build),
        Err(PipelineError::MissingArtifact {
            directory: "/project/target/wasm32-unknown-unknown/release/".to_string(),
            category: Category::LoaderScript,
        })
    );
    assert!(project.written.is_empty());
}

#[test]
fn altered_suffix_writes_nothing() {
    let script = generated(PAYLOAD).replace("return fetch( \"out.wasm\" )", "return load()");
    assert!(script.starts_with(&EXPECTED_PREFIX.replace("XXX", "out")));
    let mut project = Project::new(&[("out.wasm", b"\0asm"), ("out.js", script.as_bytes())]);
    assert_eq!(
        project.run(Mode::Build),
        Err(PipelineError::UnexpectedStructure {
            file: "/project/target/wasm32-unknown-unknown/release/out.js".to_string()
        })
    );
    assert!(project.written.is_empty());
}

#[test]
fn missing_entry_point_writes_nothing() {
    let script = generated("function start(){}");
    let mut project = Project::new(&[("out.wasm", b"\0asm"), ("out.js", script.as_bytes())]);
    assert_eq!(project.run(Mode::Build), Err(PipelineError::MissingEntryPoint));
    assert!(project.written.is_empty());
}

#[test]
fn a_failed_run_leaves_earlier_output_alone() {
    let script = generated(PAYLOAD);
    let mut project = Project::new(&[("out.wasm", b"\0asm"), ("out.js", script.as_bytes())]);
    assert_eq!(project.run(Mode::Build), Ok(()));
    let first = project.written.clone();
    project.build_output.push(("other.js".to_string(), Vec::new()));
    assert!(project.run(Mode::Build).is_err());
    assert_eq!(project.written, first);
}

#[test]
fn two_builds_write_the_same_bytes() {
    let script = generated(PAYLOAD);
    let mut project = Project::new(&[("out.wasm", b"\0asm"), ("out.js", script.as_bytes())]);
    assert_eq!(project.run(Mode::Build), Ok(()));
    let first = project.written.clone();
    assert_eq!(project.run(Mode::Build), Ok(()));
    assert_eq!(project.written, first);
    assert_eq!(first.len(), 2);
}

#[test]
fn check_runs_the_toolchain_and_nothing_else() {
    let mut project = Project::new(&[]);
    assert_eq!(project.run(Mode::Check), Ok(()));
    assert!(project.written.is_empty());
    assert_eq!(project.commands.len(), 1);
    assert_eq!(project.commands[0].program, TOOLCHAIN);
    assert_eq!(project.commands[0].args, vec!["check", TARGET_FLAG]);
}

#[test]
fn a_toolchain_that_does_not_start_stops_the_step() {
    for mode in [Mode::Check, Mode::Build] {
        let mut project = Project::new(&[("out.wasm", b"\0asm")]);
        project.exit = None;
        assert_eq!(
            project.run(mode),
            Err(PipelineError::Spawn { program: "cargo".to_string() })
        );
        assert!(project.written.is_empty());
    }
}

#[test]
fn a_toolchain_that_fails_stops_the_step_with_its_code() {
    for mode in [Mode::Check, Mode::Build] {
        for code in [Some(101), Some(1), Some(-1), None] {
            let script = generated(PAYLOAD);
            let mut project =
                Project::new(&[("out.wasm", b"\0asm"), ("out.js", script.as_bytes())]);
            project.exit = Some(code);
            assert_eq!(project.run(mode), Err(PipelineError::Execution { code }));
            assert!(project.written.is_empty());
        }
    }
}

#[test]
fn steps_follow_one_another() {
    let (state, action) = Pipeline::start(Mode::Build, "root");
    assert_eq!(state, Pipeline { mode: Mode::Build, stage: Stage::Toolchain });
    assert_eq!(action, Action::Run(CommandSpec::for_mode(Mode::Build, "root")));
    let (state, action) = state.step(Event::Exited(ExecutionResult { code: Some(0) }));
    assert_eq!(state.stage, Stage::Listing);
    assert_eq!(action, Action::List);
    let (state, action) = state.step(Event::Listed {
        directory: "d".to_string(),
        entries: vec!["x.js".to_string(), "y.wasm".to_string()],
    });
    let found = Located { binary: "y.wasm".to_string(), script: "x.js".to_string() };
    assert_eq!(state.stage, Stage::Reading { found });
    assert_eq!(action, Action::ReadScript { name: "x.js".to_string() });
    let (state, action) =
        state.step(Event::Read { file: "d/x.js".to_string(), text: generated(PAYLOAD) });
    assert_eq!(state.stage, Stage::Writing);
    assert_eq!(action, Action::Write { binary: "y.wasm".to_string(), script: assemble(PAYLOAD) });
    assert!(!state.is_finished());
    let (state, action) = state.step(Event::Written);
    assert_eq!(state, Pipeline { mode: Mode::Build, stage: Stage::Finished });
    assert_eq!(action, Action::Finish(Ok(())));
    assert!(state.is_finished());
}

#[test]
fn an_event_out_of_turn_changes_nothing() {
    let (state, _) = Pipeline::start(Mode::Build, "root");
    let (state, action) = state.step(Event::Written);
    assert_eq!(state.stage, Stage::Toolchain);
    assert_eq!(action, Action::Ignore);
    let (state, action) =
        state.step(Event::Read { file: "f".to_string(), text: generated(PAYLOAD) });
    assert_eq!(state.stage, Stage::Toolchain);
    assert_eq!(action, Action::Ignore);
    let (state, _) = state.step(Event::Exited(ExecutionResult { code: Some(0) }));
    let (state, action) = state.step(Event::Exited(ExecutionResult { code: Some(0) }));
    assert_eq!(state.stage, Stage::Listing);
    assert_eq!(action, Action::Ignore);
    let (state, action) = state.step(Event::SpawnFailed);
    assert_eq!(state.stage, Stage::Listing);
    assert_eq!(action, Action::Ignore);
    let (state, _) = state.step(Event::Listed { directory: "d".to_string(), entries: vec![] });
    assert!(state.is_finished());
    for event in [
        Event::Written,
        Event::SpawnFailed,
        Event::Exited(ExecutionResult { code: Some(0) }),
        Event::Listed { directory: "d".to_string(), entries: vec![] },
    ] {
        let (after, action) = state.clone().step(event);
        assert!(after.is_finished());
        assert_eq!(action, Action::Ignore);
    }
}

#[test]
fn exit_codes_are_interpreted() {
    assert!(ExecutionResult { code: Some(0) }.success());
    assert!(!ExecutionResult { code: Some(1) }.success());
    assert!(!ExecutionResult { code: None }.success());
    assert_eq!(ExecutionResult { code: Some(0) }.interpret(), Ok(()));
    assert_eq!(
        ExecutionResult { code: Some(3) }.interpret(),
        Err(PipelineError::Execution { code: Some(3) })
    );
    assert_eq!(
        ExecutionResult { code: None }.interpret(),
        Err(PipelineError::Execution { code: None })
    );
}
