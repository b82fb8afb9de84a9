//! The toolchain as a command: what is run, and what its exit says.

use vstd::prelude::*;
use vstd::string::*;
use crate::error::PipelineError;

verus! {

/// What the step is asked to do.
#[derive(Copy, Clone, Debug, PartialEq, Eq, Structural)]
pub enum Mode {
    /// Only have the toolchain check the project.
    Check,
    /// Have the toolchain build the project, and make the host's files.
    Build,
}

/// A command: a program, its arguments, and the directory it runs in.
#[derive(Clone, Debug, PartialEq, Eq)]
pub struct CommandSpec {
    pub program: String,
    pub args: Vec<String>,
    pub working_dir: String,
}

/// How a command ended: its exit code, where it left one.
#[derive(Copy, Clone, Debug, PartialEq, Eq, Structural)]
pub struct ExecutionResult {
    pub code: Option<i32>,
}

/// The program that is run in either mode.
pub const TOOLCHAIN: &'static str = "cargo";

/// The platform that the toolchain is asked to build for.
pub const TARGET_FLAG: &'static str = "--target=wasm32-unknown-unknown";

/// The arguments that the toolchain gets in mode `mode`.
pub open spec fn arguments(mode: Mode) -> Seq<Seq<char>> {
    match mode {
        Mode::Check => Seq::empty().push("check"@).push(TARGET_FLAG@),
        Mode::Build => Seq::empty().push("web"@).push("build"@).push(TARGET_FLAG@).push(
            "--release"@,
        ),
    }
}

/// Whether `command` runs the toolchain in mode `mode` in the directory
/// `root`.
pub open spec fn runs(command: CommandSpec, mode: Mode, root: Seq<char>) -> bool {
    &&& command.program@ == TOOLCHAIN@
    &&& command.working_dir@ == root
    &&& command.args@.len() == arguments(mode).len()
    &&& forall|i: int| 0 <= i < command.args@.len() ==> #[trigger] command.args@[i]@ == arguments(mode)[i]
}

impl CommandSpec {
    /// The command that runs the toolchain in mode `mode` on the project in
    /// the directory `root`.
    pub fn for_mode(mode: Mode, root: &str) -> (command: CommandSpec)
        ensures
            runs(command, mode, root@),
    {
        let mut args: Vec<String> = Vec::new();
        match mode {
            Mode::Check => {
                args.push(String::from_str("check"));
                args.push(String::from_str(TARGET_FLAG));
            },
            Mode::Build => {
                args.push(String::from_str("web"));
                args.push(String::from_str("build"));
                args.push(String::from_str(TARGET_FLAG));
                args.push(String::from_str("--release"));
            },
        }
        CommandSpec {
            program: String::from_str(TOOLCHAIN),
            args,
            working_dir: String::from_str(root),
        }
    }
}

impl ExecutionResult {
    /// Whether the command succeeded: it left the exit code 0.
    pub open spec fn succeeded(self) -> bool {
        self.code == Some(0i32)
    }

    /// Whether the command succeeded.
    pub fn success(&self) -> (r: bool)
        ensures
            r == self.succeeded(),
    {
        match self.code {
            Some(c) => c == 0,
            None => false,
        }
    }

    /// What the exit of the toolchain means for the step: it goes on after
    /// success, and stops with the exit code after anything else.
    pub fn interpret(&self) -> (r: Result<(), PipelineError>)
        ensures
            self.succeeded() ==> r is Ok,
            !self.succeeded() ==> r == Err::<(), PipelineError>(
                PipelineError::Execution { code: self.code },
            ),
    {
        if self.success() {
            Ok(())
        } else {
            Err(PipelineError::Execution { code: self.code })
        }
    }
}

} // verus!
