//! The build step as a whole. The step itself touches neither processes nor
//! files: it says what is to be done next, is told how that went, and
//! decides from there. Nothing is written before every check has passed.

use vstd::prelude::*;
use vstd::string::*;
use crate::error::PipelineError;
use crate::loader::{process_js, processed, renders};
use crate::locator::{scan, scanned, single, Located};
use crate::category::Category;
use crate::runner::{runs, CommandSpec, ExecutionResult, Mode, TOOLCHAIN};

verus! {

/// Where the toolchain leaves its files, below the project's directory.
pub const BUILD_OUTPUT_DIR: &'static str = "target/wasm32-unknown-unknown/release/";

/// Where the host's files go, below the project's directory.
pub const OUTPUT_DIR: &'static str = "target";

/// The name under which the compiled module is handed to the host.
pub const BINARY_OUTPUT: &'static str = "compiled.wasm";

/// The name under which the script is handed to the host.
pub const SCRIPT_OUTPUT: &'static str = "main.js";

/// How far the step has come.
#[derive(Clone, Debug, PartialEq, Eq)]
pub enum Stage {
    /// The toolchain runs.
    Toolchain,
    /// The names in the build output are being read.
    Listing,
    /// The loader script is being read. `found` names the toolchain's files.
    Reading { found: Located },
    /// The host's files are being written.
    Writing,
    /// The step is over.
    Finished,
}

/// The state of one run of the step.
#[derive(Clone, Debug, PartialEq, Eq)]
pub struct Pipeline {
    pub mode: Mode,
    pub stage: Stage,
}

/// What came of the work that the step asked for.
#[derive(Clone, Debug, PartialEq, Eq)]
pub enum Event {
    /// The toolchain could not be started.
    SpawnFailed,
    /// The toolchain ran and ended.
    Exited(ExecutionResult),
    /// The build output, a directory known as `directory`, holds the files
    /// `entries`.
    Listed { directory: String, entries: Vec<String> },
    /// The loader script, a file known as `file`, holds `text`.
    Read { file: String, text: String },
    /// The host's files are written.
    Written,
}

/// What the step asks for next.
#[derive(Debug, PartialEq, Eq)]
pub enum Action {
    /// Run this command, and let its output through.
    Run(CommandSpec),
    /// Read the names of the files in the build output.
    List,
    /// Read the file `name` of the build output.
    ReadScript { name: String },
    /// Copy the file `binary` of the build output to the host's module, and
    /// write `script` as the host's script, replacing what was there.
    Write { binary: String, script: String },
    /// Stop. The step has succeeded, or failed for the reason given.
    Finish(Result<(), PipelineError>),
    /// Nothing: the event was not the answer to what the step had asked for.
    Ignore,
}

impl Pipeline {
    /// Begins a run in mode `mode` on the project in the directory `root`:
    /// the toolchain is to be run.
    pub fn start(mode: Mode, root: &str) -> (r: (Pipeline, Action))
        ensures
            r.0.mode == mode,
            r.0.stage == Stage::Toolchain,
            match r.1 {
                Action::Run(command) => runs(command, mode, root@),
                _ => false,
            },
    {
        (Pipeline { mode, stage: Stage::Toolchain }, Action::Run(CommandSpec::for_mode(mode, root)))
    }

    /// Whether the step is over.
    pub fn is_finished(&self) -> (r: bool)
        ensures
            r == (self.stage == Stage::Finished),
    {
        match self.stage {
            Stage::Finished => true,
            _ => false,
        }
    }

    /// Takes in what came of the last action, and says what is to be done
    /// next; gives the state after it.
    pub fn step(self, event: Event) -> (r: (Pipeline, Action))
        ensures
            r.0.mode == self.mode,
            follows(self, event, r.0, r.1),
    {
        let mode = self.mode;
        let finished = Pipeline { mode, stage: Stage::Finished };
        match (self.stage, event) {
            (Stage::Toolchain, Event::SpawnFailed) => (
                finished,
                Action::Finish(Err(PipelineError::Spawn { program: String::from_str(TOOLCHAIN) })),
            ),
            (Stage::Toolchain, Event::Exited(result)) => match result.interpret() {
                Err(e) => (finished, Action::Finish(Err(e))),
                Ok(()) => match mode {
                    Mode::Check => (finished, Action::Finish(Ok(()))),
                    Mode::Build => (Pipeline { mode, stage: Stage::Listing }, Action::List),
                },
            },
            (Stage::Listing, Event::Listed { directory, entries }) => match scan(
                directory.as_str(),
                &entries,
            ) {
                Ok(found) => {
                    let name = found.script.clone();
                    (Pipeline { mode, stage: Stage::Reading { found } }, Action::ReadScript { name })
                },
                Err(e) => (finished, Action::Finish(Err(e))),
            },
            (Stage::Reading { found }, Event::Read { file, text }) => match process_js(
                file.as_str(),
                text.as_str(),
            ) {
                Ok(script) => (
                    Pipeline { mode, stage: Stage::Writing },
                    Action::Write { binary: found.binary, script },
                ),
                Err(e) => (finished, Action::Finish(Err(e))),
            },
            (Stage::Writing, Event::Written) => (finished, Action::Finish(Ok(()))),
            (stage, _) => (Pipeline { mode, stage }, Action::Ignore),
        }
    }
}

/// Whether the state `after` and the action `action` are what follows from
/// the state `before` and the event `event`.
pub open spec fn follows(before: Pipeline, event: Event, after: Pipeline, action: Action) -> bool {
    match (before.stage, event) {
        (Stage::Toolchain, Event::SpawnFailed) => {
            &&& after.stage == Stage::Finished
            &&& match action {
                Action::Finish(Err(PipelineError::Spawn { program })) => program@ == TOOLCHAIN@,
                _ => false,
            }
        },
        (Stage::Toolchain, Event::Exited(result)) => {
            if !result.succeeded() {
                &&& after.stage == Stage::Finished
                &&& action == Action::Finish(Err(PipelineError::Execution { code: result.code }))
            } else if before.mode == Mode::Check {
                &&& after.stage == Stage::Finished
                &&& action == Action::Finish(Ok(()))
            } else {
                &&& after.stage == Stage::Listing
                &&& action == Action::List
            }
        },
        (Stage::Listing, Event::Listed { directory, entries }) => {
            if single(entries@, Category::BinaryModule) && single(
                entries@,
                Category::LoaderScript,
            ) {
                match (after.stage, action) {
                    (Stage::Reading { found }, Action::ReadScript { name }) => {
                        &&& scanned(directory@, entries@, Ok(found))
                        &&& name@ == found.script@
                    },
                    _ => false,
                }
            } else {
                &&& after.stage == Stage::Finished
                &&& match action {
                    Action::Finish(Err(e)) => scanned(directory@, entries@, Err(e)),
                    _ => false,
                }
            }
        },
        (Stage::Reading { found }, Event::Read { file, text }) => {
            match processed(text@) {
                Ok(script) => {
                    &&& after.stage == Stage::Writing
                    &&& match action {
                        Action::Write { binary, script: written } => {
                            &&& binary@ == found.binary@
                            &&& written@ == script
                        },
                        _ => false,
                    }
                },
                Err(flaw) => {
                    &&& after.stage == Stage::Finished
                    &&& match action {
                        Action::Finish(Err(e)) => renders(Err(e), processed(text@), file@),
                        _ => false,
                    }
                },
            }
        },
        (Stage::Writing, Event::Written) => {
            &&& after.stage == Stage::Finished
            &&& action == Action::Finish(Ok(()))
        },
        _ => {
            &&& after.stage == before.stage
            &&& action == Action::Ignore
        },
    }
}

/// Nothing is written before every check has passed: the step asks for
/// the host's files to be written only when it is handed the loader script
/// of a build output that holds one module and one script, and that script
/// is one that processing accepts.
pub proof fn lemma_write_needs_all_checks(
    before: Pipeline,
    event: Event,
    after: Pipeline,
    action: Action,
)
    requires
        follows(before, event, after, action),
        action is Write,
    ensures
        match (before.stage, event) {
            (Stage::Reading { found }, Event::Read { file, text }) => processed(text@) is Ok,
            _ => false,
        },
{
}

/// The step stops on every failure: once it has given a reason for failing,
/// it is finished.
pub proof fn lemma_failure_finishes(before: Pipeline, event: Event, after: Pipeline, action: Action)
    requires
        follows(before, event, after, action),
        action matches Action::Finish(Err(_)),
    ensures
        after.stage == Stage::Finished,
{
}

/// A finished step stays finished, and asks for nothing more.
pub proof fn lemma_finished_is_final(
    before: Pipeline,
    event: Event,
    after: Pipeline,
    action: Action,
)
    requires
        follows(before, event, after, action),
        before.stage == Stage::Finished,
    ensures
        after.stage == Stage::Finished,
        action == Action::Ignore,
{
}

} // verus!
