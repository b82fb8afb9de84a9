//! What can stop the build step. Every one of these is final: nothing is
//! tried again, and nothing is written once one has come up.

use vstd::prelude::*;
use vstd::string::*;
use crate::category::Category;
use crate::decimal::{decimal, push_decimal};

verus! {

/// Why the build step stopped.
#[derive(Clone, Debug, PartialEq, Eq)]
pub enum PipelineError {
    /// The toolchain could not be started.
    Spawn { program: String },
    /// The toolchain ran and reported failure. `code` is its exit code, where
    /// it left one.
    Execution { code: Option<i32> },
    /// The build output holds no file of a required category.
    MissingArtifact { directory: String, category: Category },
    /// The build output holds more than one file of a required category.
    AmbiguousArtifact { directory: String, category: Category },
    /// The generated script does not have the shape that this version knows.
    UnexpectedStructure { file: String },
    /// The generated script has the known shape, but what it wraps does not
    /// define the entry point.
    MissingEntryPoint,
}

impl PipelineError {
    /// What the operator is told. Each text names what the error carries:
    /// the program, the exit code, the directory and the extension, the file.
    pub open spec fn text(self) -> Seq<char> {
        match self {
            PipelineError::Spawn { program } => "error: could not start '"@ + program@ + "'"@,
            PipelineError::Execution { code: Some(code) } =>
                "error: the toolchain exited with a non-zero exit code: "@ + decimal(code as int),
            PipelineError::Execution { code: None } =>
                "error: the toolchain was stopped before it left an exit code"@,
            PipelineError::MissingArtifact { directory, category } => "error: no "@
                + category.suffix() + " files found in "@ + directory@,
            PipelineError::AmbiguousArtifact { directory, category } => "error: multiple "@
                + category.suffix() + " files found in "@ + directory@,
            PipelineError::UnexpectedStructure { file } =>
                "error: the toolchain generated a script of unexpected structure. This means that the toolchain has changed, and that this tool has to be updated to match it. Please report this, and include the first 30 lines of "@
                    + file@,
            PipelineError::MissingEntryPoint =>
                "error: the toolchain generated a script without the function '__initialize'"@,
        }
    }

    /// What the operator is told.
    pub fn message(&self) -> (r: String)
        ensures
            r@ == self.text(),
    {
        match self {
            PipelineError::Spawn { program } => {
                let mut out = String::from_str("error: could not start '");
                out.append(program.as_str());
                out.append("'");
                out
            },
            PipelineError::Execution { code: Some(code) } => {
                let mut out = String::from_str(
                    "error: the toolchain exited with a non-zero exit code: ",
                );
                push_decimal(&mut out, *code);
                out
            },
            PipelineError::Execution { code: None } => String::from_str(
                "error: the toolchain was stopped before it left an exit code",
            ),
            PipelineError::MissingArtifact { directory, category } => {
                let mut out = String::from_str("error: no ");
                out.append(category.extension());
                out.append(" files found in ");
                out.append(directory.as_str());
                out
            },
            PipelineError::AmbiguousArtifact { directory, category } => {
                let mut out = String::from_str("error: multiple ");
                out.append(category.extension());
                out.append(" files found in ");
                out.append(directory.as_str());
                out
            },
            PipelineError::UnexpectedStructure { file } => {
                let mut out = String::from_str(
                    "error: the toolchain generated a script of unexpected structure. This means that the toolchain has changed, and that this tool has to be updated to match it. Please report this, and include the first 30 lines of ",
                );
                out.append(file.as_str());
                out
            },
            PipelineError::MissingEntryPoint => String::from_str(
                "error: the toolchain generated a script without the function '__initialize'",
            ),
        }
    }
}

} // verus!
