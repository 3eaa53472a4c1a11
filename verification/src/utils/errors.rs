//! The ways in which a build ends early.
use vstd::prelude::*;
use vstd::string::StringExecFns;

use crate::config_cli::CppCompiler;

verus! {

/// Why a build stopped. Each of them is final: nothing is tried again.
#[derive(Debug)]
pub enum BuildError {
    /// A directory or a file of the output layout could not be created.
    /// `path` is the one that failed, from the project's root.
    DirectoryCreation { path: String },
    /// The compiler did not run, or did not succeed. `command` holds the
    /// arguments that it was given, joined by spaces.
    CommandExecution { command: String },
    /// Zork++ cannot do for `compiler` what was asked of it.
    UnsupportedToolchainFeature { compiler: CppCompiler },
}

/// An error as the contracts see it.
pub enum BuildErrorModel {
    DirectoryCreation { path: Seq<char> },
    CommandExecution { command: Seq<char> },
    UnsupportedToolchainFeature { compiler: CppCompiler },
}

impl View for BuildError {
    type V = BuildErrorModel;

    open spec fn view(&self) -> BuildErrorModel {
        match self {
            BuildError::DirectoryCreation { path } => BuildErrorModel::DirectoryCreation {
                path: path@,
            },
            BuildError::CommandExecution { command } => BuildErrorModel::CommandExecution {
                command: command@,
            },
            BuildError::UnsupportedToolchainFeature {
                compiler,
            } => BuildErrorModel::UnsupportedToolchainFeature { compiler: *compiler },
        }
    }
}

impl BuildErrorModel {
    /// The sentence that tells a user of the error.
    pub open spec fn message(self) -> Seq<char> {
        match self {
            BuildErrorModel::DirectoryCreation { path } => "Could not create "@ + path,
            BuildErrorModel::CommandExecution { command } => "The command failed: "@ + command,
            BuildErrorModel::UnsupportedToolchainFeature { compiler } => compiler.name()
                + " is still not supported yet by Zork++"@,
        }
    }
}

impl BuildError {
    /// The sentence that tells a user of the error.
    pub fn message(&self) -> (message: String)
        ensures
            message@ == self@.message(),
    {
        match self {
            BuildError::DirectoryCreation { path } => String::from_str("Could not create ").concat(
                path.as_str(),
            ),
            BuildError::CommandExecution { command } => String::from_str(
                "The command failed: ",
            ).concat(command.as_str()),
            BuildError::UnsupportedToolchainFeature { compiler } => String::from_str(
                compiler.as_str(),
            ).concat(" is still not supported yet by Zork++"),
        }
    }
}

} // verus!
