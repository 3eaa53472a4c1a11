//! The values that the command line hands to Zork++.
use vstd::prelude::*;

use crate::utils::errors::{BuildError, BuildErrorModel};

verus! {

/// The arguments of one invocation of Zork++.
#[derive(Debug)]
pub struct CliArgs {
    /// The sub-command to run, if one was given.
    pub command: Option<Command>,
    /// How often `-v` was given; `-vv` is the maximum that has a meaning.
    pub verbose: u8,
    /// Create a project template.
    pub new_template: bool,
    /// Initialize a local git repository together with the template.
    pub git: bool,
    /// The compiler that the generated template is written for.
    pub compiler: Option<CppCompiler>,
}

/// The core enum commands.
#[derive(Debug, PartialEq, Eq, Structural)]
pub enum Command {
    /// Executes the tests under the directory named in the configuration.
    Tests,
}

/// The C++ compilers available within Zork++.
#[derive(Clone, Copy, Debug, PartialEq, Eq, Structural)]
pub enum CppCompiler {
    CLANG,
    MSVC,
    GCC,
}

impl CppCompiler {
    /// The name under which the compiler appears in paths and messages.
    pub open spec fn name(self) -> Seq<char> {
        match self {
            CppCompiler::CLANG => "clang"@,
            CppCompiler::MSVC => "msvc"@,
            CppCompiler::GCC => "gcc"@,
        }
    }

    /// The program that runs the compiler.
    pub open spec fn driver(self) -> Seq<char> {
        match self {
            CppCompiler::CLANG => "clang++"@,
            CppCompiler::MSVC => "cl"@,
            CppCompiler::GCC => "g++"@,
        }
    }

    /// The extension of the binary module interface that the compiler
    /// writes when it precompiles a module interface unit.
    pub open spec fn artifact_extension(self) -> Seq<char> {
        match self {
            CppCompiler::CLANG => "pcm"@,
            CppCompiler::MSVC => "ifc"@,
            CppCompiler::GCC => "o"@,
        }
    }

    /// Whether Zork++ builds modules with this compiler. With GCC it does
    /// not yet.
    pub open spec fn spec_supports_modules(&self) -> bool {
        !(self is GCC)
    }

    /// The extension that module interface files have by default under this
    /// compiler, where there is one.
    pub open spec fn default_extension(self) -> Seq<char>
        recommends
            self.spec_supports_modules(),
    {
        match self {
            CppCompiler::CLANG => "cppm"@,
            _ => "ixx"@,
        }
    }

    /// Whether Zork++ builds modules with this compiler.
    #[verifier::when_used_as_spec(spec_supports_modules)]
    pub fn supports_modules(&self) -> (supported: bool)
        ensures
            supported == self.spec_supports_modules(),
    {
        match *self {
            CppCompiler::GCC => false,
            _ => true,
        }
    }

    /// The name under which the compiler appears in paths and messages.
    pub fn as_str(&self) -> (name: &'static str)
        ensures
            name@ == self.name(),
    {
        match *self {
            CppCompiler::CLANG => "clang",
            CppCompiler::MSVC => "msvc",
            CppCompiler::GCC => "gcc",
        }
    }

    /// The program that runs the compiler.
    pub fn get_driver(&self) -> (driver: &'static str)
        ensures
            driver@ == self.driver(),
    {
        match *self {
            CppCompiler::CLANG => "clang++",
            CppCompiler::MSVC => "cl",
            CppCompiler::GCC => "g++",
        }
    }

    /// The extension of the binary module interfaces that the compiler
    /// writes.
    pub fn get_artifact_extension(&self) -> (extension: &'static str)
        ensures
            extension@ == self.artifact_extension(),
    {
        match *self {
            CppCompiler::CLANG => "pcm",
            CppCompiler::MSVC => "ifc",
            CppCompiler::GCC => "o",
        }
    }

    /// The extension that module interface files have by default under this
    /// compiler. GCC has none: ask [`Self::try_get_default_extension`] where
    /// the compiler may be GCC.
    pub fn get_default_extesion(&self) -> (extension: &'static str)
        requires
            self.spec_supports_modules(),
        ensures
            extension@ == self.default_extension(),
    {
        match *self {
            CppCompiler::CLANG => "cppm",
            _ => "ixx",
        }
    }

    /// The default extension of module interface files under this compiler,
    /// or the reason why there is none.
    pub fn try_get_default_extension(&self) -> (extension: Result<&'static str, BuildError>)
        ensures
            match extension {
                Ok(extension) => self.spec_supports_modules() && extension@
                    == self.default_extension(),
                Err(error) => !self.spec_supports_modules() && error@
                    == (BuildErrorModel::UnsupportedToolchainFeature { compiler: *self }),
            },
    {
        if self.supports_modules() {
            Ok(self.get_default_extesion())
        } else {
            Err(BuildError::UnsupportedToolchainFeature { compiler: *self })
        }
    }
}

} // verus!
