//! The `[compiler]` table of the project description.
use vstd::prelude::*;
use vstd::string::StringExecFns;

pub use crate::config_cli::CppCompiler;

verus! {

/// The `[compiler]` table: which compiler builds the project, and how.
#[derive(Clone, Copy, Debug)]
pub struct CompilerAttribute {
    pub cpp_compiler: CppCompiler,
    pub cpp_standard: LanguageLevel,
    pub std_lib: Option<StdLib>,
}

/// The level of the C++ ISO standard that the project is written in.
#[derive(Clone, Copy, Debug, PartialEq, Eq, Structural)]
pub enum LanguageLevel {
    CPP20,
    CPP23,
    CPP2A,
    CPP2B,
    LATEST,
}

impl LanguageLevel {
    /// The level as the compilers spell it behind `c++`.
    pub open spec fn name(self) -> Seq<char> {
        match self {
            LanguageLevel::CPP20 => "20"@,
            LanguageLevel::CPP23 => "23"@,
            LanguageLevel::CPP2A => "2a"@,
            LanguageLevel::CPP2B => "2b"@,
            LanguageLevel::LATEST => "latest"@,
        }
    }

    /// How a compiler introduces the standard: MSVC separates the option
    /// from its value with a colon, the other two with an equals sign.
    pub open spec fn flag_prefix(compiler: CppCompiler) -> Seq<char> {
        match compiler {
            CppCompiler::CLANG | CppCompiler::GCC => "-std=c++"@,
            CppCompiler::MSVC => "-std:c++"@,
        }
    }

    /// The argument that selects this level on `compiler`'s command line.
    pub open spec fn cmd_arg(self, compiler: CppCompiler) -> Seq<char> {
        Self::flag_prefix(compiler) + self.name()
    }

    /// The level as the compilers spell it behind `c++`.
    pub fn as_str(&self) -> (name: &'static str)
        ensures
            name@ == self.name(),
    {
        match *self {
            LanguageLevel::CPP20 => "20",
            LanguageLevel::CPP23 => "23",
            LanguageLevel::CPP2A => "2a",
            LanguageLevel::CPP2B => "2b",
            LanguageLevel::LATEST => "latest",
        }
    }

    /// The argument that selects this level on `compiler`'s command line.
    pub fn as_cmd_arg(&self, compiler: &CppCompiler) -> (arg: String)
        ensures
            arg@ == self.cmd_arg(*compiler),
    {
        let prefix = match *compiler {
            CppCompiler::CLANG | CppCompiler::GCC => "-std=c++",
            CppCompiler::MSVC => "-std:c++",
        };
        String::from_str(prefix).concat(self.as_str())
    }
}

/// The standard library that Clang links the project against.
#[derive(Clone, Copy, Debug, PartialEq, Eq, Structural)]
pub enum StdLib {
    STDLIBCPP,
    LIBCPP,
}

impl StdLib {
    /// The library as Clang's `-stdlib` option names it.
    pub open spec fn name(self) -> Seq<char> {
        match self {
            StdLib::STDLIBCPP => "libstdc++"@,
            StdLib::LIBCPP => "libc++"@,
        }
    }

    /// The library as Clang's `-stdlib` option names it.
    pub fn as_str(&self) -> (name: &'static str)
        ensures
            name@ == self.name(),
    {
        match *self {
            StdLib::STDLIBCPP => "libstdc++",
            StdLib::LIBCPP => "libc++",
        }
    }
}

} // verus!
