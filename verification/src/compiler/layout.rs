//! The directories and files that a build expects below the project's root
//! before the first compiler runs.
use vstd::prelude::*;
use vstd::string::StringExecFns;

use crate::config_file::compiler::CppCompiler;
use crate::config_file::{BuildSettings, ZorkConfigFile};
use crate::utils::text::{join, joined};
use crate::utils::template::resources::{
    STD_HEADER, STD_HEADER_NAME, ZORK_MODULEMAP, ZORK_MODULEMAP_NAME,
};

verus! {

/// One thing to bring about below the project's root. A path is given by
/// its segments, from the root downwards; whoever performs the step joins
/// them as the host joins paths.
#[derive(Debug)]
pub enum LayoutStep {
    /// Create the directory `path` with every missing parent. That the
    /// directory is there already is no failure.
    Directory { path: Vec<String> },
    /// Write the file `name` in `directory` with `contents`, replacing what
    /// it held.
    File { directory: Vec<String>, name: &'static str, contents: &'static str },
}

/// A step of the layout as the contracts see it.
pub enum LayoutStepModel {
    Directory { path: Seq<Seq<char>> },
    File { directory: Seq<Seq<char>>, name: Seq<char>, contents: Seq<char> },
}

impl View for LayoutStep {
    type V = LayoutStepModel;

    open spec fn view(&self) -> LayoutStepModel {
        match self {
            LayoutStep::Directory { path } => LayoutStepModel::Directory { path: path.deep_view() },
            LayoutStep::File { directory, name, contents } => LayoutStepModel::File {
                directory: directory.deep_view(),
                name: name@,
                contents: contents@,
            },
        }
    }
}

impl DeepView for LayoutStep {
    type V = LayoutStepModel;

    open spec fn deep_view(&self) -> LayoutStepModel {
        self@
    }
}

impl LayoutStepModel {
    /// The directory or file that the step brings about, from the project's
    /// root and written with forward slashes.
    pub open spec fn target_path(self) -> Seq<char> {
        match self {
            LayoutStepModel::Directory { path } => joined(path, "/"@),
            LayoutStepModel::File { directory, name, .. } => joined(directory, "/"@) + "/"@ + name,
        }
    }
}

impl LayoutStep {
    /// The directory or file that the step brings about, from the project's
    /// root and written with forward slashes.
    pub fn target_path(&self) -> (path: String)
        ensures
            path@ == self@.target_path(),
    {
        match self {
            LayoutStep::Directory { path } => join(path, "/"),
            LayoutStep::File { directory, name, .. } => join(directory, "/").concat("/").concat(
                name,
            ),
        }
    }
}

/// The directory below `out_dir` that holds the compiler's output for the
/// module units of one `kind`.
pub open spec fn modules_directory(
    out_dir: Seq<char>,
    compiler: CppCompiler,
    kind: Seq<char>,
) -> Seq<Seq<char>> {
    seq![out_dir, compiler.name(), "modules"@, kind]
}

/// The directory below `out_dir` that holds what Zork++ keeps for itself
/// under the name `kind`.
pub open spec fn zork_directory(out_dir: Seq<char>, kind: Seq<char>) -> Seq<Seq<char>> {
    seq![out_dir, "zork"@, kind]
}

/// The directories that every build has, in the order of their creation.
pub open spec fn layout_directories(settings: BuildSettings) -> Seq<LayoutStepModel> {
    seq![
        LayoutStepModel::Directory {
            path: modules_directory(settings.output_dir, settings.compiler, "interfaces"@),
        },
        LayoutStepModel::Directory {
            path: modules_directory(settings.output_dir, settings.compiler, "implementations"@),
        },
        LayoutStepModel::Directory { path: zork_directory(settings.output_dir, "cache"@) },
        LayoutStepModel::Directory { path: zork_directory(settings.output_dir, "intrinsics"@) },
    ]
}

/// The files that Zork++ writes for the compiler. Only Clang gets any: the
/// header that collects the standard library and the module map over it.
pub open spec fn layout_files(settings: BuildSettings) -> Seq<LayoutStepModel> {
    match settings.compiler {
        CppCompiler::CLANG => seq![
            LayoutStepModel::File {
                directory: zork_directory(settings.output_dir, "intrinsics"@),
                name: STD_HEADER_NAME@,
                contents: STD_HEADER@,
            },
            LayoutStepModel::File {
                directory: zork_directory(settings.output_dir, "intrinsics"@),
                name: ZORK_MODULEMAP_NAME@,
                contents: ZORK_MODULEMAP@,
            },
        ],
        _ => seq![],
    }
}

/// Everything that has to be in place before the first compiler runs:
/// the directories, then the files.
pub open spec fn output_layout(settings: BuildSettings) -> Seq<LayoutStepModel> {
    layout_directories(settings) + layout_files(settings)
}

fn modules_directory_of(out_dir: &str, compiler: &CppCompiler, kind: &str) -> (path: Vec<String>)
    ensures
        path.deep_view() == modules_directory(out_dir@, *compiler, kind@),
{
    let path = vec![
        String::from_str(out_dir),
        String::from_str(compiler.as_str()),
        String::from_str("modules"),
        String::from_str(kind),
    ];
    assert(path.deep_view() =~= modules_directory(out_dir@, *compiler, kind@));
    path
}

fn zork_directory_of(out_dir: &str, kind: &str) -> (path: Vec<String>)
    ensures
        path.deep_view() == zork_directory(out_dir@, kind@),
{
    let path = vec![String::from_str(out_dir), String::from_str("zork"), String::from_str(kind)];
    assert(path.deep_view() =~= zork_directory(out_dir@, kind@));
    path
}

/// Lists what the build of `config` needs below the project's root, in the
/// order in which it is to be brought about.
pub fn output_directory_layout(config: &ZorkConfigFile) -> (steps: Vec<LayoutStep>)
    ensures
        steps.deep_view() == output_layout(config.settings()),
{
    let out_dir = config.output_dir();
    let compiler = &config.compiler.cpp_compiler;

    let mut steps: Vec<LayoutStep> = Vec::with_capacity(6);
    steps.push(LayoutStep::Directory { path: modules_directory_of(out_dir, compiler, "interfaces") });
    steps.push(
        LayoutStep::Directory { path: modules_directory_of(out_dir, compiler, "implementations") },
    );
    steps.push(LayoutStep::Directory { path: zork_directory_of(out_dir, "cache") });
    steps.push(LayoutStep::Directory { path: zork_directory_of(out_dir, "intrinsics") });

    match *compiler {
        CppCompiler::CLANG => {
            steps.push(
                LayoutStep::File {
                    directory: zork_directory_of(out_dir, "intrinsics"),
                    name: STD_HEADER_NAME,
                    contents: STD_HEADER,
                },
            );
            steps.push(
                LayoutStep::File {
                    directory: zork_directory_of(out_dir, "intrinsics"),
                    name: ZORK_MODULEMAP_NAME,
                    contents: ZORK_MODULEMAP,
                },
            );
        },
        _ => {},
    }
    assert(steps.deep_view() =~= output_layout(config.settings()));
    steps
}

} // verus!
