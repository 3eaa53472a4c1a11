//! The project description that `zork.toml` holds, and what the build
//! reads from it.
use vstd::prelude::*;

use crate::config_file::build::BuildAttribute;
use crate::config_file::compiler::{CompilerAttribute, CppCompiler, LanguageLevel, StdLib};
use crate::config_file::modules::{InterfaceModel, ModuleInterface, ModulesAttribute};
use crate::utils::constants::DEFAULT_OUTPUT_DIR;

pub mod build;
pub mod compiler;
pub mod modules;

verus! {

/// The project description.
#[derive(Clone, Debug)]
pub struct ZorkConfigFile<'a> {
    pub compiler: CompilerAttribute,
    pub build: Option<BuildAttribute<'a>>,
    pub modules: Option<ModulesAttribute<'a>>,
}

/// The settings that hold for every module of one build, with every
/// default filled in.
pub struct BuildSettings {
    pub compiler: CppCompiler,
    pub cpp_standard: LanguageLevel,
    pub std_lib: Option<StdLib>,
    /// The directory that receives the build's output.
    pub output_dir: Seq<char>,
    /// The directory that the interface file names are relative to.
    pub base_ifcs_dir: Option<Seq<char>>,
}

/// A project as the build sees it.
pub struct ProjectModel {
    pub settings: BuildSettings,
    /// The declared module interface units in their order; `None` where the
    /// description declares no list of them.
    pub interfaces: Option<Seq<InterfaceModel>>,
}

impl<'a> ZorkConfigFile<'a> {
    /// The output directory: the one that the description names, else
    /// [`DEFAULT_OUTPUT_DIR`].
    pub open spec fn spec_output_dir(&self) -> Seq<char> {
        match self.build {
            Some(BuildAttribute { output_dir: Some(dir) }) => dir@,
            _ => DEFAULT_OUTPUT_DIR@,
        }
    }

    /// The directory that the interface file names are relative to, where
    /// the description names one.
    pub open spec fn spec_base_ifcs_dir(&self) -> Option<Seq<char>> {
        match self.modules {
            Some(ModulesAttribute { base_ifcs_dir: Some(dir), .. }) => Some(dir@),
            _ => None,
        }
    }

    /// The declared module interface units in their order, where the
    /// description declares a list of them.
    pub open spec fn spec_interfaces(&self) -> Option<Seq<InterfaceModel>> {
        match self.modules {
            Some(ModulesAttribute { interfaces: Some(interfaces), .. }) => Some(
                interfaces.deep_view(),
            ),
            _ => None,
        }
    }

    /// What the description settles for every module of the build.
    pub open spec fn settings(&self) -> BuildSettings {
        BuildSettings {
            compiler: self.compiler.cpp_compiler,
            cpp_standard: self.compiler.cpp_standard,
            std_lib: self.compiler.std_lib,
            output_dir: self.spec_output_dir(),
            base_ifcs_dir: self.spec_base_ifcs_dir(),
        }
    }

    /// The directory that receives the build's output: the one that the
    /// description names, else [`DEFAULT_OUTPUT_DIR`].
    pub fn output_dir(&self) -> (dir: &str)
        ensures
            dir@ == self.spec_output_dir(),
    {
        match &self.build {
            Some(build) => match build.output_dir {
                Some(dir) => dir,
                None => DEFAULT_OUTPUT_DIR,
            },
            None => DEFAULT_OUTPUT_DIR,
        }
    }

    /// The directory that the interface file names are relative to, where
    /// the description names one.
    pub fn base_ifcs_dir(&self) -> (dir: Option<&str>)
        ensures
            dir is Some == self.spec_base_ifcs_dir() is Some,
            dir is Some ==> dir.unwrap()@ == self.spec_base_ifcs_dir().unwrap(),
    {
        match &self.modules {
            Some(modules) => modules.base_ifcs_dir,
            None => None,
        }
    }

    /// The declared module interface units in their order, where the
    /// description declares a list of them.
    pub fn interfaces(&self) -> (interfaces: Option<&Vec<ModuleInterface<'a>>>)
        ensures
            interfaces is Some == self.spec_interfaces() is Some,
            interfaces is Some ==> interfaces.unwrap().deep_view()
                == self.spec_interfaces().unwrap(),
    {
        match &self.modules {
            Some(modules) => modules.interfaces.as_ref(),
            None => None,
        }
    }
}

impl<'a> View for ZorkConfigFile<'a> {
    type V = ProjectModel;

    open spec fn view(&self) -> ProjectModel {
        ProjectModel { settings: self.settings(), interfaces: self.spec_interfaces() }
    }
}

} // verus!
