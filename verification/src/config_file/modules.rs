//! The `[modules]` table of the project description.
use vstd::prelude::*;

verus! {

/// The `[modules]` table: the module units of the project.
#[derive(Clone, Debug)]
pub struct ModulesAttribute<'a> {
    /// The directory that the interface file names are relative to.
    pub base_ifcs_dir: Option<&'a str>,
    /// The module interface units, in the order in which they are built.
    pub interfaces: Option<Vec<ModuleInterface<'a>>>,
}

/// One module interface unit of the project.
#[derive(Clone, Copy, Debug)]
pub struct ModuleInterface<'a> {
    /// The file that declares the interface.
    pub filename: &'a str,
    /// The name of the module, where it differs from the file's stem.
    pub module_name: Option<&'a str>,
}

/// A module interface unit as the contracts see it.
pub struct InterfaceModel {
    pub filename: Seq<char>,
    pub module_name: Option<Seq<char>>,
}

impl<'a> View for ModuleInterface<'a> {
    type V = InterfaceModel;

    open spec fn view(&self) -> InterfaceModel {
        InterfaceModel {
            filename: self.filename@,
            module_name: match self.module_name {
                Some(name) => Some(name@),
                None => None,
            },
        }
    }
}

impl<'a> DeepView for ModuleInterface<'a> {
    type V = InterfaceModel;

    open spec fn deep_view(&self) -> InterfaceModel {
        self@
    }
}

} // verus!
