//! The core work of Zork++: generating the command lines that build a
//! project with the compiler that its description names.
use vstd::prelude::*;

use crate::compiler::module_interfaces::{get_module_ifc_args, module_ifc_args};
use crate::config_file::modules::{InterfaceModel, ModuleInterface};
use crate::config_file::{BuildSettings, ZorkConfigFile};
use crate::utils::host::HostPlatform;

pub mod build_run;
pub mod helpers;
pub mod layout;
pub mod module_interfaces;

verus! {

/// The command lines that precompile `interfaces`, one for each interface
/// and in the same order.
pub open spec fn module_ifc_commands(
    settings: BuildSettings,
    interfaces: Seq<InterfaceModel>,
    host: HostPlatform,
) -> Seq<Seq<Seq<char>>> {
    Seq::new(interfaces.len(), |i: int| module_ifc_args(settings, interfaces[i], host))
}

/// Generates the command lines that build the binary module interfaces
/// declared for the project, by precompiling the module interface units.
pub fn prebuild_module_interfaces(
    config: &ZorkConfigFile,
    interfaces: &Vec<ModuleInterface>,
    host: HostPlatform,
) -> (commands: Vec<Vec<String>>)
    ensures
        commands.deep_view() == module_ifc_commands(
            config.settings(),
            interfaces.deep_view(),
            host,
        ),
{
    let mut commands: Vec<Vec<String>> = Vec::with_capacity(interfaces.len());
    let mut next: usize = 0;
    while next < interfaces.len()
        invariant
            next <= interfaces.len(),
            commands.len() == next,
            forall|i: int|
                0 <= i < next ==> (#[trigger] commands[i]).deep_view() == module_ifc_args(
                    config.settings(),
                    interfaces[i]@,
                    host,
                ),
        decreases interfaces.len() - next,
    {
        commands.push(get_module_ifc_args(config, &interfaces[next], host));
        next += 1;
    }
    assert(commands.deep_view() =~= module_ifc_commands(
        config.settings(),
        interfaces.deep_view(),
        host,
    ));
    commands
}

} // verus!
