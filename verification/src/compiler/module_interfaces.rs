//! The command line that precompiles one module interface unit.
use vstd::prelude::*;
use vstd::string::StringExecFns;

use crate::compiler::helpers::{
    artifact_stem, generate_prebuild_miu, input_file, miu_input_file, prebuild_miu,
};
use crate::config_file::compiler::{CppCompiler, StdLib};
use crate::config_file::modules::{InterfaceModel, ModuleInterface};
use crate::config_file::{BuildSettings, ZorkConfigFile};
use crate::utils::host::HostPlatform;

verus! {

/// Clang's argument that selects the standard library, where the project
/// selects one.
pub open spec fn std_lib_args(std_lib: Option<StdLib>) -> Seq<Seq<char>> {
    match std_lib {
        Some(std_lib) => seq!["-stdlib="@ + std_lib.name()],
        None => seq![],
    }
}

/// Clang's argument that names the module map which Zork++ writes below
/// `out_dir`.
pub open spec fn module_map_file_arg(out_dir: Seq<char>) -> Seq<char> {
    "-fmodule-map-file="@ + out_dir + "/zork/intrinsics/zork.modulemap"@
}

/// How Clang finds its module maps. On Windows it is handed the module map
/// of Zork++, which lets a project write `import std;` while Clang links
/// against the runtime of GCC. Elsewhere it looks for them itself.
pub open spec fn module_map_arg(out_dir: Seq<char>, host: HostPlatform) -> Seq<char> {
    match host {
        HostPlatform::Windows => module_map_file_arg(out_dir),
        HostPlatform::Other => "-fimplicit-module-maps"@,
    }
}

/// MSVC's argument that names the directory for the object file which it
/// writes beside the binary module interface.
pub open spec fn object_output_arg(out_dir: Seq<char>) -> Seq<char> {
    "/Fo"@ + out_dir + "/"@ + CppCompiler::MSVC.name() + "/modules/interfaces\\"@
}

/// The arguments with which the project's compiler precompiles `interface`
/// on `host`, in the order in which the compiler is to read them.
pub open spec fn module_ifc_args(
    settings: BuildSettings,
    interface: InterfaceModel,
    host: HostPlatform,
) -> Seq<Seq<char>> {
    let standard = settings.cpp_standard.cmd_arg(settings.compiler);
    let artifact = prebuild_miu(settings.compiler, settings.output_dir, interface);
    let input = input_file(interface, settings.base_ifcs_dir);
    match settings.compiler {
        CppCompiler::CLANG => seq![standard] + std_lib_args(settings.std_lib) + seq![
            "-fimplicit-modules"@,
            "-x"@,
            "c++-module"@,
            "--precompile"@,
            module_map_arg(settings.output_dir, host),
            "-o"@,
            artifact,
            input,
        ],
        CppCompiler::MSVC => seq![
            standard,
            "-c"@,
            "-ifcOutput"@,
            artifact,
            object_output_arg(settings.output_dir),
            "-interface"@,
            "-TP"@,
            input,
        ],
        CppCompiler::GCC => seq![standard, "-fmodules-ts"@, "-c"@, input, "-o"@, artifact],
    }
}

/// Generates the arguments that precompile `interface` into its binary
/// module interface with the compiler of `config`, on `host`.
pub fn get_module_ifc_args(
    config: &ZorkConfigFile,
    interface: &ModuleInterface,
    host: HostPlatform,
) -> (arguments: Vec<String>)
    ensures
        arguments.deep_view() == module_ifc_args(config.settings(), interface@, host),
{
    let compiler = &config.compiler.cpp_compiler;
    let base_path = config.base_ifcs_dir();
    let out_dir = config.output_dir();

    let mut arguments: Vec<String> = Vec::with_capacity(10);
    arguments.push(config.compiler.cpp_standard.as_cmd_arg(compiler));

    match *compiler {
        CppCompiler::CLANG => {
            if let Some(std_lib) = &config.compiler.std_lib {
                arguments.push(String::from_str("-stdlib=").concat(std_lib.as_str()));
            }
            arguments.push(String::from_str("-fimplicit-modules"));
            arguments.push(String::from_str("-x"));
            arguments.push(String::from_str("c++-module"));
            arguments.push(String::from_str("--precompile"));
            match host {
                HostPlatform::Windows => {
                    arguments.push(
                        String::from_str("-fmodule-map-file=").concat(out_dir).concat(
                            "/zork/intrinsics/zork.modulemap",
                        ),
                    );
                },
                HostPlatform::Other => {
                    arguments.push(String::from_str("-fimplicit-module-maps"));
                },
            }
            // The resultant BMI as a .pcm file
            arguments.push(String::from_str("-o"));
            arguments.push(generate_prebuild_miu(compiler, out_dir, interface));
            arguments.push(miu_input_file(interface, base_path));
        },
        CppCompiler::MSVC => {
            arguments.push(String::from_str("-c"));
            arguments.push(String::from_str("-ifcOutput"));
            // The output .ifc file
            arguments.push(generate_prebuild_miu(compiler, out_dir, interface));
            // The output .obj file
            arguments.push(
                String::from_str("/Fo").concat(out_dir).concat("/").concat(compiler.as_str()).concat(
                    "/modules/interfaces\\",
                ),
            );
            // The input file
            arguments.push(String::from_str("-interface"));
            arguments.push(String::from_str("-TP"));
            arguments.push(miu_input_file(interface, base_path));
        },
        CppCompiler::GCC => {
            arguments.push(String::from_str("-fmodules-ts"));
            arguments.push(String::from_str("-c"));
            // The input file
            arguments.push(miu_input_file(interface, base_path));
            // The output file
            arguments.push(String::from_str("-o"));
            arguments.push(generate_prebuild_miu(compiler, out_dir, interface));
        },
    }
    assert(arguments.deep_view() =~= module_ifc_args(config.settings(), interface@, host));
    arguments
}

/// Every command line names the binary module interface that it produces,
/// and that name ends in a dot and the extension of the project's
/// compiler: `pcm` for Clang, `ifc` for MSVC, `o` for GCC.
pub proof fn lemma_artifact_has_compiler_extension(
    settings: BuildSettings,
    interface: InterfaceModel,
    host: HostPlatform,
)
    ensures
        module_ifc_args(settings, interface, host).contains(
            prebuild_miu(settings.compiler, settings.output_dir, interface),
        ),
        ("."@ + settings.compiler.artifact_extension()).is_suffix_of(
            prebuild_miu(settings.compiler, settings.output_dir, interface),
        ),
        settings.compiler.artifact_extension() == match settings.compiler {
            CppCompiler::CLANG => "pcm"@,
            CppCompiler::MSVC => "ifc"@,
            CppCompiler::GCC => "o"@,
        },
{
    let arguments = module_ifc_args(settings, interface, host);
    let artifact = prebuild_miu(settings.compiler, settings.output_dir, interface);
    let position: int = match settings.compiler {
        CppCompiler::CLANG => arguments.len() - 2,
        CppCompiler::MSVC => 3,
        CppCompiler::GCC => 5,
    };
    assert(arguments[position] == artifact);
    let stem = settings.output_dir + "/"@ + settings.compiler.name() + "/modules/interfaces/"@
        + artifact_stem(interface);
    assert(artifact =~= stem + ("."@ + settings.compiler.artifact_extension()));
}

/// The arguments depend on nothing but the settings, the interface and the
/// host: two projects that agree in these get the same command line, in
/// every character.
pub proof fn lemma_same_inputs_same_arguments(
    first: ZorkConfigFile,
    second: ZorkConfigFile,
    first_interface: ModuleInterface,
    second_interface: ModuleInterface,
    host: HostPlatform,
)
    requires
        first.settings() == second.settings(),
        first_interface@ == second_interface@,
    ensures
        module_ifc_args(first.settings(), first_interface@, host) == module_ifc_args(
            second.settings(),
            second_interface@,
            host,
        ),
{
}

/// Every command line starts with the argument that selects the language
/// standard. Those of Clang and MSVC end with the file to read, that of GCC
/// with the binary module interface to write.
pub proof fn lemma_arguments_first_and_last(
    settings: BuildSettings,
    interface: InterfaceModel,
    host: HostPlatform,
)
    ensures
        module_ifc_args(settings, interface, host).first() == settings.cpp_standard.cmd_arg(
            settings.compiler,
        ),
        module_ifc_args(settings, interface, host).last() == match settings.compiler {
            CppCompiler::CLANG | CppCompiler::MSVC => input_file(interface, settings.base_ifcs_dir),
            CppCompiler::GCC => prebuild_miu(settings.compiler, settings.output_dir, interface),
        },
{
}

/// `argument` is one of the two by which Clang is told where its module
/// maps are: the module map of Zork++ below `out_dir`, or to look itself.
pub open spec fn chooses_module_maps(argument: Seq<char>, out_dir: Seq<char>) -> bool {
    argument == module_map_file_arg(out_dir) || argument == "-fimplicit-module-maps"@
}

/// Of the arguments that Clang always gets, and of the binary module
/// interface, none tells Clang where its module maps are.
proof fn lemma_fixed_arguments_choose_no_module_maps(
    settings: BuildSettings,
    interface: InterfaceModel,
)
    requires
        settings.compiler is CLANG,
    ensures
        !chooses_module_maps(settings.cpp_standard.cmd_arg(settings.compiler), settings.output_dir),
        forall|std_lib: StdLib|
            !chooses_module_maps(#[trigger] std_lib_args(Some(std_lib))[0], settings.output_dir),
        !chooses_module_maps("-fimplicit-modules"@, settings.output_dir),
        !chooses_module_maps("-x"@, settings.output_dir),
        !chooses_module_maps("c++-module"@, settings.output_dir),
        !chooses_module_maps("--precompile"@, settings.output_dir),
        !chooses_module_maps("-o"@, settings.output_dir),
        !chooses_module_maps(
            prebuild_miu(settings.compiler, settings.output_dir, interface),
            settings.output_dir,
        ),
        module_map_file_arg(settings.output_dir) != "-fimplicit-module-maps"@,
{
    reveal_strlit("-fimplicit-module-maps");
    reveal_strlit("-fmodule-map-file=");
    reveal_strlit("/zork/intrinsics/zork.modulemap");
    reveal_strlit("-std=c++");
    reveal_strlit("-stdlib=");
    reveal_strlit("-fimplicit-modules");
    reveal_strlit("-x");
    reveal_strlit("c++-module");
    reveal_strlit("--precompile");
    reveal_strlit("-o");
    reveal_strlit("pcm");
    let out_dir = settings.output_dir;
    let map_file = module_map_file_arg(out_dir);
    let implicit = "-fimplicit-module-maps"@;
    assert(map_file.len() == 49 + out_dir.len());
    assert(map_file[1] == 'f' && map_file[2] == 'm');
    assert(map_file.last() == 'p');
    assert(implicit[1] == 'f' && implicit[2] == 'i' && implicit.last() == 's');

    let standard = settings.cpp_standard.cmd_arg(settings.compiler);
    assert(standard[1] == 's');
    assert forall|std_lib: StdLib|
        !chooses_module_maps(#[trigger] std_lib_args(Some(std_lib))[0], out_dir) by {
        assert(std_lib_args(Some(std_lib))[0][1] == 's');
    }
    assert("c++-module"@[0] == 'c');
    assert("--precompile"@[1] == '-');
    let artifact = prebuild_miu(settings.compiler, out_dir, interface);
    assert(artifact.last() == 'm');
}

/// Clang is told where its module maps are in one way only, and the host
/// decides in which: on Windows its command line holds the argument that
/// names the module map of Zork++, elsewhere the one that lets it look
/// itself.
///
/// The file to read is an argument too, and a project is free to give it any
/// name. The statement leaves out the projects whose file is named like one
/// of the two arguments.
pub proof fn lemma_module_maps_follow_host(
    settings: BuildSettings,
    interface: InterfaceModel,
    host: HostPlatform,
)
    requires
        settings.compiler is CLANG,
        !chooses_module_maps(input_file(interface, settings.base_ifcs_dir), settings.output_dir),
    ensures
        module_ifc_args(settings, interface, host).contains(
            module_map_file_arg(settings.output_dir),
        ) <==> host is Windows,
        module_ifc_args(settings, interface, host).contains("-fimplicit-module-maps"@)
            <==> host is Other,
{
    lemma_fixed_arguments_choose_no_module_maps(settings, interface);
    let arguments = module_ifc_args(settings, interface, host);
    let choice: int = arguments.len() - 4;
    assert(arguments[choice] == module_map_arg(settings.output_dir, host));
    assert forall|i: int| 0 <= i < arguments.len() && i != choice implies !chooses_module_maps(
        #[trigger] arguments[i],
        settings.output_dir,
    ) by {
        if settings.std_lib is Some {
            assert(arguments[1] == std_lib_args(settings.std_lib)[0]);
        }
    }
}

} // verus!
