use zork::config_cli::{CliArgs, Command, CppCompiler};
use zork::config_file::build::BuildAttribute;
use zork::config_file::compiler::{CompilerAttribute, LanguageLevel, StdLib};
use zork::config_file::modules::{ModuleInterface, ModulesAttribute};
use zork::config_file::ZorkConfigFile;
use zork::utils::constants::DEFAULT_OUTPUT_DIR;
use zork::utils::errors::BuildError;
use zork::utils::host::HostPlatform;
use zork::utils::text::join;

#[test]
fn compilers_have_their_names() {
    assert_eq!(CppCompiler::CLANG.as_str(), "clang");
    assert_eq!(CppCompiler::MSVC.as_str(), "msvc");
    assert_eq!(CppCompiler::GCC.as_str(), "gcc");
}

#[test]
fn compilers_have_their_drivers() {
    assert_eq!(CppCompiler::CLANG.get_driver(), "clang++");
    assert_eq!(CppCompiler::MSVC.get_driver(), "cl");
    assert_eq!(CppCompiler::GCC.get_driver(), "g++");
}

#[test]
fn default_extension_of_module_interfaces() {
    assert_eq!(CppCompiler::CLANG.get_default_extesion(), "cppm");
    assert_eq!(CppCompiler::MSVC.get_default_extesion(), "ixx");
    assert_eq!(CppCompiler::CLANG.try_get_default_extension().unwrap(), "cppm");
    assert_eq!(CppCompiler::MSVC.try_get_default_extension().unwrap(), "ixx");
}

#[test]
fn modules_are_built_with_clang_and_msvc() {
    assert!(CppCompiler::CLANG.supports_modules());
    assert!(CppCompiler::MSVC.supports_modules());
    assert!(!CppCompiler::GCC.supports_modules());
}

#[test]
fn gcc_has_no_default_extension() {
    match CppCompiler::GCC.try_get_default_extension() {
        Err(BuildError::UnsupportedToolchainFeature { compiler }) => {
            assert_eq!(compiler, CppCompiler::GCC)
        }
        other => panic!("unexpected: {:?}", other),
    }
}

#[test]
fn command_line_arguments_are_plain_values() {
    let args = CliArgs {
        command: Some(Command::Tests),
        verbose: 2,
        new_template: true,
        git: true,
        compiler: Some(CppCompiler::CLANG),
    };
    assert_eq!(2, args.verbose);
    assert_eq!(args.command, Some(Command::Tests));
    assert!(args.new_template);
    assert!(args.git);
    assert_eq!(args.compiler, Some(CppCompiler::CLANG));
}

#[test]
fn standard_is_spelled_for_each_compiler() {
    assert_eq!(LanguageLevel::CPP20.as_cmd_arg(&CppCompiler::CLANG), "-std=c++20");
    assert_eq!(LanguageLevel::CPP20.as_cmd_arg(&CppCompiler::GCC), "-std=c++20");
    assert_eq!(LanguageLevel::CPP20.as_cmd_arg(&CppCompiler::MSVC), "-std:c++20");
    assert_eq!(LanguageLevel::CPP23.as_cmd_arg(&CppCompiler::CLANG), "-std=c++23");
    assert_eq!(LanguageLevel::CPP2A.as_cmd_arg(&CppCompiler::GCC), "-std=c++2a");
    assert_eq!(LanguageLevel::CPP2B.as_cmd_arg(&CppCompiler::CLANG), "-std=c++2b");
    assert_eq!(LanguageLevel::LATEST.as_cmd_arg(&CppCompiler::MSVC), "-std:c++latest");
    assert_eq!(LanguageLevel::LATEST.as_str(), "latest");
}

#[test]
fn standard_libraries_have_their_names() {
    assert_eq!(StdLib::STDLIBCPP.as_str(), "libstdc++");
    assert_eq!(StdLib::LIBCPP.as_str(), "libc++");
}

#[test]
fn host_is_windows_only_by_that_name() {
    assert_eq!(HostPlatform::from_os_name("windows"), HostPlatform::Windows);
    assert_eq!(HostPlatform::from_os_name("linux"), HostPlatform::Other);
    assert_eq!(HostPlatform::from_os_name("macos"), HostPlatform::Other);
    assert_eq!(HostPlatform::from_os_name("Windows"), HostPlatform::Other);
    assert_eq!(HostPlatform::from_os_name(""), HostPlatform::Other);
}

#[test]
fn output_directory_has_a_default() {
    let mut config = ZorkConfigFile {
        compiler: CompilerAttribute {
            cpp_compiler: CppCompiler::CLANG,
            cpp_standard: LanguageLevel::CPP20,
            std_lib: None,
        },
        build: None,
        modules: None,
    };
    assert_eq!(DEFAULT_OUTPUT_DIR, "out");
    assert_eq!(config.output_dir(), "out");
    config.build = Some(BuildAttribute { output_dir: None });
    assert_eq!(config.output_dir(), "out");
    config.build = Some(BuildAttribute { output_dir: Some("./target") });
    assert_eq!(config.output_dir(), "./target");
}

#[test]
fn modules_table_is_optional() {
    let mut config = ZorkConfigFile {
        compiler: CompilerAttribute {
            cpp_compiler: CppCompiler::MSVC,
            cpp_standard: LanguageLevel::LATEST,
            std_lib: None,
        },
        build: None,
        modules: None,
    };
    assert_eq!(config.base_ifcs_dir(), None);
    assert!(config.interfaces().is_none());
    config.modules = Some(ModulesAttribute { base_ifcs_dir: Some("ifc"), interfaces: None });
    assert_eq!(config.base_ifcs_dir(), Some("ifc"));
    assert!(config.interfaces().is_none());
    config.modules = Some(ModulesAttribute {
        base_ifcs_dir: None,
        interfaces: Some(vec![ModuleInterface { filename: "math.cppm", module_name: None }]),
    });
    assert_eq!(config.base_ifcs_dir(), None);
    assert_eq!(config.interfaces().unwrap().len(), 1);
    assert_eq!(config.interfaces().unwrap()[0].filename, "math.cppm");
}

#[test]
fn join_puts_the_separator_between_neighbours() {
    assert_eq!(join(&Vec::new(), " "), "");
    assert_eq!(join(&vec!["one".to_string()], " "), "one");
    assert_eq!(join(&vec!["one".to_string(), "two".to_string()], " "), "one two");
    assert_eq!(
        join(&vec!["a".to_string(), "".to_string(), "c".to_string()], "/"),
        "a//c"
    );
    assert_eq!(join(&vec!["".to_string(), "b".to_string()], ", "), ", b");
}

#[test]
fn errors_have_messages() {
    let directory = BuildError::DirectoryCreation { path: "out/zork/cache".to_string() };
    assert_eq!(directory.message(), "Could not create out/zork/cache");
    let command = BuildError::CommandExecution { command: "-std=c++20 -c".to_string() };
    assert_eq!(command.message(), "The command failed: -std=c++20 -c");
    let unsupported = BuildError::UnsupportedToolchainFeature { compiler: CppCompiler::GCC };
    assert_eq!(unsupported.message(), "gcc is still not supported yet by Zork++");
}
