use zork::compiler::build_run::{BuildAction, BuildRun, StepOutcome, MIU_STAGE};
use zork::compiler::layout::{output_directory_layout, LayoutStep};
use zork::config_cli::CppCompiler;
use zork::config_file::build::BuildAttribute;
use zork::config_file::compiler::{CompilerAttribute, LanguageLevel};
use zork::config_file::modules::{ModuleInterface, ModulesAttribute};
use zork::config_file::ZorkConfigFile;
use zork::utils::errors::BuildError;
use zork::utils::host::HostPlatform;
use zork::utils::template::resources::{STD_HEADER, ZORK_MODULEMAP};

fn project<'a>(
    cpp_compiler: CppCompiler,
    interfaces: Option<Vec<ModuleInterface<'a>>>,
) -> ZorkConfigFile<'a> {
    ZorkConfigFile {
        compiler: CompilerAttribute {
            cpp_compiler,
            cpp_standard: LanguageLevel::CPP20,
            std_lib: None,
        },
        build: Some(BuildAttribute { output_dir: Some("out") }),
        modules: Some(ModulesAttribute { base_ifcs_dir: Some("ifc"), interfaces }),
    }
}

fn two_interfaces() -> Vec<ModuleInterface<'static>> {
    vec![
        ModuleInterface { filename: "math.cppm", module_name: Some("math") },
        ModuleInterface { filename: "utils.cppm", module_name: None },
    ]
}

fn directory(step: &LayoutStep) -> Vec<String> {
    match step {
        LayoutStep::Directory { path } => path.clone(),
        other => panic!("not a directory: {:?}", other),
    }
}

/// Reports a success for every step of the layout and hands back the
/// action that follows the last of them.
fn prepare<'a>(
    config: &'a ZorkConfigFile<'a>,
    host: HostPlatform,
) -> (BuildRun<'a>, BuildAction, Vec<LayoutStep>) {
    let (mut run, mut action) = BuildRun::start(config, host);
    let mut steps = Vec::new();
    while let BuildAction::Prepare { step } = action {
        steps.push(step);
        (run, action) = run.advance(StepOutcome::Succeeded);
    }
    (run, action, steps)
}

#[test]
fn layout_of_a_clang_build() {
    let config = project(CppCompiler::CLANG, None);
    let steps = output_directory_layout(&config);
    assert_eq!(steps.len(), 6);
    assert_eq!(directory(&steps[0]), vec!["out", "clang", "modules", "interfaces"]);
    assert_eq!(directory(&steps[1]), vec!["out", "clang", "modules", "implementations"]);
    assert_eq!(directory(&steps[2]), vec!["out", "zork", "cache"]);
    assert_eq!(directory(&steps[3]), vec!["out", "zork", "intrinsics"]);
    match &steps[4] {
        LayoutStep::File { directory, name, contents } => {
            assert_eq!(directory, &vec!["out", "zork", "intrinsics"]);
            assert_eq!(*name, "std.h");
            assert_eq!(*contents, STD_HEADER);
        }
        other => panic!("not a file: {:?}", other),
    }
    match &steps[5] {
        LayoutStep::File { directory, name, contents } => {
            assert_eq!(directory, &vec!["out", "zork", "intrinsics"]);
            assert_eq!(*name, "zork.modulemap");
            assert_eq!(*contents, ZORK_MODULEMAP);
        }
        other => panic!("not a file: {:?}", other),
    }
    assert_eq!(steps[0].target_path(), "out/clang/modules/interfaces");
    assert_eq!(steps[5].target_path(), "out/zork/intrinsics/zork.modulemap");
}

#[test]
fn layout_of_the_other_compilers_has_no_files() {
    for (compiler, name) in [(CppCompiler::MSVC, "msvc"), (CppCompiler::GCC, "gcc")] {
        let mut config = project(compiler, None);
        config.build = None;
        let steps = output_directory_layout(&config);
        assert_eq!(steps.len(), 4);
        assert_eq!(directory(&steps[0]), vec!["out", name, "modules", "interfaces"]);
        assert_eq!(directory(&steps[1]), vec!["out", name, "modules", "implementations"]);
        assert_eq!(directory(&steps[2]), vec!["out", "zork", "cache"]);
        assert_eq!(directory(&steps[3]), vec!["out", "zork", "intrinsics"]);
    }
}

#[test]
fn templates_fit_together() {
    assert!(ZORK_MODULEMAP.contains("header \"std.h\""));
    assert!(STD_HEADER.contains("#include <vector>"));
}

#[test]
fn build_with_one_interface_under_clang() {
    let config = project(
        CppCompiler::CLANG,
        Some(vec![ModuleInterface { filename: "math.cppm", module_name: Some("math") }]),
    );
    let (run, action, steps) = prepare(&config, HostPlatform::Other);
    assert_eq!(steps.len(), 6);
    assert_eq!(steps[3].target_path(), "out/zork/intrinsics");
    assert_eq!(steps[4].target_path(), "out/zork/intrinsics/std.h");

    match &action {
        BuildAction::Execute { compiler, arguments } => {
            assert_eq!(*compiler, CppCompiler::CLANG);
            assert_eq!(arguments[0], "-std=c++20");
            assert_eq!(arguments[arguments.len() - 1], "ifc/math.cppm");
        }
        other => panic!("unexpected: {:?}", other),
    }
    let (run, action) = run.advance(StepOutcome::Succeeded);
    assert!(matches!(action, BuildAction::Stop));

    let log = run.into_result().unwrap().unwrap();
    assert_eq!(log.len(), 1);
    let commands = log.get(MIU_STAGE).unwrap();
    assert_eq!(
        commands,
        &vec![
            "-std=c++20 -fimplicit-modules -x c++-module --precompile -fimplicit-module-maps \
             -o out/clang/modules/interfaces/math.pcm ifc/math.cppm"
        ]
    );
    assert!(commands[0].starts_with("-std=c++20 "));
    assert!(commands[0].ends_with(" ifc/math.cppm"));
}

#[test]
fn build_runs_the_interfaces_in_their_order() {
    let config = project(CppCompiler::MSVC, Some(two_interfaces()));
    let (run, action, steps) = prepare(&config, HostPlatform::Windows);
    assert_eq!(steps.len(), 4);
    assert!(run.into_result().is_none());

    let (run, _, _) = prepare(&config, HostPlatform::Windows);
    match &action {
        BuildAction::Execute { arguments, .. } => assert_eq!(arguments[7], "ifc/math.cppm"),
        other => panic!("unexpected: {:?}", other),
    }
    let (run, action) = run.advance(StepOutcome::Succeeded);
    match &action {
        BuildAction::Execute { compiler, arguments } => {
            assert_eq!(*compiler, CppCompiler::MSVC);
            assert_eq!(arguments[3], "out/msvc/modules/interfaces/utils.ifc");
            assert_eq!(arguments[7], "ifc/utils.cppm");
        }
        other => panic!("unexpected: {:?}", other),
    }
    let (run, action) = run.advance(StepOutcome::Succeeded);
    assert!(matches!(action, BuildAction::Stop));
    let log = run.into_result().unwrap().unwrap();
    let commands = log.get("MIU").unwrap();
    assert_eq!(commands.len(), 2);
    assert!(commands[0].ends_with("-interface -TP ifc/math.cppm"));
    assert!(commands[1].ends_with("-interface -TP ifc/utils.cppm"));
}

#[test]
fn build_stops_at_the_first_failed_command() {
    let config = project(CppCompiler::CLANG, Some(two_interfaces()));
    let (run, action, _) = prepare(&config, HostPlatform::Other);
    assert!(matches!(action, BuildAction::Execute { .. }));

    let (run, action) = run.advance(StepOutcome::Failed);
    assert!(matches!(action, BuildAction::Stop));
    let (run, action) = run.advance(StepOutcome::Succeeded);
    assert!(matches!(action, BuildAction::Stop));
    let (run, action) = run.advance(StepOutcome::Failed);
    assert!(matches!(action, BuildAction::Stop));

    match run.into_result() {
        Some(Err(BuildError::CommandExecution { command })) => assert_eq!(
            command,
            "-std=c++20 -fimplicit-modules -x c++-module --precompile -fimplicit-module-maps \
             -o out/clang/modules/interfaces/math.pcm ifc/math.cppm"
        ),
        other => panic!("unexpected: {:?}", other.map(|result| result.map(|_| ()))),
    }
}

#[test]
fn build_stops_at_a_failed_second_command() {
    let config = project(CppCompiler::MSVC, Some(two_interfaces()));
    let (run, _, _) = prepare(&config, HostPlatform::Other);
    let (run, action) = run.advance(StepOutcome::Succeeded);
    assert!(matches!(action, BuildAction::Execute { .. }));
    let (run, action) = run.advance(StepOutcome::Failed);
    assert!(matches!(action, BuildAction::Stop));
    match run.into_result() {
        Some(Err(BuildError::CommandExecution { command })) => assert_eq!(
            command,
            "-std:c++20 -c -ifcOutput out/msvc/modules/interfaces/utils.ifc \
             /Foout/msvc/modules/interfaces\\ -interface -TP ifc/utils.cppm"
        ),
        other => panic!("unexpected: {:?}", other.map(|result| result.map(|_| ()))),
    }
}

#[test]
fn build_of_modules_with_gcc_never_begins() {
    let config = project(CppCompiler::GCC, Some(two_interfaces()));
    let (run, action) = BuildRun::start(&config, HostPlatform::Other);
    assert!(matches!(action, BuildAction::Stop));
    let (run, action) = run.advance(StepOutcome::Succeeded);
    assert!(matches!(action, BuildAction::Stop));
    match run.into_result() {
        Some(Err(BuildError::UnsupportedToolchainFeature { compiler })) => {
            assert_eq!(compiler, CppCompiler::GCC)
        }
        other => panic!("unexpected: {:?}", other.map(|result| result.map(|_| ()))),
    }
}

#[test]
fn build_with_gcc_and_no_interface_runs() {
    for interfaces in [None, Some(Vec::new())] {
        let config = project(CppCompiler::GCC, interfaces);
        let (run, action, steps) = prepare(&config, HostPlatform::Other);
        assert_eq!(steps.len(), 4);
        assert_eq!(steps[0].target_path(), "out/gcc/modules/interfaces");
        assert!(matches!(action, BuildAction::Stop));
        assert!(matches!(run.into_result(), Some(Ok(_))));
    }
}

#[test]
fn build_stops_when_the_layout_fails() {
    let config = project(CppCompiler::CLANG, Some(two_interfaces()));
    let (run, action) = BuildRun::start(&config, HostPlatform::Other);
    assert!(matches!(action, BuildAction::Prepare { .. }));
    let (run, action) = run.advance(StepOutcome::Succeeded);
    assert!(matches!(action, BuildAction::Prepare { .. }));
    let (run, action) = run.advance(StepOutcome::Failed);
    assert!(matches!(action, BuildAction::Stop));
    let (run, action) = run.advance(StepOutcome::Succeeded);
    assert!(matches!(action, BuildAction::Stop));
    match run.into_result() {
        Some(Err(BuildError::DirectoryCreation { path })) => {
            assert_eq!(path, "out/clang/modules/implementations")
        }
        other => panic!("unexpected: {:?}", other.map(|result| result.map(|_| ()))),
    }
}

#[test]
fn build_stops_when_a_file_cannot_be_written() {
    let config = project(CppCompiler::CLANG, None);
    let (mut run, mut action) = BuildRun::start(&config, HostPlatform::Other);
    while !matches!(action, BuildAction::Prepare { step: LayoutStep::File { .. } }) {
        (run, action) = run.advance(StepOutcome::Succeeded);
    }
    let (run, action) = run.advance(StepOutcome::Failed);
    assert!(matches!(action, BuildAction::Stop));
    match run.into_result() {
        Some(Err(BuildError::DirectoryCreation { path })) => {
            assert_eq!(path, "out/zork/intrinsics/std.h")
        }
        other => panic!("unexpected: {:?}", other.map(|result| result.map(|_| ()))),
    }
}

#[test]
fn build_without_interfaces_logs_nothing() {
    let config = project(CppCompiler::CLANG, None);
    let (run, action, steps) = prepare(&config, HostPlatform::Other);
    assert_eq!(steps.len(), 6);
    assert!(matches!(action, BuildAction::Stop));
    let log = run.into_result().unwrap().unwrap();
    assert!(log.is_empty());
    assert!(log.get(MIU_STAGE).is_none());

    let mut config = project(CppCompiler::MSVC, None);
    config.modules = None;
    let (run, action, _) = prepare(&config, HostPlatform::Other);
    assert!(matches!(action, BuildAction::Stop));
    assert!(run.into_result().unwrap().unwrap().is_empty());
}

#[test]
fn build_with_an_empty_list_logs_an_empty_stage() {
    let config = project(CppCompiler::MSVC, Some(Vec::new()));
    let (run, action, _) = prepare(&config, HostPlatform::Other);
    assert!(matches!(action, BuildAction::Stop));
    let log = run.into_result().unwrap().unwrap();
    assert_eq!(log.len(), 1);
    assert!(log.get(MIU_STAGE).unwrap().is_empty());
}
