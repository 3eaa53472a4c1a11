//! One build, from the first directory to the last compiler run. The build
//! decides; whoever drives it creates the directories, runs the compiler and
//! reports how each of them went.
use vstd::hash_map::StringHashMap;
use vstd::prelude::*;
use vstd::string::StringExecFns;

use crate::compiler::layout::{output_directory_layout, output_layout, LayoutStep, LayoutStepModel};
use crate::compiler::module_ifc_commands;
use crate::compiler::module_interfaces::get_module_ifc_args;
use crate::config_file::compiler::CppCompiler;
use crate::config_file::{ProjectModel, ZorkConfigFile};
use crate::utils::errors::{BuildError, BuildErrorModel};
use crate::utils::host::HostPlatform;
use crate::utils::text::{join, joined};

verus! {

/// The label under which the commands that precompile module interface
/// units are logged.
pub const MIU_STAGE: &'static str = "MIU";

/// The commands of a build by the stage that issued them. Each command is
/// the arguments of one compiler run, joined by spaces.
pub type CommandLog = StringHashMap<Vec<String>>;

/// How the step went that the build asked for last.
#[derive(Clone, Copy, Debug, PartialEq, Eq, Structural)]
pub enum StepOutcome {
    Succeeded,
    Failed,
}

/// What the build asks of its driver.
#[derive(Debug)]
pub enum BuildAction {
    /// Bring about one step of the output layout.
    Prepare { step: LayoutStep },
    /// Run `compiler` with `arguments`, and wait for it.
    Execute { compiler: CppCompiler, arguments: Vec<String> },
    /// Nothing: the build is over.
    Stop,
}

/// An action as the contracts see it.
pub enum ActionModel {
    Prepare { step: LayoutStepModel },
    Execute { compiler: CppCompiler, arguments: Seq<Seq<char>> },
    Stop,
}

impl View for BuildAction {
    type V = ActionModel;

    open spec fn view(&self) -> ActionModel {
        match self {
            BuildAction::Prepare { step } => ActionModel::Prepare { step: step@ },
            BuildAction::Execute { compiler, arguments } => ActionModel::Execute {
                compiler: *compiler,
                arguments: arguments.deep_view(),
            },
            BuildAction::Stop => ActionModel::Stop,
        }
    }
}

/// How far a build has come.
pub enum Progress {
    /// Entry `place` of the plan is under way.
    Running { place: nat },
    /// Every entry of the plan succeeded.
    Finished,
    /// An entry failed, and the build stopped there.
    Failed { error: BuildErrorModel },
}

/// A build as the contracts see it.
pub struct RunModel {
    pub project: ProjectModel,
    pub host: HostPlatform,
    pub progress: Progress,
}

impl RunModel {
    /// The steps of the output layout of this build.
    pub open spec fn layout(self) -> Seq<LayoutStepModel> {
        output_layout(self.project.settings)
    }

    /// The command lines of this build, one for each declared interface
    /// and in the order of their declaration.
    pub open spec fn commands(self) -> Seq<Seq<Seq<char>>> {
        match self.project.interfaces {
            Some(interfaces) => module_ifc_commands(self.project.settings, interfaces, self.host),
            None => seq![],
        }
    }

    /// Everything that the build asks for where nothing fails, in its
    /// order: the steps of the layout, then one compiler run for each
    /// declared interface.
    pub open spec fn plan(self) -> Seq<ActionModel> {
        Seq::new(
            self.layout().len() + self.commands().len(),
            |i: int|
                if i < self.layout().len() {
                    ActionModel::Prepare { step: self.layout()[i] }
                } else {
                    ActionModel::Execute {
                        compiler: self.project.settings.compiler,
                        arguments: self.commands()[i - self.layout().len()],
                    }
                },
        )
    }

    /// The error that stops the build when entry `place` of its plan fails:
    /// for a step of the layout the path that could not be created, for a
    /// compiler run the command that did not succeed.
    pub open spec fn failure_at(self, place: int) -> BuildErrorModel
        recommends
            0 <= place < self.plan().len(),
    {
        if place < self.layout().len() {
            BuildErrorModel::DirectoryCreation { path: self.layout()[place].target_path() }
        } else {
            BuildErrorModel::CommandExecution {
                command: joined(self.commands()[place - self.layout().len()], " "@),
            }
        }
    }

    /// The log of the finished build: the joined commands of the
    /// interfaces under [`MIU_STAGE`], where the project declares a list of
    /// interfaces, and nothing else.
    pub open spec fn command_log(self) -> Map<Seq<char>, Seq<Seq<char>>> {
        match self.project.interfaces {
            Some(_) => map![MIU_STAGE@ => joined_commands(self.commands())],
            None => map![],
        }
    }

    /// The build with its progress replaced.
    pub open spec fn at(self, progress: Progress) -> RunModel {
        RunModel { progress, ..self }
    }

    /// Whether the build is over.
    pub open spec fn is_over(self) -> bool {
        !(self.progress is Running)
    }

    /// The entry under way is an entry of the plan.
    pub open spec fn wf(self) -> bool {
        match self.progress {
            Progress::Running { place } => place < self.plan().len(),
            _ => true,
        }
    }

    /// Why the build cannot be begun, if it cannot: it would have to
    /// precompile a module interface with a compiler that Zork++ builds no
    /// modules with.
    pub open spec fn rejection(self) -> Option<BuildErrorModel> {
        if self.commands().len() > 0 && !self.project.settings.compiler.supports_modules() {
            Some(
                BuildErrorModel::UnsupportedToolchainFeature {
                    compiler: self.project.settings.compiler,
                },
            )
        } else {
            None
        }
    }

    /// The build of `project` on `host` at its start, with the action that
    /// it starts with: the first entry of its plan. A build that cannot be
    /// begun is over at once, before anything is created or run.
    pub open spec fn start(project: ProjectModel, host: HostPlatform) -> (RunModel, ActionModel) {
        let run = RunModel { project, host, progress: Progress::Running { place: 0 } };
        match run.rejection() {
            Some(error) => (run.at(Progress::Failed { error }), ActionModel::Stop),
            None => (run, run.plan()[0]),
        }
    }

    /// The build after `outcome` was reported of the entry under way, and
    /// the action that it asks for next.
    ///
    /// A failure stops the build with the error of that entry. After a
    /// success the next entry of the plan follows, and after the last one
    /// the build is finished. A build that is over stays as it is and asks
    /// for nothing.
    pub open spec fn next(self, outcome: StepOutcome) -> (RunModel, ActionModel) {
        match self.progress {
            Progress::Running { place } => if outcome is Failed {
                (
                    self.at(Progress::Failed { error: self.failure_at(place as int) }),
                    ActionModel::Stop,
                )
            } else if place + 1 < self.plan().len() {
                (self.at(Progress::Running { place: place + 1 }), self.plan()[place as int + 1])
            } else {
                (self.at(Progress::Finished), ActionModel::Stop)
            },
            _ => (self, ActionModel::Stop),
        }
    }

    /// The build and the actions that it asked for, after each of
    /// `outcomes` was reported to it in turn.
    pub open spec fn after(self, outcomes: Seq<StepOutcome>) -> (RunModel, Seq<ActionModel>)
        decreases outcomes.len(),
    {
        if outcomes.len() == 0 {
            (self, seq![])
        } else {
            let (before, actions) = self.after(outcomes.drop_last());
            let (next, action) = before.next(outcomes.last());
            (next, actions.push(action))
        }
    }
}

/// The plan of every build holds the whole layout before the first compiler
/// run: at least the four directories, and no step of the layout after a
/// compiler run.
pub proof fn lemma_layout_precedes_commands(run: RunModel)
    ensures
        run.plan().len() >= run.layout().len() >= 4,
        forall|i: int, j: int|
            0 <= i <= j < run.plan().len() && #[trigger] run.plan()[j] is Prepare
                ==> #[trigger] run.plan()[i] is Prepare,
{
}

/// A build that is over stays as it is, whatever is reported to it, and
/// asks for nothing any more.
pub proof fn lemma_over_stays_over(run: RunModel, outcomes: Seq<StepOutcome>)
    requires
        run.is_over(),
    ensures
        run.after(outcomes).0 == run,
        run.after(outcomes).1.len() == outcomes.len(),
        forall|i: int| 0 <= i < outcomes.len() ==> run.after(outcomes).1[i] is Stop,
    decreases outcomes.len(),
{
    if outcomes.len() > 0 {
        lemma_over_stays_over(run, outcomes.drop_last());
    }
}

/// A build that would have to precompile a module interface with GCC is
/// over before it begins: it asks for nothing, whatever is reported to it,
/// and ends with the error that names the compiler. Every other build
/// begins.
pub proof fn lemma_unsupported_build_never_begins(
    project: ProjectModel,
    host: HostPlatform,
    outcomes: Seq<StepOutcome>,
)
    ensures
        ({
            let (run, first) = RunModel::start(project, host);
            let unsupported = project.settings.compiler is GCC && project.interfaces is Some
                && project.interfaces->0.len() > 0;
            &&& unsupported <==> run.progress is Failed
            &&& unsupported ==> {
                &&& run.progress == (Progress::Failed {
                    error: BuildErrorModel::UnsupportedToolchainFeature {
                        compiler: CppCompiler::GCC,
                    },
                })
                &&& first is Stop
                &&& run.after(outcomes).0 == run
                &&& forall|i: int| 0 <= i < outcomes.len() ==> run.after(outcomes).1[i] is Stop
            }
            &&& !unsupported ==> run.progress == (Progress::Running { place: 0 }) && first
                == run.plan()[0]
        }),
{
    let (run, first) = RunModel::start(project, host);
    if run.is_over() {
        lemma_over_stays_over(run, outcomes);
    }
}

/// While nothing fails, the build asks for the entries of its plan one
/// after the other: the layout first, then the interfaces in the order of
/// their declaration, each once. After `outcomes`, all of them successes
/// and fewer than the plan has entries, the entry under way is the one at
/// their number.
pub proof fn lemma_successes_follow_plan(
    project: ProjectModel,
    host: HostPlatform,
    outcomes: Seq<StepOutcome>,
)
    requires
        RunModel::start(project, host).0.rejection() is None,
        forall|i: int| 0 <= i < outcomes.len() ==> outcomes[i] is Succeeded,
        outcomes.len() < RunModel::start(project, host).0.plan().len(),
    ensures
        ({
            let (run, first) = RunModel::start(project, host);
            &&& run.after(outcomes).0 == run.at(Progress::Running { place: outcomes.len() })
            &&& seq![first] + run.after(outcomes).1 == run.plan().take(outcomes.len() as int + 1)
        }),
    decreases outcomes.len(),
{
    let (run, first) = RunModel::start(project, host);
    if outcomes.len() == 0 {
        assert(seq![first] + run.after(outcomes).1 =~= run.plan().take(1));
    } else {
        let earlier = outcomes.drop_last();
        let place: int = earlier.len() as int;
        assert forall|i: int| 0 <= i < earlier.len() implies earlier[i] is Succeeded by {
            assert(earlier[i] == outcomes[i]);
        }
        lemma_successes_follow_plan(project, host, earlier);
        let (before, actions) = run.after(earlier);
        assert(outcomes.last() == outcomes[place]);
        assert(before.plan() == run.plan());
        assert((seq![first] + actions).len() == place + 1);
        assert(seq![first] + actions.push(run.plan()[place + 1]) =~= (seq![first] + actions).push(
            run.plan()[place + 1],
        ));
        assert(run.plan().take(place + 1).push(run.plan()[place + 1]) =~= run.plan().take(
            place + 2,
        ));
    }
}

/// A build in which nothing fails is finished once every entry of its plan
/// has succeeded, and it has then asked for each entry once, in the plan's
/// order, and for nothing else.
pub proof fn lemma_build_finishes(
    project: ProjectModel,
    host: HostPlatform,
    outcomes: Seq<StepOutcome>,
)
    requires
        RunModel::start(project, host).0.rejection() is None,
        forall|i: int| 0 <= i < outcomes.len() ==> outcomes[i] is Succeeded,
        outcomes.len() == RunModel::start(project, host).0.plan().len(),
    ensures
        ({
            let (run, first) = RunModel::start(project, host);
            &&& run.after(outcomes).0 == run.at(Progress::Finished)
            &&& seq![first] + run.after(outcomes).1 == run.plan().push(ActionModel::Stop)
        }),
{
    let (run, first) = RunModel::start(project, host);
    lemma_layout_precedes_commands(run);
    let earlier = outcomes.drop_last();
    let place: int = earlier.len() as int;
    assert forall|i: int| 0 <= i < earlier.len() implies earlier[i] is Succeeded by {
        assert(earlier[i] == outcomes[i]);
    }
    lemma_successes_follow_plan(project, host, earlier);
    let (before, actions) = run.after(earlier);
    assert(outcomes.last() == outcomes[place]);
    assert(before.plan() == run.plan());
    assert(run.plan().take(place + 1) =~= run.plan());
    assert(seq![first] + actions.push(ActionModel::Stop) =~= (seq![first] + actions).push(
        ActionModel::Stop,
    ));
}

/// The first failure is the end of the build. Where entry `place` of the
/// plan fails after every entry before it succeeded, the build has asked
/// for the entries up to that one and asks for nothing after it, whatever is
/// reported from then on; and it ends with the error of that entry.
pub proof fn lemma_build_stops_at_first_failure(
    project: ProjectModel,
    host: HostPlatform,
    outcomes: Seq<StepOutcome>,
    place: int,
)
    requires
        RunModel::start(project, host).0.rejection() is None,
        0 <= place < outcomes.len(),
        place < RunModel::start(project, host).0.plan().len(),
        forall|i: int| 0 <= i < place ==> outcomes[i] is Succeeded,
        outcomes[place] is Failed,
    ensures
        ({
            let (run, first) = RunModel::start(project, host);
            let (stopped, actions) = run.after(outcomes);
            &&& stopped == run.at(Progress::Failed { error: run.failure_at(place) })
            &&& actions.len() == outcomes.len()
            &&& seq![first] + actions.take(place) == run.plan().take(place + 1)
            &&& forall|i: int| place <= i < actions.len() ==> actions[i] is Stop
        }),
    decreases outcomes.len(),
{
    let (run, first) = RunModel::start(project, host);
    let earlier = outcomes.drop_last();
    let (before, actions) = run.after(earlier);
    let (stopped, action) = before.next(outcomes.last());
    assert(run.after(outcomes) == (stopped, actions.push(action)));
    if place + 1 == outcomes.len() {
        assert forall|i: int| 0 <= i < earlier.len() implies earlier[i] is Succeeded by {
            assert(earlier[i] == outcomes[i]);
        }
        lemma_successes_follow_plan(project, host, earlier);
        assert(before.failure_at(place) == run.failure_at(place));
        assert((seq![first] + actions).len() == place + 1);
        assert(actions.push(action).take(place) =~= actions);
    } else {
        assert(earlier[place] == outcomes[place]);
        assert forall|i: int| 0 <= i < place implies earlier[i] is Succeeded by {
            assert(earlier[i] == outcomes[i]);
        }
        lemma_build_stops_at_first_failure(project, host, earlier, place);
        assert(actions.push(action).take(place) =~= actions.take(place));
    }
}

/// Each of `commands` joined by spaces.
pub open spec fn joined_commands(commands: Seq<Seq<Seq<char>>>) -> Seq<Seq<char>> {
    Seq::new(commands.len(), |i: int| joined(commands[i], " "@))
}

/// What a log holds, command by command.
pub open spec fn log_model(log: Map<Seq<char>, Vec<String>>) -> Map<Seq<char>, Seq<Seq<char>>> {
    log.map_values(|commands: Vec<String>| commands.deep_view())
}

/// Where a build stands, with what it has gathered so far.
enum Stage {
    Preparing { step: usize },
    Precompiling { index: usize, issued: Vec<String> },
    Finished { log: CommandLog },
    Failed { error: BuildError },
}

/// The build of one project on one host.
pub struct BuildRun<'a> {
    config: &'a ZorkConfigFile<'a>,
    host: HostPlatform,
    stage: Stage,
}

impl<'a> View for BuildRun<'a> {
    type V = RunModel;

    closed spec fn view(&self) -> RunModel {
        RunModel {
            project: self.config@,
            host: self.host,
            progress: match self.stage {
                Stage::Preparing { step } => Progress::Running { place: step as nat },
                Stage::Precompiling { index, .. } => Progress::Running {
                    place: output_layout(self.config.settings()).len() + index as nat,
                },
                Stage::Finished { .. } => Progress::Finished,
                Stage::Failed { error } => Progress::Failed { error: error@ },
            },
        }
    }
}

impl<'a> BuildRun<'a> {
    /// The step under way is a step of the build, and what was gathered
    /// is what the build has issued up to it.
    #[verifier::type_invariant]
    closed spec fn inv(&self) -> bool {
        &&& self@.wf()
        &&& match self.stage {
            Stage::Preparing { step } => step < self@.layout().len(),
            Stage::Precompiling { index, issued } => issued.deep_view() == joined_commands(
                self@.commands(),
            ).take(index + 1),
            Stage::Finished { log } => log_model(log@) == self@.command_log(),
            _ => true,
        }
    }

    /// Starts the build of `config` on `host`. Its first action is the
    /// first step of the output layout, unless the build cannot be begun:
    /// see [`RunModel::start`].
    pub fn start(config: &'a ZorkConfigFile<'a>, host: HostPlatform) -> (started: (
        BuildRun<'a>,
        BuildAction,
    ))
        ensures
            (started.0@, started.1@) == RunModel::start(config@, host),
            started.0@.wf(),
    {
        let compiler = config.compiler.cpp_compiler;
        let declared: usize = match config.interfaces() {
            Some(interfaces) => interfaces.len(),
            None => 0,
        };
        if declared > 0 && !compiler.supports_modules() {
            let error = BuildError::UnsupportedToolchainFeature { compiler };
            return (BuildRun { config, host, stage: Stage::Failed { error } }, BuildAction::Stop);
        }
        let mut steps = output_directory_layout(config);
        assert(steps.deep_view().len() >= 4);
        assert(steps.deep_view()[0] == steps[0]@);
        let step = steps.remove(0);
        (BuildRun { config, host, stage: Stage::Preparing { step: 0 } }, BuildAction::Prepare { step })
    }

    /// The build once the last step of the layout has succeeded: it
    /// precompiles the first interface, or is over where there is none.
    fn start_modules(config: &'a ZorkConfigFile<'a>, host: HostPlatform) -> (started: (
        BuildRun<'a>,
        BuildAction,
    ))
        ensures
            (started.0@, started.1@) == (RunModel {
                project: config@,
                host,
                progress: Progress::Running {
                    place: (output_layout(config.settings()).len() - 1) as nat,
                },
            }).next(StepOutcome::Succeeded),
            started.0@.wf(),
    {
        let mut log: CommandLog = StringHashMap::new();
        match config.interfaces() {
            Some(interfaces) => {
                if interfaces.len() > 0 {
                    let arguments = get_module_ifc_args(config, &interfaces[0], host);
                    let issued = vec![join(&arguments, " ")];
                    proof {
                        let model = RunModel { project: config@, host, progress: Progress::Finished };
                        assert(model.commands().len() == interfaces.len());
                        assert(issued.deep_view() =~= joined_commands(model.commands()).take(1));
                    }
                    return (
                        BuildRun { config, host, stage: Stage::Precompiling { index: 0, issued } },
                        BuildAction::Execute { compiler: config.compiler.cpp_compiler, arguments },
                    );
                }
                log.insert(String::from_str(MIU_STAGE), Vec::new());
                assert(log@[MIU_STAGE@].deep_view() =~= Seq::<Seq<char>>::empty());
            },
            None => {},
        }
        let ghost model = RunModel { project: config@, host, progress: Progress::Finished };
        assert(joined_commands(model.commands()) =~= Seq::<Seq<char>>::empty());
        assert(log_model(log@) =~= model.command_log());
        (BuildRun { config, host, stage: Stage::Finished { log } }, BuildAction::Stop)
    }

    /// Takes the report of how the action went that the build asked for
    /// last, and says what to do next: see [`RunModel::next`].
    pub fn advance(self, outcome: StepOutcome) -> (next: (BuildRun<'a>, BuildAction))
        ensures
            (next.0@, next.1@) == self@.next(outcome),
            next.0@.wf(),
    {
        proof {
            use_type_invariant(&self);
        }
        let ghost before = self@;
        let BuildRun { config, host, stage } = self;
        match stage {
            Stage::Preparing { step } => {
                let mut steps = output_directory_layout(config);
                assert(steps.deep_view()[step as int] == steps[step as int]@);
                match outcome {
                    StepOutcome::Failed => {
                        let error = BuildError::DirectoryCreation {
                            path: steps[step].target_path(),
                        };
                        (BuildRun { config, host, stage: Stage::Failed { error } }, BuildAction::Stop)
                    },
                    StepOutcome::Succeeded => {
                        if step + 1 < steps.len() {
                            assert(steps.deep_view()[step + 1] == steps[step + 1]@);
                            let step_after = steps.remove(step + 1);
                            (
                                BuildRun { config, host, stage: Stage::Preparing { step: step + 1 } },
                                BuildAction::Prepare { step: step_after },
                            )
                        } else {
                            Self::start_modules(config, host)
                        }
                    },
                }
            },
            Stage::Precompiling { index, issued } => {
                let mut issued = issued;
                match config.interfaces() {
                    Some(interfaces) => {
                        assert(before.commands().len() == interfaces.len());
                        assert(issued.deep_view().len() == index + 1);
                        assert(issued.deep_view()[index as int] == issued[index as int]@);
                        match outcome {
                            StepOutcome::Failed => {
                                let error = BuildError::CommandExecution {
                                    command: issued.remove(index),
                                };
                                (
                                    BuildRun { config, host, stage: Stage::Failed { error } },
                                    BuildAction::Stop,
                                )
                            },
                            StepOutcome::Succeeded => {
                                if index + 1 < interfaces.len() {
                                    let arguments = get_module_ifc_args(
                                        config,
                                        &interfaces[index + 1],
                                        host,
                                    );
                                    issued.push(join(&arguments, " "));
                                    assert(issued.deep_view() =~= joined_commands(
                                        before.commands(),
                                    ).take(index + 2));
                                    (
                                        BuildRun {
                                            config,
                                            host,
                                            stage: Stage::Precompiling { index: index + 1, issued },
                                        },
                                        BuildAction::Execute {
                                            compiler: config.compiler.cpp_compiler,
                                            arguments,
                                        },
                                    )
                                } else {
                                    assert(issued.deep_view() =~= joined_commands(
                                        before.commands(),
                                    ));
                                    let mut log: CommandLog = StringHashMap::new();
                                    log.insert(String::from_str(MIU_STAGE), issued);
                                    assert(log_model(log@) =~= before.command_log());
                                    (
                                        BuildRun { config, host, stage: Stage::Finished { log } },
                                        BuildAction::Stop,
                                    )
                                }
                            },
                        }
                    },
                    None => {
                        proof {
                            assert(before.commands().len() == 0);
                        }
                        unreached()
                    },
                }
            },
            stage => (BuildRun { config, host, stage }, BuildAction::Stop),
        }
    }

    /// How the build ended: with the log of its commands, or with the
    /// error that stopped it. `None` while the build is not over.
    pub fn into_result(self) -> (result: Option<Result<CommandLog, BuildError>>)
        ensures
            match result {
                Some(Ok(log)) => self@.progress is Finished && log_model(log@)
                    == self@.command_log(),
                Some(Err(error)) => self@.progress == (Progress::Failed { error: error@ }),
                None => !self@.is_over(),
            },
    {
        proof {
            use_type_invariant(&self);
        }
        match self.stage {
            Stage::Finished { log } => Some(Ok(log)),
            Stage::Failed { error } => Some(Err(error)),
            _ => None,
        }
    }
}

} // verus!
