//! The launch plan: the resolved command line of one launch, and the steps
//! that carry it out.

use vstd::prelude::*;
use crate::launcher::{
    LaunchError, LauncherView, MinecraftLauncher, VersionFacts, VersionFactsView,
};
use crate::laws::{lemma_variable_names, lemma_variable_values};
use crate::options::{game_tokens, game_views, jvm_views, GameOption, JvmOption};
use crate::text::{lemma_texts_push, or_empty, text_view, texts};

verus! {

/// What the version manager hands out of a version that it knows.
#[derive(Debug)]
pub struct FoundVersion {
    /// The entry class, where the version declares one.
    pub main_class: Option<String>,
}

/// The view of a found version.
pub ghost struct FoundVersionView {
    pub main_class: Option<Seq<char>>,
}

impl View for FoundVersion {
    type V = FoundVersionView;

    open spec fn view(&self) -> FoundVersionView {
        FoundVersionView { main_class: text_view(self.main_class) }
    }
}

/// What the version manager and the version gave for one version
/// identifier.  Each part is `None` where its step failed or was not
/// taken.  The collection of native libraries is of a type `N` that the
/// launcher carries through and never looks into.
#[derive(Debug)]
pub struct Resolution<N> {
    /// The version found; `None` where the manager does not know the
    /// identifier.
    pub version: Option<FoundVersion>,
    /// The native libraries; `None` where they could not be resolved.
    pub natives: Option<N>,
    /// The version's data for the variable map; `None` where they were not
    /// read.  Reading them does not fail, but without them no template can
    /// have been expanded.
    pub facts: Option<VersionFacts>,
    /// The game options that the version's templates expand to; `None`
    /// where a template is malformed.
    pub game_options: Option<Vec<GameOption>>,
    /// The JVM options that the version's templates expand to; `None` where
    /// a template is malformed.
    pub jvm_options: Option<Vec<JvmOption>>,
}

/// The view of a resolution.
pub ghost struct ResolutionView<N> {
    pub version: Option<FoundVersionView>,
    pub natives: Option<N>,
    pub facts: Option<VersionFactsView>,
    pub game_options: Option<Seq<(Seq<char>, Option<Seq<char>>)>>,
    pub jvm_options: Option<Seq<Seq<char>>>,
}

impl<N> View for Resolution<N> {
    type V = ResolutionView<N>;

    open spec fn view(&self) -> ResolutionView<N> {
        ResolutionView {
            version: match self.version {
                Some(found) => Some(found@),
                None => None,
            },
            natives: self.natives,
            facts: match self.facts {
                Some(facts) => Some(facts@),
                None => None,
            },
            game_options: match self.game_options {
                Some(options) => Some(game_views(options@)),
                None => None,
            },
            jvm_options: match self.jvm_options {
                Some(options) => Some(jvm_views(options@)),
                None => None,
            },
        }
    }
}

/// One question to the version manager or to the version.
#[derive(Debug, Clone, Copy, PartialEq, Eq, Structural)]
pub enum ResolutionStep {
    /// Look the version identifier up.
    FindVersion,
    /// Resolve the version's native libraries for this platform.
    ResolveNatives,
    /// Read the version's data for the variable map.
    ReadFacts,
    /// Expand the version's game-argument templates.
    ExpandGameArguments,
    /// Expand the version's JVM-argument templates.
    ExpandJvmArguments,
}

/// The question that follows the last one asked, given the answers so far:
/// the five questions come in their order, and none is asked after one that
/// failed.
pub open spec fn following<N>(answers: ResolutionView<N>, last: Option<ResolutionStep>) -> Option<
    ResolutionStep,
> {
    match last {
        None => Some(ResolutionStep::FindVersion),
        Some(ResolutionStep::FindVersion) => if answers.version is Some {
            Some(ResolutionStep::ResolveNatives)
        } else {
            None
        },
        Some(ResolutionStep::ResolveNatives) => if answers.natives is Some {
            Some(ResolutionStep::ReadFacts)
        } else {
            None
        },
        Some(ResolutionStep::ReadFacts) => if answers.facts is Some {
            Some(ResolutionStep::ExpandGameArguments)
        } else {
            None
        },
        Some(ResolutionStep::ExpandGameArguments) => if answers.game_options is Some {
            Some(ResolutionStep::ExpandJvmArguments)
        } else {
            None
        },
        Some(ResolutionStep::ExpandJvmArguments) => None,
    }
}

impl<N> Resolution<N> {
    /// A resolution to which nothing has been answered yet.
    pub fn new() -> (answers: Resolution<N>)
        ensures
            answers@ == (ResolutionView::<N> {
                version: None,
                natives: None,
                facts: None,
                game_options: None,
                jvm_options: None,
            }),
    {
        Resolution {
            version: None,
            natives: None,
            facts: None,
            game_options: None,
            jvm_options: None,
        }
    }

    /// What to ask next, or `None` where the resolution is at its end.
    pub fn next_step(&self, last: Option<ResolutionStep>) -> (step: Option<ResolutionStep>)
        ensures
            step == following(self@, last),
    {
        match last {
            None => Some(ResolutionStep::FindVersion),
            Some(ResolutionStep::FindVersion) => if self.version.is_some() {
                Some(ResolutionStep::ResolveNatives)
            } else {
                None
            },
            Some(ResolutionStep::ResolveNatives) => if self.natives.is_some() {
                Some(ResolutionStep::ReadFacts)
            } else {
                None
            },
            Some(ResolutionStep::ReadFacts) => if self.facts.is_some() {
                Some(ResolutionStep::ExpandGameArguments)
            } else {
                None
            },
            Some(ResolutionStep::ExpandGameArguments) => if self.game_options.is_some() {
                Some(ResolutionStep::ExpandJvmArguments)
            } else {
                None
            },
            Some(ResolutionStep::ExpandJvmArguments) => None,
        }
    }
}

/// The resolved data of one launch.
#[derive(Debug)]
pub struct LaunchArguments<N> {
    java_main_class: String,
    java_program_path: String,
    jvm_options: Vec<JvmOption>,
    game_options: Vec<GameOption>,
    game_native_path: String,
    game_natives: N,
}

/// The view of a launch plan.
pub ghost struct PlanView<N> {
    pub main_class: Seq<char>,
    pub program: Seq<char>,
    pub jvm_options: Seq<Seq<char>>,
    pub game_options: Seq<(Seq<char>, Option<Seq<char>>)>,
    pub native_path: Seq<char>,
    pub natives: N,
}

impl<N> View for LaunchArguments<N> {
    type V = PlanView<N>;

    closed spec fn view(&self) -> PlanView<N> {
        PlanView {
            main_class: self.java_main_class@,
            program: self.java_program_path@,
            jvm_options: jvm_views(self.jvm_options@),
            game_options: game_views(self.game_options@),
            native_path: self.game_native_path@,
            natives: self.game_natives,
        }
    }
}

/// The native libraries to write, and the directory to write them into.
#[derive(Debug)]
pub struct ExtractionRequest<'a, N> {
    pub directory: &'a String,
    pub natives: &'a N,
}

/// The process to start: the executable and its argument vector.
#[derive(Debug)]
pub struct SpawnRequest {
    pub program: String,
    pub args: Vec<String>,
}

/// How far a launch has come.
#[derive(Debug, Clone, Copy, PartialEq, Eq, Structural)]
pub enum LaunchState {
    /// Nothing has been done yet.
    Ready,
    /// The natives are being written.
    Extracting,
    /// The natives are on disk and the runtime is being started.
    Spawning,
    /// The runtime runs.
    Running,
    /// The launch has ended with an error.
    Failed(LaunchError),
}

/// What happened outside since the last step.
#[derive(Debug, Clone, Copy, PartialEq, Eq, Structural)]
pub enum LaunchEvent {
    /// The caller asks for the launch.
    Begin,
    /// Every native library has been written.
    Extracted,
    /// A native library could not be written.
    ExtractionFailed,
    /// The runtime process has been started.
    Spawned,
    /// The runtime process could not be started.
    SpawnFailed,
}

/// What is to be done outside next.
#[derive(Debug)]
pub enum LaunchAction<'a, N> {
    /// Write the natives.
    Extract(ExtractionRequest<'a, N>),
    /// Start the runtime.
    Spawn(SpawnRequest),
    /// Nothing: the launch waits, runs or has failed.
    Nothing,
}

/// The view of an action.
pub ghost enum ActionView<N> {
    Extract { directory: Seq<char>, natives: N },
    Spawn { program: Seq<char>, args: Seq<Seq<char>> },
    Nothing,
}

impl<'a, N> View for LaunchAction<'a, N> {
    type V = ActionView<N>;

    open spec fn view(&self) -> ActionView<N> {
        match self {
            LaunchAction::Extract(request) => ActionView::Extract {
                directory: request.directory@,
                natives: *request.natives,
            },
            LaunchAction::Spawn(request) => ActionView::Spawn {
                program: request.program@,
                args: texts(request.args@),
            },
            LaunchAction::Nothing => ActionView::Nothing,
        }
    }
}

/// One step of a launch.  The natives are written first; the runtime is
/// started only once they are all on disk; a failure ends the launch.  An
/// event that the state does not wait for changes nothing.
pub open spec fn launch_step<N>(plan: PlanView<N>, state: LaunchState, event: LaunchEvent) -> (
    LaunchState,
    ActionView<N>,
) {
    match (state, event) {
        (LaunchState::Ready, LaunchEvent::Begin) => (
            LaunchState::Extracting,
            ActionView::Extract { directory: plan.native_path, natives: plan.natives },
        ),
        (LaunchState::Extracting, LaunchEvent::Extracted) => (
            LaunchState::Spawning,
            ActionView::Spawn { program: plan.program, args: argument_vector(plan) },
        ),
        (LaunchState::Extracting, LaunchEvent::ExtractionFailed) => (
            LaunchState::Failed(LaunchError::ExtractionFailure),
            ActionView::Nothing,
        ),
        (LaunchState::Spawning, LaunchEvent::Spawned) => (LaunchState::Running, ActionView::Nothing),
        (LaunchState::Spawning, LaunchEvent::SpawnFailed) => (
            LaunchState::Failed(LaunchError::SpawnFailure),
            ActionView::Nothing,
        ),
        _ => (state, ActionView::Nothing),
    }
}

/// The state of a launch after a run of events, each answered by one step.
pub open spec fn state_after<N>(plan: PlanView<N>, events: Seq<LaunchEvent>) -> LaunchState
    decreases events.len(),
{
    if events.len() == 0 {
        LaunchState::Ready
    } else {
        launch_step(plan, state_after(plan, events.drop_last()), events.last()).0
    }
}

/// The JVM options that every launch starts with.
pub open spec fn baseline() -> Seq<Seq<char>> {
    seq![
        "-Xmn128m"@,
        "-Xmx2048m"@,
        "-XX:+UseG1GC"@,
        "-XX:-UseAdaptiveSizePolicy"@,
        "-XX:-OmitStackTraceInFastThrow"@,
        "-Dfml.ignoreInvalidMinecraftCertificates=true"@,
        "-Dfml.ignorePatchDiscrepancies=true"@,
    ]
}

/// The plan that a configuration and a resolution give, or the first
/// failure among the resolution's steps.  Where the facts were not read, no
/// template can have been expanded with them, and the outcome is that of a
/// failed expansion.
pub open spec fn planned<N>(launcher: LauncherView, resolution: ResolutionView<N>) -> Result<
    PlanView<N>,
    LaunchError,
> {
    if resolution.version is None {
        Err(LaunchError::VersionNotFound)
    } else if resolution.natives is None {
        Err(LaunchError::NativeResolutionFailure)
    } else if resolution.facts is None || resolution.game_options is None
        || resolution.jvm_options is None {
        Err(LaunchError::TemplateExpansionFailure)
    } else {
        Ok(
            PlanView {
                main_class: or_empty(resolution.version->0.main_class),
                program: launcher.program_path,
                jvm_options: baseline() + resolution.jvm_options->0,
                game_options: resolution.game_options->0,
                native_path: resolution.facts->0.natives_path,
                natives: resolution.natives->0,
            },
        )
    }
}

/// The argument vector of a plan: the JVM options, the entry class, then the
/// tokens of the game options.
pub open spec fn argument_vector<N>(plan: PlanView<N>) -> Seq<Seq<char>> {
    plan.jvm_options + seq![plan.main_class] + game_tokens(plan.game_options)
}

impl MinecraftLauncher {
    /// Resolves the launch plan of the configured version from what the
    /// version manager and the version gave.  The baseline JVM options come
    /// first, then those of the version; the natives directory is the one
    /// that the variable map names.  A failed step gives its error and no
    /// plan.
    pub fn to_launch_arguments<N>(&self, resolution: Resolution<N>) -> (plan: Result<
        LaunchArguments<N>,
        LaunchError,
    >)
        ensures
            match plan {
                Ok(p) => planned(self@, resolution@) == Ok::<PlanView<N>, LaunchError>(p@),
                Err(e) => planned(self@, resolution@) == Err::<PlanView<N>, LaunchError>(e),
            },
    {
        let ghost view = resolution@;
        let Resolution { version, natives, facts, game_options, jvm_options } = resolution;
        let java_program_path = self.program_path().clone();
        let found = match version {
            Some(found) => found,
            None => {
                return Err(LaunchError::VersionNotFound);
            },
        };
        let java_main_class = match found.main_class {
            Some(class) => class,
            None => String::new(),
        };
        let game_natives = match natives {
            Some(natives) => natives,
            None => {
                return Err(LaunchError::NativeResolutionFailure);
            },
        };
        let mut all_jvm_options: Vec<JvmOption> = Vec::new();
        all_jvm_options.push(JvmOption::new("-Xmn128m".to_owned()));
        all_jvm_options.push(JvmOption::new("-Xmx2048m".to_owned()));
        all_jvm_options.push(JvmOption::new("-XX:+UseG1GC".to_owned()));
        all_jvm_options.push(JvmOption::new("-XX:-UseAdaptiveSizePolicy".to_owned()));
        all_jvm_options.push(JvmOption::new("-XX:-OmitStackTraceInFastThrow".to_owned()));
        all_jvm_options.push(
            JvmOption::new("-Dfml.ignoreInvalidMinecraftCertificates=true".to_owned()),
        );
        all_jvm_options.push(JvmOption::new("-Dfml.ignorePatchDiscrepancies=true".to_owned()));
        assert(jvm_views(all_jvm_options@) =~= baseline());
        let facts = match facts {
            Some(facts) => facts,
            None => {
                return Err(LaunchError::TemplateExpansionFailure);
            },
        };
        let map = self.generate_argument_map(&facts);
        let game_native_path = map.lookup("natives_directory");
        proof {
            lemma_variable_names(self@, facts@);
            lemma_variable_values(self@, facts@);
        }
        let game_options = match game_options {
            Some(options) => options,
            None => {
                return Err(LaunchError::TemplateExpansionFailure);
            },
        };
        let mut declared = match jvm_options {
            Some(options) => options,
            None => {
                return Err(LaunchError::TemplateExpansionFailure);
            },
        };
        let ghost declared_views = jvm_views(declared@);
        all_jvm_options.append(&mut declared);
        assert(jvm_views(all_jvm_options@) =~= baseline() + declared_views);
        let plan = LaunchArguments {
            game_natives,
            game_native_path,
            game_options,
            jvm_options: all_jvm_options,
            java_main_class,
            java_program_path,
        };
        assert(plan@ == planned(self@, view)->Ok_0);
        Ok(plan)
    }
}

impl<N> LaunchArguments<N> {
    /// The runtime executable to start.
    pub fn program(&self) -> (path: String)
        ensures
            path@ == self@.program,
    {
        self.java_program_path.clone()
    }

    /// The entry class.
    pub fn main_class(&self) -> (class: String)
        ensures
            class@ == self@.main_class,
    {
        self.java_main_class.clone()
    }

    /// What extracting the natives has to write, and where.
    pub fn extract_natives(&self) -> (request: ExtractionRequest<'_, N>)
        ensures
            request.directory@ == self@.native_path,
            *request.natives == self@.natives,
    {
        ExtractionRequest { directory: &self.game_native_path, natives: &self.game_natives }
    }

    /// The process that the plan asks for.
    pub fn spawn_new_process(&self) -> (request: SpawnRequest)
        ensures
            request.program@ == self@.program,
            texts(request.args@) == argument_vector(self@),
    {
        SpawnRequest { program: self.program(), args: self.args() }
    }

    /// Takes a launch one step further: from its state and what happened
    /// outside to its next state and what to do outside next.
    pub fn start(&self, state: LaunchState, event: LaunchEvent) -> (next: (
        LaunchState,
        LaunchAction<'_, N>,
    ))
        ensures
            (next.0, next.1@) == launch_step(self@, state, event),
    {
        match (state, event) {
            (LaunchState::Ready, LaunchEvent::Begin) => (
                LaunchState::Extracting,
                LaunchAction::Extract(self.extract_natives()),
            ),
            (LaunchState::Extracting, LaunchEvent::Extracted) => (
                LaunchState::Spawning,
                LaunchAction::Spawn(self.spawn_new_process()),
            ),
            (LaunchState::Extracting, LaunchEvent::ExtractionFailed) => (
                LaunchState::Failed(LaunchError::ExtractionFailure),
                LaunchAction::Nothing,
            ),
            (LaunchState::Spawning, LaunchEvent::Spawned) => (
                LaunchState::Running,
                LaunchAction::Nothing,
            ),
            (LaunchState::Spawning, LaunchEvent::SpawnFailed) => (
                LaunchState::Failed(LaunchError::SpawnFailure),
                LaunchAction::Nothing,
            ),
            _ => (state, LaunchAction::Nothing),
        }
    }

    /// The full argument vector, in the order in which the runtime gets it.
    pub fn args(&self) -> (result: Vec<String>)
        ensures
            texts(result@) == argument_vector(self@),
    {
        let mut result: Vec<String> = Vec::new();
        let mut i: usize = 0;
        while i < self.jvm_options.len()
            invariant
                i <= self.jvm_options@.len(),
                texts(result@) =~= jvm_views(self.jvm_options@).take(i as int),
            decreases self.jvm_options@.len() - i,
        {
            let ghost before = result@;
            let token = self.jvm_options[i].token().clone();
            result.push(token);
            proof {
                lemma_texts_push(before, token);
                let views = jvm_views(self.jvm_options@);
                assert(views.take(i + 1) =~= views.take(i as int).push(token@));
            }
            i = i + 1;
        }
        let ghost before = result@;
        let class = self.java_main_class.clone();
        result.push(class);
        let ghost head = self@.jvm_options + seq![self@.main_class];
        proof {
            lemma_texts_push(before, class);
            let views = jvm_views(self.jvm_options@);
            assert(views.take(views.len() as int) =~= views);
        }
        assert(texts(result@) =~= head);
        let mut j: usize = 0;
        assert(game_views(self.game_options@).take(0) =~= Seq::empty());
        while j < self.game_options.len()
            invariant
                j <= self.game_options@.len(),
                head == self@.jvm_options + seq![self@.main_class],
                texts(result@) =~= head + game_tokens(
                    game_views(self.game_options@).take(j as int),
                ),
            decreases self.game_options@.len() - j,
        {
            let option = &self.game_options[j];
            proof {
                let views = game_views(self.game_options@);
                assert(views.take(j + 1).drop_last() =~= views.take(j as int));
                assert(views.take(j + 1).last() == option@);
            }
            let ghost before = result@;
            let name = option.name().clone();
            result.push(name);
            proof {
                lemma_texts_push(before, name);
            }
            match option.value() {
                Some(value) => {
                    let ghost named = result@;
                    let value = value.clone();
                    result.push(value);
                    proof {
                        lemma_texts_push(named, value);
                    }
                },
                None => {},
            }
            j = j + 1;
        }
        proof {
            let views = game_views(self.game_options@);
            assert(views.take(views.len() as int) =~= views);
        }
        result
    }
}

} // verus!
