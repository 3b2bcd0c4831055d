//! What holds of every launch plan, stated over the models that the
//! contracts use.

use vstd::prelude::*;
use crate::launcher::{
    path_list_separator, session_token, variable_names, variables, LauncherView, Platform,
    VersionFactsView,
};
use crate::text::{decimal, or_empty, without_hyphens};
use crate::options::{game_tokens, option_tokens, valued_count};
use crate::launcher::LaunchError;
use crate::plan::{
    argument_vector, baseline, following, launch_step, planned, state_after, ActionView,
    LaunchEvent, LaunchState, PlanView, ResolutionStep, ResolutionView,
};

verus! {

/// A game option with a value gives two tokens, one without gives one; a
/// run of options gives one token for each option and one more for each
/// value.
pub proof fn lemma_game_token_count(options: Seq<(Seq<char>, Option<Seq<char>>)>)
    ensures
        forall|i: int|
            0 <= i < options.len() ==> (#[trigger] option_tokens(options[i])).len() == (if options[i].1 is Some {
                2nat
            } else {
                1nat
            }),
        game_tokens(options).len() == options.len() + valued_count(options),
    decreases options.len(),
{
    if options.len() > 0 {
        lemma_game_token_count(options.drop_last());
    }
}

/// In the argument vector every JVM option stands before the entry class,
/// and every token of a game option after it.
pub proof fn lemma_argument_layout<N>(plan: PlanView<N>)
    ensures
        argument_vector(plan).len() == plan.jvm_options.len() + 1 + game_tokens(
            plan.game_options,
        ).len(),
        argument_vector(plan).subrange(0, plan.jvm_options.len() as int) == plan.jvm_options,
        argument_vector(plan)[plan.jvm_options.len() as int] == plan.main_class,
        argument_vector(plan).subrange(
            plan.jvm_options.len() as int + 1,
            argument_vector(plan).len() as int,
        ) == game_tokens(plan.game_options),
{
    let args = argument_vector(plan);
    let n = plan.jvm_options.len() as int;
    assert(args.subrange(0, n) =~= plan.jvm_options);
    assert(args.subrange(n + 1, args.len() as int) =~= game_tokens(plan.game_options));
}

/// The JVM options of every resolved plan begin with the seven baseline
/// options, in their order, whatever the version declares; the version's
/// own options follow them.
pub proof fn lemma_baseline_prefix<N>(launcher: LauncherView, resolution: ResolutionView<N>)
    requires
        planned(launcher, resolution) is Ok,
    ensures
        baseline().len() == 7,
        planned(launcher, resolution)->Ok_0.jvm_options.len() >= 7,
        planned(launcher, resolution)->Ok_0.jvm_options.subrange(0, 7) == baseline(),
        planned(launcher, resolution)->Ok_0.jvm_options.subrange(
            7,
            planned(launcher, resolution)->Ok_0.jvm_options.len() as int,
        ) == resolution.jvm_options->0,
        argument_vector(planned(launcher, resolution)->Ok_0).subrange(0, 7) == baseline(),
{
    let plan = planned(launcher, resolution)->Ok_0;
    assert(plan.jvm_options.subrange(0, 7) =~= baseline());
    assert(plan.jvm_options.subrange(7, plan.jvm_options.len() as int)
        =~= resolution.jvm_options->0);
    assert(argument_vector(plan).subrange(0, 7) =~= baseline());
}

/// The variable map has exactly the enumerated names, whatever the version
/// lacks.
pub proof fn lemma_variable_names(launcher: LauncherView, version: VersionFactsView)
    ensures
        variables(launcher, version).dom() == variable_names(),
{
    assert(variables(launcher, version).dom() =~= variable_names());
}

/// Each name of the variable map stands for its own value: the session's
/// fields, the configuration's paths and identity, the version's data with
/// the empty text for what the version lacks, and the fixed texts.
pub proof fn lemma_variable_values(launcher: LauncherView, version: VersionFactsView)
    ensures
        variables(launcher, version)["auth_access_token"@] == without_hyphens(
            launcher.session.access_token,
        ),
        variables(launcher, version)["user_properties"@] == "{}"@,
        variables(launcher, version)["user_property_map"@] == "{}"@,
        variables(launcher, version)["auth_session"@] == session_token(launcher.session),
        variables(launcher, version)["auth_player_name"@] == launcher.session.name,
        variables(launcher, version)["auth_uuid"@] == without_hyphens(launcher.session.uuid),
        variables(launcher, version)["user_type"@] == "legacy"@,
        variables(launcher, version)["profile_name"@] == launcher.session.name,
        variables(launcher, version)["version_name"@] == launcher.version_id,
        variables(launcher, version)["game_directory"@] == launcher.game_root_dir,
        variables(launcher, version)["assets_root"@] == launcher.assets_dir,
        variables(launcher, version)["assets_index_name"@] == or_empty(version.asset_index_id),
        variables(launcher, version)["version_type"@] == version.version_type,
        variables(launcher, version)["resolution_width"@] == decimal(launcher.window_width),
        variables(launcher, version)["resolution_height"@] == decimal(launcher.window_height),
        variables(launcher, version)["language"@] == "en-us"@,
        variables(launcher, version)["launcher_name"@] == launcher.launcher_name,
        variables(launcher, version)["launcher_version"@] == launcher.launcher_version,
        variables(launcher, version)["natives_directory"@] == version.natives_path,
        variables(launcher, version)["primary_jar"@] == version.primary_jar,
        variables(launcher, version)["classpath"@] == or_empty(version.classpath),
        variables(launcher, version)["classpath_separator"@] == path_list_separator(
            launcher.platform,
        ),
        launcher.platform == Platform::Unix ==> variables(launcher, version)["classpath_separator"@]
            == ":"@,
        launcher.platform == Platform::Windows ==> variables(
            launcher,
            version,
        )["classpath_separator"@] == ";"@,
{
    reveal_strlit("auth_access_token");
    reveal_strlit("user_properties");
    reveal_strlit("user_property_map");
    reveal_strlit("auth_session");
    reveal_strlit("auth_player_name");
    reveal_strlit("auth_uuid");
    reveal_strlit("user_type");
    reveal_strlit("profile_name");
    reveal_strlit("version_name");
    reveal_strlit("game_directory");
    reveal_strlit("assets_root");
    reveal_strlit("assets_index_name");
    reveal_strlit("version_type");
    reveal_strlit("resolution_width");
    reveal_strlit("resolution_height");
    reveal_strlit("language");
    reveal_strlit("launcher_name");
    reveal_strlit("launcher_version");
    reveal_strlit("natives_directory");
    reveal_strlit("primary_jar");
    reveal_strlit("classpath");
    reveal_strlit("classpath_separator");
    assert("auth_access_token"@.len() == 17 && "auth_access_token"@[0] == 'a' && "auth_access_token"@[1] == 'u');
    assert("user_properties"@.len() == 15 && "user_properties"@[0] == 'u' && "user_properties"@[1] == 's');
    assert("user_property_map"@.len() == 17 && "user_property_map"@[0] == 'u' && "user_property_map"@[1] == 's');
    assert("auth_session"@.len() == 12 && "auth_session"@[0] == 'a' && "auth_session"@[1] == 'u');
    assert("auth_player_name"@.len() == 16 && "auth_player_name"@[0] == 'a' && "auth_player_name"@[1] == 'u');
    assert("auth_uuid"@.len() == 9 && "auth_uuid"@[0] == 'a' && "auth_uuid"@[1] == 'u');
    assert("user_type"@.len() == 9 && "user_type"@[0] == 'u' && "user_type"@[1] == 's');
    assert("profile_name"@.len() == 12 && "profile_name"@[0] == 'p' && "profile_name"@[1] == 'r');
    assert("version_name"@.len() == 12 && "version_name"@[0] == 'v' && "version_name"@[1] == 'e' && "version_name"@[8] == 'n');
    assert("game_directory"@.len() == 14 && "game_directory"@[0] == 'g' && "game_directory"@[1] == 'a');
    assert("assets_root"@.len() == 11 && "assets_root"@[0] == 'a' && "assets_root"@[1] == 's');
    assert("assets_index_name"@.len() == 17 && "assets_index_name"@[0] == 'a' && "assets_index_name"@[1] == 's');
    assert("version_type"@.len() == 12 && "version_type"@[0] == 'v' && "version_type"@[1] == 'e' && "version_type"@[8] == 't');
    assert("resolution_width"@.len() == 16 && "resolution_width"@[0] == 'r' && "resolution_width"@[1] == 'e');
    assert("resolution_height"@.len() == 17 && "resolution_height"@[0] == 'r' && "resolution_height"@[1] == 'e');
    assert("language"@.len() == 8 && "language"@[0] == 'l' && "language"@[1] == 'a');
    assert("launcher_name"@.len() == 13 && "launcher_name"@[0] == 'l' && "launcher_name"@[1] == 'a');
    assert("launcher_version"@.len() == 16 && "launcher_version"@[0] == 'l' && "launcher_version"@[1] == 'a');
    assert("natives_directory"@.len() == 17 && "natives_directory"@[0] == 'n' && "natives_directory"@[1] == 'a');
    assert("primary_jar"@.len() == 11 && "primary_jar"@[0] == 'p' && "primary_jar"@[1] == 'r');
    assert("classpath"@.len() == 9 && "classpath"@[0] == 'c' && "classpath"@[1] == 'l');
    assert("classpath_separator"@.len() == 19 && "classpath_separator"@[0] == 'c' && "classpath_separator"@[1] == 'l');
}

/// The runtime is started only in answer to a finished extraction, and the
/// extraction only in answer to the request to begin: after a failed
/// extraction no step asks for a process.
pub proof fn lemma_extract_before_spawn<N>(
    plan: PlanView<N>,
    state: LaunchState,
    event: LaunchEvent,
)
    ensures
        launch_step(plan, state, event).1 is Spawn <==> (state == LaunchState::Extracting && event
            == LaunchEvent::Extracted),
        launch_step(plan, state, event).1 is Extract <==> (state == LaunchState::Ready && event
            == LaunchEvent::Begin),
        launch_step(plan, state, event).0 == LaunchState::Spawning ==> state
            == LaunchState::Spawning || (state == LaunchState::Extracting && event
            == LaunchEvent::Extracted),
        state is Failed ==> launch_step(plan, state, event) == (state, ActionView::<N>::Nothing),
        launch_step(plan, state, event).1 is Spawn ==> launch_step(plan, state, event).1
            == (ActionView::<N>::Spawn { program: plan.program, args: argument_vector(plan) }),
{
}

/// A launch that is extracting was asked to extract by an earlier step.
pub proof fn lemma_extracting_was_asked<N>(plan: PlanView<N>, events: Seq<LaunchEvent>)
    requires
        state_after(plan, events) == LaunchState::Extracting,
    ensures
        exists|j: int|
            0 <= j < events.len() && (#[trigger] launch_step(
                plan,
                state_after(plan, events.take(j)),
                events[j],
            )).1 is Extract,
    decreases events.len(),
{
    if events.len() > 0 {
        let before = events.drop_last();
        let last = events.len() - 1;
        if state_after(plan, before) == LaunchState::Ready && events.last() == LaunchEvent::Begin {
            assert(events.take(last) =~= before);
            assert(launch_step(plan, state_after(plan, events.take(last)), events[last]).1
                is Extract);
        } else {
            lemma_extracting_was_asked(plan, before);
            let j = choose|j: int|
                0 <= j < before.len() && (#[trigger] launch_step(
                    plan,
                    state_after(plan, before.take(j)),
                    before[j],
                )).1 is Extract;
            assert(before.take(j) =~= events.take(j));
            assert(launch_step(plan, state_after(plan, events.take(j)), events[j]).1 is Extract);
        }
    }
}

/// Over a whole launch: where a step asks for the runtime to be started,
/// it answers the news that the natives are written, and an earlier step
/// asked for them to be written.
pub proof fn lemma_spawn_follows_extraction<N>(
    plan: PlanView<N>,
    events: Seq<LaunchEvent>,
    event: LaunchEvent,
)
    requires
        launch_step(plan, state_after(plan, events), event).1 is Spawn,
    ensures
        event == LaunchEvent::Extracted,
        exists|j: int|
            0 <= j < events.len() && (#[trigger] launch_step(
                plan,
                state_after(plan, events.take(j)),
                events[j],
            )).1 is Extract,
{
    lemma_extracting_was_asked(plan, events);
}

/// Over a whole launch: once it has failed, be it at the extraction or at
/// the start of the runtime, its state stays and no later step asks for
/// anything, whatever the events are.
pub proof fn lemma_failure_ends_the_launch<N>(
    plan: PlanView<N>,
    events: Seq<LaunchEvent>,
    later: Seq<LaunchEvent>,
)
    requires
        state_after(plan, events) is Failed,
    ensures
        state_after(plan, events + later) == state_after(plan, events),
        forall|event: LaunchEvent| #[trigger]
            launch_step(plan, state_after(plan, events + later), event).1 is Nothing,
    decreases later.len(),
{
    if later.len() == 0 {
        assert(events + later =~= events);
    } else {
        lemma_failure_ends_the_launch(plan, events, later.drop_last());
        assert((events + later).drop_last() =~= events + later.drop_last());
    }
}

/// The questions of a resolution are asked in their order, each only after
/// the one before it was answered with success.
pub proof fn lemma_steps_in_order<N>(answers: ResolutionView<N>, last: Option<ResolutionStep>)
    ensures
        following(answers, last) == Some(ResolutionStep::FindVersion) <==> last is None,
        following(answers, last) == Some(ResolutionStep::ResolveNatives) <==> last == Some(
            ResolutionStep::FindVersion,
        ) && answers.version is Some,
        following(answers, last) == Some(ResolutionStep::ReadFacts) <==> last == Some(
            ResolutionStep::ResolveNatives,
        ) && answers.natives is Some,
        following(answers, last) == Some(ResolutionStep::ExpandGameArguments) <==> last == Some(
            ResolutionStep::ReadFacts,
        ) && answers.facts is Some,
        following(answers, last) == Some(ResolutionStep::ExpandJvmArguments) <==> last == Some(
            ResolutionStep::ExpandGameArguments,
        ) && answers.game_options is Some,
{
}

/// A resolution gives a plan exactly where all five of its steps
/// succeeded; else the first step that failed decides the error, whatever
/// the later ones gave.
pub proof fn lemma_first_failure_decides<N>(launcher: LauncherView, resolution: ResolutionView<N>)
    ensures
        planned(launcher, resolution) is Ok <==> resolution.version is Some
            && resolution.natives is Some && resolution.facts is Some
            && resolution.game_options is Some && resolution.jvm_options is Some,
        resolution.version is None ==> planned(launcher, resolution) == Err::<
            PlanView<N>,
            LaunchError,
        >(LaunchError::VersionNotFound),
        resolution.version is Some && resolution.natives is None ==> planned(launcher, resolution)
            == Err::<PlanView<N>, LaunchError>(LaunchError::NativeResolutionFailure),
        resolution.version is Some && resolution.natives is Some && (resolution.facts is None
            || resolution.game_options is None || resolution.jvm_options is None) ==> planned(
            launcher,
            resolution,
        ) == Err::<
            PlanView<N>,
            LaunchError,
        >(LaunchError::TemplateExpansionFailure),
{
}

/// Equal inputs give equal plans and equal argument vectors.
pub proof fn lemma_plan_deterministic<N>(
    first: LauncherView,
    second: LauncherView,
    first_resolution: ResolutionView<N>,
    second_resolution: ResolutionView<N>,
)
    requires
        first == second,
        first_resolution == second_resolution,
    ensures
        planned(first, first_resolution) == planned(second, second_resolution),
        planned(first, first_resolution) is Ok ==> argument_vector(
            planned(first, first_resolution)->Ok_0,
        ) == argument_vector(planned(second, second_resolution)->Ok_0),
{
}

} // verus!
