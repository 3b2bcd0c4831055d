use launcher::launcher::{
    create, LaunchError, MinecraftLauncher, Platform, Session, VersionFacts,
};
use launcher::options::{GameOption, JvmOption};
use launcher::plan::{
    FoundVersion, LaunchAction, LaunchArguments, LaunchEvent, LaunchState, Resolution,
    ResolutionStep,
};

fn steve() -> Session {
    Session {
        name: "Steve".to_string(),
        uuid: "069a79f4-44e9-4726-a5be-fca90e38aeca".to_string(),
        access_token: "abc123".to_string(),
    }
}

fn facts() -> VersionFacts {
    VersionFacts {
        asset_index_id: Some("1.12".to_string()),
        version_type: "release".to_string(),
        classpath: Some("/home/user/.minecraft/libraries/a.jar:/home/user/.minecraft/versions/1.12.2/1.12.2.jar".to_string()),
        natives_path: "/home/user/.minecraft/versions/1.12.2/1.12.2-natives".to_string(),
        primary_jar: "/home/user/.minecraft/versions/1.12.2/1.12.2.jar".to_string(),
    }
}

fn bare_facts() -> VersionFacts {
    VersionFacts {
        asset_index_id: None,
        version_type: "snapshot".to_string(),
        classpath: None,
        natives_path: "natives".to_string(),
        primary_jar: "client.jar".to_string(),
    }
}

fn launcher_on(platform: Platform) -> MinecraftLauncher {
    create(
        Some("/home/user/.minecraft".to_string()),
        "1.12.2",
        steve(),
        vec!["/usr/lib/jvm/java-8/bin/java".to_string(), "/usr/bin/java".to_string()],
        platform,
    )
    .unwrap()
}

fn launcher() -> MinecraftLauncher {
    launcher_on(Platform::Unix)
}

fn found() -> FoundVersion {
    FoundVersion { main_class: Some("net.minecraft.launchwrapper.Launch".to_string()) }
}

fn game_options() -> Vec<GameOption> {
    vec![
        GameOption::new_pair("--username".to_string(), "Steve".to_string()),
        GameOption::new_single("--demo".to_string()),
        GameOption::new_pair("--version".to_string(), "1.12.2".to_string()),
    ]
}

fn resolution() -> Resolution<Vec<String>> {
    Resolution {
        version: Some(found()),
        natives: Some(vec!["lwjgl-natives.jar".to_string()]),
        facts: Some(facts()),
        game_options: Some(game_options()),
        jvm_options: Some(vec![
            JvmOption::new("-Djava.library.path=natives".to_string()),
            JvmOption::new("-cp".to_string()),
        ]),
    }
}

fn plan() -> LaunchArguments<Vec<String>> {
    launcher().to_launch_arguments(resolution()).unwrap()
}

const BASELINE: [&str; 7] = [
    "-Xmn128m",
    "-Xmx2048m",
    "-XX:+UseG1GC",
    "-XX:-UseAdaptiveSizePolicy",
    "-XX:-OmitStackTraceInFastThrow",
    "-Dfml.ignoreInvalidMinecraftCertificates=true",
    "-Dfml.ignorePatchDiscrepancies=true",
];

const NAMES: [&str; 22] = [
    "auth_access_token",
    "user_properties",
    "user_property_map",
    "auth_session",
    "auth_player_name",
    "auth_uuid",
    "user_type",
    "profile_name",
    "version_name",
    "game_directory",
    "assets_root",
    "assets_index_name",
    "version_type",
    "resolution_width",
    "resolution_height",
    "language",
    "launcher_name",
    "launcher_version",
    "natives_directory",
    "primary_jar",
    "classpath",
    "classpath_separator",
];

#[test]
fn session_scenario_fills_the_variable_map() {
    let map = launcher().generate_argument_map(&facts());
    assert_eq!(map.lookup("auth_player_name"), "Steve");
    assert_eq!(map.lookup("auth_session"), "token:abc123:069a79f444e94726a5befca90e38aeca");
    assert_eq!(map.lookup("game_directory"), "/home/user/.minecraft");
    assert_eq!(map.lookup("classpath_separator"), ":");
}

#[test]
fn variable_map_values_are_exact() {
    let map = launcher().generate_argument_map(&facts());
    assert_eq!(map.lookup("auth_access_token"), "abc123");
    assert_eq!(map.lookup("user_properties"), "{}");
    assert_eq!(map.lookup("user_property_map"), "{}");
    assert_eq!(map.lookup("auth_uuid"), "069a79f444e94726a5befca90e38aeca");
    assert_eq!(map.lookup("user_type"), "legacy");
    assert_eq!(map.lookup("profile_name"), "Steve");
    assert_eq!(map.lookup("version_name"), "1.12.2");
    assert_eq!(map.lookup("assets_root"), "/home/user/.minecraft/assets/");
    assert_eq!(map.lookup("assets_index_name"), "1.12");
    assert_eq!(map.lookup("version_type"), "release");
    assert_eq!(map.lookup("resolution_width"), "854");
    assert_eq!(map.lookup("resolution_height"), "480");
    assert_eq!(map.lookup("language"), "en-us");
    assert_eq!(map.lookup("launcher_name"), "RMCLL");
    assert_eq!(map.lookup("launcher_version"), "0.1.0");
    assert_eq!(
        map.lookup("natives_directory"),
        "/home/user/.minecraft/versions/1.12.2/1.12.2-natives"
    );
    assert_eq!(map.lookup("primary_jar"), "/home/user/.minecraft/versions/1.12.2/1.12.2.jar");
    assert_eq!(
        map.lookup("classpath"),
        "/home/user/.minecraft/libraries/a.jar:/home/user/.minecraft/versions/1.12.2/1.12.2.jar"
    );
}

#[test]
fn variable_map_has_every_name() {
    let map = launcher().generate_argument_map(&facts());
    for name in NAMES.iter() {
        assert!(map.contains_key(name), "{}", name);
    }
    assert!(!map.contains_key("auth_xuid"));
    assert!(!map.contains_key(""));
}

#[test]
fn missing_version_data_becomes_empty_text() {
    let map = launcher().generate_argument_map(&bare_facts());
    for name in NAMES.iter() {
        assert!(map.contains_key(name), "{}", name);
    }
    assert_eq!(map.get("assets_index_name"), Some(String::new()));
    assert_eq!(map.get("classpath"), Some(String::new()));
    assert_eq!(map.get("version_type"), Some("snapshot".to_string()));
}

#[test]
fn unknown_placeholder_resolves_to_empty_text() {
    let map = launcher().generate_argument_map(&facts());
    assert_eq!(map.get("no_such_name"), None);
    assert_eq!(map.lookup("no_such_name"), "");
}

#[test]
fn no_runtime_candidate_fails_construction() {
    let made = create(
        Some("/home/user/.minecraft".to_string()),
        "1.12.2",
        steve(),
        Vec::new(),
        Platform::Unix,
    );
    assert!(matches!(made, Err(LaunchError::RuntimeNotFound)));
}

#[test]
fn first_runtime_candidate_is_taken() {
    let launcher = launcher();
    assert_eq!(launcher.program_path(), "/usr/lib/jvm/java-8/bin/java");
    assert_eq!(launcher.version_id(), "1.12.2");
    assert_eq!(launcher.game_root_dir(), "/home/user/.minecraft");
    assert_eq!(launcher.assets_dir(), "/home/user/.minecraft/assets/");
    assert_eq!(launcher.window_resolution(), (854, 480));
    assert_eq!(launcher.libraries_dir(), "/home/user/.minecraft/libraries/");
    assert_eq!(launcher.versions_dir(), "/home/user/.minecraft/versions/");
}

#[test]
fn unknown_version_fails_resolution() {
    let mut resolution = resolution();
    resolution.version = None;
    let plan = launcher().to_launch_arguments(resolution);
    assert!(matches!(plan, Err(LaunchError::VersionNotFound)));
}

#[test]
fn unknown_version_comes_before_other_failures() {
    let resolution: Resolution<Vec<String>> = Resolution::new();
    let plan = launcher().to_launch_arguments(resolution);
    assert!(matches!(plan, Err(LaunchError::VersionNotFound)));
}

#[test]
fn unresolved_natives_fail_resolution() {
    let mut resolution = resolution();
    resolution.natives = None;
    resolution.game_options = None;
    let plan = launcher().to_launch_arguments(resolution);
    assert!(matches!(plan, Err(LaunchError::NativeResolutionFailure)));
}

#[test]
fn malformed_game_template_fails_resolution() {
    let mut resolution = resolution();
    resolution.game_options = None;
    let plan = launcher().to_launch_arguments(resolution);
    assert!(matches!(plan, Err(LaunchError::TemplateExpansionFailure)));
}

#[test]
fn malformed_jvm_template_fails_resolution() {
    let mut resolution = resolution();
    resolution.jvm_options = None;
    let plan = launcher().to_launch_arguments(resolution);
    assert!(matches!(plan, Err(LaunchError::TemplateExpansionFailure)));
}

#[test]
fn args_are_jvm_options_then_class_then_game_tokens() {
    let args = plan().args();
    let mut expected: Vec<String> = BASELINE.iter().map(|s| s.to_string()).collect();
    expected.push("-Djava.library.path=natives".to_string());
    expected.push("-cp".to_string());
    expected.push("net.minecraft.launchwrapper.Launch".to_string());
    expected.push("--username".to_string());
    expected.push("Steve".to_string());
    expected.push("--demo".to_string());
    expected.push("--version".to_string());
    expected.push("1.12.2".to_string());
    assert_eq!(args, expected);
}

#[test]
fn baseline_opens_the_argument_vector() {
    let args = plan().args();
    assert_eq!(&args[..7], &BASELINE[..]);
    let mut resolution = resolution();
    resolution.jvm_options = Some(Vec::new());
    resolution.game_options = Some(Vec::new());
    let args = launcher().to_launch_arguments(resolution).unwrap().args();
    assert_eq!(args.len(), 8);
    assert_eq!(&args[..7], &BASELINE[..]);
    assert_eq!(args[7], "net.minecraft.launchwrapper.Launch");
}

#[test]
fn game_options_give_two_tokens_or_one() {
    let with_value = Resolution {
        game_options: Some(vec![GameOption::new_pair("--width".to_string(), "854".to_string())]),
        jvm_options: Some(Vec::new()),
        ..resolution()
    };
    let args = launcher().to_launch_arguments(with_value).unwrap().args();
    assert_eq!(args.len(), 7 + 1 + 2);
    assert_eq!(&args[8..], &["--width".to_string(), "854".to_string()][..]);
    let without = Resolution {
        game_options: Some(vec![GameOption::new_single("--fullscreen".to_string())]),
        jvm_options: Some(Vec::new()),
        ..resolution()
    };
    let args = launcher().to_launch_arguments(without).unwrap().args();
    assert_eq!(args.len(), 7 + 1 + 1);
    assert_eq!(args[8], "--fullscreen");
}

#[test]
fn absent_main_class_is_an_empty_token() {
    let resolution =
        Resolution { version: Some(FoundVersion { main_class: None }), ..resolution() };
    let plan = launcher().to_launch_arguments(resolution).unwrap();
    assert_eq!(plan.main_class(), "");
    assert_eq!(plan.args()[9], "");
}

#[test]
fn plan_holds_program_and_natives_directory() {
    let plan = plan();
    assert_eq!(plan.program(), "/usr/lib/jvm/java-8/bin/java");
    let request = plan.extract_natives();
    assert_eq!(request.directory, "/home/user/.minecraft/versions/1.12.2/1.12.2-natives");
    assert_eq!(request.natives, &vec!["lwjgl-natives.jar".to_string()]);
    let spawn = plan.spawn_new_process();
    assert_eq!(spawn.program, "/usr/lib/jvm/java-8/bin/java");
    assert_eq!(spawn.args, plan.args());
}

#[test]
fn same_inputs_give_the_same_arguments() {
    let first = launcher().to_launch_arguments(resolution()).unwrap();
    let second = launcher().to_launch_arguments(resolution()).unwrap();
    assert_eq!(first.args(), second.args());
    assert_eq!(first.program(), second.program());
}

#[test]
fn start_extracts_before_it_spawns() {
    let plan = plan();
    let (state, action) = plan.start(LaunchState::Ready, LaunchEvent::Begin);
    assert_eq!(state, LaunchState::Extracting);
    match action {
        LaunchAction::Extract(request) => {
            assert_eq!(request.directory, "/home/user/.minecraft/versions/1.12.2/1.12.2-natives");
            assert_eq!(request.natives, &vec!["lwjgl-natives.jar".to_string()]);
        }
        other => panic!("{:?}", other),
    }
    let (state, action) = plan.start(state, LaunchEvent::Extracted);
    assert_eq!(state, LaunchState::Spawning);
    match action {
        LaunchAction::Spawn(request) => {
            assert_eq!(request.program, "/usr/lib/jvm/java-8/bin/java");
            assert_eq!(request.args, plan.args());
        }
        other => panic!("{:?}", other),
    }
    let (state, action) = plan.start(state, LaunchEvent::Spawned);
    assert_eq!(state, LaunchState::Running);
    assert!(matches!(action, LaunchAction::Nothing));
}

#[test]
fn failed_extraction_never_spawns() {
    let plan = plan();
    let (state, _) = plan.start(LaunchState::Ready, LaunchEvent::Begin);
    let (state, action) = plan.start(state, LaunchEvent::ExtractionFailed);
    assert_eq!(state, LaunchState::Failed(LaunchError::ExtractionFailure));
    assert!(matches!(action, LaunchAction::Nothing));
    for event in [
        LaunchEvent::Begin,
        LaunchEvent::Extracted,
        LaunchEvent::ExtractionFailed,
        LaunchEvent::Spawned,
        LaunchEvent::SpawnFailed,
    ] {
        let (next, action) = plan.start(state, event);
        assert_eq!(next, state);
        assert!(matches!(action, LaunchAction::Nothing));
    }
}

#[test]
fn failed_spawn_is_told_apart_from_failed_extraction() {
    let plan = plan();
    let (state, action) = plan.start(LaunchState::Spawning, LaunchEvent::SpawnFailed);
    assert_eq!(state, LaunchState::Failed(LaunchError::SpawnFailure));
    assert!(matches!(action, LaunchAction::Nothing));
}

#[test]
fn events_out_of_turn_change_nothing() {
    let plan = plan();
    let (state, action) = plan.start(LaunchState::Ready, LaunchEvent::Extracted);
    assert_eq!(state, LaunchState::Ready);
    assert!(matches!(action, LaunchAction::Nothing));
    let (state, action) = plan.start(LaunchState::Running, LaunchEvent::Begin);
    assert_eq!(state, LaunchState::Running);
    assert!(matches!(action, LaunchAction::Nothing));
}

#[test]
fn options_keep_what_they_were_made_with() {
    let jvm = JvmOption::new("-Xmx2048m".to_string());
    assert_eq!(jvm.token(), "-Xmx2048m");
    let pair = GameOption::new_pair("--width".to_string(), "854".to_string());
    assert_eq!(pair.name(), "--width");
    assert_eq!(pair.value(), Some(&"854".to_string()));
    let single = GameOption::new_single("--demo".to_string());
    assert_eq!(single.name(), "--demo");
    assert_eq!(single.value(), None);
}

#[test]
fn resolution_asks_in_order_and_stops_at_a_failure() {
    let mut answers: Resolution<Vec<String>> = Resolution::new();
    assert_eq!(answers.next_step(None), Some(ResolutionStep::FindVersion));
    assert_eq!(answers.next_step(Some(ResolutionStep::FindVersion)), None);
    answers.version = Some(found());
    assert_eq!(
        answers.next_step(Some(ResolutionStep::FindVersion)),
        Some(ResolutionStep::ResolveNatives)
    );
    assert_eq!(answers.next_step(Some(ResolutionStep::ResolveNatives)), None);
    answers.natives = Some(Vec::new());
    assert_eq!(
        answers.next_step(Some(ResolutionStep::ResolveNatives)),
        Some(ResolutionStep::ReadFacts)
    );
    assert_eq!(answers.next_step(Some(ResolutionStep::ReadFacts)), None);
    answers.facts = Some(facts());
    assert_eq!(
        answers.next_step(Some(ResolutionStep::ReadFacts)),
        Some(ResolutionStep::ExpandGameArguments)
    );
    assert_eq!(answers.next_step(Some(ResolutionStep::ExpandGameArguments)), None);
    answers.game_options = Some(game_options());
    assert_eq!(
        answers.next_step(Some(ResolutionStep::ExpandGameArguments)),
        Some(ResolutionStep::ExpandJvmArguments)
    );
    assert_eq!(answers.next_step(Some(ResolutionStep::ExpandJvmArguments)), None);
    let plan = launcher().to_launch_arguments(answers);
    assert!(matches!(plan, Err(LaunchError::TemplateExpansionFailure)));
}

#[test]
fn unread_facts_give_no_plan() {
    let mut resolution = resolution();
    resolution.facts = None;
    let plan = launcher().to_launch_arguments(resolution);
    assert!(matches!(plan, Err(LaunchError::TemplateExpansionFailure)));
}

#[test]
fn separator_is_a_colon_on_unix() {
    let launcher = launcher_on(Platform::Unix);
    assert_eq!(launcher.platform(), Platform::Unix);
    let map = launcher.generate_argument_map(&facts());
    assert_eq!(map.get("classpath_separator"), Some(":".to_string()));
}

#[test]
fn separator_is_a_semicolon_on_windows() {
    let launcher = launcher_on(Platform::Windows);
    assert_eq!(launcher.platform(), Platform::Windows);
    let map = launcher.generate_argument_map(&facts());
    assert_eq!(map.get("classpath_separator"), Some(";".to_string()));
    for name in NAMES.iter() {
        assert!(map.contains_key(name), "{}", name);
    }
}

#[test]
fn game_directory_that_is_no_text_gives_empty_variables() {
    let launcher = create(
        None,
        "1.12.2",
        steve(),
        vec!["/usr/bin/java".to_string()],
        Platform::Unix,
    )
    .unwrap();
    assert_eq!(launcher.game_root_dir(), "");
    assert_eq!(launcher.assets_dir(), "");
    assert_eq!(launcher.libraries_dir(), "");
    assert_eq!(launcher.versions_dir(), "");
    let map = launcher.generate_argument_map(&facts());
    assert_eq!(map.get("game_directory"), Some(String::new()));
    assert_eq!(map.get("assets_root"), Some(String::new()));
    assert_eq!(map.get("version_name"), Some("1.12.2".to_string()));
}
