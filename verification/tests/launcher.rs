use backend_launcher::launcher::LAUNCH_DELAY_SECONDS;
use backend_launcher::launcher::LaunchEvent;
use backend_launcher::launcher::LaunchOutcome;
use backend_launcher::launcher::LaunchState;
use backend_launcher::launcher::exit_outcome;
use backend_launcher::launcher::join_path;
use backend_launcher::launcher::launch_config;
use backend_launcher::launcher::launch_step;
use backend_launcher::launcher::outcome_message;
use backend_launcher::launcher::should_attempt_launch;
use backend_launcher::launcher::spawn_failure_outcome;
use backend_launcher::launcher::verify_launchable;
use backend_launcher::paths::BuildMode;

#[test]
fn config_for_production_build() {
    let config = launch_config(BuildMode::Production, "/apps/pack/demo/bundle/bin/shell");
    assert_eq!(config.resource_dir, "/apps/pack/Resources");
    assert_eq!(config.entry_file, "index.js");
    assert_eq!(config.manifest_file, "package.json");
}

#[test]
fn config_for_development_build() {
    let config = launch_config(BuildMode::Development, "/apps/pack/demo/bundle/bin/shell");
    assert_eq!(config.resource_dir, ".");
    assert_eq!(config.entry_file, "index.js");
    assert_eq!(config.manifest_file, "package.json");
}

#[test]
fn join_path_inserts_one_separator() {
    assert_eq!(join_path("/srv/res", "index.js"), "/srv/res/index.js");
    assert_eq!(join_path(".", "package.json"), "./package.json");
}

#[test]
fn development_build_skips_launch() {
    assert!(!should_attempt_launch(BuildMode::Development));
    assert!(should_attempt_launch(BuildMode::Production));
}

#[test]
fn launchable_needs_both_files() {
    assert!(verify_launchable(true, true));
    assert!(!verify_launchable(false, true));
    assert!(!verify_launchable(true, false));
    assert!(!verify_launchable(false, false));
}

#[test]
fn missing_entry_aborts_without_spawn() {
    let config = launch_config(BuildMode::Production, "/apps/pack/demo/bundle/bin/shell");
    let (state, command) = launch_step(
        LaunchState::Pending,
        &config,
        LaunchEvent::DelayElapsed { entry_exists: false, manifest_exists: true },
    );
    assert!(command.is_none());
    assert_eq!(
        state,
        LaunchState::Terminal(LaunchOutcome::FileMissing(String::from(
            "/apps/pack/Resources/index.js"
        ))),
    );
    let (after, later_command) = launch_step(
        state,
        &config,
        LaunchEvent::DelayElapsed { entry_exists: true, manifest_exists: true },
    );
    assert!(later_command.is_none());
    assert!(matches!(after, LaunchState::Terminal(LaunchOutcome::FileMissing(_))));
}

#[test]
fn missing_manifest_aborts_without_spawn() {
    let config = launch_config(BuildMode::Production, "/apps/pack/demo/bundle/bin/shell");
    let (state, command) = launch_step(
        LaunchState::Pending,
        &config,
        LaunchEvent::DelayElapsed { entry_exists: true, manifest_exists: false },
    );
    assert!(command.is_none());
    assert_eq!(
        state,
        LaunchState::Terminal(LaunchOutcome::FileMissing(String::from(
            "/apps/pack/Resources/package.json"
        ))),
    );
}

#[test]
fn both_files_present_spawns_exactly_once() {
    let config = launch_config(BuildMode::Production, "/apps/pack/demo/bundle/bin/shell");
    let mut spawns: usize = 0;

    let (state, command) = launch_step(
        LaunchState::Pending,
        &config,
        LaunchEvent::DelayElapsed { entry_exists: true, manifest_exists: true },
    );
    let command = command.expect("both files present must hand out the spawn command");
    spawns += 1;
    assert_eq!(state, LaunchState::Launching);
    assert_eq!(command.program, "node");
    assert_eq!(command.working_dir, "/apps/pack/Resources");
    assert_eq!(command.argument, "index.js");

    let (state, command) = launch_step(
        state,
        &config,
        LaunchEvent::SpawnCompleted { exit_code: 0, stderr: String::new() },
    );
    if command.is_some() {
        spawns += 1;
    }
    assert_eq!(state, LaunchState::Terminal(LaunchOutcome::Success));

    let (state, command) = launch_step(
        state,
        &config,
        LaunchEvent::DelayElapsed { entry_exists: true, manifest_exists: true },
    );
    if command.is_some() {
        spawns += 1;
    }
    assert_eq!(state, LaunchState::Terminal(LaunchOutcome::Success));
    assert_eq!(spawns, 1);
}

#[test]
fn pending_ignores_spawn_results() {
    let config = launch_config(BuildMode::Production, "/apps/pack/demo/bundle/bin/shell");
    let (state, command) = launch_step(
        LaunchState::Pending,
        &config,
        LaunchEvent::SpawnCompleted { exit_code: 0, stderr: String::new() },
    );
    assert!(command.is_none());
    assert_eq!(state, LaunchState::Pending);
}

#[test]
fn spawn_rejection_is_terminal_failure() {
    let config = launch_config(BuildMode::Production, "/apps/pack/demo/bundle/bin/shell");
    let (state, command) = launch_step(
        LaunchState::Launching,
        &config,
        LaunchEvent::SpawnRejected { reason: String::from("No such file or directory") },
    );
    assert!(command.is_none());
    assert_eq!(
        state,
        LaunchState::Terminal(LaunchOutcome::SpawnFailed(String::from(
            "No such file or directory"
        ))),
    );
}

#[test]
fn exit_zero_is_success() {
    assert_eq!(exit_outcome(0, String::from("ignored")), LaunchOutcome::Success);
}

#[test]
fn nonzero_exit_keeps_code_and_stderr() {
    assert_eq!(
        exit_outcome(3, String::from("address in use")),
        LaunchOutcome::NonZeroExit(3, String::from("address in use")),
    );
    assert_eq!(
        exit_outcome(-1, String::from("killed")),
        LaunchOutcome::NonZeroExit(-1, String::from("killed")),
    );
}

#[test]
fn spawn_failure_keeps_reason() {
    assert_eq!(
        spawn_failure_outcome(String::from("no interpreter")),
        LaunchOutcome::SpawnFailed(String::from("no interpreter")),
    );
}

#[test]
fn success_message_is_fixed() {
    assert_eq!(outcome_message(&LaunchOutcome::Success), "Node.js server started successfully");
}

#[test]
fn failure_message_contains_stderr() {
    let message = outcome_message(&LaunchOutcome::NonZeroExit(2, String::from("boom")));
    assert_eq!(message, "Node.js server failed to start: boom");
    assert!(message.ends_with("boom"));
}

#[test]
fn missing_file_message_names_the_path() {
    let message = outcome_message(&LaunchOutcome::FileMissing(String::from("/srv/res/index.js")));
    assert_eq!(message, "missing backend file: /srv/res/index.js");
}

#[test]
fn spawn_failed_message_names_the_reason() {
    let message = outcome_message(&LaunchOutcome::SpawnFailed(String::from("not found")));
    assert_eq!(message, "could not start Node.js server: not found");
}

#[test]
fn launch_delay_is_two_seconds() {
    assert_eq!(LAUNCH_DELAY_SECONDS, 2);
}
