//! The backend launcher.
//!
//! On startup the host schedules one delayed launch attempt. When the delay
//! has elapsed it builds a [`LaunchConfig`], checks which of the two expected
//! backend files exist, and drives the launch state machine: `Pending` until
//! the delay fires, `Launching` while the one spawn runs, then `Terminal`
//! with the attempt's outcome. The machine decides everything — whether to
//! spawn, the exact command, and how each result is classified — while the
//! host only sleeps, tests file existence, runs the command, and prints the
//! terminal outcome's log line.

use vstd::prelude::*;
use vstd::string::*;

use crate::paths::BuildMode;
use crate::paths::resolve_resource_directory;
use crate::paths::spec_resource_dir;

verus! {

/// Name of the backend's entry-point file under the resource directory.
pub open spec fn entry_file_name() -> Seq<char> {
    "index.js"@
}

/// Name of the dependency manifest expected beside the entry file.
pub open spec fn manifest_file_name() -> Seq<char> {
    "package.json"@
}

/// The interpreter the backend entry file is run with.
pub open spec fn interpreter_name() -> Seq<char> {
    "node"@
}

/// Seconds the launch attempt is delayed after startup, so the front end
/// can come up first.
pub const LAUNCH_DELAY_SECONDS: u64 = 2;

/// `dir`/`file` as one path.
pub open spec fn spec_join(dir: Seq<char>, file: Seq<char>) -> Seq<char> {
    dir + "/"@ + file
}

/// Joins a directory and a file name with a single separator.
pub fn join_path(dir: &str, file: &str) -> (r: String)
    ensures
        r@ == spec_join(dir@, file@),
{
    dir.to_owned().concat("/").concat(file)
}

/// The ephemeral launch configuration, computed once at startup and consumed
/// by the single launch attempt.
#[derive(Debug, Clone, PartialEq, Eq)]
pub struct LaunchConfig {
    pub resource_dir: String,
    pub entry_file: String,
    pub manifest_file: String,
}

pub ghost struct ConfigModel {
    pub resource_dir: Seq<char>,
    pub entry_file: Seq<char>,
    pub manifest_file: Seq<char>,
}

impl View for LaunchConfig {
    type V = ConfigModel;

    open spec fn view(&self) -> ConfigModel {
        ConfigModel {
            resource_dir: self.resource_dir@,
            entry_file: self.entry_file@,
            manifest_file: self.manifest_file@,
        }
    }
}

/// A configuration is well formed when it expects exactly the fixed entry
/// and manifest file names.
pub open spec fn config_wf(c: ConfigModel) -> bool {
    c.entry_file == entry_file_name() && c.manifest_file == manifest_file_name()
}

/// Builds the launch configuration for a build mode: the resolved resource
/// directory and the two fixed expected file names.
pub fn launch_config(mode: BuildMode, exe_path: &str) -> (c: LaunchConfig)
    ensures
        config_wf(c@),
        c@.resource_dir == spec_resource_dir(mode, exe_path@),
{
    LaunchConfig {
        resource_dir: resolve_resource_directory(mode, exe_path),
        entry_file: String::from_str("index.js"),
        manifest_file: String::from_str("package.json"),
    }
}

/// Whether this build launches the backend at all. A development build
/// skips the launch: there the backend is assumed to be run already by the
/// external development workflow.
pub fn should_attempt_launch(mode: BuildMode) -> (r: bool)
    ensures
        r == (mode is Production),
{
    match mode {
        BuildMode::Production => true,
        BuildMode::Development => false,
    }
}

/// Whether the launch may proceed, given which of the two expected files
/// exist under the resource directory: both must be present.
pub fn verify_launchable(entry_exists: bool, manifest_exists: bool) -> (r: bool)
    ensures
        r == (entry_exists && manifest_exists),
{
    entry_exists && manifest_exists
}

/// What a launch attempt ends as. Every failure is terminal for the attempt
/// and fatal for nothing else: the host logs it and keeps running.
#[derive(Debug, Clone, PartialEq, Eq)]
pub enum LaunchOutcome {
    /// The spawned process exited with status 0.
    Success,
    /// An expected file was absent; the launch was aborted before any spawn.
    FileMissing(String),
    /// The interpreter could not be spawned at all.
    SpawnFailed(String),
    /// The spawned process exited with the given non-zero status; the
    /// second field is its captured standard-error text.
    NonZeroExit(i32, String),
}

pub ghost enum OutcomeModel {
    Success,
    FileMissing(Seq<char>),
    SpawnFailed(Seq<char>),
    NonZeroExit(int, Seq<char>),
}

impl View for LaunchOutcome {
    type V = OutcomeModel;

    open spec fn view(&self) -> OutcomeModel {
        match self {
            LaunchOutcome::Success => OutcomeModel::Success,
            LaunchOutcome::FileMissing(p) => OutcomeModel::FileMissing(p@),
            LaunchOutcome::SpawnFailed(r) => OutcomeModel::SpawnFailed(r@),
            LaunchOutcome::NonZeroExit(c, e) => OutcomeModel::NonZeroExit(*c as int, e@),
        }
    }
}

/// How an exit status is classified: 0 is success, anything else keeps the
/// status and the captured standard-error text.
pub open spec fn spec_exit_outcome(exit_code: int, stderr: Seq<char>) -> OutcomeModel {
    if exit_code == 0 {
        OutcomeModel::Success
    } else {
        OutcomeModel::NonZeroExit(exit_code, stderr)
    }
}

/// Classifies the exit of a process that did spawn: status 0 is success,
/// anything else keeps the status and the captured standard-error text.
pub fn exit_outcome(exit_code: i32, stderr: String) -> (o: LaunchOutcome)
    ensures
        o@ == spec_exit_outcome(exit_code as int, stderr@),
{
    if exit_code == 0 {
        LaunchOutcome::Success
    } else {
        LaunchOutcome::NonZeroExit(exit_code, stderr)
    }
}

/// The outcome of an attempt whose spawn itself failed, with the spawn
/// error's description.
pub fn spawn_failure_outcome(reason: String) -> (o: LaunchOutcome)
    ensures
        o@ == OutcomeModel::SpawnFailed(reason@),
{
    LaunchOutcome::SpawnFailed(reason)
}

/// The one process spawn the launcher may perform: run `program` with
/// `argument` as its sole argument, with `working_dir` as the working
/// directory.
#[derive(Debug, Clone, PartialEq, Eq)]
pub struct SpawnCommand {
    pub program: String,
    pub working_dir: String,
    pub argument: String,
}

pub ghost struct CommandModel {
    pub program: Seq<char>,
    pub working_dir: Seq<char>,
    pub argument: Seq<char>,
}

impl View for SpawnCommand {
    type V = CommandModel;

    open spec fn view(&self) -> CommandModel {
        CommandModel {
            program: self.program@,
            working_dir: self.working_dir@,
            argument: self.argument@,
        }
    }
}

/// The launcher's state: one delayed attempt, no retries, no supervision
/// after the attempt ends.
#[derive(Debug, Clone, PartialEq, Eq)]
pub enum LaunchState {
    /// Waiting for the startup delay to elapse.
    Pending,
    /// The spawn command has been handed out and its result is awaited.
    Launching,
    /// The attempt ended with the given outcome.
    Terminal(LaunchOutcome),
}

pub ghost enum StateModel {
    Pending,
    Launching,
    Terminal(OutcomeModel),
}

impl View for LaunchState {
    type V = StateModel;

    open spec fn view(&self) -> StateModel {
        match self {
            LaunchState::Pending => StateModel::Pending,
            LaunchState::Launching => StateModel::Launching,
            LaunchState::Terminal(o) => StateModel::Terminal(o@),
        }
    }
}

/// What the host observes and feeds into the machine.
#[derive(Debug, Clone, PartialEq, Eq)]
pub enum LaunchEvent {
    /// The startup delay elapsed; the host reports which expected files
    /// exist under the resource directory.
    DelayElapsed { entry_exists: bool, manifest_exists: bool },
    /// The spawned process ran and exited with this status and captured
    /// standard-error text.
    SpawnCompleted { exit_code: i32, stderr: String },
    /// The spawn itself failed with this error description.
    SpawnRejected { reason: String },
}

pub ghost enum EventModel {
    DelayElapsed { entry_exists: bool, manifest_exists: bool },
    SpawnCompleted { exit_code: int, stderr: Seq<char> },
    SpawnRejected { reason: Seq<char> },
}

impl View for LaunchEvent {
    type V = EventModel;

    open spec fn view(&self) -> EventModel {
        match self {
            LaunchEvent::DelayElapsed { entry_exists, manifest_exists } => (
                EventModel::DelayElapsed {
                    entry_exists: *entry_exists,
                    manifest_exists: *manifest_exists,
                }
            ),
            LaunchEvent::SpawnCompleted { exit_code, stderr } => (
                EventModel::SpawnCompleted { exit_code: *exit_code as int, stderr: stderr@ }
            ),
            LaunchEvent::SpawnRejected { reason } => (
                EventModel::SpawnRejected { reason: reason@ }
            ),
        }
    }
}

/// The log line a terminal outcome is reported with.
pub open spec fn spec_outcome_message(o: OutcomeModel) -> Seq<char> {
    match o {
        OutcomeModel::Success => "Node.js server started successfully"@,
        OutcomeModel::FileMissing(p) => "missing backend file: "@ + p,
        OutcomeModel::SpawnFailed(r) => "could not start Node.js server: "@ + r,
        OutcomeModel::NonZeroExit(_, e) => "Node.js server failed to start: "@ + e,
    }
}

/// Renders the log line for an outcome: the fixed success line, or a fixed
/// failure prefix followed by the missing path, the spawn error, or the
/// captured standard-error text.
pub fn outcome_message(o: &LaunchOutcome) -> (r: String)
    ensures
        r@ == spec_outcome_message(o@),
{
    match o {
        LaunchOutcome::Success => String::from_str("Node.js server started successfully"),
        LaunchOutcome::FileMissing(p) => (
            String::from_str("missing backend file: ").concat(p.as_str())
        ),
        LaunchOutcome::SpawnFailed(reason) => (
            String::from_str("could not start Node.js server: ").concat(reason.as_str())
        ),
        LaunchOutcome::NonZeroExit(_, stderr) => (
            String::from_str("Node.js server failed to start: ").concat(stderr.as_str())
        ),
    }
}

/// A non-zero exit's log line ends with exactly the captured standard-error
/// text, after the fixed failure prefix.
pub proof fn lemma_failure_message_contains_stderr(code: int, stderr: Seq<char>)
    ensures
        ({
            let m = spec_outcome_message(OutcomeModel::NonZeroExit(code, stderr));
            &&& stderr.len() <= m.len()
            &&& m.subrange(m.len() - stderr.len(), m.len() as int) == stderr
        }),
{
    let p = "Node.js server failed to start: "@;
    let m = p + stderr;
    assert(m.subrange(m.len() - stderr.len(), m.len() as int) =~= stderr);
}

/// The success log line differs from the log line of every other outcome.
pub proof fn lemma_success_message_distinct(o: OutcomeModel)
    requires
        !(o is Success),
    ensures
        spec_outcome_message(o) != spec_outcome_message(OutcomeModel::Success),
{
    reveal_strlit("Node.js server started successfully");
    reveal_strlit("missing backend file: ");
    reveal_strlit("could not start Node.js server: ");
    reveal_strlit("Node.js server failed to start: ");
    let s = spec_outcome_message(OutcomeModel::Success);
    match o {
        OutcomeModel::Success => {
        },
        OutcomeModel::FileMissing(_) => {
            assert(spec_outcome_message(o)[0] == 'm' && s[0] == 'N');
        },
        OutcomeModel::SpawnFailed(_) => {
            assert(spec_outcome_message(o)[0] == 'c' && s[0] == 'N');
        },
        OutcomeModel::NonZeroExit(_, _) => {
            assert(spec_outcome_message(o)[15] == 'f' && s[15] == 's');
        },
    }
}

/// The one spawn command a configuration allows: the interpreter, run
/// against the entry file as its sole argument, with the resource directory
/// as the working directory.
pub open spec fn spec_spawn_command(config: ConfigModel) -> CommandModel {
    CommandModel {
        program: interpreter_name(),
        working_dir: config.resource_dir,
        argument: config.entry_file,
    }
}

/// One transition of the launch state machine: the next state and the spawn
/// to perform, if any. From `Pending`, the elapsed delay either aborts with
/// the first missing file's path or hands out the one spawn command; from
/// `Launching`, the spawn's result is classified; every other pairing leaves
/// the state alone and spawns nothing.
pub open spec fn spec_step(state: StateModel, config: ConfigModel, event: EventModel) -> (
    StateModel,
    Option<CommandModel>,
) {
    match (state, event) {
        (StateModel::Pending, EventModel::DelayElapsed { entry_exists, manifest_exists }) => {
            if !entry_exists {
                (
                    StateModel::Terminal(
                        OutcomeModel::FileMissing(
                            spec_join(config.resource_dir, config.entry_file),
                        ),
                    ),
                    None,
                )
            } else if !manifest_exists {
                (
                    StateModel::Terminal(
                        OutcomeModel::FileMissing(
                            spec_join(config.resource_dir, config.manifest_file),
                        ),
                    ),
                    None,
                )
            } else {
                (StateModel::Launching, Some(spec_spawn_command(config)))
            }
        },
        (StateModel::Launching, EventModel::SpawnCompleted { exit_code, stderr }) => {
            (StateModel::Terminal(spec_exit_outcome(exit_code, stderr)), None)
        },
        (StateModel::Launching, EventModel::SpawnRejected { reason }) => {
            (StateModel::Terminal(OutcomeModel::SpawnFailed(reason)), None)
        },
        _ => (state, None),
    }
}

/// Drives the machine one transition. The host performs the returned spawn,
/// if there is one, and feeds its result back as the next event.
pub fn launch_step(state: LaunchState, config: &LaunchConfig, event: LaunchEvent) -> (r: (
    LaunchState,
    Option<SpawnCommand>,
))
    ensures
        r.0@ == spec_step(state@, config@, event@).0,
        (match r.1 {
            Some(cmd) => spec_step(state@, config@, event@).1 == Some(cmd@),
            None => spec_step(state@, config@, event@).1 is None,
        }),
{
    match (state, event) {
        (LaunchState::Pending, LaunchEvent::DelayElapsed { entry_exists, manifest_exists }) => {
            if !entry_exists {
                let missing = join_path(config.resource_dir.as_str(), config.entry_file.as_str());
                (LaunchState::Terminal(LaunchOutcome::FileMissing(missing)), None)
            } else if !manifest_exists {
                let missing = join_path(
                    config.resource_dir.as_str(),
                    config.manifest_file.as_str(),
                );
                (LaunchState::Terminal(LaunchOutcome::FileMissing(missing)), None)
            } else {
                let cmd = SpawnCommand {
                    program: String::from_str("node"),
                    working_dir: config.resource_dir.clone(),
                    argument: config.entry_file.clone(),
                };
                (LaunchState::Launching, Some(cmd))
            }
        },
        (LaunchState::Launching, LaunchEvent::SpawnCompleted { exit_code, stderr }) => {
            (LaunchState::Terminal(exit_outcome(exit_code, stderr)), None)
        },
        (LaunchState::Launching, LaunchEvent::SpawnRejected { reason }) => {
            (LaunchState::Terminal(spawn_failure_outcome(reason)), None)
        },
        (s, _) => (s, None),
    }
}

/// How many spawn commands a run of the machine hands out: starting in
/// `state`, feed the events in order and count the `Some` results.
pub open spec fn run_spawn_count(
    state: StateModel,
    config: ConfigModel,
    events: Seq<EventModel>,
) -> nat
    decreases events.len(),
{
    if events.len() == 0 {
        0
    } else {
        let step = spec_step(state, config, events[0]);
        (if step.1 is Some {
            1nat
        } else {
            0nat
        }) + run_spawn_count(step.0, config, events.drop_first())
    }
}

proof fn lemma_no_spawn_after_pending(
    state: StateModel,
    config: ConfigModel,
    events: Seq<EventModel>,
)
    requires
        !(state is Pending),
    ensures
        run_spawn_count(state, config, events) == 0,
    decreases events.len(),
{
    if events.len() > 0 {
        let step = spec_step(state, config, events[0]);
        assert(!(step.0 is Pending));
        assert(step.1 is None);
        lemma_no_spawn_after_pending(step.0, config, events.drop_first());
    }
}

/// However the host drives it, a run of the machine from `Pending` hands
/// out at most one spawn command: once the machine has left `Pending` it
/// never spawns again, and it never returns to `Pending`.
pub proof fn lemma_at_most_one_spawn(config: ConfigModel, events: Seq<EventModel>)
    ensures
        run_spawn_count(StateModel::Pending, config, events) <= 1,
    decreases events.len(),
{
    if events.len() > 0 {
        let step = spec_step(StateModel::Pending, config, events[0]);
        if step.0 is Pending {
            assert(step.1 is None);
            lemma_at_most_one_spawn(config, events.drop_first());
        } else {
            lemma_no_spawn_after_pending(step.0, config, events.drop_first());
        }
    }
}

/// When both expected files are present, a run from `Pending` that begins
/// with the elapsed delay hands out exactly one spawn command — the
/// interpreter run against the entry file, in the resource directory — and
/// nothing the host feeds in afterwards causes a second one.
pub proof fn lemma_exactly_one_spawn(config: ConfigModel, events: Seq<EventModel>)
    requires
        events.len() > 0,
        events[0] == (EventModel::DelayElapsed { entry_exists: true, manifest_exists: true }),
    ensures
        run_spawn_count(StateModel::Pending, config, events) == 1,
        spec_step(StateModel::Pending, config, events[0]).1 == Some(spec_spawn_command(config)),
{
    let step = spec_step(StateModel::Pending, config, events[0]);
    lemma_no_spawn_after_pending(step.0, config, events.drop_first());
}

/// When the entry file is absent, the elapsed delay ends the attempt with
/// that file's path as the missing one, and no run of the machine hands out
/// any spawn command at all.
pub proof fn lemma_missing_entry_never_spawns(
    config: ConfigModel,
    events: Seq<EventModel>,
    manifest_exists: bool,
)
    requires
        events.len() > 0,
        events[0] == (EventModel::DelayElapsed { entry_exists: false, manifest_exists }),
    ensures
        run_spawn_count(StateModel::Pending, config, events) == 0,
        spec_step(StateModel::Pending, config, events[0]).0 == StateModel::Terminal(
            OutcomeModel::FileMissing(spec_join(config.resource_dir, config.entry_file)),
        ),
{
    let step = spec_step(StateModel::Pending, config, events[0]);
    lemma_no_spawn_after_pending(step.0, config, events.drop_first());
}

} // verus!
