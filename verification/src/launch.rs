//! The launch orchestrator: a state machine that answers "get me a running,
//! reachable daemon" with as little user interaction as possible.
//!
//! The machine decides and never acts. In each state it names one action for
//! the caller to perform ([`Launcher::next_action`]); the caller performs it
//! and reports what happened ([`Launcher::handle`]). A launch is over when
//! the machine reaches `Success` or `Failed`.

use crate::process::background_command;
use crate::process::background_view;
use crate::process::command_views;
use crate::process::interactive_commands;
use crate::process::interactive_views;
use crate::process::mode_of;
use crate::process::terminal_count;
use crate::process::CommandView;
use crate::process::LaunchMode;
use crate::process::Platform;
use crate::process::SpawnCommand;
use vstd::prelude::*;
use vstd::string::*;

verus! {

/// Why a launch failed.
#[derive(Clone, Copy, Debug, PartialEq, Eq, Structural)]
pub enum LaunchFailure {
    /// The daemon executable could not be installed.
    Provisioning,
    /// The daemon executable is not where it was installed.
    BinaryMissing,
    /// The daemon executable could not be made executable.
    Permissions,
    /// The requested mode names no subcommand of the daemon.
    InvalidMode,
    /// No terminal emulator of the host accepted the interactive start.
    NoTerminalAvailable,
}

/// Where a launch stands.
#[derive(Clone, Copy, Debug, PartialEq, Eq, Structural)]
pub enum LaunchState {
    /// The daemon executable is being provisioned.
    EnsureBinary,
    /// The trust session and the endpoint are being looked at.
    Decide,
    /// A silent start is being attempted.
    BackgroundAttempt,
    /// The silently started daemon is given time to create its endpoint.
    AwaitEndpoint,
    /// The trust session, which did not allow a silent start, is being
    /// removed.
    InvalidateSession,
    /// The terminal emulator with this place in the order of preference is
    /// being asked to run the daemon.
    InteractiveStart { candidate: usize },
    /// The daemon has been started, or the user has been handed a terminal.
    Success,
    /// The launch was given up.
    Failed(LaunchFailure),
}

/// What the caller reports back to the machine.
#[derive(Clone, Copy, Debug, PartialEq, Eq, Structural)]
pub enum LaunchEvent {
    /// The daemon executable is installed and executable.
    BinaryReady,
    /// The daemon executable could not be installed.
    ProvisioningFailed,
    /// After installation the daemon executable is not in its place.
    BinaryMissing,
    /// The daemon executable could not be made executable.
    PermissionsFailed,
    /// The trust session and the endpoint were looked at.
    Probed { session_valid: bool, endpoint_exists: bool },
    /// The silent start spawned a process.
    BackgroundSpawned,
    /// The silent start could not spawn a process.
    BackgroundSpawnFailed,
    /// The endpoint appeared within the waiting time.
    EndpointAppeared,
    /// The waiting time passed without an endpoint.
    EndpointTimedOut,
    /// The trust session was removed, or could not be: removal is best
    /// effort and holds nothing up.
    SessionInvalidated,
    /// The terminal emulator accepted the start.
    InteractiveSpawned,
    /// The terminal emulator could not be invoked.
    InteractiveSpawnFailed,
}

/// What the machine asks the caller to do next.
#[derive(Clone, Copy, Debug, PartialEq, Eq, Structural)]
pub enum LaunchAction {
    /// Install the daemon executable if it is absent, and confirm that it is
    /// present and executable.
    EnsureBinary,
    /// Read whether the trust session is valid and whether the endpoint
    /// exists.
    ProbeEnvironment,
    /// Run the command of the silent start.
    SpawnBackground,
    /// Wait, within the bound, for the endpoint to appear.
    AwaitEndpoint,
    /// Remove the trust session.
    InvalidateSession,
    /// Run the interactive command with this place in the order of
    /// preference.
    SpawnInteractive { candidate: usize },
    /// Nothing: the launch is over.
    Finish,
}

/// Whether a launch in this state is over.
pub open spec fn is_terminal(state: LaunchState) -> bool {
    state is Success || state is Failed
}

/// Whether the caller is asked to start a process in this state.
pub open spec fn spawns(state: LaunchState) -> bool {
    state is BackgroundAttempt || state is InteractiveStart
}

/// Whether this state belongs to the silent path, which reads the trust
/// session and the endpoint and may remove the trust session.
pub open spec fn on_silent_path(state: LaunchState) -> bool {
    state is Decide || state is BackgroundAttempt || state is AwaitEndpoint
        || state is InvalidateSession
}

/// The action that the machine asks for in `state`.
pub open spec fn action_of(state: LaunchState) -> LaunchAction {
    match state {
        LaunchState::EnsureBinary => LaunchAction::EnsureBinary,
        LaunchState::Decide => LaunchAction::ProbeEnvironment,
        LaunchState::BackgroundAttempt => LaunchAction::SpawnBackground,
        LaunchState::AwaitEndpoint => LaunchAction::AwaitEndpoint,
        LaunchState::InvalidateSession => LaunchAction::InvalidateSession,
        LaunchState::InteractiveStart { candidate } => LaunchAction::SpawnInteractive {
            candidate,
        },
        LaunchState::Success => LaunchAction::Finish,
        LaunchState::Failed(_) => LaunchAction::Finish,
    }
}

/// The state that follows `state` when `event` is reported.
///
/// `mode` is the requested mode, or `None` where the request named none, and
/// `terminals` is the number of terminal emulators that the host offers. An
/// event that does not answer the action of `state` changes nothing.
pub open spec fn step(
    state: LaunchState,
    mode: Option<LaunchMode>,
    terminals: usize,
    event: LaunchEvent,
) -> LaunchState {
    match (state, event) {
        (LaunchState::EnsureBinary, LaunchEvent::ProvisioningFailed) => LaunchState::Failed(
            LaunchFailure::Provisioning,
        ),
        (LaunchState::EnsureBinary, LaunchEvent::BinaryMissing) => LaunchState::Failed(
            LaunchFailure::BinaryMissing,
        ),
        (LaunchState::EnsureBinary, LaunchEvent::PermissionsFailed) => LaunchState::Failed(
            LaunchFailure::Permissions,
        ),
        (LaunchState::EnsureBinary, LaunchEvent::BinaryReady) => match mode {
            None => LaunchState::Failed(LaunchFailure::InvalidMode),
            Some(LaunchMode::RunDaemon) => LaunchState::Decide,
            Some(_) => LaunchState::InteractiveStart { candidate: 0 },
        },
        (LaunchState::Decide, LaunchEvent::Probed { session_valid, endpoint_exists }) => {
            if session_valid && !endpoint_exists {
                LaunchState::BackgroundAttempt
            } else {
                LaunchState::InteractiveStart { candidate: 0 }
            }
        },
        (LaunchState::BackgroundAttempt, LaunchEvent::BackgroundSpawned) => {
            LaunchState::AwaitEndpoint
        },
        (LaunchState::BackgroundAttempt, LaunchEvent::BackgroundSpawnFailed) => {
            LaunchState::InvalidateSession
        },
        (LaunchState::AwaitEndpoint, LaunchEvent::EndpointAppeared) => LaunchState::Success,
        (LaunchState::AwaitEndpoint, LaunchEvent::EndpointTimedOut) => {
            LaunchState::InvalidateSession
        },
        (LaunchState::InvalidateSession, LaunchEvent::SessionInvalidated) => {
            LaunchState::InteractiveStart { candidate: 0 }
        },
        (LaunchState::InteractiveStart { candidate }, LaunchEvent::InteractiveSpawned) => {
            LaunchState::Success
        },
        (LaunchState::InteractiveStart { candidate }, LaunchEvent::InteractiveSpawnFailed) => {
            if candidate + 1 < terminals {
                LaunchState::InteractiveStart { candidate: (candidate + 1) as usize }
            } else {
                LaunchState::Failed(LaunchFailure::NoTerminalAvailable)
            }
        },
        _ => state,
    }
}

/// The state that a launch has reached from `state` after the events in
/// `events` were reported, in order.
pub open spec fn run(
    state: LaunchState,
    mode: Option<LaunchMode>,
    terminals: usize,
    events: Seq<LaunchEvent>,
) -> LaunchState
    decreases events.len(),
{
    if events.len() == 0 {
        state
    } else {
        step(run(state, mode, terminals, events.drop_last()), mode, terminals, events.last())
    }
}

/// Whether `state` can occur in a launch that was asked for `mode` on a host
/// with `terminals` terminal emulators.
pub open spec fn state_fits(state: LaunchState, mode: Option<LaunchMode>, terminals: usize) -> bool {
    match state {
        LaunchState::EnsureBinary => true,
        LaunchState::Decide => mode == Some(LaunchMode::RunDaemon),
        LaunchState::BackgroundAttempt => mode == Some(LaunchMode::RunDaemon),
        LaunchState::AwaitEndpoint => mode == Some(LaunchMode::RunDaemon),
        LaunchState::InvalidateSession => mode == Some(LaunchMode::RunDaemon),
        LaunchState::InteractiveStart { candidate } => mode is Some && candidate < terminals,
        LaunchState::Success => mode is Some,
        LaunchState::Failed(LaunchFailure::InvalidMode) => mode is None,
        LaunchState::Failed(LaunchFailure::NoTerminalAvailable) => mode is Some,
        LaunchState::Failed(_) => true,
    }
}

/// How far a launch has come: every effective step of the machine leads to a
/// state of higher rank.
pub open spec fn rank(state: LaunchState, terminals: usize) -> nat {
    match state {
        LaunchState::EnsureBinary => 0,
        LaunchState::Decide => 1,
        LaunchState::BackgroundAttempt => 2,
        LaunchState::AwaitEndpoint => 3,
        LaunchState::InvalidateSession => 4,
        LaunchState::InteractiveStart { candidate } => 5 + candidate as nat,
        LaunchState::Success => 5 + terminals as nat,
        LaunchState::Failed(_) => 5 + terminals as nat,
    }
}

/// A step keeps the state within what the requested mode and the host allow.
pub proof fn lemma_step_fits(
    state: LaunchState,
    mode: Option<LaunchMode>,
    terminals: usize,
    event: LaunchEvent,
)
    requires
        terminals > 0,
        state_fits(state, mode, terminals),
    ensures
        state_fits(step(state, mode, terminals, event), mode, terminals),
{
}

/// A launch never goes back: an event either changes nothing or leads to a
/// state of higher rank. So no action is asked for twice, and a launch is
/// over after a bounded number of effective steps.
pub proof fn lemma_step_progress(
    state: LaunchState,
    mode: Option<LaunchMode>,
    terminals: usize,
    event: LaunchEvent,
)
    requires
        terminals > 0,
        state_fits(state, mode, terminals),
    ensures
        step(state, mode, terminals, event) == state || rank(
            step(state, mode, terminals, event),
            terminals,
        ) > rank(state, terminals),
{
}

/// Once a launch is over, no event changes its outcome.
pub proof fn lemma_terminal_is_final(
    state: LaunchState,
    mode: Option<LaunchMode>,
    terminals: usize,
    events: Seq<LaunchEvent>,
)
    requires
        is_terminal(state),
    ensures
        run(state, mode, terminals, events) == state,
    decreases events.len(),
{
    if events.len() > 0 {
        lemma_terminal_is_final(state, mode, terminals, events.drop_last());
    }
}

/// Whatever is reported in whatever order, a launch started afresh stays
/// within what the requested mode and the host allow.
pub proof fn lemma_run_fits(mode: Option<LaunchMode>, terminals: usize, events: Seq<LaunchEvent>)
    requires
        terminals > 0,
    ensures
        state_fits(run(LaunchState::EnsureBinary, mode, terminals, events), mode, terminals),
    decreases events.len(),
{
    if events.len() > 0 {
        lemma_run_fits(mode, terminals, events.drop_last());
        lemma_step_fits(
            run(LaunchState::EnsureBinary, mode, terminals, events.drop_last()),
            mode,
            terminals,
            events.last(),
        );
    }
}

/// A request that names no mode fails before any process is spawned:
/// whatever is reported, the machine never asks for a start.
pub proof fn lemma_invalid_mode_never_spawns(terminals: usize, events: Seq<LaunchEvent>)
    requires
        terminals > 0,
    ensures
        !spawns(run(LaunchState::EnsureBinary, None, terminals, events)),
        !on_silent_path(run(LaunchState::EnsureBinary, None, terminals, events)),
        !(run(LaunchState::EnsureBinary, None, terminals, events) is Success),
{
    lemma_run_fits(None, terminals, events);
}

/// A request that names no mode is refused as soon as the daemon executable
/// is known to be ready.
pub proof fn lemma_invalid_mode_fails(terminals: usize)
    ensures
        step(LaunchState::EnsureBinary, None, terminals, LaunchEvent::BinaryReady)
            == LaunchState::Failed(LaunchFailure::InvalidMode),
{
}

/// Any mode but the daemon's goes to the interactive start directly:
/// whatever is reported, the trust session and the endpoint are never looked
/// at, no silent start is attempted and the trust session is never removed.
pub proof fn lemma_only_daemon_mode_is_silent(
    mode: LaunchMode,
    terminals: usize,
    events: Seq<LaunchEvent>,
)
    requires
        terminals > 0,
        mode != LaunchMode::RunDaemon,
    ensures
        !on_silent_path(run(LaunchState::EnsureBinary, Some(mode), terminals, events)),
        step(LaunchState::EnsureBinary, Some(mode), terminals, LaunchEvent::BinaryReady)
            == (LaunchState::InteractiveStart { candidate: 0 }),
{
    lemma_run_fits(Some(mode), terminals, events);
}

/// A silent start is attempted exactly when the trust session is valid and
/// no endpoint exists yet; otherwise the start is interactive.
pub proof fn lemma_silent_start_condition(
    mode: Option<LaunchMode>,
    terminals: usize,
    session_valid: bool,
    endpoint_exists: bool,
)
    ensures
        step(
            LaunchState::Decide,
            mode,
            terminals,
            LaunchEvent::Probed { session_valid, endpoint_exists },
        ) == if session_valid && !endpoint_exists {
            LaunchState::BackgroundAttempt
        } else {
            LaunchState::InteractiveStart { candidate: 0 }
        },
{
}

/// The trust session is removed only after a silent start that did not
/// succeed: the process could not be spawned, or its endpoint did not appear
/// in time. A launch that succeeds silently leaves the session untouched.
pub proof fn lemma_invalidation_follows_failed_silent_start(
    state: LaunchState,
    mode: Option<LaunchMode>,
    terminals: usize,
    event: LaunchEvent,
)
    requires
        !(state is InvalidateSession),
        step(state, mode, terminals, event) is InvalidateSession,
    ensures
        (state is BackgroundAttempt && event is BackgroundSpawnFailed) || (state is AwaitEndpoint
            && event is EndpointTimedOut),
{
}

/// After the trust session was removed the start is interactive, beginning
/// with the most preferred terminal emulator.
pub proof fn lemma_invalidation_falls_back(mode: Option<LaunchMode>, terminals: usize)
    ensures
        step(LaunchState::InvalidateSession, mode, terminals, LaunchEvent::SessionInvalidated)
            == (LaunchState::InteractiveStart { candidate: 0 }),
{
}

/// The terminal emulators are tried in order, and the first that accepts the
/// start ends the launch in success. The launch fails for want of a terminal
/// only when the last one has refused.
pub proof fn lemma_first_terminal_wins(
    candidate: usize,
    mode: Option<LaunchMode>,
    terminals: usize,
)
    requires
        candidate < terminals,
    ensures
        step(
            LaunchState::InteractiveStart { candidate },
            mode,
            terminals,
            LaunchEvent::InteractiveSpawned,
        ) == LaunchState::Success,
        candidate + 1 < terminals ==> step(
            LaunchState::InteractiveStart { candidate },
            mode,
            terminals,
            LaunchEvent::InteractiveSpawnFailed,
        ) == (LaunchState::InteractiveStart { candidate: (candidate + 1) as usize }),
        candidate + 1 == terminals ==> step(
            LaunchState::InteractiveStart { candidate },
            mode,
            terminals,
            LaunchEvent::InteractiveSpawnFailed,
        ) == LaunchState::Failed(LaunchFailure::NoTerminalAvailable),
{
}

/// A launch in progress, as plain values.
pub struct LauncherView {
    /// The mode as the caller asked for it.
    pub requested: Seq<char>,
    /// The path of the daemon executable.
    pub binary: Seq<char>,
    /// The host environment.
    pub platform: Platform,
    /// Where the launch stands.
    pub state: LaunchState,
    /// The cause that was reported with the event that made the launch fail;
    /// empty while it has not failed.
    pub detail: Seq<char>,
}

impl LauncherView {
    /// The requested mode, if the request names one.
    pub open spec fn mode(self) -> Option<LaunchMode> {
        mode_of(self.requested)
    }

    /// The number of terminal emulators that the host offers.
    pub open spec fn terminals(self) -> usize {
        terminal_count(self.platform) as usize
    }

    /// Whether the state agrees with the requested mode and with the host,
    /// as it does in every launch that was begun afresh, whatever was
    /// reported to it.
    pub open spec fn wf(self) -> bool {
        state_fits(self.state, self.mode(), self.terminals())
    }

    /// The launch after `event` was reported with the cause `detail`.
    ///
    /// The cause is kept only if the event makes the launch fail.
    pub open spec fn after(self, event: LaunchEvent, detail: Seq<char>) -> LauncherView {
        let next = step(self.state, self.mode(), self.terminals(), event);
        LauncherView {
            state: next,
            detail: if next is Failed && !(self.state is Failed) {
                detail
            } else {
                self.detail
            },
            ..self
        }
    }

    /// The command that the caller is to run in this state, if the state
    /// asks for one.
    pub open spec fn command(self) -> Option<CommandView> {
        match (self.state, self.mode()) {
            (LaunchState::BackgroundAttempt, Some(mode)) => Some(
                background_view(self.binary, mode),
            ),
            (LaunchState::InteractiveStart { candidate }, Some(mode)) => {
                if candidate < self.terminals() {
                    Some(interactive_views(self.platform, self.binary, mode)[candidate as int])
                } else {
                    None
                }
            },
            _ => None,
        }
    }

    /// The human-readable cause of a failure of the kind `failure`.
    pub open spec fn failure_message(self, failure: LaunchFailure) -> Seq<char> {
        match failure {
            LaunchFailure::Provisioning => self.detail,
            LaunchFailure::BinaryMissing => "NoorSigner binary not found at: "@ + self.binary,
            LaunchFailure::Permissions => "Failed to set binary permissions: "@ + self.detail,
            LaunchFailure::InvalidMode => "Invalid mode: "@ + self.requested,
            LaunchFailure::NoTerminalAvailable => match self.platform {
                Platform::Linux => {
                    "No terminal emulator found. Please install gnome-terminal, konsole, or xterm."@
                },
                Platform::MacOs => "Failed to launch Terminal.app: "@ + self.detail,
            },
        }
    }

    /// The outcome of the launch: `None` while it is under way, `Some(Ok)`
    /// where it succeeded, and `Some(Err)` with the cause where it failed.
    pub open spec fn outcome(self) -> Option<Result<(), Seq<char>>> {
        match self.state {
            LaunchState::Success => Some(Ok(())),
            LaunchState::Failed(failure) => Some(Err(self.failure_message(failure))),
            _ => None,
        }
    }
}

/// A launch in progress.
#[derive(Debug)]
pub struct Launcher {
    requested: String,
    mode: Option<LaunchMode>,
    binary: String,
    platform: Platform,
    state: LaunchState,
    detail: String,
}

impl View for Launcher {
    type V = LauncherView;

    closed spec fn view(&self) -> LauncherView {
        LauncherView {
            requested: self.requested@,
            binary: self.binary@,
            platform: self.platform,
            state: self.state,
            detail: self.detail@,
        }
    }
}

/// The number of terminal emulators that an interactive start can try on
/// `platform`.
pub fn terminals_on(platform: Platform) -> (n: usize)
    ensures
        n == terminal_count(platform),
{
    match platform {
        Platform::Linux => 3,
        Platform::MacOs => 1,
    }
}

/// Begins a launch of the daemon executable at `binary` in the mode that
/// `mode` names, on the host `platform`.
///
/// Nothing is started yet, and a `mode` that names no subcommand is not
/// refused yet: the launch begins by asking for the daemon executable to be
/// provisioned, and refuses the mode once that has succeeded.
pub fn launch_key_signer(mode: &str, binary: &str, platform: Platform) -> (launcher: Launcher)
    ensures
        launcher@ == (LauncherView {
            requested: mode@,
            binary: binary@,
            platform,
            state: LaunchState::EnsureBinary,
            detail: Seq::<char>::empty(),
        }),
        launcher@.wf(),
{
    Launcher {
        requested: String::from_str(mode),
        mode: LaunchMode::parse(mode),
        binary: String::from_str(binary),
        platform,
        state: LaunchState::EnsureBinary,
        detail: String::new(),
    }
}

impl Launcher {
    #[verifier::type_invariant]
    spec fn inv(self) -> bool {
        &&& self.mode == mode_of(self.requested@)
        &&& state_fits(self.state, self.mode, terminal_count(self.platform) as usize)
    }

    /// Where the launch stands.
    pub fn state(&self) -> (state: LaunchState)
        ensures
            state == self@.state,
            self@.wf(),
    {
        proof {
            use_type_invariant(self);
        }
        self.state
    }

    /// The requested mode, if the request names one.
    pub fn mode(&self) -> (mode: Option<LaunchMode>)
        ensures
            mode == self@.mode(),
    {
        proof {
            use_type_invariant(self);
        }
        self.mode
    }

    /// Whether the launch is over.
    pub fn is_finished(&self) -> (finished: bool)
        ensures
            finished == is_terminal(self@.state),
    {
        match self.state {
            LaunchState::Success => true,
            LaunchState::Failed(_) => true,
            _ => false,
        }
    }

    /// The action that the caller is to perform next.
    pub fn next_action(&self) -> (action: LaunchAction)
        ensures
            action == action_of(self@.state),
    {
        match self.state {
            LaunchState::EnsureBinary => LaunchAction::EnsureBinary,
            LaunchState::Decide => LaunchAction::ProbeEnvironment,
            LaunchState::BackgroundAttempt => LaunchAction::SpawnBackground,
            LaunchState::AwaitEndpoint => LaunchAction::AwaitEndpoint,
            LaunchState::InvalidateSession => LaunchAction::InvalidateSession,
            LaunchState::InteractiveStart { candidate } => LaunchAction::SpawnInteractive {
                candidate,
            },
            LaunchState::Success => LaunchAction::Finish,
            LaunchState::Failed(_) => LaunchAction::Finish,
        }
    }

    /// The command that the caller is to run in this state, if the state
    /// asks for one.
    pub fn command(&self) -> (command: Option<SpawnCommand>)
        ensures
            match command {
                Some(c) => self@.command() == Some(c@),
                None => self@.command() is None,
            },
    {
        proof {
            use_type_invariant(self);
        }
        match (self.state, self.mode) {
            (LaunchState::BackgroundAttempt, Some(mode)) => Some(
                background_command(self.binary.as_str(), mode),
            ),
            (LaunchState::InteractiveStart { candidate }, Some(mode)) => {
                let mut commands = interactive_commands(self.platform, self.binary.as_str(), mode);
                let ghost listed = command_views(commands@);
                assert(listed.len() == terminal_count(self.platform));
                if candidate < commands.len() {
                    let command = commands.swap_remove(candidate);
                    Some(command)
                } else {
                    None
                }
            },
            _ => None,
        }
    }

    /// Takes in what the caller reports.
    ///
    /// `detail` is the cause that the caller has for a failure, such as the
    /// operating system's error text; it is kept only where `event` makes the
    /// launch fail. An event that does not answer the pending action changes
    /// nothing.
    pub fn handle(&mut self, event: LaunchEvent, detail: &str)
        ensures
            final(self)@ == old(self)@.after(event, detail@),
            final(self)@.wf(),
    {
        proof {
            use_type_invariant(&*self);
            lemma_step_fits(self.state, self.mode, terminal_count(self.platform) as usize, event);
        }
        let terminals: usize = terminals_on(self.platform);
        let next: LaunchState = match (self.state, event) {
            (LaunchState::EnsureBinary, LaunchEvent::ProvisioningFailed) => LaunchState::Failed(
                LaunchFailure::Provisioning,
            ),
            (LaunchState::EnsureBinary, LaunchEvent::BinaryMissing) => LaunchState::Failed(
                LaunchFailure::BinaryMissing,
            ),
            (LaunchState::EnsureBinary, LaunchEvent::PermissionsFailed) => LaunchState::Failed(
                LaunchFailure::Permissions,
            ),
            (LaunchState::EnsureBinary, LaunchEvent::BinaryReady) => match self.mode {
                None => LaunchState::Failed(LaunchFailure::InvalidMode),
                Some(LaunchMode::RunDaemon) => LaunchState::Decide,
                Some(_) => LaunchState::InteractiveStart { candidate: 0 },
            },
            (LaunchState::Decide, LaunchEvent::Probed { session_valid, endpoint_exists }) => {
                if session_valid && !endpoint_exists {
                    LaunchState::BackgroundAttempt
                } else {
                    LaunchState::InteractiveStart { candidate: 0 }
                }
            },
            (LaunchState::BackgroundAttempt, LaunchEvent::BackgroundSpawned) => {
                LaunchState::AwaitEndpoint
            },
            (LaunchState::BackgroundAttempt, LaunchEvent::BackgroundSpawnFailed) => {
                LaunchState::InvalidateSession
            },
            (LaunchState::AwaitEndpoint, LaunchEvent::EndpointAppeared) => LaunchState::Success,
            (LaunchState::AwaitEndpoint, LaunchEvent::EndpointTimedOut) => {
                LaunchState::InvalidateSession
            },
            (LaunchState::InvalidateSession, LaunchEvent::SessionInvalidated) => {
                LaunchState::InteractiveStart { candidate: 0 }
            },
            (LaunchState::InteractiveStart { candidate }, LaunchEvent::InteractiveSpawned) => {
                LaunchState::Success
            },
            (
                LaunchState::InteractiveStart { candidate },
                LaunchEvent::InteractiveSpawnFailed,
            ) => {
                if candidate + 1 < terminals {
                    LaunchState::InteractiveStart { candidate: candidate + 1 }
                } else {
                    LaunchState::Failed(LaunchFailure::NoTerminalAvailable)
                }
            },
            (state, _) => state,
        };
        let fails: bool = match (next, self.state) {
            (LaunchState::Failed(_), LaunchState::Failed(_)) => false,
            (LaunchState::Failed(_), _) => true,
            _ => false,
        };
        if fails {
            self.detail = String::from_str(detail);
        }
        self.state = next;
    }

    /// The outcome of the launch: `None` while it is under way, `Some(Ok)`
    /// where it succeeded, and `Some(Err)` with a human-readable cause where
    /// it failed.
    pub fn result(&self) -> (outcome: Option<Result<(), String>>)
        ensures
            match outcome {
                None => self@.outcome() is None,
                Some(Ok(_)) => self@.outcome() == Some(Ok::<(), Seq<char>>(())),
                Some(Err(message)) => self@.outcome() == Some(Err::<(), Seq<char>>(message@)),
            },
    {
        match self.state {
            LaunchState::Success => Some(Ok(())),
            LaunchState::Failed(failure) => {
                let message = match failure {
                    LaunchFailure::Provisioning => self.detail.clone(),
                    LaunchFailure::BinaryMissing => {
                        let mut text = String::from_str("NoorSigner binary not found at: ");
                        text.append(self.binary.as_str());
                        text
                    },
                    LaunchFailure::Permissions => {
                        let mut text = String::from_str("Failed to set binary permissions: ");
                        text.append(self.detail.as_str());
                        text
                    },
                    LaunchFailure::InvalidMode => {
                        let mut text = String::from_str("Invalid mode: ");
                        text.append(self.requested.as_str());
                        text
                    },
                    LaunchFailure::NoTerminalAvailable => match self.platform {
                        Platform::Linux => String::from_str(
                            "No terminal emulator found. Please install gnome-terminal, konsole, or xterm.",
                        ),
                        Platform::MacOs => {
                            let mut text = String::from_str("Failed to launch Terminal.app: ");
                            text.append(self.detail.as_str());
                            text
                        },
                    },
                };
                Some(Err(message))
            },
            _ => None,
        }
    }
}

} // verus!
