//! The startup sequence as a state machine.
//!
//! The host feeds the machine one [`Event`] at a time and carries out the
//! [`Action`] it gets back: it resolves the resource directory, looks for the
//! embedded runtime, spawns the server, tries to connect, sleeps, and finally
//! sends the window to the server's page. The machine never fails: whatever
//! goes wrong on the way, it moves on, and the run ends with an [`Outcome`]
//! that tells which way it went.

use vstd::prelude::*;
use crate::launch::{Runtime, preferred_runtime, select_runtime};

verus! {

/// How long a packaged build waits for its server, in milliseconds.
pub const READY_TIMEOUT_MS: u32 = 20_000;

/// How long a packaged build sleeps between two connection attempts, in
/// milliseconds.
pub const POLL_INTERVAL_MS: u32 = 300;

/// Whether the shell was built for development or for release.
#[derive(Debug, Clone, Copy, PartialEq, Eq, Structural)]
pub enum BuildMode {
    Debug,
    Release,
}

/// The time limits of the readiness poll.
#[derive(Debug, Clone, Copy, PartialEq, Eq, Structural)]
pub struct PollPolicy {
    /// No connection attempt starts once this much time has passed.
    pub timeout_ms: u32,
    /// The sleep between a failed attempt and the next look at the clock.
    pub interval_ms: u32,
}

impl PollPolicy {
    /// The limits of a packaged build: up to 20 s, one attempt every 300 ms.
    pub fn standard() -> (policy: PollPolicy)
        ensures
            policy.timeout_ms == READY_TIMEOUT_MS,
            policy.interval_ms == POLL_INTERVAL_MS,
    {
        PollPolicy { timeout_ms: READY_TIMEOUT_MS, interval_ms: POLL_INTERVAL_MS }
    }

    /// Whether the wait is over at `elapsed_ms` after its start.
    pub open spec fn spec_expired(self, elapsed_ms: u64) -> bool {
        elapsed_ms >= self.timeout_ms
    }

    /// Whether the wait is over at `elapsed_ms` after its start.
    #[verifier::when_used_as_spec(spec_expired)]
    pub fn expired(self, elapsed_ms: u64) -> (over: bool)
        ensures
            over == self.spec_expired(elapsed_ms),
    {
        elapsed_ms >= self.timeout_ms as u64
    }
}

/// Which way a startup run went.
#[derive(Debug, Clone, PartialEq, Eq)]
pub enum Outcome {
    /// A development build: nothing was started, probed or navigated.
    Skipped,
    /// The resource directory could not be resolved: nothing was started and
    /// the window was left alone.
    PathUnresolved,
    /// The server could not be spawned, for the reason given; the window was
    /// sent to the server's page all the same.
    LaunchFailed(String),
    /// The server was spawned but did not accept a connection in time; the
    /// window was sent to the server's page all the same.
    TimedOutWaiting,
    /// The server was spawned and accepted a connection.
    Launched,
}

impl Outcome {
    /// Whether the window was sent to the server's page.
    pub open spec fn spec_navigated(self) -> bool {
        self is LaunchFailed || self is TimedOutWaiting || self is Launched
    }

    /// Whether the window was sent to the server's page.
    pub fn navigated(&self) -> (yes: bool)
        ensures
            yes == self.spec_navigated(),
    {
        match self {
            Outcome::Skipped => false,
            Outcome::PathUnresolved => false,
            Outcome::LaunchFailed(_) => true,
            Outcome::TimedOutWaiting => true,
            Outcome::Launched => true,
        }
    }
}

/// How the wait for the server ended, given how the spawn went. A failed
/// spawn is reported even if something answered on the port.
pub open spec fn outcome_of(launch_error: Option<String>, ready: bool) -> Outcome {
    match launch_error {
        Some(reason) => Outcome::LaunchFailed(reason),
        None => if ready {
            Outcome::Launched
        } else {
            Outcome::TimedOutWaiting
        },
    }
}

/// Where a startup run stands.
#[derive(Debug, Clone, PartialEq, Eq)]
pub enum Stage {
    /// Nothing has happened yet.
    Idle,
    /// The host has been asked for the resource directory.
    ResolvingPath,
    /// The host has been asked whether an embedded runtime is present.
    SelectingRuntime,
    /// The host has been asked to spawn the server.
    Spawning,
    /// Polling: the host has been asked to try a connection.
    Probing { launch_error: Option<String> },
    /// Polling: the host has been asked to sleep.
    Sleeping { launch_error: Option<String> },
    /// The run is over.
    Finished(Outcome),
}

/// What the host reports to the machine.
#[derive(Debug, Clone, PartialEq, Eq)]
pub enum Event {
    /// The application is starting up.
    Start(BuildMode),
    /// The resource directory was looked up.
    ResourceDir { resolved: bool },
    /// The embedded runtime was looked for.
    EmbeddedRuntime { present: bool },
    /// The spawn returned; `error` describes its failure if it failed.
    Spawned { error: Option<String> },
    /// A connection attempt returned.
    Probed { connected: bool },
    /// A sleep returned; `elapsed_ms` is the time since the spawn returned.
    Slept { elapsed_ms: u64 },
}

/// What the machine asks of the host.
#[derive(Debug, Clone, Copy, PartialEq, Eq, Structural)]
pub enum Action {
    /// Resolve the resource directory and report [`Event::ResourceDir`].
    ResolveResourceDir,
    /// Look for the embedded runtime and report [`Event::EmbeddedRuntime`].
    FindEmbeddedRuntime,
    /// Spawn the server with this runtime, note the time, and report
    /// [`Event::Spawned`].
    Spawn(Runtime),
    /// Try to connect to the server and report [`Event::Probed`].
    Probe,
    /// Sleep for this many milliseconds and report [`Event::Slept`].
    Sleep(u32),
    /// Send the window to the server's page. The run is over.
    Navigate,
    /// Do nothing more. The run is over.
    Stop,
    /// The event did not belong to the current stage and changed nothing.
    Ignore,
}

impl Action {
    /// Whether the action makes the host touch anything outside the machine.
    pub open spec fn spec_has_effect(self) -> bool {
        !(self is Stop || self is Ignore)
    }

    /// Whether the action makes the host touch anything outside the machine.
    pub fn has_effect(self) -> (yes: bool)
        ensures
            yes == self.spec_has_effect(),
    {
        match self {
            Action::Stop => false,
            Action::Ignore => false,
            _ => true,
        }
    }
}

/// The startup state machine.
#[derive(Debug, Clone, PartialEq, Eq)]
pub struct Bootstrapper {
    pub policy: PollPolicy,
    pub stage: Stage,
}

impl Bootstrapper {
    /// A machine that has not started yet.
    pub open spec fn spec_new(policy: PollPolicy) -> Bootstrapper {
        Bootstrapper { policy, stage: Stage::Idle }
    }

    /// A machine that has not started yet.
    pub fn new(policy: PollPolicy) -> (boot: Bootstrapper)
        ensures
            boot == Bootstrapper::spec_new(policy),
    {
        Bootstrapper { policy, stage: Stage::Idle }
    }

    /// The same machine at another stage.
    pub open spec fn at(self, stage: Stage) -> Bootstrapper {
        Bootstrapper { policy: self.policy, stage }
    }

    /// The end of the wait for the server: the window is sent to the
    /// server's page whether or not the server answered.
    pub open spec fn wait_over(policy: PollPolicy, launch_error: Option<String>, ready: bool) -> (
        Bootstrapper,
        Action,
    ) {
        (
            Bootstrapper { policy, stage: Stage::Finished(outcome_of(launch_error, ready)) },
            Action::Navigate,
        )
    }

    /// A look at the clock: another attempt while time is left, the end of
    /// the wait otherwise.
    pub open spec fn clock_read(
        policy: PollPolicy,
        launch_error: Option<String>,
        elapsed_ms: u64,
    ) -> (Bootstrapper, Action) {
        if policy.spec_expired(elapsed_ms) {
            Bootstrapper::wait_over(policy, launch_error, false)
        } else {
            (Bootstrapper { policy, stage: Stage::Probing { launch_error } }, Action::Probe)
        }
    }

    /// The machine after `event`, and what it asks of the host.
    pub open spec fn spec_step(self, event: Event) -> (Bootstrapper, Action) {
        match (self.stage, event) {
            (Stage::Idle, Event::Start(BuildMode::Release)) => (
                self.at(Stage::ResolvingPath),
                Action::ResolveResourceDir,
            ),
            (Stage::Idle, Event::Start(BuildMode::Debug)) => (
                self.at(Stage::Finished(Outcome::Skipped)),
                Action::Stop,
            ),
            (Stage::ResolvingPath, Event::ResourceDir { resolved }) => if resolved {
                (self.at(Stage::SelectingRuntime), Action::FindEmbeddedRuntime)
            } else {
                (self.at(Stage::Finished(Outcome::PathUnresolved)), Action::Stop)
            },
            (Stage::SelectingRuntime, Event::EmbeddedRuntime { present }) => (
                self.at(Stage::Spawning),
                Action::Spawn(preferred_runtime(present)),
            ),
            (Stage::Spawning, Event::Spawned { error }) => Bootstrapper::clock_read(
                self.policy,
                error,
                0,
            ),
            (Stage::Probing { launch_error }, Event::Probed { connected }) => if connected {
                Bootstrapper::wait_over(self.policy, launch_error, true)
            } else {
                (self.at(Stage::Sleeping { launch_error }), Action::Sleep(self.policy.interval_ms))
            },
            (Stage::Sleeping { launch_error }, Event::Slept { elapsed_ms }) => {
                Bootstrapper::clock_read(self.policy, launch_error, elapsed_ms)
            },
            _ => (self, Action::Ignore),
        }
    }

    /// Whether the run is over.
    pub open spec fn spec_finished(self) -> bool {
        self.stage is Finished
    }

    /// Whether the run is over.
    pub fn finished(&self) -> (yes: bool)
        ensures
            yes == self.spec_finished(),
    {
        match &self.stage {
            Stage::Finished(_) => true,
            _ => false,
        }
    }

    /// Which way the run went, once it is over.
    pub open spec fn spec_outcome(self) -> Option<Outcome> {
        match self.stage {
            Stage::Finished(outcome) => Some(outcome),
            _ => None,
        }
    }

    /// Which way the run went, once it is over.
    pub fn outcome(&self) -> (outcome: Option<&Outcome>)
        ensures
            (outcome is Some) == self.spec_finished(),
            outcome matches Some(found) ==> self.spec_outcome() == Some(*found),
    {
        match &self.stage {
            Stage::Finished(outcome) => Some(outcome),
            _ => None,
        }
    }

    /// Whether the run is over and the window was sent to the server's page.
    pub open spec fn spec_navigated(self) -> bool {
        self.stage matches Stage::Finished(outcome) && outcome.spec_navigated()
    }

    /// Whether the run is over and the window was sent to the server's page.
    pub fn navigated(&self) -> (yes: bool)
        ensures
            yes == self.spec_navigated(),
    {
        match &self.stage {
            Stage::Finished(outcome) => outcome.navigated(),
            _ => false,
        }
    }

    /// Ends the wait for the server.
    fn end_wait(policy: PollPolicy, launch_error: Option<String>, ready: bool) -> (next: (
        Bootstrapper,
        Action,
    ))
        ensures
            next == Bootstrapper::wait_over(policy, launch_error, ready),
    {
        let outcome = match launch_error {
            Some(reason) => Outcome::LaunchFailed(reason),
            None => if ready {
                Outcome::Launched
            } else {
                Outcome::TimedOutWaiting
            },
        };
        (Bootstrapper { policy, stage: Stage::Finished(outcome) }, Action::Navigate)
    }

    /// Looks at the clock.
    fn read_clock(policy: PollPolicy, launch_error: Option<String>, elapsed_ms: u64) -> (next: (
        Bootstrapper,
        Action,
    ))
        ensures
            next == Bootstrapper::clock_read(policy, launch_error, elapsed_ms),
    {
        if policy.expired(elapsed_ms) {
            Bootstrapper::end_wait(policy, launch_error, false)
        } else {
            (Bootstrapper { policy, stage: Stage::Probing { launch_error } }, Action::Probe)
        }
    }

    /// Takes in what the host reports and says what it is to do next. An
    /// event that does not answer the last action changes nothing.
    pub fn step(self, event: Event) -> (next: (Bootstrapper, Action))
        ensures
            next == self.spec_step(event),
    {
        let policy = self.policy;
        match self.stage {
            Stage::Idle => match event {
                Event::Start(BuildMode::Release) => (
                    Bootstrapper { policy, stage: Stage::ResolvingPath },
                    Action::ResolveResourceDir,
                ),
                Event::Start(BuildMode::Debug) => (
                    Bootstrapper { policy, stage: Stage::Finished(Outcome::Skipped) },
                    Action::Stop,
                ),
                _ => (Bootstrapper { policy, stage: Stage::Idle }, Action::Ignore),
            },
            Stage::ResolvingPath => match event {
                Event::ResourceDir { resolved } => if resolved {
                    (
                        Bootstrapper { policy, stage: Stage::SelectingRuntime },
                        Action::FindEmbeddedRuntime,
                    )
                } else {
                    (
                        Bootstrapper { policy, stage: Stage::Finished(Outcome::PathUnresolved) },
                        Action::Stop,
                    )
                },
                _ => (Bootstrapper { policy, stage: Stage::ResolvingPath }, Action::Ignore),
            },
            Stage::SelectingRuntime => match event {
                Event::EmbeddedRuntime { present } => (
                    Bootstrapper { policy, stage: Stage::Spawning },
                    Action::Spawn(select_runtime(present)),
                ),
                _ => (Bootstrapper { policy, stage: Stage::SelectingRuntime }, Action::Ignore),
            },
            Stage::Spawning => match event {
                Event::Spawned { error } => Bootstrapper::read_clock(policy, error, 0),
                _ => (Bootstrapper { policy, stage: Stage::Spawning }, Action::Ignore),
            },
            Stage::Probing { launch_error } => match event {
                Event::Probed { connected } => if connected {
                    Bootstrapper::end_wait(policy, launch_error, true)
                } else {
                    (
                        Bootstrapper { policy, stage: Stage::Sleeping { launch_error } },
                        Action::Sleep(policy.interval_ms),
                    )
                },
                _ => (
                    Bootstrapper { policy, stage: Stage::Probing { launch_error } },
                    Action::Ignore,
                ),
            },
            Stage::Sleeping { launch_error } => match event {
                Event::Slept { elapsed_ms } => Bootstrapper::read_clock(
                    policy,
                    launch_error,
                    elapsed_ms,
                ),
                _ => (
                    Bootstrapper { policy, stage: Stage::Sleeping { launch_error } },
                    Action::Ignore,
                ),
            },
            Stage::Finished(outcome) => (
                Bootstrapper { policy, stage: Stage::Finished(outcome) },
                Action::Ignore,
            ),
        }
    }
}

} // verus!
