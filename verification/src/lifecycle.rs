//! The decisions of the process lifecycle.
//!
//! ```text
//! Starting ──all ready──▶ Ready ──signal / failure──▶ Draining ──tasks done──▶ Stopped
//!    │                      ▲                              │
//!    └──timeout──▶ Degraded ─┘ (late ready)                └──grace exceeded──▶ Aborted
//! ```
//!
//! The runtime that spawns services, waits and forwards signals feeds what happened into a
//! [`Lifecycle`] and a [`SignalWatch`]; these decide the phase, the next action and the outcome.
use vstd::prelude::*;

verus! {

/// Observable lifecycle state.
#[derive(Debug, Clone, Copy, PartialEq, Eq, Structural)]
#[non_exhaustive]
pub enum Phase {
    /// Services are starting; not all are ready.
    Starting,
    /// Every service reported ready.
    Ready,
    /// The readiness timeout elapsed with services still starting.
    Degraded,
    /// Shutdown requested; no new work is accepted while in-flight work finishes.
    Draining,
    /// Every task finished within the grace period.
    Stopped,
    /// The grace period elapsed with tasks still running.
    Aborted,
}

impl Phase {
    /// Whether new work should be accepted right now.
    #[verifier::allow_in_spec]
    pub fn accepts_work(self) -> bool
        returns
            self is Ready || self is Degraded,
    {
        match self {
            Phase::Ready | Phase::Degraded => true,
            _ => false,
        }
    }

    /// Stable `snake_case` name.
    #[verifier::allow_in_spec]
    pub fn as_str(self) -> &'static str
        returns
            match self {
                Phase::Starting => "starting",
                Phase::Ready => "ready",
                Phase::Degraded => "degraded",
                Phase::Draining => "draining",
                Phase::Stopped => "stopped",
                Phase::Aborted => "aborted",
            },
    {
        match self {
            Phase::Starting => "starting",
            Phase::Ready => "ready",
            Phase::Degraded => "degraded",
            Phase::Draining => "draining",
            Phase::Stopped => "stopped",
            Phase::Aborted => "aborted",
        }
    }
}

/// How far along the lifecycle a phase is.
pub open spec fn rank(phase: Phase) -> int {
    match phase {
        Phase::Starting => 0,
        Phase::Degraded => 1,
        Phase::Ready => 2,
        Phase::Draining => 3,
        Phase::Stopped => 4,
        Phase::Aborted => 4,
    }
}

/// Whether the lifecycle may move from `from` to `to` in one step (or stay).
pub open spec fn may_follow(from: Phase, to: Phase) -> bool {
    ||| from == to
    ||| from == Phase::Starting && (to == Phase::Ready || to == Phase::Degraded)
    ||| from == Phase::Degraded && to == Phase::Ready
    ||| (from == Phase::Ready || from == Phase::Degraded) && to == Phase::Draining
    ||| from == Phase::Draining && (to == Phase::Stopped || to == Phase::Aborted)
}

/// Fatal outcomes of a server run, as far as the lifecycle decides them.
#[derive(Debug, PartialEq, Eq)]
pub enum ServerError {
    /// Nothing to run.
    NoServices,
    /// A service failed; the process drained and stopped because of it.
    ServiceFailed {
        /// The first service that failed.
        name: String,
    },
    /// Tasks were still running when the grace period elapsed.
    GraceExceeded {
        /// The configured grace period, in nanoseconds.
        grace_ns: u128,
        /// Tasks that did not finish.
        remaining: usize,
    },
}

/// The state of one server run.
#[derive(Debug)]
pub struct Lifecycle {
    phase: Phase,
    failure: Option<String>,
    grace_ns: u128,
}

impl Lifecycle {
    /// The current phase.
    pub closed spec fn phase_spec(&self) -> Phase {
        self.phase
    }

    /// The first service failure reported, if any.
    pub closed spec fn failure_spec(&self) -> Option<String> {
        self.failure
    }

    /// The grace period of this run, in nanoseconds.
    pub closed spec fn grace_spec(&self) -> u128 {
        self.grace_ns
    }

    /// Begins a run of `service_count` services; nothing to run is an error.
    pub fn start(service_count: usize, grace_ns: u128) -> (result: Result<Lifecycle, ServerError>)
        ensures
            service_count == 0 <==> result == Err::<Lifecycle, ServerError>(ServerError::NoServices),
            service_count > 0 ==> result is Ok,
            result matches Ok(run) ==> run.phase_spec() == Phase::Starting && run.failure_spec()
                == None::<String> && run.grace_spec() == grace_ns,
    {
        if service_count == 0 {
            return Err(ServerError::NoServices);
        }
        Ok(Lifecycle { phase: Phase::Starting, failure: None, grace_ns })
    }

    /// The current phase.
    pub fn phase(&self) -> (phase: Phase)
        ensures
            phase == self.phase_spec(),
    {
        self.phase
    }

    /// The readiness wait ended: every service was ready in time, or the timeout elapsed.
    pub fn readiness_settled(&mut self, all_ready: bool)
        requires
            old(self).phase_spec() == Phase::Starting,
        ensures
            final(self).phase_spec() == (if all_ready {
                Phase::Ready
            } else {
                Phase::Degraded
            }),
            final(self).failure_spec() == old(self).failure_spec(),
            final(self).grace_spec() == old(self).grace_spec(),
            may_follow(old(self).phase_spec(), final(self).phase_spec()),
    {
        self.phase = if all_ready {
            Phase::Ready
        } else {
            Phase::Degraded
        };
    }

    /// Services that were still starting when the timeout elapsed have become ready.
    pub fn late_ready(&mut self)
        ensures
            final(self).phase_spec() == (if old(self).phase_spec() == Phase::Degraded {
                Phase::Ready
            } else {
                old(self).phase_spec()
            }),
            final(self).failure_spec() == old(self).failure_spec(),
            final(self).grace_spec() == old(self).grace_spec(),
            may_follow(old(self).phase_spec(), final(self).phase_spec()),
    {
        if self.phase == Phase::Degraded {
            self.phase = Phase::Ready;
        }
    }

    /// A service failed with a fatal error. The first failure is the one reported; every other
    /// service must now be told to shut down.
    pub fn service_failed(&mut self, name: String)
        ensures
            final(self).phase_spec() == old(self).phase_spec(),
            final(self).grace_spec() == old(self).grace_spec(),
            final(self).failure_spec() == (match old(self).failure_spec() {
                Some(first) => Some(first),
                None => Some(name),
            }),
    {
        if self.failure.is_none() {
            self.failure = Some(name);
        }
    }

    /// Shutdown was requested, or every service stopped on its own: stop accepting work and
    /// let in-flight work finish.
    pub fn begin_drain(&mut self)
        requires
            old(self).phase_spec().accepts_work(),
        ensures
            final(self).phase_spec() == Phase::Draining,
            final(self).failure_spec() == old(self).failure_spec(),
            final(self).grace_spec() == old(self).grace_spec(),
            may_follow(old(self).phase_spec(), final(self).phase_spec()),
    {
        self.phase = Phase::Draining;
    }

    /// The drain ended: every task finished within the grace period, or `remaining` tasks were
    /// still running when it elapsed. Decides the outcome of the run.
    pub fn finish(&mut self, drained: bool, remaining: usize) -> (result: Result<(), ServerError>)
        requires
            old(self).phase_spec() == Phase::Draining,
        ensures
            final(self).phase_spec() == (if drained {
                Phase::Stopped
            } else {
                Phase::Aborted
            }),
            final(self).failure_spec() == old(self).failure_spec(),
            final(self).grace_spec() == old(self).grace_spec(),
            may_follow(old(self).phase_spec(), final(self).phase_spec()),
            !drained ==> result == Err::<(), ServerError>(
                ServerError::GraceExceeded { grace_ns: old(self).grace_spec(), remaining },
            ),
            drained ==> match old(self).failure_spec() {
                Some(name) => result == Err::<(), ServerError>(ServerError::ServiceFailed { name }),
                None => result is Ok,
            },
    {
        if !drained {
            self.phase = Phase::Aborted;
            return Err(ServerError::GraceExceeded { grace_ns: self.grace_ns, remaining });
        }
        self.phase = Phase::Stopped;
        match &self.failure {
            Some(name) => Err(ServerError::ServiceFailed { name: name.clone() }),
            None => Ok(()),
        }
    }
}

/// Why shutdown was requested. Both are handled gracefully; a second signal of either kind
/// exits the process immediately.
#[derive(Debug, Clone, Copy, PartialEq, Eq, Structural)]
pub enum ShutdownSignal {
    /// `SIGTERM`: an orchestrator wants us gone.
    Terminate,
    /// `SIGINT` / Ctrl-C: a human wants us gone.
    Interrupt,
}

impl ShutdownSignal {
    /// Stable name for logs.
    #[verifier::allow_in_spec]
    pub fn name(self) -> &'static str
        returns
            match self {
                ShutdownSignal::Terminate => "SIGTERM",
                ShutdownSignal::Interrupt => "SIGINT",
            },
    {
        match self {
            ShutdownSignal::Terminate => "SIGTERM",
            ShutdownSignal::Interrupt => "SIGINT",
        }
    }
}

/// The exit status of a process stopped by a second signal.
pub const SECOND_SIGNAL_EXIT_CODE: i32 = 130;

/// What to do about a shutdown signal.
#[derive(Debug, Clone, Copy, PartialEq, Eq, Structural)]
pub enum SignalAction {
    /// Cancel the root shutdown token: drain gracefully.
    RequestShutdown,
    /// Exit the process at once with this status.
    ExitImmediately {
        /// The exit status.
        code: i32,
    },
}

/// Counts shutdown signals: the first requests a graceful shutdown, the second ends the
/// process at once.
#[derive(Debug)]
pub struct SignalWatch {
    received: usize,
}

impl SignalWatch {
    /// How many signals were received so far (at most two matter).
    pub closed spec fn received_spec(&self) -> nat {
        self.received as nat
    }

    /// No signal received yet.
    pub fn new() -> (watch: SignalWatch)
        ensures
            watch.received_spec() == 0,
    {
        SignalWatch { received: 0 }
    }

    /// Decides what a signal means.
    pub fn on_signal(&mut self, signal: ShutdownSignal) -> (action: SignalAction)
        ensures
            old(self).received_spec() == 0 ==> action == SignalAction::RequestShutdown,
            old(self).received_spec() > 0 ==> action == (SignalAction::ExitImmediately {
                code: SECOND_SIGNAL_EXIT_CODE,
            }),
            final(self).received_spec() == if old(self).received_spec() == 0 {
                1nat
            } else {
                2nat
            },
    {
        if self.received == 0 {
            self.received = 1;
            SignalAction::RequestShutdown
        } else {
            self.received = 2;
            SignalAction::ExitImmediately { code: SECOND_SIGNAL_EXIT_CODE }
        }
    }
}

/// The lifecycle never goes back: every step that changes the phase moves it strictly forward.
pub proof fn law_phases_only_move_forward(from: Phase, to: Phase)
    requires
        may_follow(from, to),
    ensures
        from != to ==> rank(from) < rank(to),
{
}

/// `Stopped` and `Aborted` are final: no step leaves them.
pub proof fn law_final_phases_absorb(from: Phase, to: Phase)
    requires
        from == Phase::Stopped || from == Phase::Aborted,
        may_follow(from, to),
    ensures
        to == from,
{
}

/// Work is accepted exactly while the lifecycle is `Ready` or `Degraded`: never while starting,
/// draining or after the end.
pub proof fn law_work_is_accepted_only_between_ready_and_drain(phase: Phase)
    ensures
        phase.accepts_work() <==> (phase == Phase::Ready || phase == Phase::Degraded),
        phase.accepts_work() ==> rank(Phase::Starting) < rank(phase) < rank(Phase::Draining),
{
}

} // verus!
