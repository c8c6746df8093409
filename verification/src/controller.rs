//! The control loop of the mirror as an explicit state machine.
//!
//! The loop authenticates once, then performs one mirror cycle per tick and
//! sleeps the configured interval, indefinitely; any error at any step is
//! fatal — there is no retry, backoff or reconnect. The caller performs the
//! actions (they involve the network, the filesystem and sleeping) and hands
//! each outcome back as an event; this module decides every transition.

use vstd::prelude::*;
use crate::sync_error::SynchronizeRunnerError;

verus! {

/// The phase the control loop is in.
#[derive(Clone, Copy, PartialEq, Eq, Structural, Debug)]
pub enum SyncPhase {
    /// Before the one-time authentication.
    Authenticating,
    /// Authenticated; performing one cycle per tick.
    Running,
    /// A step failed; the loop never recovers.
    Fatal,
}

/// The outcome of the action the loop last performed.
#[derive(Debug)]
pub enum SyncEvent {
    AuthenticationSucceeded,
    AuthenticationFailed(SynchronizeRunnerError),
    TickCompleted,
    TickFailed(SynchronizeRunnerError),
}

/// What the loop must do next.
#[derive(Debug)]
pub enum SyncAction {
    /// Authenticate once with the operator-supplied credentials.
    Authenticate,
    /// Perform one mirror cycle, sleep the poll interval, and report back.
    RunTick,
    /// Stop: report the error to the operator and exit non-zero.
    Stop(SynchronizeRunnerError),
}

/// Which events can arise in which phase. The fatal phase is terminal: no
/// event is ever handled in it.
pub open spec fn event_fits(phase: SyncPhase, event: SyncEvent) -> bool {
    match phase {
        SyncPhase::Authenticating => event is AuthenticationSucceeded
            || event is AuthenticationFailed,
        SyncPhase::Running => event is TickCompleted || event is TickFailed,
        SyncPhase::Fatal => false,
    }
}

/// The phase after handling an event: success keeps the loop going, any
/// failure is fatal.
pub open spec fn next_phase(phase: SyncPhase, event: SyncEvent) -> SyncPhase
    recommends
        event_fits(phase, event),
{
    match event {
        SyncEvent::AuthenticationSucceeded => SyncPhase::Running,
        SyncEvent::AuthenticationFailed(_) => SyncPhase::Fatal,
        SyncEvent::TickCompleted => SyncPhase::Running,
        SyncEvent::TickFailed(_) => SyncPhase::Fatal,
    }
}

/// How many cycles have completed after handling an event.
pub open spec fn next_ticks_completed(ticks_completed: nat, event: SyncEvent) -> nat {
    match event {
        SyncEvent::TickCompleted => ticks_completed + 1,
        _ => ticks_completed,
    }
}

/// Ghost image of the controller.
pub ghost struct SyncControllerView {
    pub phase: SyncPhase,
    pub ticks_completed: nat,
}

/// Drives the control loop: owns the phase and counts completed cycles.
pub struct SyncController {
    phase: SyncPhase,
    ticks_completed: u64,
}

impl View for SyncController {
    type V = SyncControllerView;

    closed spec fn view(&self) -> SyncControllerView {
        SyncControllerView { phase: self.phase, ticks_completed: self.ticks_completed as nat }
    }
}

impl SyncController {
    /// A fresh controller: about to authenticate, no cycle performed.
    pub fn new() -> (controller: SyncController)
        ensures
            controller@.phase == SyncPhase::Authenticating,
            controller@.ticks_completed == 0,
    {
        SyncController { phase: SyncPhase::Authenticating, ticks_completed: 0 }
    }

    /// The phase the loop is in.
    pub fn phase(&self) -> (phase: SyncPhase)
        ensures
            phase == self@.phase,
    {
        self.phase
    }

    /// How many cycles have completed so far.
    pub fn ticks_completed(&self) -> (ticks: u64)
        ensures
            ticks == self@.ticks_completed,
    {
        self.ticks_completed
    }

    /// The one action a fresh loop starts with.
    pub fn initial_action(&self) -> (action: SyncAction)
        requires
            self@.phase == SyncPhase::Authenticating,
        ensures
            action is Authenticate,
    {
        SyncAction::Authenticate
    }

    /// Handles the outcome of the last action and decides the next one:
    /// success (of authentication or of a cycle) continues with the next
    /// cycle; any failure moves to the fatal phase and stops with that very
    /// error.
    pub fn handle_event(&mut self, event: SyncEvent) -> (action: SyncAction)
        requires
            event_fits(old(self)@.phase, event),
            old(self)@.ticks_completed < u64::MAX,
        ensures
            final(self)@.phase == next_phase(old(self)@.phase, event),
            final(self)@.ticks_completed == next_ticks_completed(
                old(self)@.ticks_completed,
                event,
            ),
            match event {
                SyncEvent::AuthenticationSucceeded => action is RunTick,
                SyncEvent::TickCompleted => action is RunTick,
                SyncEvent::AuthenticationFailed(error) => action == SyncAction::Stop(error),
                SyncEvent::TickFailed(error) => action == SyncAction::Stop(error),
            },
    {
        match event {
            SyncEvent::AuthenticationSucceeded => {
                self.phase = SyncPhase::Running;
                SyncAction::RunTick
            },
            SyncEvent::AuthenticationFailed(error) => {
                self.phase = SyncPhase::Fatal;
                SyncAction::Stop(error)
            },
            SyncEvent::TickCompleted => {
                self.phase = SyncPhase::Running;
                self.ticks_completed = self.ticks_completed + 1;
                SyncAction::RunTick
            },
            SyncEvent::TickFailed(error) => {
                self.phase = SyncPhase::Fatal;
                SyncAction::Stop(error)
            },
        }
    }
}

/// A failed authentication is fatal before any cycle runs: from the initial
/// phase it moves the loop straight to the fatal phase with zero completed
/// cycles, and the fatal phase is terminal — it accepts no further event, so
/// no cycle ever follows.
pub proof fn lemma_failed_authentication_runs_no_tick(event: SyncEvent)
    requires
        event is AuthenticationFailed,
    ensures
        next_phase(SyncPhase::Authenticating, event) == SyncPhase::Fatal,
        next_ticks_completed(0, event) == 0,
        forall|later: SyncEvent| !event_fits(SyncPhase::Fatal, later),
{
}

} // verus!
