//! The life cycle of the daemon and the decisions of its watch loop.
//!
//! Neither function here waits, watches or sleeps. The caller does the
//! outside work (reading the configuration, subscribing to the directory,
//! waiting for an interrupt) and hands each outcome in; what comes back is
//! the next state and the work to do next.

use vstd::prelude::*;

verus! {

/// How long one wait on the event source may last, in milliseconds. The
/// shutdown flag is read once per wait, so this bounds how late a shutdown
/// is seen.
pub const POLL_TIMEOUT_MILLIS: u64 = 100;

/// How long in-flight work may settle after the watch has ended, in
/// milliseconds.
pub const GRACE_MILLIS: u64 = 500;

/// Where the daemon stands.
#[derive(Clone, Copy, Debug, PartialEq, Eq, Structural)]
pub enum DaemonState {
    /// Not started: readiness is still to be checked.
    Idle,
    /// Ready: the process id is to be recorded and the directory subscribed to.
    Armed,
    /// The watch loop runs.
    Running,
    /// The watch has ended; the subscription is released and work settles.
    Draining,
    /// Over.
    Stopped,
}

/// What happened outside.
#[derive(Clone, Copy, Debug, PartialEq, Eq, Structural)]
pub enum DaemonEvent {
    /// The configuration was read; `ready` says whether credentials, prompt
    /// and model are all set.
    Readiness { ready: bool },
    /// The process id is recorded and the subscription stands.
    Started,
    /// The process was interrupted from outside.
    Interrupt,
    /// The watch task ended by itself.
    WatchEnded,
    /// The grace period is over.
    Settled,
}

/// What the caller is to do next.
#[derive(Clone, Copy, Debug, PartialEq, Eq, Structural)]
pub enum DaemonAction {
    /// Nothing; wait for the next event.
    Wait,
    /// Say that the configuration is not ready, and do not start.
    ReportNotReady,
    /// Record the process id, subscribe to the directory without its
    /// subdirectories, and start the watch loop.
    StartWatching,
    /// Set the shutdown flag, then let work settle for the grace period.
    SignalShutdown,
    /// Say that the watch ended unexpectedly, then let work settle for the
    /// grace period.
    ReportWatchFailure,
    /// Leave.
    Exit,
}

/// A step of the life cycle: the state reached and the work to do.
#[derive(Clone, Copy, Debug, PartialEq, Eq, Structural)]
pub struct DaemonStep {
    pub next: DaemonState,
    pub action: DaemonAction,
}

/// The step that `event` causes in `state`.
///
/// A ready configuration arms the daemon; one that is not ready stops it
/// before it starts. Once the watch stands the daemon runs. An interrupt or
/// the end of the watch task drains it, and when the grace period is over
/// it stops. Any other event changes nothing.
pub open spec fn step(state: DaemonState, event: DaemonEvent) -> DaemonStep {
    match (state, event) {
        (DaemonState::Idle, DaemonEvent::Readiness { ready }) => if ready {
            DaemonStep { next: DaemonState::Armed, action: DaemonAction::StartWatching }
        } else {
            DaemonStep { next: DaemonState::Stopped, action: DaemonAction::ReportNotReady }
        },
        (DaemonState::Armed, DaemonEvent::Started) => DaemonStep {
            next: DaemonState::Running,
            action: DaemonAction::Wait,
        },
        (DaemonState::Armed, DaemonEvent::Interrupt)
        | (DaemonState::Running, DaemonEvent::Interrupt) => DaemonStep {
            next: DaemonState::Draining,
            action: DaemonAction::SignalShutdown,
        },
        (DaemonState::Armed, DaemonEvent::WatchEnded)
        | (DaemonState::Running, DaemonEvent::WatchEnded) => DaemonStep {
            next: DaemonState::Draining,
            action: DaemonAction::ReportWatchFailure,
        },
        (DaemonState::Draining, DaemonEvent::Settled) => DaemonStep {
            next: DaemonState::Stopped,
            action: DaemonAction::Exit,
        },
        _ => DaemonStep { next: state, action: DaemonAction::Wait },
    }
}

/// How far along its life the daemon is in `state`.
pub open spec fn progress(state: DaemonState) -> nat {
    match state {
        DaemonState::Idle => 0,
        DaemonState::Armed => 1,
        DaemonState::Running => 2,
        DaemonState::Draining => 3,
        DaemonState::Stopped => 4,
    }
}

/// The shutdown flag after `action` was done, given what it was before.
pub open spec fn shutdown_after(flag: bool, action: DaemonAction) -> bool {
    flag || action == DaemonAction::SignalShutdown
}

/// The state that a run of events leads to from `state`.
pub open spec fn state_after(state: DaemonState, events: Seq<DaemonEvent>) -> DaemonState
    decreases events.len(),
{
    if events.len() == 0 {
        state
    } else {
        step(state_after(state, events.drop_last()), events.last()).next
    }
}

/// How often a run of events from `state` asks for the watch to be started.
pub open spec fn starts_during(state: DaemonState, events: Seq<DaemonEvent>) -> nat
    decreases events.len(),
{
    if events.len() == 0 {
        0
    } else {
        let before = events.drop_last();
        let last = step(state_after(state, before), events.last());
        starts_during(state, before) + if last.action == DaemonAction::StartWatching {
            1nat
        } else {
            0nat
        }
    }
}

/// The step of the life cycle that `event` causes in `state`.
pub fn run(state: DaemonState, event: DaemonEvent) -> (taken: DaemonStep)
    ensures
        taken == step(state, event),
{
    match state {
        DaemonState::Idle => match event {
            DaemonEvent::Readiness { ready } => if ready {
                DaemonStep { next: DaemonState::Armed, action: DaemonAction::StartWatching }
            } else {
                DaemonStep { next: DaemonState::Stopped, action: DaemonAction::ReportNotReady }
            },
            _ => DaemonStep { next: state, action: DaemonAction::Wait },
        },
        DaemonState::Armed => match event {
            DaemonEvent::Started => DaemonStep {
                next: DaemonState::Running,
                action: DaemonAction::Wait,
            },
            DaemonEvent::Interrupt => DaemonStep {
                next: DaemonState::Draining,
                action: DaemonAction::SignalShutdown,
            },
            DaemonEvent::WatchEnded => DaemonStep {
                next: DaemonState::Draining,
                action: DaemonAction::ReportWatchFailure,
            },
            _ => DaemonStep { next: state, action: DaemonAction::Wait },
        },
        DaemonState::Running => match event {
            DaemonEvent::Interrupt => DaemonStep {
                next: DaemonState::Draining,
                action: DaemonAction::SignalShutdown,
            },
            DaemonEvent::WatchEnded => DaemonStep {
                next: DaemonState::Draining,
                action: DaemonAction::ReportWatchFailure,
            },
            _ => DaemonStep { next: state, action: DaemonAction::Wait },
        },
        DaemonState::Draining => match event {
            DaemonEvent::Settled => DaemonStep {
                next: DaemonState::Stopped,
                action: DaemonAction::Exit,
            },
            _ => DaemonStep { next: state, action: DaemonAction::Wait },
        },
        DaemonState::Stopped => DaemonStep { next: state, action: DaemonAction::Wait },
    }
}

/// The life cycle never goes back: a step keeps the state or moves it on.
pub proof fn lemma_step_moves_forward(state: DaemonState, event: DaemonEvent)
    ensures
        progress(step(state, event).next) >= progress(state),
{
}

/// A stopped daemon stays stopped and asks for nothing more.
pub proof fn lemma_stopped_is_final(event: DaemonEvent)
    ensures
        step(DaemonState::Stopped, event) == (DaemonStep {
            next: DaemonState::Stopped,
            action: DaemonAction::Wait,
        }),
{
}

/// The only event that stops a daemon before it has started is a
/// configuration that is not ready; after that only draining ends it.
pub proof fn lemma_what_stops(state: DaemonState, event: DaemonEvent)
    requires
        state != DaemonState::Stopped,
        step(state, event).next == DaemonState::Stopped,
    ensures
        (state == DaemonState::Idle && event == (DaemonEvent::Readiness { ready: false })) || (
        state == DaemonState::Draining && event == DaemonEvent::Settled),
{
}

/// The shutdown flag only ever goes from unset to set.
pub proof fn lemma_shutdown_is_monotonic(flag: bool, action: DaemonAction)
    ensures
        flag ==> shutdown_after(flag, action),
{
}

/// Whatever events arrive, the states reached never go back.
pub proof fn lemma_run_moves_forward(state: DaemonState, events: Seq<DaemonEvent>)
    ensures
        progress(state_after(state, events)) >= progress(state),
    decreases events.len(),
{
    if events.len() > 0 {
        lemma_run_moves_forward(state, events.drop_last());
        lemma_step_moves_forward(state_after(state, events.drop_last()), events.last());
    }
}

/// One daemon runs at most one watch: whatever events arrive, the watch is
/// started at most once, and not at all once the daemon has left `Idle`.
pub proof fn lemma_one_watch_per_daemon(state: DaemonState, events: Seq<DaemonEvent>)
    ensures
        starts_during(state, events) <= 1,
        state != DaemonState::Idle ==> starts_during(state, events) == 0,
        starts_during(state, events) == 1 ==> state_after(state, events) != DaemonState::Idle,
    decreases events.len(),
{
    if events.len() > 0 {
        let before = events.drop_last();
        lemma_one_watch_per_daemon(state, before);
        lemma_run_moves_forward(state, before);
    }
}

/// What one bounded wait on the event source gave.
#[derive(Debug)]
pub enum WatchPoll {
    /// Files were created at `paths`.
    Created { paths: Vec<String> },
    /// Something else happened in the directory.
    Other,
    /// Nothing happened within the time allowed.
    Timeout,
    /// The event source reported an error or is gone.
    Failed,
}

/// What the watch loop does next.
#[derive(Debug)]
pub enum WatchAction {
    /// Run each of `paths` through the rename pipeline, then wait again.
    Process { paths: Vec<String> },
    /// Wait again.
    Continue,
    /// Release the subscription and leave the loop: shutdown was asked for.
    Release,
    /// Release the subscription and leave the loop: the watch has failed.
    Fail,
}

/// What the watch loop does in one iteration, where `shutdown` is the flag
/// as read at the head of the iteration and `poll` what the wait gave.
///
/// The flag comes first: once it is set nothing more is processed. Only
/// created files are acted on; other events and timeouts pass silently. A
/// failing event source ends the loop.
pub open spec fn watch_action(shutdown: bool, poll: WatchPoll) -> WatchAction {
    if shutdown {
        WatchAction::Release
    } else {
        match poll {
            WatchPoll::Created { paths } => WatchAction::Process { paths },
            WatchPoll::Other => WatchAction::Continue,
            WatchPoll::Timeout => WatchAction::Continue,
            WatchPoll::Failed => WatchAction::Fail,
        }
    }
}

/// Whether the loop goes on after `action`.
pub open spec fn keeps_watching(action: WatchAction) -> bool {
    action is Process || action is Continue
}

/// One iteration of the watch loop: what to do, given the shutdown flag as
/// read at the head of the iteration and what the wait gave.
pub fn daemon(shutdown: bool, poll: WatchPoll) -> (action: WatchAction)
    ensures
        action == watch_action(shutdown, poll),
{
    if shutdown {
        return WatchAction::Release;
    }
    match poll {
        WatchPoll::Created { paths } => WatchAction::Process { paths },
        WatchPoll::Other => WatchAction::Continue,
        WatchPoll::Timeout => WatchAction::Continue,
        WatchPoll::Failed => WatchAction::Fail,
    }
}

/// Once the shutdown flag is set the loop ends at its next iteration,
/// whatever the event source holds, and nothing more is processed.
pub proof fn lemma_shutdown_ends_the_watch(poll: WatchPoll)
    ensures
        watch_action(true, poll) == WatchAction::Release,
        !keeps_watching(watch_action(true, poll)),
{
}

/// A failure of one rename never ends the loop: while the flag is unset the
/// loop goes on unless the event source itself has failed.
pub proof fn lemma_watch_goes_on(poll: WatchPoll)
    ensures
        keeps_watching(watch_action(false, poll)) <==> !(poll is Failed),
{
}

} // verus!
