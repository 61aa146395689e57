//! Starting, stopping, restarting and querying the daemon. Each function
//! takes what the caller has observed and says what is to be done.

use vstd::prelude::*;
use crate::daemon::pid::PidError;
use crate::launchd::launchd::{
    load_command, start_command, state_of, unload_command, LaunchD, ServiceState,
    SupervisorCommand,
};

verus! {

/// Whether a daemon runs, and under which process id it was recorded.
#[derive(Clone, Copy, Debug, PartialEq, Eq, Structural)]
pub struct Liveness {
    pub running: bool,
    pub pid: Option<u32>,
}

/// What the `daemon` command does.
#[derive(Clone, Copy, Debug, PartialEq, Eq, Structural)]
pub enum DaemonLaunch {
    /// A daemon runs already, with this process id; only say so.
    AlreadyRunning { pid: u32 },
    /// Run the daemon in this process.
    Run,
}

/// What the `start` command does.
#[derive(Clone, Copy, Debug, PartialEq, Eq, Structural)]
pub enum StartDecision {
    /// The service runs already; only say so.
    AlreadyRunning,
    /// Issue the command, if there is one, and report the start.
    Started { command: Option<SupervisorCommand> },
}

/// Where a restart stands.
#[derive(Clone, Copy, Debug, PartialEq, Eq, Structural)]
pub enum RestartStage {
    /// The service is to be unloaded.
    Unloading,
    /// The service is to be loaded.
    Loading,
    /// Both steps are done.
    Done,
}

/// One step of a restart: the command to issue, if any, and the stage that
/// follows.
#[derive(Clone, Copy, Debug, PartialEq, Eq, Structural)]
pub struct RestartStep {
    pub command: Option<SupervisorCommand>,
    pub next: RestartStage,
}

/// The step of a restart in `stage`, where the service is in `state`:
/// first what unloading does, then what loading does, each with a listing
/// of its own, whatever the state was at the beginning.
pub open spec fn restart_step(stage: RestartStage, state: ServiceState) -> RestartStep {
    match stage {
        RestartStage::Unloading => RestartStep {
            command: unload_command(state),
            next: RestartStage::Loading,
        },
        RestartStage::Loading => RestartStep {
            command: load_command(state),
            next: RestartStage::Done,
        },
        RestartStage::Done => RestartStep { command: None, next: RestartStage::Done },
    }
}

/// Whether a daemon runs: `pid` is the recorded process id, and `alive`
/// says whether the process table holds a process of that id. Without a
/// record no daemon runs, and the table is not consulted.
pub fn is_daemon_running(pid: Result<u32, PidError>, alive: bool) -> (liveness: Liveness)
    ensures
        liveness == match pid {
            Ok(p) => Liveness { running: alive, pid: Some(p) },
            Err(_) => Liveness { running: false, pid: None },
        },
{
    match pid {
        Ok(p) => Liveness { running: alive, pid: Some(p) },
        Err(_) => Liveness { running: false, pid: None },
    }
}

/// Whether the service runs, as `listing` shows it.
pub fn status_daemon(launchd: &LaunchD, listing: &str) -> (running: bool)
    ensures
        running == (state_of(listing@) == ServiceState::LoadedRunning),
{
    launchd.is_loaded(listing) && launchd.is_running(listing)
}

/// The step of a restart in `stage`, where `listing` is what the service
/// manager lists now.
pub fn restart_daemon(launchd: &LaunchD, stage: RestartStage, listing: &str) -> (step:
    RestartStep)
    ensures
        step == restart_step(stage, state_of(listing@)),
{
    match stage {
        RestartStage::Unloading => RestartStep {
            command: launchd.unload(listing),
            next: RestartStage::Loading,
        },
        RestartStage::Loading => RestartStep {
            command: launchd.load(listing),
            next: RestartStage::Done,
        },
        RestartStage::Done => RestartStep { command: None, next: RestartStage::Done },
    }
}

/// What stopping does: what unloading does.
pub fn stop_daemon(launchd: &LaunchD, listing: &str) -> (command: Option<SupervisorCommand>)
    ensures
        command == unload_command(state_of(listing@)),
{
    launchd.unload(listing)
}

/// What starting does: nothing but a message where the service runs, and
/// what loading does otherwise.
pub fn start_daemon(launchd: &LaunchD, listing: &str) -> (decision: StartDecision)
    ensures
        decision == if state_of(listing@) == ServiceState::LoadedRunning {
            StartDecision::AlreadyRunning
        } else {
            StartDecision::Started { command: start_command(state_of(listing@)) }
        },
{
    if launchd.is_loaded(listing) && launchd.is_running(listing) {
        return StartDecision::AlreadyRunning;
    }
    StartDecision::Started { command: launchd.load(listing) }
}

/// What the `daemon` command does: it runs the daemon unless one runs
/// already.
pub fn daemon(liveness: Liveness) -> (launch: DaemonLaunch)
    requires
        liveness.running ==> liveness.pid is Some,
    ensures
        launch == if liveness.running {
            DaemonLaunch::AlreadyRunning { pid: liveness.pid->0 }
        } else {
            DaemonLaunch::Run
        },
{
    if liveness.running {
        match liveness.pid {
            Some(pid) => DaemonLaunch::AlreadyRunning { pid },
            None => DaemonLaunch::Run,
        }
    } else {
        DaemonLaunch::Run
    }
}

/// A restart takes exactly two steps, and the second one is the loading,
/// whatever the first one found: the two commands are what unloading does
/// in the state found first and what loading does in the state found next.
pub proof fn lemma_restart_takes_both_steps(first: ServiceState, second: ServiceState)
    ensures
        restart_step(RestartStage::Unloading, first).next == RestartStage::Loading,
        restart_step(RestartStage::Loading, second).next == RestartStage::Done,
        restart_step(RestartStage::Unloading, first).command == unload_command(first),
        restart_step(RestartStage::Loading, second).command == load_command(second),
        first == ServiceState::NotLoaded ==> restart_step(RestartStage::Unloading, first).command
            is None,
        second == ServiceState::NotLoaded ==> restart_step(RestartStage::Loading, second).command
            == Some(SupervisorCommand::Load),
{
}

} // verus!
