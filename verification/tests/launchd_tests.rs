use peeksy::cli::handlers::status::{
    daemon, is_daemon_running, restart_daemon, start_daemon, status_daemon, stop_daemon,
    DaemonLaunch, Liveness, RestartStage, StartDecision,
};
use peeksy::daemon::pid::PidError;
use peeksy::launchd::launchd::{
    check_exit, read_pid, service_state, LaunchD, ServiceState, ServiceStatus, SupervisorCommand,
    SupervisorError, LABEL,
};

const NOT_LISTED: &str = "PID\tStatus\tLabel\n-\t0\tcom.apple.Finder\n312\t0\tcom.apple.Dock\n";
const STOPPED: &str = "PID\tStatus\tLabel\n-\t0\tcom.apple.Finder\n0\t0\tcom.anubhavitis.peeksy\n";
const DASH: &str = "-\t78\tcom.anubhavitis.peeksy\n";
const RUNNING: &str = "PID\tStatus\tLabel\n312\t0\tcom.apple.Dock\n4821\t0\tcom.anubhavitis.peeksy\n77\t0\tother\n";

fn supervisor() -> LaunchD {
    LaunchD::new("/Users/me")
}

#[test]
fn listing_without_the_label_means_not_loaded() {
    let l = supervisor();
    assert_eq!(service_state(NOT_LISTED), ServiceState::NotLoaded);
    assert_eq!(l.status(NOT_LISTED), ServiceStatus { loaded: false, running: false, pid: None });
    assert_eq!(read_pid(NOT_LISTED), None);
    assert!(!l.is_loaded(NOT_LISTED));
    assert!(!l.is_running(NOT_LISTED));
    assert_eq!(service_state(""), ServiceState::NotLoaded);
}

#[test]
fn listing_with_pid_zero_means_loaded_not_running() {
    let l = supervisor();
    assert_eq!(service_state(STOPPED), ServiceState::LoadedNotRunning);
    assert_eq!(l.status(STOPPED), ServiceStatus { loaded: true, running: false, pid: None });
    assert_eq!(read_pid(STOPPED), Some(0));
    assert!(l.is_loaded(STOPPED));
    assert!(!l.is_running(STOPPED));
    assert_eq!(service_state(DASH), ServiceState::LoadedNotRunning);
    assert_eq!(read_pid(DASH), Some(0));
    assert_eq!(read_pid("-5 0 com.anubhavitis.peeksy"), Some(-5));
    assert_eq!(service_state("-5 0 com.anubhavitis.peeksy"), ServiceState::LoadedNotRunning);
    assert_eq!(service_state("99999999999 0 com.anubhavitis.peeksy"), ServiceState::LoadedNotRunning);
}

#[test]
fn listing_with_a_pid_means_loaded_running() {
    let l = supervisor();
    assert_eq!(service_state(RUNNING), ServiceState::LoadedRunning);
    assert_eq!(l.status(RUNNING), ServiceStatus { loaded: true, running: true, pid: Some(4821) });
    assert_eq!(read_pid(RUNNING), Some(4821));
    assert!(l.is_loaded(RUNNING));
    assert!(l.is_running(RUNNING));
    assert_eq!(read_pid("  4821   0   com.anubhavitis.peeksy\r\n"), Some(4821));
    assert_eq!(read_pid("com.anubhavitis.peeksy"), Some(0));
    assert_eq!(
        read_pid("0\t0\tcom.anubhavitis.peeksy.helper\n4821\t0\tcom.anubhavitis.peeksy"),
        Some(0)
    );
    assert_eq!(LABEL, "com.anubhavitis.peeksy");
}

#[test]
fn loading_is_aware_of_the_state() {
    let l = supervisor();
    assert_eq!(l.load(NOT_LISTED), Some(SupervisorCommand::Load));
    assert_eq!(l.load(STOPPED), Some(SupervisorCommand::Unload));
    assert_eq!(l.load(RUNNING), None);
    assert_eq!(l.unload(NOT_LISTED), None);
    assert_eq!(l.unload(STOPPED), Some(SupervisorCommand::Unload));
    assert_eq!(l.unload(RUNNING), Some(SupervisorCommand::Unload));
}

#[test]
fn loading_twice_issues_one_load() {
    let l = supervisor();
    let mut issued = Vec::new();
    issued.extend(l.load(NOT_LISTED));
    issued.extend(l.load(RUNNING));
    assert_eq!(issued, vec![SupervisorCommand::Load]);
}

#[test]
fn restart_unloads_then_loads() {
    let l = supervisor();
    let first = restart_daemon(&l, RestartStage::Unloading, RUNNING);
    assert_eq!(first.command, Some(SupervisorCommand::Unload));
    assert_eq!(first.next, RestartStage::Loading);
    let second = restart_daemon(&l, first.next, NOT_LISTED);
    assert_eq!(second.command, Some(SupervisorCommand::Load));
    assert_eq!(second.next, RestartStage::Done);
    let third = restart_daemon(&l, second.next, NOT_LISTED);
    assert_eq!(third.command, None);
    assert_eq!(third.next, RestartStage::Done);
}

#[test]
fn restart_loads_even_where_nothing_was_loaded() {
    let l = supervisor();
    let first = restart_daemon(&l, RestartStage::Unloading, NOT_LISTED);
    assert_eq!(first.command, None);
    assert_eq!(first.next, RestartStage::Loading);
    let second = restart_daemon(&l, first.next, NOT_LISTED);
    assert_eq!(second.command, Some(SupervisorCommand::Load));
    assert_eq!(second.next, RestartStage::Done);
}

#[test]
fn start_stop_and_status_go_by_the_listing() {
    let l = supervisor();
    assert_eq!(start_daemon(&l, RUNNING), StartDecision::AlreadyRunning);
    assert_eq!(
        start_daemon(&l, NOT_LISTED),
        StartDecision::Started { command: Some(SupervisorCommand::Load) }
    );
    assert_eq!(
        start_daemon(&l, STOPPED),
        StartDecision::Started { command: Some(SupervisorCommand::Unload) }
    );
    assert_eq!(stop_daemon(&l, RUNNING), Some(SupervisorCommand::Unload));
    assert_eq!(stop_daemon(&l, NOT_LISTED), None);
    assert!(status_daemon(&l, RUNNING));
    assert!(!status_daemon(&l, STOPPED));
    assert!(!status_daemon(&l, NOT_LISTED));
}

#[test]
fn daemon_command_runs_unless_one_is_alive() {
    let alive = is_daemon_running(Ok(4821), true);
    assert_eq!(alive, Liveness { running: true, pid: Some(4821) });
    assert_eq!(daemon(alive), DaemonLaunch::AlreadyRunning { pid: 4821 });
    let dead = is_daemon_running(Ok(4821), false);
    assert_eq!(dead, Liveness { running: false, pid: Some(4821) });
    assert_eq!(daemon(dead), DaemonLaunch::Run);
    let none = is_daemon_running(Err(PidError::NotRunning), true);
    assert_eq!(none, Liveness { running: false, pid: None });
    assert_eq!(daemon(none), DaemonLaunch::Run);
}

#[test]
fn descriptor_is_kept_under_the_home_directory() {
    let l = supervisor();
    assert_eq!(l.plist_path(), "/Users/me/Library/LaunchAgents/com.anubhavitis.peeksy.plist");
    assert_eq!(l.setup(), "/Users/me/Library/LaunchAgents");
    assert_eq!(
        l.arguments(SupervisorCommand::Load),
        vec!["load", "/Users/me/Library/LaunchAgents/com.anubhavitis.peeksy.plist"]
    );
    assert_eq!(
        l.arguments(SupervisorCommand::Unload),
        vec!["unload", "/Users/me/Library/LaunchAgents/com.anubhavitis.peeksy.plist"]
    );
}

#[test]
fn descriptor_text_is_the_property_list() {
    let expected = "<?xml version=\"1.0\" encoding=\"UTF-8\"?>\n        <!DOCTYPE plist PUBLIC \"-//Apple//DTD PLIST 1.0//EN\" \"http://www.apple.com/DTDs/PropertyList-1.0.dtd\">\n        <plist version=\"1.0\">\n        <dict>\n            <key>Label</key>\n            <string>com.anubhavitis.peeksy</string>\n            <key>ProgramArguments</key>\n            <array>\n                <string>/opt/homebrew/bin/peeksy</string>\n                <string>daemon</string>\n            </array>\n            <key>RunAtLoad</key>\n            <true/>\n            <key>KeepAlive</key>\n            <false/>\n            <key>StandardOutPath</key>\n            <string>/tmp/peeksy.out</string>\n            <key>StandardErrorPath</key>\n            <string>/tmp/peeksy.err</string>\n        </dict>\n        </plist>";
    let l = supervisor();
    assert_eq!(l.write_plist(), expected);
    assert_eq!(l.write_plist(), LaunchD::new("/elsewhere").write_plist());
    assert!(l.write_plist().contains("<string>com.anubhavitis.peeksy</string>"));
    assert!(l.write_plist().contains("<key>RunAtLoad</key>\n            <true/>"));
    assert!(l.write_plist().contains("<key>KeepAlive</key>\n            <false/>"));
}

#[test]
fn a_failed_command_is_an_error() {
    assert_eq!(check_exit(SupervisorCommand::Load, true), Ok(()));
    assert_eq!(
        check_exit(SupervisorCommand::Unload, false),
        Err(SupervisorError::CommandFailed { command: SupervisorCommand::Unload })
    );
}
