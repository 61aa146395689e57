//! The service supervisor: the descriptor that tells the service manager how
//! to run the daemon, what its listing says of the service, and which
//! command is to be issued.
//!
//! The caller runs `launchctl` and hands in what `launchctl list` printed;
//! nothing is kept between two calls.

use vstd::prelude::*;
use crate::decimal::{i32_value, parse_i32};
use crate::paths::{directory, directory_of, join, path_join};
use crate::text::{
    chars_of, followed_by, contains, first_word, has_infix, leading_word, lines, split_lines,
};

verus! {

/// The label of the service.
pub const LABEL: &'static str = "com.anubhavitis.peeksy";

/// The program that the service runs.
pub const PROGRAM: &'static str = "/opt/homebrew/bin/peeksy";

/// The argument that the program is run with.
pub const PROGRAM_ARGUMENT: &'static str = "daemon";

/// Where the output of the service goes.
pub const STANDARD_OUT: &'static str = "/tmp/peeksy.out";

/// Where the errors of the service go.
pub const STANDARD_ERROR: &'static str = "/tmp/peeksy.err";

/// Where the descriptor is kept, from the user's home directory.
pub const PLIST_LOCATION: &'static str = "Library/LaunchAgents/com.anubhavitis.peeksy.plist";

/// The text of a descriptor up to its label.
pub const PLIST_HEAD: &'static str =
    "<?xml version=\"1.0\" encoding=\"UTF-8\"?>\n        <!DOCTYPE plist PUBLIC \"-//Apple//DTD PLIST 1.0//EN\" \"http://www.apple.com/DTDs/PropertyList-1.0.dtd\">\n        <plist version=\"1.0\">\n        <dict>\n            <key>Label</key>\n            <string>";

/// The text between the label and the program.
pub const PLIST_PROGRAM: &'static str =
    "</string>\n            <key>ProgramArguments</key>\n            <array>\n                <string>";

/// The text between the program and its argument.
pub const PLIST_ARGUMENT: &'static str = "</string>\n                <string>";

/// The text between the argument and the flag that says whether the
/// service runs when it is loaded.
pub const PLIST_RUN_AT_LOAD: &'static str =
    "</string>\n            </array>\n            <key>RunAtLoad</key>\n            ";

/// The text between that flag and the flag that says whether the service
/// is kept alive.
pub const PLIST_KEEP_ALIVE: &'static str = "\n            <key>KeepAlive</key>\n            ";

/// The text between that flag and the place of the output.
pub const PLIST_OUT: &'static str =
    "\n            <key>StandardOutPath</key>\n            <string>";

/// The text between the place of the output and the place of the errors.
pub const PLIST_ERROR: &'static str =
    "</string>\n            <key>StandardErrorPath</key>\n            <string>";

/// The text after the place of the errors.
pub const PLIST_TAIL: &'static str = "</string>\n        </dict>\n        </plist>";

/// How the service manager is to run the daemon.
#[derive(Debug, Clone)]
pub struct ServiceDescriptor {
    pub label: String,
    pub program: String,
    pub argument: String,
    pub run_at_load: bool,
    pub keep_alive: bool,
    pub standard_out: String,
    pub standard_error: String,
}

/// What a [`ServiceDescriptor`] holds.
pub struct ServiceDescriptorView {
    pub label: Seq<char>,
    pub program: Seq<char>,
    pub argument: Seq<char>,
    pub run_at_load: bool,
    pub keep_alive: bool,
    pub standard_out: Seq<char>,
    pub standard_error: Seq<char>,
}

impl View for ServiceDescriptor {
    type V = ServiceDescriptorView;

    open spec fn view(&self) -> ServiceDescriptorView {
        ServiceDescriptorView {
            label: self.label@,
            program: self.program@,
            argument: self.argument@,
            run_at_load: self.run_at_load,
            keep_alive: self.keep_alive,
            standard_out: self.standard_out@,
            standard_error: self.standard_error@,
        }
    }
}

/// How a flag is written in a property list.
pub open spec fn flag_text(flag: bool) -> Seq<char> {
    if flag {
        "<true/>"@
    } else {
        "<false/>"@
    }
}

/// The property list that writes the descriptor `d`.
pub open spec fn plist_text(d: ServiceDescriptorView) -> Seq<char> {
    PLIST_HEAD@ + d.label + PLIST_PROGRAM@ + d.program + PLIST_ARGUMENT@ + d.argument
        + PLIST_RUN_AT_LOAD@ + flag_text(d.run_at_load) + PLIST_KEEP_ALIVE@ + flag_text(
        d.keep_alive,
    ) + PLIST_OUT@ + d.standard_out + PLIST_ERROR@ + d.standard_error + PLIST_TAIL@
}

/// The descriptor of the daemon's service: the program is run with the one
/// argument when the service is loaded, and is not kept alive.
pub open spec fn daemon_descriptor() -> ServiceDescriptorView {
    ServiceDescriptorView {
        label: LABEL@,
        program: PROGRAM@,
        argument: PROGRAM_ARGUMENT@,
        run_at_load: true,
        keep_alive: false,
        standard_out: STANDARD_OUT@,
        standard_error: STANDARD_ERROR@,
    }
}

impl ServiceDescriptor {
    /// The property list that writes this descriptor.
    pub fn plist(&self) -> (text: String)
        ensures
            text@ == plist_text(self@),
    {
        let run = if self.run_at_load {
            "<true/>"
        } else {
            "<false/>"
        };
        let keep = if self.keep_alive {
            "<true/>"
        } else {
            "<false/>"
        };
        let a = followed_by(PLIST_HEAD, self.label.as_str());
        let b = followed_by(a.as_str(), PLIST_PROGRAM);
        let c = followed_by(b.as_str(), self.program.as_str());
        let d = followed_by(c.as_str(), PLIST_ARGUMENT);
        let e = followed_by(d.as_str(), self.argument.as_str());
        let f = followed_by(e.as_str(), PLIST_RUN_AT_LOAD);
        let g = followed_by(f.as_str(), run);
        let h = followed_by(g.as_str(), PLIST_KEEP_ALIVE);
        let i = followed_by(h.as_str(), keep);
        let j = followed_by(i.as_str(), PLIST_OUT);
        let k = followed_by(j.as_str(), self.standard_out.as_str());
        let l = followed_by(k.as_str(), PLIST_ERROR);
        let m = followed_by(l.as_str(), self.standard_error.as_str());
        followed_by(m.as_str(), PLIST_TAIL)
    }
}

/// What the service manager is asked to do.
#[derive(Clone, Copy, Debug, PartialEq, Eq, Structural)]
pub enum SupervisorCommand {
    /// `launchctl load` with the descriptor.
    Load,
    /// `launchctl unload` with the descriptor.
    Unload,
}

/// What the listing says of the service.
#[derive(Clone, Copy, Debug, PartialEq, Eq, Structural)]
pub enum ServiceState {
    /// The listing has no line for the label.
    NotLoaded,
    /// The listing has a line for the label, without a process.
    LoadedNotRunning,
    /// The listing has a line for the label, with the id of its process.
    LoadedRunning,
}

/// The state of the service, worked out anew from each listing.
#[derive(Clone, Copy, Debug, PartialEq, Eq, Structural)]
pub struct ServiceStatus {
    pub loaded: bool,
    pub running: bool,
    pub pid: Option<i32>,
}

/// A command of the service manager that did not succeed.
#[derive(Clone, Copy, Debug, PartialEq, Eq, Structural)]
pub enum SupervisorError {
    /// The command ended with a status other than success.
    CommandFailed { command: SupervisorCommand },
}

/// The first of `rows` that holds `label`.
pub open spec fn first_row_with(rows: Seq<Seq<char>>, label: Seq<char>) -> Option<Seq<char>>
    decreases rows.len(),
{
    if rows.len() == 0 {
        None
    } else if has_infix(rows.first(), label) {
        Some(rows.first())
    } else {
        first_row_with(rows.drop_first(), label)
    }
}

/// The process id that `listing` gives for the service: the first word of
/// the first line that holds the label, read as a number, and 0 where it is
/// none. `None` where no line holds the label.
pub open spec fn listed_pid(listing: Seq<char>) -> Option<i32> {
    match first_row_with(lines(listing), LABEL@) {
        Some(row) => Some(
            match i32_value(first_word(row)) {
                Some(pid) => pid,
                None => 0i32,
            },
        ),
        None => None,
    }
}

/// The state that `listing` shows: not loaded where the label is absent,
/// running where its process id is above 0.
pub open spec fn state_of(listing: Seq<char>) -> ServiceState {
    match listed_pid(listing) {
        None => ServiceState::NotLoaded,
        Some(pid) => if pid > 0 {
            ServiceState::LoadedRunning
        } else {
            ServiceState::LoadedNotRunning
        },
    }
}

/// The status that `listing` shows.
pub open spec fn status_of(listing: Seq<char>) -> ServiceStatus {
    match listed_pid(listing) {
        None => ServiceStatus { loaded: false, running: false, pid: None },
        Some(pid) => if pid > 0 {
            ServiceStatus { loaded: true, running: true, pid: Some(pid) }
        } else {
            ServiceStatus { loaded: true, running: false, pid: None }
        },
    }
}

/// What loading does in `state`: nothing where the service runs; an unload
/// where it is loaded without running, to free it for a later load; a load
/// where it is not loaded.
pub open spec fn load_command(state: ServiceState) -> Option<SupervisorCommand> {
    match state {
        ServiceState::LoadedRunning => None,
        ServiceState::LoadedNotRunning => Some(SupervisorCommand::Unload),
        ServiceState::NotLoaded => Some(SupervisorCommand::Load),
    }
}

/// What unloading does in `state`: nothing where the service is not
/// loaded, an unload otherwise.
pub open spec fn unload_command(state: ServiceState) -> Option<SupervisorCommand> {
    match state {
        ServiceState::NotLoaded => None,
        _ => Some(SupervisorCommand::Unload),
    }
}

/// What starting does in `state`: nothing where the service runs, and what
/// loading does otherwise.
pub open spec fn start_command(state: ServiceState) -> Option<SupervisorCommand> {
    match state {
        ServiceState::LoadedRunning => None,
        _ => load_command(state),
    }
}

/// The commands issued so far, with what a step issued added.
pub open spec fn issued(log: Seq<SupervisorCommand>, command: Option<SupervisorCommand>) -> Seq<
    SupervisorCommand,
> {
    match command {
        Some(c) => log.push(c),
        None => log,
    }
}

/// The commands that a restart issues, where the service is in `before`
/// when it begins and in `between` once the unloading is done: what
/// unloading does in `before`, then what loading does in `between`.
pub open spec fn restart_commands(before: ServiceState, between: ServiceState) -> Seq<
    SupervisorCommand,
> {
    issued(issued(seq![], unload_command(before)), load_command(between))
}

/// How many of `log` are loads.
pub open spec fn loads_in(log: Seq<SupervisorCommand>) -> nat
    decreases log.len(),
{
    if log.len() == 0 {
        0
    } else {
        loads_in(log.drop_last()) + if log.last() == SupervisorCommand::Load {
            1nat
        } else {
            0nat
        }
    }
}

/// The state that `listing` shows.
pub fn service_state(listing: &str) -> (state: ServiceState)
    ensures
        state == state_of(listing@),
{
    match read_pid(listing) {
        None => ServiceState::NotLoaded,
        Some(pid) => if pid > 0 {
            ServiceState::LoadedRunning
        } else {
            ServiceState::LoadedNotRunning
        },
    }
}

/// The process id that `listing` gives for the service.
pub fn read_pid(listing: &str) -> (pid: Option<i32>)
    ensures
        pid == listed_pid(listing@),
{
    let text = chars_of(listing);
    let rows = split_lines(text.as_slice());
    let label = chars_of(LABEL);
    let ghost all = rows.deep_view();
    let mut i: usize = 0;
    assert(all.skip(0) == all);
    while i < rows.len()
        invariant
            i <= rows.len(),
            all == rows.deep_view(),
            all == lines(listing@),
            label@ == LABEL@,
            first_row_with(all, LABEL@) == first_row_with(all.skip(i as int), LABEL@),
        decreases rows.len() - i,
    {
        let ghost rest = all.skip(i as int);
        assert(rest.first() == rows@[i as int]@);
        assert(rest.drop_first() == all.skip(i + 1));
        if contains(rows[i].as_slice(), label.as_slice()) {
            let word = leading_word(rows[i].as_slice());
            return Some(
                match parse_i32(word.as_slice()) {
                    Some(pid) => pid,
                    None => 0,
                },
            );
        }
        i += 1;
    }
    None
}

/// The outcome of a command of the service manager: an error where its
/// exit status was not success. Nothing is tried again.
pub fn check_exit(command: SupervisorCommand, success: bool) -> (outcome: Result<
    (),
    SupervisorError,
>)
    ensures
        outcome == if success {
            Ok::<(), SupervisorError>(())
        } else {
            Err::<(), SupervisorError>(SupervisorError::CommandFailed { command })
        },
{
    if success {
        Ok(())
    } else {
        Err(SupervisorError::CommandFailed { command })
    }
}

/// The supervisor of the daemon's service.
#[derive(Debug)]
pub struct LaunchD {
    plist_path: String,
}

impl LaunchD {
    /// Where the descriptor is kept.
    pub closed spec fn descriptor_path(&self) -> Seq<char> {
        self.plist_path@
    }

    /// The supervisor for the user whose home directory is `home`. Before
    /// anything else is asked of the service manager, the caller writes
    /// [`LaunchD::write_plist`] at [`LaunchD::plist_path`], in the directory
    /// [`LaunchD::setup`], whether or not a descriptor is there already.
    pub fn new(home: &str) -> (launchd: Self)
        ensures
            launchd.descriptor_path() == path_join(home@, PLIST_LOCATION@),
    {
        Self { plist_path: join(home, PLIST_LOCATION) }
    }

    /// Where the descriptor is kept.
    pub fn plist_path(&self) -> (path: &String)
        ensures
            path@ == self.descriptor_path(),
    {
        &self.plist_path
    }

    /// The directory that holds the descriptor, to be made if it is missing.
    pub fn setup(&self) -> (dir: String)
        ensures
            dir@ == directory_of(self.descriptor_path()),
    {
        directory(self.plist_path.as_str())
    }

    /// The descriptor of the daemon's service.
    pub fn descriptor(&self) -> (d: ServiceDescriptor)
        ensures
            d@ == daemon_descriptor(),
    {
        ServiceDescriptor {
            label: LABEL.to_owned(),
            program: PROGRAM.to_owned(),
            argument: PROGRAM_ARGUMENT.to_owned(),
            run_at_load: true,
            keep_alive: false,
            standard_out: STANDARD_OUT.to_owned(),
            standard_error: STANDARD_ERROR.to_owned(),
        }
    }

    /// The text of the descriptor, as it is written to its file.
    pub fn write_plist(&self) -> (text: String)
        ensures
            text@ == plist_text(daemon_descriptor()),
    {
        self.descriptor().plist()
    }

    /// The status of the service as `listing` shows it.
    pub fn status(&self, listing: &str) -> (status: ServiceStatus)
        ensures
            status == status_of(listing@),
    {
        match read_pid(listing) {
            None => ServiceStatus { loaded: false, running: false, pid: None },
            Some(pid) => if pid > 0 {
                ServiceStatus { loaded: true, running: true, pid: Some(pid) }
            } else {
                ServiceStatus { loaded: true, running: false, pid: None }
            },
        }
    }

    /// Whether `listing` shows the service loaded.
    pub fn is_loaded(&self, listing: &str) -> (r: bool)
        ensures
            r == (state_of(listing@) != ServiceState::NotLoaded),
            r == status_of(listing@).loaded,
    {
        read_pid(listing).is_some()
    }

    /// Whether `listing` shows the service running.
    pub fn is_running(&self, listing: &str) -> (r: bool)
        ensures
            r == (state_of(listing@) == ServiceState::LoadedRunning),
            r == status_of(listing@).running,
    {
        match read_pid(listing) {
            Some(pid) => pid > 0,
            None => false,
        }
    }

    /// The command that loading issues, where `listing` is what the
    /// service manager lists now; `None` where there is nothing to do.
    pub fn load(&self, listing: &str) -> (command: Option<SupervisorCommand>)
        ensures
            command == load_command(state_of(listing@)),
    {
        match service_state(listing) {
            ServiceState::LoadedRunning => None,
            ServiceState::LoadedNotRunning => Some(SupervisorCommand::Unload),
            ServiceState::NotLoaded => Some(SupervisorCommand::Load),
        }
    }

    /// The command that unloading issues, where `listing` is what the
    /// service manager lists now; `None` where there is nothing to do.
    pub fn unload(&self, listing: &str) -> (command: Option<SupervisorCommand>)
        ensures
            command == unload_command(state_of(listing@)),
    {
        match service_state(listing) {
            ServiceState::NotLoaded => None,
            _ => Some(SupervisorCommand::Unload),
        }
    }

    /// The words that `launchctl` is run with for `command`.
    pub fn arguments(&self, command: SupervisorCommand) -> (words: Vec<String>)
        ensures
            words@.len() == 2,
            words@[0]@ == match command {
                SupervisorCommand::Load => "load"@,
                SupervisorCommand::Unload => "unload"@,
            },
            words@[1]@ == self.descriptor_path(),
    {
        let mut words: Vec<String> = Vec::new();
        match command {
            SupervisorCommand::Load => words.push("load".to_owned()),
            SupervisorCommand::Unload => words.push("unload".to_owned()),
        }
        words.push(self.plist_path.clone());
        words
    }
}

/// Loading twice issues one load: where the first call finds the service
/// not loaded and the service runs after it, the second call issues
/// nothing, so the two calls together have issued exactly one load.
pub proof fn lemma_load_is_idempotent(first: ServiceState, second: ServiceState)
    requires
        second == ServiceState::LoadedRunning,
    ensures
        load_command(second) is None,
        loads_in(issued(issued(seq![], load_command(first)), load_command(second))) <= 1,
        first == ServiceState::NotLoaded ==> loads_in(
            issued(issued(seq![], load_command(first)), load_command(second)),
        ) == 1,
{
    let log = issued(seq![], load_command(first));
    assert(issued(log, load_command(second)) == log);
    if log.len() > 0 {
        assert(log.drop_last() == Seq::<SupervisorCommand>::empty());
        assert(loads_in(log.drop_last()) == 0);
    }
}

/// A restart always goes through both steps: the unloading, which issues
/// an unload unless the service is not loaded, and then the loading,
/// whatever the state was. Where the unloading has left the service not
/// loaded, the last command of a restart is a load.
pub proof fn lemma_restart_unloads_then_loads(before: ServiceState, between: ServiceState)
    ensures
        restart_commands(before, between) == issued(seq![], unload_command(before))
            + issued(seq![], load_command(between)),
        between == ServiceState::NotLoaded ==> restart_commands(before, between) == if before
            == ServiceState::NotLoaded {
            seq![SupervisorCommand::Load]
        } else {
            seq![SupervisorCommand::Unload, SupervisorCommand::Load]
        },
{
    let first = issued(seq![], unload_command(before));
    let second = issued(seq![], load_command(between));
    assert(restart_commands(before, between) =~= first + second);
    if between == ServiceState::NotLoaded {
        if before == ServiceState::NotLoaded {
            assert(restart_commands(before, between) =~= seq![SupervisorCommand::Load]);
        } else {
            assert(restart_commands(before, between) =~= seq![
                SupervisorCommand::Unload,
                SupervisorCommand::Load,
            ]);
        }
    }
}

/// No two commands of one call contradict each other: neither loading nor
/// unloading ever loads a service that is loaded, nor unloads one that is
/// not.
pub proof fn lemma_no_contradictory_command(state: ServiceState)
    ensures
        load_command(state) == Some(SupervisorCommand::Load) ==> state == ServiceState::NotLoaded,
        load_command(state) == Some(SupervisorCommand::Unload) ==> state
            != ServiceState::NotLoaded,
        unload_command(state) == Some(SupervisorCommand::Unload) ==> state
            != ServiceState::NotLoaded,
        unload_command(state) != Some(SupervisorCommand::Load),
{
}

} // verus!
