//! The record of the daemon's process id: one integer as plain text at a
//! fixed place, overwritten at each start.

use vstd::prelude::*;
use crate::decimal::{
    decimal_text, lemma_decimal_text_value, parse_u32, render_u32, u32_value,
};
use crate::paths::{join, path_join};
use crate::text::{chars_of, text_of};

verus! {

/// The directory of this program under the user's configuration directory.
pub const APP_DIRECTORY: &'static str = "peeksy";

/// The name of the record file.
pub const PID_FILE: &'static str = "peeksy.pid";

/// Why no process id was had.
#[derive(Clone, Copy, Debug, PartialEq, Eq, Structural)]
pub enum PidError {
    /// There is no record: no daemon was started.
    NotRunning,
}

/// Where the record is kept, given the user's configuration directory.
pub fn get_pid_path(config_dir: &str) -> (path: String)
    ensures
        path@ == path_join(path_join(config_dir@, APP_DIRECTORY@), PID_FILE@),
{
    let parent = join(config_dir, APP_DIRECTORY);
    join(parent.as_str(), PID_FILE)
}

/// The record of `pid`: the text to write in place of what the record
/// file held.
pub fn save_pid(pid: u32) -> (record: String)
    ensures
        record@ == decimal_text(pid as nat),
{
    let digits = render_u32(pid);
    text_of(digits.as_slice())
}

/// The process id that a record holds, if the record is a number that a
/// `u32` can hold.
pub fn parse_pid(record: &str) -> (pid: Option<u32>)
    ensures
        pid == u32_value(record@),
{
    let cs = chars_of(record);
    parse_u32(cs.as_slice())
}

/// The recorded process id, where `record` is what the record file holds,
/// or `None` if there is no such file. A record that is not a number is a
/// defect of whoever wrote it, and is not provided for.
pub fn get_pid(record: Option<&str>) -> (pid: Result<u32, PidError>)
    requires
        record is Some ==> u32_value(record->0@) is Some,
    ensures
        match record {
            Some(text) => pid == Ok::<u32, PidError>(u32_value(text@)->0),
            None => pid == Err::<u32, PidError>(PidError::NotRunning),
        },
{
    match record {
        Some(text) => match parse_pid(text) {
            Some(pid) => Ok(pid),
            None => Err(PidError::NotRunning),
        },
        None => Err(PidError::NotRunning),
    }
}

/// A process id that was saved is read back as it was.
pub proof fn lemma_saved_pid_reads_back(pid: u32)
    ensures
        u32_value(decimal_text(pid as nat)) == Some(pid),
{
    lemma_decimal_text_value(pid as nat);
}

} // verus!
