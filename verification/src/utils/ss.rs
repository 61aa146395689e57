//! The directory that the system puts screenshots in.

use vstd::prelude::*;
use crate::paths::{join, path_join, path_starts_with, starts_with};
use crate::text::{chars_of, copy_range, has_prefix, text_of, trim, trimmed_text};

verus! {

/// The directory that is watched where the user has no desktop directory.
pub const SHARED_DIRECTORY: &'static str = "/Users/Shared";

/// How a command ended and what it printed.
#[derive(Debug, Clone)]
pub struct CommandOutput {
    pub success: bool,
    pub stdout: String,
}

/// A location that cannot be made sense of.
#[derive(Debug, Clone)]
pub enum LocationError {
    /// The location neither starts at `~/` nor lies under the home directory.
    NotUnderHome { raw: String },
}

/// The path that the configured location `raw` stands for: below `home`
/// where it starts with `~/`, itself where it lies under `home` already,
/// and none otherwise.
pub open spec fn clean_path(raw: Seq<char>, home: Seq<char>) -> Option<Seq<char>> {
    if has_prefix(raw, "~/"@) {
        Some(path_join(home, raw.skip(2)))
    } else if path_starts_with(raw, home) {
        Some(raw)
    } else {
        None
    }
}

/// The directory that screenshots are put in: the configured location
/// where the system reports one that lies under the home directory, and
/// the desktop, or the shared directory for want of one, in every other
/// case.
pub open spec fn screenshot_dir(
    desktop: Option<String>,
    defaults: Option<CommandOutput>,
    home: Option<Seq<char>>,
) -> Seq<char> {
    let fallback = match desktop {
        Some(dir) => dir@,
        None => SHARED_DIRECTORY@,
    };
    match defaults {
        Some(out) => if out.success && home is Some {
            match clean_path(trim(out.stdout@), home->0) {
                Some(path) => path,
                None => fallback,
            }
        } else {
            fallback
        },
        None => fallback,
    }
}

/// The path that the configured location `raw` stands for.
pub fn get_clean_path(raw: String, home: &str) -> (path: Result<String, LocationError>)
    ensures
        match path {
            Ok(p) => clean_path(raw@, home@) == Some(p@),
            Err(LocationError::NotUnderHome { raw: r }) => clean_path(raw@, home@) is None && r
                == raw,
        },
{
    let cs = chars_of(raw.as_str());
    let tilde = chars_of("~/");
    proof {
        reveal_strlit("~/");
    }
    if crate::text::starts_with(cs.as_slice(), tilde.as_slice()) {
        let rest = copy_range(cs.as_slice(), 2, cs.len());
        assert(cs@.subrange(2, cs@.len() as int) == cs@.skip(2));
        let below = text_of(rest.as_slice());
        return Ok(join(home, below.as_str()));
    }
    if starts_with(raw.as_str(), home) {
        Ok(raw)
    } else {
        Err(LocationError::NotUnderHome { raw })
    }
}

/// The directory that screenshots are put in, where `desktop` is the
/// user's desktop directory, `defaults` what reading the system's setting
/// gave, if it could be run, and `home` the user's home directory.
pub fn get_screenshot_dir(desktop: Option<String>, defaults: Option<CommandOutput>, home: Option<
    &str,
>) -> (dir: String)
    requires
        defaults is Some && defaults->0.success ==> home is Some,
    ensures
        dir@ == screenshot_dir(
            desktop,
            defaults,
            match home {
                Some(h) => Some(h@),
                None => None,
            },
        ),
{
    let fallback = match desktop {
        Some(dir) => dir,
        None => SHARED_DIRECTORY.to_owned(),
    };
    let out = match defaults {
        None => return fallback,
        Some(out) => out,
    };
    if !out.success {
        return fallback;
    }
    let raw = trimmed_text(out.stdout.as_str());
    match home {
        Some(home) => match get_clean_path(raw, home) {
            Ok(path) => path,
            Err(_) => fallback,
        },
        None => fallback,
    }
}

} // verus!
