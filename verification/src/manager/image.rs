//! The screenshot manager: which files are screenshots, which are fresh,
//! what a file is renamed to, and the steps of one rename.

use vstd::prelude::*;
use crate::manager::ai::{CaptionError, OpenAI};
use crate::paths::{
    extension_of, file_name, name_extension, path_extension, path_file_name, sibling,
    sibling_path,
};
use crate::text::{
    chars_of, contains, copy_range, ends_with, has_infix, has_prefix, has_suffix, push_all,
    same_chars, starts_with, text_of,
};

verus! {

/// The character that marks a file name as hidden.
pub const HIDDEN_MARKER: char = '.';

/// How many seconds after its creation a screenshot is still renamed.
pub const FRESHNESS_SECONDS: u64 = 60;

/// `s` in lower case, as `str::to_lowercase` of std gives it.
pub uninterp spec fn lowercase(s: Seq<char>) -> Seq<char>;

/// Calls `str::to_lowercase`. Trusted: the result is the text that
/// [`lowercase`] names.
#[verifier::external_body]
pub(crate) fn to_lowercase(s: &str) -> (lower: String)
    ensures
        lower@ == lowercase(s@),
{
    s.to_lowercase()
}

/// A length of time, or a point in time counted from the Unix epoch:
/// whole seconds and the nanoseconds beyond them.
#[derive(Clone, Copy, Debug, PartialEq, Eq, Structural)]
pub struct Span {
    pub secs: u64,
    pub nanos: u32,
}

impl Span {
    /// The span in nanoseconds.
    pub open spec fn nanoseconds(self) -> int {
        self.secs * 1_000_000_000 + self.nanos
    }

    /// The span of `secs` whole seconds.
    pub fn from_secs(secs: u64) -> (span: Span)
        ensures
            span.nanoseconds() == secs * 1_000_000_000,
            span == (Span { secs, nanos: 0 }),
    {
        Span { secs, nanos: 0 }
    }

    /// The span in nanoseconds.
    pub fn total(&self) -> (n: u128)
        ensures
            n == self.nanoseconds(),
    {
        (self.secs as u128) * 1_000_000_000u128 + (self.nanos as u128)
    }
}

/// The times that the file system records of a file, where it records them.
#[derive(Clone, Copy, Debug)]
pub struct FileTimes {
    pub created: Option<Span>,
    pub modified: Option<Span>,
}

/// The time a file goes by: its creation, or its last change where the
/// creation is not recorded. `None` where the times cannot be read.
pub open spec fn recorded_time(times: Option<FileTimes>) -> Option<Span> {
    match times {
        Some(t) => match t.created {
            Some(created) => Some(created),
            None => t.modified,
        },
        None => None,
    }
}

/// Whether a file with the times `times` is fresh at `now`: its recorded
/// time is not after `now` and less than `max_age` before it.
pub open spec fn is_fresh(times: Option<FileTimes>, now: Span, max_age: Span) -> bool {
    match recorded_time(times) {
        Some(at) => at.nanoseconds() <= now.nanoseconds() && now.nanoseconds() - at.nanoseconds()
            < max_age.nanoseconds(),
        None => false,
    }
}

/// `name` without the marker of hidden files, where it starts with one.
pub open spec fn visible_name(name: Seq<char>) -> Seq<char> {
    if name.len() > 0 && name[0] == HIDDEN_MARKER {
        name.drop_first()
    } else {
        name
    }
}

/// Whether the lower-case file name `lowered`, taken without the marker of
/// hidden files, is named as a screenshot is: it starts with `screenshot` or
/// holds `screen shot`, and does not end in `-ss`.
pub open spec fn is_screenshot_name(lowered: Seq<char>) -> bool {
    let name = visible_name(lowered);
    &&& has_prefix(name, "screenshot"@) || has_infix(name, "screen shot"@)
    &&& !has_suffix(name, "-ss"@)
}

/// Whether `path` names a screenshot: a file named as one, with the
/// extension `png` exactly.
pub open spec fn is_screenshot_path(path: Seq<char>) -> bool {
    match path_file_name(path) {
        Some(name) => is_screenshot_name(lowercase(name)) && name_extension(name) == Some(
            "png"@,
        ),
        None => false,
    }
}

/// `path` with the marker of hidden files taken from its file name: the
/// file of the name without the marker, in the same directory. A path whose
/// file name has no marker, or that has no file name, is left as it is.
pub open spec fn public_path(path: Seq<char>) -> Seq<char> {
    match path_file_name(path) {
        Some(name) => if name.len() > 0 && name[0] == HIDDEN_MARKER {
            sibling_path(path, name.drop_first())
        } else {
            path
        },
        None => path,
    }
}

/// `c` in lower case, if it is an ASCII capital; `c` itself otherwise.
pub open spec fn ascii_lower(c: char) -> char {
    if 'A' <= c <= 'Z' {
        ((c as u8) + 32) as u8 as char
    } else {
        c
    }
}

/// `s` with its ASCII capitals in lower case.
pub open spec fn ascii_lowercase(s: Seq<char>) -> Seq<char> {
    Seq::new(s.len(), |i: int| ascii_lower(s[i]))
}

/// Whether `ext` is the extension of an image format.
pub open spec fn is_image_extension(ext: Seq<char>) -> bool {
    ||| ext == "png"@
    ||| ext == "jpg"@
    ||| ext == "jpeg"@
    ||| ext == "gif"@
    ||| ext == "webp"@
    ||| ext == "heic"@
    ||| ext == "heif"@
    ||| ext == "bmp"@
    ||| ext == "tiff"@
    ||| ext == "tif"@
}

/// Whether `path` names an image: its extension, whatever the case of its
/// ASCII letters, is that of an image format.
pub open spec fn is_image_path(path: Seq<char>) -> bool {
    match path_extension(path) {
        Some(ext) => is_image_extension(ascii_lowercase(ext)),
        None => false,
    }
}

/// The file name that a caption gives: the caption, a dot, the extension.
pub open spec fn renamed_file(caption: Seq<char>, ext: Seq<char>) -> Seq<char> {
    caption + seq!['.'] + ext
}

/// Where the file at `source` goes when it is named by `caption`: into the
/// same directory, under the caption with the extension of `source`. `None`
/// where `source` has no extension.
pub open spec fn destination_of(source: Seq<char>, caption: Seq<char>) -> Option<Seq<char>> {
    match path_extension(source) {
        Some(ext) => Some(sibling_path(source, renamed_file(caption, ext))),
        None => None,
    }
}

/// Why a file was not renamed.
#[derive(Debug, Clone)]
pub enum RenameError {
    /// The file is not named as a screenshot is; the event is dropped.
    NotCandidate { path: String },
    /// The file is too old, or its times cannot be read; the event is dropped.
    Stale { path: String },
    /// The file's extension is not that of an image format.
    NotAnImage { path: String },
    /// The file has no extension to keep.
    MissingExtension { path: String },
    /// No caption was had; the file is untouched.
    Caption(CaptionError),
    /// The copy failed; the file is untouched.
    CopyFailed { source: String, destination: String },
    /// The copy is made, but the source file could not be deleted: both exist.
    DeleteFailed { orphan: String },
}

/// What a [`RenameError`] holds.
pub enum RenameErrorView {
    NotCandidate { path: Seq<char> },
    Stale { path: Seq<char> },
    NotAnImage { path: Seq<char> },
    MissingExtension { path: Seq<char> },
    Caption(CaptionError),
    CopyFailed { source: Seq<char>, destination: Seq<char> },
    DeleteFailed { orphan: Seq<char> },
}

impl View for RenameError {
    type V = RenameErrorView;

    open spec fn view(&self) -> RenameErrorView {
        match self {
            RenameError::NotCandidate { path } => RenameErrorView::NotCandidate { path: path@ },
            RenameError::Stale { path } => RenameErrorView::Stale { path: path@ },
            RenameError::NotAnImage { path } => RenameErrorView::NotAnImage { path: path@ },
            RenameError::MissingExtension { path } => RenameErrorView::MissingExtension {
                path: path@,
            },
            RenameError::Caption(e) => RenameErrorView::Caption(*e),
            RenameError::CopyFailed { source, destination } => RenameErrorView::CopyFailed {
                source: source@,
                destination: destination@,
            },
            RenameError::DeleteFailed { orphan } => RenameErrorView::DeleteFailed {
                orphan: orphan@,
            },
        }
    }
}

/// Where one rename stands. Each stage but the last names the outside work
/// that is to be done next; its outcome is handed back as a
/// [`RenameEvent`].
#[derive(Debug, Clone)]
pub enum RenameStage {
    /// The times of the file at `path` are to be read, and the clock.
    AwaitingTimes { path: String },
    /// A caption is to be fetched for the file at `path`.
    AwaitingCaption { path: String },
    /// `source` is to be copied to `destination`.
    Copying { source: String, destination: String },
    /// `source` is to be deleted; its copy is at `destination`.
    Deleting { source: String, destination: String },
    /// The file is at `path` now, under its new name.
    Renamed { path: String },
    /// The rename was given up.
    Failed(RenameError),
}

/// What a [`RenameStage`] holds.
pub enum RenameStageView {
    AwaitingTimes { path: Seq<char> },
    AwaitingCaption { path: Seq<char> },
    Copying { source: Seq<char>, destination: Seq<char> },
    Deleting { source: Seq<char>, destination: Seq<char> },
    Renamed { path: Seq<char> },
    Failed(RenameErrorView),
}

impl View for RenameStage {
    type V = RenameStageView;

    open spec fn view(&self) -> RenameStageView {
        match self {
            RenameStage::AwaitingTimes { path } => RenameStageView::AwaitingTimes {
                path: path@,
            },
            RenameStage::AwaitingCaption { path } => RenameStageView::AwaitingCaption {
                path: path@,
            },
            RenameStage::Copying { source, destination } => RenameStageView::Copying {
                source: source@,
                destination: destination@,
            },
            RenameStage::Deleting { source, destination } => RenameStageView::Deleting {
                source: source@,
                destination: destination@,
            },
            RenameStage::Renamed { path } => RenameStageView::Renamed { path: path@ },
            RenameStage::Failed(e) => RenameStageView::Failed(e@),
        }
    }
}

/// The outcome of the outside work that a stage asked for.
#[derive(Debug, Clone)]
pub enum RenameEvent {
    /// The file's times, if they could be read, and the time now.
    Times { times: Option<FileTimes>, now: Span },
    /// The caption that the service gave.
    Captioned { caption: String },
    /// No caption was had.
    CaptionFailed(CaptionError),
    /// Whether the copy was made.
    Copied { done: bool },
    /// Whether the source file was deleted.
    Deleted { done: bool },
}

/// What a [`RenameEvent`] holds.
pub enum RenameEventView {
    Times { times: Option<FileTimes>, now: Span },
    Captioned { caption: Seq<char> },
    CaptionFailed(CaptionError),
    Copied { done: bool },
    Deleted { done: bool },
}

impl View for RenameEvent {
    type V = RenameEventView;

    open spec fn view(&self) -> RenameEventView {
        match self {
            RenameEvent::Times { times, now } => RenameEventView::Times {
                times: *times,
                now: *now,
            },
            RenameEvent::Captioned { caption } => RenameEventView::Captioned {
                caption: caption@,
            },
            RenameEvent::CaptionFailed(e) => RenameEventView::CaptionFailed(*e),
            RenameEvent::Copied { done } => RenameEventView::Copied { done: *done },
            RenameEvent::Deleted { done } => RenameEventView::Deleted { done: *done },
        }
    }
}

/// The freshness window of watched screenshots.
pub open spec fn freshness_window() -> Span {
    Span { secs: FRESHNESS_SECONDS, nanos: 0 }
}

/// Where the rename of a watched file starts: a file that is no screenshot
/// is dropped; of a screenshot, the times of its public path are asked for.
pub open spec fn watch_start(raw: Seq<char>) -> RenameStageView {
    if is_screenshot_path(raw) {
        RenameStageView::AwaitingTimes { path: public_path(raw) }
    } else {
        RenameStageView::Failed(RenameErrorView::NotCandidate { path: raw })
    }
}

/// Where the rename of a file that the user chose starts: an image is
/// captioned whatever its age and name; any other file is refused.
pub open spec fn manual_start(path: Seq<char>) -> RenameStageView {
    if is_image_path(path) {
        RenameStageView::AwaitingCaption { path }
    } else {
        RenameStageView::Failed(RenameErrorView::NotAnImage { path })
    }
}

/// The stage that follows `stage` on `event`.
///
/// A fresh file is captioned, a stale one dropped. A caption gives the
/// destination and asks for the copy; a failure to fetch it is passed on as
/// it came. A copy that was made asks for the source file to be deleted; one
/// that failed ends the rename with the source file untouched. A deletion that
/// failed ends it with both files in place. An event that does not answer
/// the stage leaves the stage as it is, and the two final stages stay.
pub open spec fn advance(stage: RenameStageView, event: RenameEventView) -> RenameStageView {
    match (stage, event) {
        (RenameStageView::AwaitingTimes { path }, RenameEventView::Times { times, now }) => {
            if is_fresh(times, now, freshness_window()) {
                RenameStageView::AwaitingCaption { path }
            } else {
                RenameStageView::Failed(RenameErrorView::Stale { path })
            }
        },
        (RenameStageView::AwaitingCaption { path }, RenameEventView::Captioned { caption }) => {
            match destination_of(path, caption) {
                Some(destination) => RenameStageView::Copying { source: path, destination },
                None => RenameStageView::Failed(RenameErrorView::MissingExtension { path }),
            }
        },
        (RenameStageView::AwaitingCaption { path }, RenameEventView::CaptionFailed(e)) => {
            RenameStageView::Failed(RenameErrorView::Caption(e))
        },
        (RenameStageView::Copying { source, destination }, RenameEventView::Copied { done }) => {
            if done {
                RenameStageView::Deleting { source, destination }
            } else {
                RenameStageView::Failed(RenameErrorView::CopyFailed { source, destination })
            }
        },
        (RenameStageView::Deleting { source, destination }, RenameEventView::Deleted { done }) => {
            if done {
                RenameStageView::Renamed { path: destination }
            } else {
                RenameStageView::Failed(RenameErrorView::DeleteFailed { orphan: source })
            }
        },
        _ => stage,
    }
}

/// `name` without the marker of hidden files, where it starts with one.
pub fn visible_part(name: &str) -> (visible: Vec<char>)
    ensures
        visible@ == visible_name(name@),
{
    let all = chars_of(name);
    let from: usize = if all.len() > 0 && all[0] == HIDDEN_MARKER {
        1
    } else {
        0
    };
    assert(all@.subrange(1, all@.len() as int) == all@.drop_first());
    assert(all@.subrange(0, all@.len() as int) == all@);
    copy_range(all.as_slice(), from, all.len())
}

/// Whether the lower-case file name `lowered` is named as a screenshot is.
pub fn matches_screenshot_name(lowered: &str) -> (r: bool)
    ensures
        r == is_screenshot_name(lowered@),
{
    let name = visible_part(lowered);
    let prefix = chars_of("screenshot");
    let phrase = chars_of("screen shot");
    let suffix = chars_of("-ss");
    (starts_with(name.as_slice(), prefix.as_slice()) || contains(
        name.as_slice(),
        phrase.as_slice(),
    )) && !ends_with(name.as_slice(), suffix.as_slice())
}

/// Whether the extension of the file name `name` is `png` exactly.
pub fn has_screenshot_extension(name: &str) -> (r: bool)
    ensures
        r == (name_extension(name@) == Some("png"@)),
{
    let cs = chars_of(name);
    match extension_of(cs.as_slice()) {
        Some(ext) => {
            let png = chars_of("png");
            same_chars(ext.as_slice(), png.as_slice())
        },
        None => false,
    }
}

/// `c` in lower case, if it is an ASCII capital.
fn lower_ascii(c: char) -> (l: char)
    ensures
        l == ascii_lower(c),
{
    if 'A' <= c && c <= 'Z' {
        ((c as u8) + 32) as char
    } else {
        c
    }
}

/// Whether `ext`, whatever the case of its ASCII letters, is the extension
/// of an image format.
pub fn is_image_extension_of(ext: &[char]) -> (r: bool)
    ensures
        r == is_image_extension(ascii_lowercase(ext@)),
{
    let mut lower: Vec<char> = Vec::new();
    let mut i: usize = 0;
    while i < ext.len()
        invariant
            i <= ext.len(),
            lower@ == ascii_lowercase(ext@).take(i as int),
        decreases ext.len() - i,
    {
        lower.push(lower_ascii(ext[i]));
        assert(ascii_lowercase(ext@).take(i + 1) == ascii_lowercase(ext@).take(i as int).push(
            ascii_lower(ext@[i as int]),
        ));
        i += 1;
    }
    assert(ascii_lowercase(ext@).take(ext.len() as int) == ascii_lowercase(ext@));
    let l = lower.as_slice();
    same_chars(l, chars_of("png").as_slice()) || same_chars(l, chars_of("jpg").as_slice())
        || same_chars(l, chars_of("jpeg").as_slice()) || same_chars(
        l,
        chars_of("gif").as_slice(),
    ) || same_chars(l, chars_of("webp").as_slice()) || same_chars(
        l,
        chars_of("heic").as_slice(),
    ) || same_chars(l, chars_of("heif").as_slice()) || same_chars(l, chars_of("bmp").as_slice())
        || same_chars(l, chars_of("tiff").as_slice()) || same_chars(
        l,
        chars_of("tif").as_slice(),
    )
}

/// The extension of the file that `path` names.
pub fn extension(path: &str) -> (ext: Option<Vec<char>>)
    ensures
        match ext {
            Some(e) => path_extension(path@) == Some(e@),
            None => path_extension(path@) is None,
        },
{
    match file_name(path) {
        Some(name) => {
            let cs = chars_of(name.as_str());
            extension_of(cs.as_slice())
        },
        None => None,
    }
}

/// Whether `file_name` names an image: its extension is that of an image
/// format.
pub fn is_image(file_name: &str) -> (r: bool)
    ensures
        r == is_image_path(file_name@),
{
    match extension(file_name) {
        Some(ext) => is_image_extension_of(ext.as_slice()),
        None => false,
    }
}

/// Whether a file with the times `times` is fresh at `now`.
pub fn fresh(times: Option<FileTimes>, now: Span, max_age: Span) -> (r: bool)
    ensures
        r == is_fresh(times, now, max_age),
{
    let at = match times {
        Some(t) => match t.created {
            Some(created) => Some(created),
            None => t.modified,
        },
        None => None,
    };
    match at {
        Some(at) => {
            let then = at.total();
            let current = now.total();
            then <= current && current - then < max_age.total()
        },
        None => false,
    }
}

/// What one event of the watch says of a file: whether it is a screenshot,
/// whether it is fresh, and under which path it is visible.
#[derive(Debug, Clone)]
pub struct ScreenshotCandidate {
    pub path: String,
    pub is_candidate: bool,
    pub is_fresh: bool,
    pub public_path: String,
}

/// How a rename ended: the new path, or why the file was not renamed.
pub type RenameOutcome = Result<String, RenameError>;

/// How a rename in `stage` has ended, if it has.
pub open spec fn outcome_of(stage: RenameStageView) -> Option<Result<Seq<char>, RenameErrorView>> {
    match stage {
        RenameStageView::Renamed { path } => Some(Ok(path)),
        RenameStageView::Failed(e) => Some(Err(e)),
        _ => None,
    }
}

impl RenameStage {
    /// How the rename has ended, if it has.
    pub fn outcome(&self) -> (ended: Option<RenameOutcome>)
        ensures
            match ended {
                Some(Ok(path)) => outcome_of(self@) == Some(
                    Ok::<Seq<char>, RenameErrorView>(path@),
                ),
                Some(Err(e)) => outcome_of(self@) == Some(Err::<Seq<char>, RenameErrorView>(e@)),
                None => outcome_of(self@) is None,
            },
    {
        match self {
            RenameStage::Renamed { path } => Some(Ok(path.clone())),
            RenameStage::Failed(e) => {
                let copy = copy_of_error(e);
                Some(Err(copy))
            },
            _ => None,
        }
    }
}

/// The same failure once more.
fn copy_of_error(e: &RenameError) -> (copy: RenameError)
    ensures
        copy@ == e@,
{
    match e {
        RenameError::NotCandidate { path } => RenameError::NotCandidate { path: path.clone() },
        RenameError::Stale { path } => RenameError::Stale { path: path.clone() },
        RenameError::NotAnImage { path } => RenameError::NotAnImage { path: path.clone() },
        RenameError::MissingExtension { path } => RenameError::MissingExtension {
            path: path.clone(),
        },
        RenameError::Caption(c) => RenameError::Caption(copy_of_caption_error(c)),
        RenameError::CopyFailed { source, destination } => RenameError::CopyFailed {
            source: source.clone(),
            destination: destination.clone(),
        },
        RenameError::DeleteFailed { orphan } => RenameError::DeleteFailed {
            orphan: orphan.clone(),
        },
    }
}

/// The same failure to fetch a caption once more.
fn copy_of_caption_error(e: &CaptionError) -> (copy: CaptionError)
    ensures
        copy == *e,
{
    match e {
        CaptionError::Unreadable { message } => CaptionError::Unreadable {
            message: message.clone(),
        },
        CaptionError::Transport { message } => CaptionError::Transport {
            message: message.clone(),
        },
        CaptionError::Status { status } => CaptionError::Status { status: *status },
        CaptionError::Malformed => CaptionError::Malformed,
    }
}

/// Renames screenshots by the captions that a provider gives.
#[derive(Debug, Clone)]
pub struct SSManager {
    ai: OpenAI,
}

impl SSManager {
    /// The provider that this manager asks.
    pub closed spec fn provider(&self) -> OpenAI {
        self.ai
    }

    /// A manager that asks `ai` for captions.
    pub fn new(ai: OpenAI) -> (manager: Self)
        ensures
            manager.provider() == ai,
    {
        Self { ai }
    }

    /// The provider that this manager asks.
    pub fn ai(&self) -> (ai: &OpenAI)
        ensures
            *ai == self.provider(),
    {
        &self.ai
    }

    /// `path` with the marker of hidden files taken from its file name.
    pub fn modify_ss_path(&self, path: &str) -> (public: String)
        ensures
            public@ == public_path(path@),
    {
        match file_name(path) {
            Some(name) => {
                let rest = visible_part(name.as_str());
                if rest.len() < name.as_str().unicode_len() {
                    let visible = text_of(rest.as_slice());
                    sibling(path, visible.as_str())
                } else {
                    path.to_owned()
                }
            },
            None => path.to_owned(),
        }
    }

    /// Whether `path` names a screenshot.
    pub fn is_screenshot_file(&self, path: &str) -> (r: bool)
        ensures
            r == is_screenshot_path(path@),
    {
        match file_name(path) {
            Some(name) => {
                let lowered = to_lowercase(name.as_str());
                matches_screenshot_name(lowered.as_str()) && has_screenshot_extension(
                    name.as_str(),
                )
            },
            None => false,
        }
    }

    /// Whether a file with the times `times` is fresh at `now`: not older
    /// than `max_age`. A file whose times cannot be read is not fresh.
    pub fn is_recent(&self, times: Option<FileTimes>, now: Span, max_age: Span) -> (r: bool)
        ensures
            r == is_fresh(times, now, max_age),
    {
        fresh(times, now, max_age)
    }

    /// What an event of the watch says of the file at `path`, where `times`
    /// are the times of its public path, if they can be read, and `now` is
    /// the time of the event.
    pub fn classify(&self, path: &str, times: Option<FileTimes>, now: Span) -> (candidate:
        ScreenshotCandidate)
        ensures
            candidate.path@ == path@,
            candidate.is_candidate == is_screenshot_path(path@),
            candidate.is_fresh == is_fresh(times, now, freshness_window()),
            candidate.public_path@ == public_path(path@),
    {
        ScreenshotCandidate {
            path: path.to_owned(),
            is_candidate: self.is_screenshot_file(path),
            is_fresh: fresh(times, now, Span::from_secs(FRESHNESS_SECONDS)),
            public_path: self.modify_ss_path(path),
        }
    }

    /// The first stage of the rename of a file that the watch reported.
    pub fn process_new_ss(&self, path: &str) -> (stage: RenameStage)
        ensures
            stage@ == watch_start(path@),
    {
        if !self.is_screenshot_file(path) {
            return RenameStage::Failed(RenameError::NotCandidate { path: path.to_owned() });
        }
        RenameStage::AwaitingTimes { path: self.modify_ss_path(path) }
    }

    /// The first stage of the rename of a file that the user chose.
    pub fn process_random_image(&self, path: &str) -> (stage: RenameStage)
        ensures
            stage@ == manual_start(path@),
    {
        if !is_image(path) {
            return RenameStage::Failed(RenameError::NotAnImage { path: path.to_owned() });
        }
        RenameStage::AwaitingCaption { path: path.to_owned() }
    }

    /// The stage that follows `stage` once the work it asked for has had
    /// the outcome `event`.
    pub fn process_ss(&self, stage: RenameStage, event: RenameEvent) -> (next: RenameStage)
        ensures
            next@ == advance(stage@, event@),
    {
        match stage {
            RenameStage::AwaitingTimes { path } => match event {
                RenameEvent::Times { times, now } => {
                    if fresh(times, now, Span::from_secs(FRESHNESS_SECONDS)) {
                        RenameStage::AwaitingCaption { path }
                    } else {
                        RenameStage::Failed(RenameError::Stale { path })
                    }
                },
                _ => RenameStage::AwaitingTimes { path },
            },
            RenameStage::AwaitingCaption { path } => match event {
                RenameEvent::Captioned { caption } => {
                    match extension(path.as_str()) {
                        Some(ext) => {
                            let mut name = chars_of(caption.as_str());
                            name.push('.');
                            push_all(&mut name, ext.as_slice());
                            assert(name@ =~= renamed_file(caption@, ext@));
                            let file = text_of(name.as_slice());
                            let destination = sibling(path.as_str(), file.as_str());
                            RenameStage::Copying { source: path, destination }
                        },
                        None => RenameStage::Failed(RenameError::MissingExtension { path }),
                    }
                },
                RenameEvent::CaptionFailed(e) => RenameStage::Failed(RenameError::Caption(e)),
                _ => RenameStage::AwaitingCaption { path },
            },
            RenameStage::Copying { source, destination } => match event {
                RenameEvent::Copied { done } => {
                    if done {
                        RenameStage::Deleting { source, destination }
                    } else {
                        RenameStage::Failed(RenameError::CopyFailed { source, destination })
                    }
                },
                _ => RenameStage::Copying { source, destination },
            },
            RenameStage::Deleting { source, destination } => match event {
                RenameEvent::Deleted { done } => {
                    if done {
                        RenameStage::Renamed { path: destination }
                    } else {
                        RenameStage::Failed(RenameError::DeleteFailed { orphan: source })
                    }
                },
                _ => RenameStage::Deleting { source, destination },
            },
            RenameStage::Renamed { path } => RenameStage::Renamed { path },
            RenameStage::Failed(e) => RenameStage::Failed(e),
        }
    }

    /// Of `files`, those that name screenshots, in their order.
    pub fn screenshots_among(&self, files: Vec<String>) -> (found: Vec<String>)
        ensures
            found.deep_view() == files.deep_view().filter(|p: Seq<char>| is_screenshot_path(p)),
    {
        let mut found: Vec<String> = Vec::new();
        let ghost wanted = |p: Seq<char>| is_screenshot_path(p);
        let ghost all = files.deep_view();
        let mut i: usize = 0;
        assert(all.take(0) == Seq::<Seq<char>>::empty());
        proof {
            reveal(Seq::filter);
        }
        while i < files.len()
            invariant
                i <= files.len(),
                all == files.deep_view(),
                wanted == |p: Seq<char>| is_screenshot_path(p),
                found.deep_view() == all.take(i as int).filter(wanted),
            decreases files.len() - i,
        {
            let ghost before = found.deep_view();
            proof {
                assert(all.take(i + 1).drop_last() == all.take(i as int));
                assert(all.take(i + 1).last() == files@[i as int]@);
                reveal(Seq::filter);
            }
            if self.is_screenshot_file(files[i].as_str()) {
                found.push(files[i].clone());
                assert(found.deep_view() =~= before.push(files@[i as int]@));
            }
            i += 1;
        }
        assert(all.take(files.len() as int) == all);
        found
    }
}

/// No file is a screenshot unless its extension is `png`, whatever its
/// name.
pub proof fn lemma_other_extension_is_no_screenshot(path: Seq<char>)
    requires
        path_extension(path) != Some("png"@),
    ensures
        !is_screenshot_path(path),
{
}

/// A path with no file name, and one whose name has no extension, is no
/// screenshot and no image.
pub proof fn lemma_nameless_is_no_candidate(path: Seq<char>)
    requires
        path_file_name(path) is None || path_extension(path) is None,
    ensures
        !is_screenshot_path(path),
        !is_image_path(path),
{
}

/// Of a file name that starts with the marker of hidden files, the public
/// path takes exactly that one character and keeps the rest as it is, in
/// the same directory. A name without the marker keeps its path.
pub proof fn lemma_public_path_strips_one_marker(path: Seq<char>)
    requires
        path_file_name(path) is Some,
    ensures
        ({
            let name = path_file_name(path)->0;
            if name.len() > 0 && name[0] == HIDDEN_MARKER {
                &&& public_path(path) == sibling_path(path, name.drop_first())
                &&& seq![HIDDEN_MARKER] + name.drop_first() == name
                &&& name.drop_first().len() == name.len() - 1
            } else {
                public_path(path) == path
            }
        }),
{
    let name = path_file_name(path)->0;
    if name.len() > 0 && name[0] == HIDDEN_MARKER {
        assert(seq![HIDDEN_MARKER] + name.drop_first() =~= name);
    }
}

/// A file whose recorded time lies `max_age` or more in the past is not
/// fresh, and never becomes fresh again as time goes on.
pub proof fn lemma_old_file_stays_stale(
    times: Option<FileTimes>,
    now: Span,
    later: Span,
    max_age: Span,
)
    requires
        recorded_time(times) is Some,
        now.nanoseconds() - recorded_time(times)->0.nanoseconds() >= max_age.nanoseconds(),
        later.nanoseconds() >= now.nanoseconds(),
    ensures
        !is_fresh(times, now, max_age),
        !is_fresh(times, later, max_age),
{
}

/// A file is fresh at the moment of its recorded time under any window
/// longer than nothing, and stays fresh until the window has passed.
pub proof fn lemma_new_file_is_fresh(times: Option<FileTimes>, now: Span, max_age: Span)
    requires
        recorded_time(times) is Some,
        recorded_time(times)->0.nanoseconds() <= now.nanoseconds(),
        now.nanoseconds() - recorded_time(times)->0.nanoseconds() < max_age.nanoseconds(),
    ensures
        is_fresh(times, now, max_age),
        max_age.nanoseconds() > 0 ==> is_fresh(times, recorded_time(times)->0, max_age),
{
}

/// Freshness goes by the length of the window, not by how the length is
/// written: windows of the same length agree, and a longer window keeps
/// whatever a shorter one found fresh.
pub proof fn lemma_freshness_goes_by_length(
    times: Option<FileTimes>,
    now: Span,
    shorter: Span,
    longer: Span,
)
    requires
        shorter.nanoseconds() <= longer.nanoseconds(),
    ensures
        is_fresh(times, now, shorter) ==> is_fresh(times, now, longer),
        shorter.nanoseconds() == longer.nanoseconds() ==> is_fresh(times, now, shorter)
            == is_fresh(times, now, longer),
{
}

/// A file whose times cannot be read is not fresh.
pub proof fn lemma_unreadable_is_not_fresh(now: Span, max_age: Span)
    ensures
        !is_fresh(None, now, max_age),
{
}

/// What the files hold once `from` is copied to `to`.
pub open spec fn after_copy(files: Map<Seq<char>, Seq<u8>>, from: Seq<char>, to: Seq<char>) -> Map<
    Seq<char>,
    Seq<u8>,
> {
    files.insert(to, files[from])
}

/// What the files hold once `path` is deleted.
pub open spec fn after_delete(files: Map<Seq<char>, Seq<u8>>, path: Seq<char>) -> Map<
    Seq<char>,
    Seq<u8>,
> {
    files.remove(path)
}

/// What the files hold once the work that `stage` asks for is done.
pub open spec fn after_work(files: Map<Seq<char>, Seq<u8>>, stage: RenameStageView) -> Map<
    Seq<char>,
    Seq<u8>,
> {
    match stage {
        RenameStageView::Copying { source, destination } => after_copy(files, source, destination),
        RenameStageView::Deleting { source, destination } => after_delete(files, source),
        _ => files,
    }
}

/// A rename that goes through leaves the file under its new name, in the
/// same directory, with the bytes it had, and the old name gone; no other
/// file is touched. This holds where the new path is not the old one.
pub proof fn lemma_rename_moves_the_file(
    files: Map<Seq<char>, Seq<u8>>,
    source: Seq<char>,
    caption: Seq<char>,
)
    requires
        files.dom().contains(source),
        destination_of(source, caption) is Some,
        destination_of(source, caption)->0 != source,
    ensures
        ({
            let destination = destination_of(source, caption)->0;
            let copying = advance(
                RenameStageView::AwaitingCaption { path: source },
                RenameEventView::Captioned { caption },
            );
            let copied = after_work(files, copying);
            let deleting = advance(copying, RenameEventView::Copied { done: true });
            let done = after_work(copied, deleting);
            let end = advance(deleting, RenameEventView::Deleted { done: true });
            &&& destination == sibling_path(
                source,
                renamed_file(caption, path_extension(source)->0),
            )
            &&& copying == (RenameStageView::Copying { source, destination })
            &&& deleting == (RenameStageView::Deleting { source, destination })
            &&& end == (RenameStageView::Renamed { path: destination })
            &&& done.dom().contains(destination)
            &&& done[destination] == files[source]
            &&& !done.dom().contains(source)
            &&& forall|other: Seq<char>|
                other != source && other != destination ==> (done.dom().contains(other)
                    <==> files.dom().contains(other)) && (files.dom().contains(other)
                    ==> done[other] == files[other])
        }),
{
}

/// The new name of a renamed file has the extension of the old one, where
/// the caption is not empty and the new name is not `..`.
pub proof fn lemma_rename_keeps_the_extension(name: Seq<char>, caption: Seq<char>)
    requires
        name_extension(name) is Some,
        caption.len() > 0,
        renamed_file(caption, name_extension(name)->0) != seq!['.', '.'],
    ensures
        name_extension(renamed_file(caption, name_extension(name)->0)) == name_extension(name),
{
    crate::paths::lemma_extension_is_kept(name, caption);
}

/// A rename fails without touching the file unless a caption was had and
/// the copy was made: after a failed fetch or a failed copy nothing was
/// asked of the file system but the copy, and the source file is never
/// deleted.
pub proof fn lemma_failure_leaves_the_source(
    files: Map<Seq<char>, Seq<u8>>,
    stage: RenameStageView,
    event: RenameEventView,
)
    requires
        stage is AwaitingCaption || stage is Copying,
        advance(stage, event) is Failed,
    ensures
        after_work(files, advance(stage, event)) == files,
{
}

/// The final stages are final: no event moves a rename that is done or
/// given up.
pub proof fn lemma_final_stages_stay(stage: RenameStageView, event: RenameEventView)
    requires
        stage is Renamed || stage is Failed,
    ensures
        advance(stage, event) == stage,
{
}

} // verus!
