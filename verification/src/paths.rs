//! File paths as text. What a path's components are is left to
//! `std::path`; what a file name's extension is, is decided here.

use vstd::prelude::*;
use crate::text::copy_range;

verus! {

/// The final component of `path`, as `std::path::Path::file_name` gives it:
/// `None` where the path ends in `..` or has no components.
pub uninterp spec fn path_file_name(path: Seq<char>) -> Option<Seq<char>>;

/// `path` without its final component, as `std::path::Path::parent` gives
/// it: `None` where the path ends in a root or is empty.
pub uninterp spec fn path_parent(path: Seq<char>) -> Option<Seq<char>>;

/// `rel` adjoined to `base`, as `std::path::Path::join` gives it.
pub uninterp spec fn path_join(base: Seq<char>, rel: Seq<char>) -> Seq<char>;

/// Whether the components of `base` are the first components of `path`, as
/// `std::path::Path::starts_with` decides it.
pub uninterp spec fn path_starts_with(path: Seq<char>, base: Seq<char>) -> bool;

/// The characters of an optional text.
pub open spec fn text_view(t: Option<String>) -> Option<Seq<char>> {
    match t {
        Some(s) => Some(s@),
        None => None,
    }
}

/// Calls `Path::file_name` on `path`. Trusted: the result is the component
/// that [`path_file_name`] names. A component of a path given as text is
/// itself text, so the conversion loses nothing.
#[verifier::external_body]
pub(crate) fn file_name(path: &str) -> (name: Option<String>)
    ensures
        text_view(name) == path_file_name(path@),
{
    std::path::Path::new(path).file_name().and_then(|n| n.to_str()).map(|n| n.to_string())
}

/// Calls `Path::parent` on `path`. Trusted: the result is the path that
/// [`path_parent`] names.
#[verifier::external_body]
pub(crate) fn parent(path: &str) -> (dir: Option<String>)
    ensures
        text_view(dir) == path_parent(path@),
{
    std::path::Path::new(path).parent().and_then(|d| d.to_str()).map(|d| d.to_string())
}

/// Calls `Path::join`. Trusted: the result is the path that [`path_join`]
/// names.
#[verifier::external_body]
pub(crate) fn join(base: &str, rel: &str) -> (joined: String)
    ensures
        joined@ == path_join(base@, rel@),
{
    std::path::Path::new(base).join(rel).to_string_lossy().into_owned()
}

/// Calls `Path::starts_with`. Trusted: the result is what
/// [`path_starts_with`] names.
#[verifier::external_body]
pub(crate) fn starts_with(path: &str, base: &str) -> (r: bool)
    ensures
        r == path_starts_with(path@, base@),
{
    std::path::Path::new(path).starts_with(base)
}

/// The directory that holds `path`: its parent, or `.` where it has none.
pub open spec fn directory_of(path: Seq<char>) -> Seq<char> {
    match path_parent(path) {
        Some(dir) => dir,
        None => seq!['.'],
    }
}

/// The path of the file named `name` beside `path`, in the same directory.
pub open spec fn sibling_path(path: Seq<char>, name: Seq<char>) -> Seq<char> {
    path_join(directory_of(path), name)
}

/// The index of the last `.` of `name`, or -1 if it has none.
pub open spec fn last_dot(name: Seq<char>) -> int
    decreases name.len(),
{
    if name.len() == 0 {
        -1
    } else if name.last() == '.' {
        name.len() - 1
    } else {
        last_dot(name.drop_last())
    }
}

/// The extension of a file name: what follows its last `.`. A name without
/// a `.`, a name whose only `.` is its first character, and the name `..`
/// have none.
pub open spec fn name_extension(name: Seq<char>) -> Option<Seq<char>> {
    let dot = last_dot(name);
    if dot <= 0 || name == seq!['.', '.'] {
        None
    } else {
        Some(name.skip(dot + 1))
    }
}

/// The extension of the file that `path` names, if it names one and the
/// name has an extension.
pub open spec fn path_extension(path: Seq<char>) -> Option<Seq<char>> {
    match path_file_name(path) {
        Some(name) => name_extension(name),
        None => None,
    }
}

/// An extension holds no `.`, and stands at the end of its name after one.
pub proof fn lemma_extension_shape(name: Seq<char>)
    ensures
        -1 <= last_dot(name) < name.len(),
        last_dot(name) >= 0 ==> name[last_dot(name)] == '.',
        forall|i: int| last_dot(name) < i < name.len() ==> name[i] != '.',
    decreases name.len(),
{
    if name.len() > 0 && name.last() != '.' {
        let front = name.drop_last();
        lemma_extension_shape(front);
        assert forall|i: int| last_dot(name) < i < name.len() implies name[i] != '.' by {
            if i < front.len() {
                assert(name[i] == front[i]);
            }
        }
    }
}

/// The directory that holds `path`.
pub fn directory(path: &str) -> (dir: String)
    ensures
        dir@ == directory_of(path@),
{
    match parent(path) {
        Some(dir) => dir,
        None => {
            let mut dot = String::new();
            dot.push('.');
            assert(dot@ == seq!['.']);
            dot
        },
    }
}

/// The path of the file named `name` in the directory that holds `path`.
pub fn sibling(path: &str, name: &str) -> (out: String)
    ensures
        out@ == sibling_path(path@, name@),
{
    let dir = directory(path);
    join(dir.as_str(), name)
}

/// The extension of the file name `name`.
pub fn extension_of(name: &[char]) -> (ext: Option<Vec<char>>)
    ensures
        match ext {
            Some(e) => name_extension(name@) == Some(e@),
            None => name_extension(name@) is None,
        },
{
    let mut at: usize = name.len();
    assert(name@.take(at as int) == name@);
    while at > 0 && name[at - 1] != '.'
        invariant
            at <= name.len(),
            last_dot(name@) == last_dot(name@.take(at as int)),
        decreases at,
    {
        assert(name@.take(at as int).drop_last() == name@.take(at - 1));
        at -= 1;
    }
    proof {
        lemma_extension_shape(name@.take(at as int));
    }
    // `at` is now one past the last dot, or 0 if there is none.
    if at <= 1 {
        return None;
    }
    if name.len() == 2 && name[0] == '.' {
        assert(name@ == seq!['.', '.']);
        return None;
    }
    assert(name@ != seq!['.', '.']) by {
        if name@ == seq!['.', '.'] {
            assert(name@.len() == 2);
            assert(name@[0] == '.');
        }
    }
    let e = copy_range(name, at, name.len());
    assert(name@.skip(at as int) == name@.subrange(at as int, name.len() as int));
    Some(e)
}

/// The last dot of `name` is at `k` where a dot stands at `k` and none
/// after it.
pub proof fn lemma_last_dot_at(name: Seq<char>, k: int)
    requires
        0 <= k < name.len(),
        name[k] == '.',
        forall|i: int| k < i < name.len() ==> name[i] != '.',
    ensures
        last_dot(name) == k,
    decreases name.len(),
{
    if name.last() != '.' {
        let front = name.drop_last();
        assert forall|i: int| k < i < front.len() implies front[i] != '.' by {
            assert(front[i] == name[i]);
        }
        lemma_last_dot_at(front, k);
    }
}

/// A name made of a stem that is not empty, a dot, and an extension taken
/// from another name has that extension, unless it comes out as `..`.
pub proof fn lemma_extension_is_kept(name: Seq<char>, stem: Seq<char>)
    requires
        name_extension(name) is Some,
        stem.len() > 0,
        stem + seq!['.'] + name_extension(name)->0 != seq!['.', '.'],
    ensures
        name_extension(stem + seq!['.'] + name_extension(name)->0) == name_extension(name),
{
    let ext = name_extension(name)->0;
    let made = stem + seq!['.'] + ext;
    lemma_extension_shape(name);
    assert forall|i: int| stem.len() < i < made.len() implies made[i] != '.' by {
        assert(made[i] == ext[i - stem.len() - 1]);
        assert(ext[i - stem.len() - 1] == name[last_dot(name) + 1 + (i - stem.len() - 1)]);
    }
    assert(made[stem.len() as int] == '.');
    lemma_last_dot_at(made, stem.len() as int);
    assert(made.skip(stem.len() as int + 1) == ext);
}

} // verus!
