//! The files selected in the Finder, as the script that asks for them
//! prints them: one path on each line.

use vstd::prelude::*;
use crate::text::{chars_of, lines, split_lines, text_of, trim, trimmed};
use crate::utils::ss::CommandOutput;

verus! {

/// The paths that the text `printed` lists: its lines, each without the
/// white space around it, but for the empty ones.
pub open spec fn listed_paths(printed: Seq<char>) -> Seq<Seq<char>> {
    lines(trim(printed)).map_values(|row: Seq<char>| trim(row)).filter(
        |row: Seq<char>| row.len() > 0,
    )
}

/// The selection that `output` reports: the paths it lists, and none where
/// the script could not be run, failed, or lists no path.
pub open spec fn selection(output: Option<CommandOutput>) -> Option<Seq<Seq<char>>> {
    match output {
        Some(out) => if out.success && listed_paths(out.stdout@).len() > 0 {
            Some(listed_paths(out.stdout@))
        } else {
            None
        },
        None => None,
    }
}

/// The paths that the text `printed` lists.
pub fn parse_selection(printed: &str) -> (paths: Vec<String>)
    ensures
        paths.deep_view() == listed_paths(printed@),
{
    let cs = chars_of(printed);
    let whole = trimmed(cs.as_slice());
    let rows = split_lines(whole.as_slice());
    let ghost all = rows.deep_view().map_values(|row: Seq<char>| trim(row));
    let ghost kept = |row: Seq<char>| row.len() > 0;
    let mut paths: Vec<String> = Vec::new();
    let mut i: usize = 0;
    proof {
        reveal(Seq::filter);
        assert(all.take(0) == Seq::<Seq<char>>::empty());
    }
    while i < rows.len()
        invariant
            i <= rows.len(),
            all == rows.deep_view().map_values(|row: Seq<char>| trim(row)),
            kept == |row: Seq<char>| row.len() > 0,
            paths.deep_view() == all.take(i as int).filter(kept),
        decreases rows.len() - i,
    {
        let ghost before = paths.deep_view();
        let row = trimmed(rows[i].as_slice());
        proof {
            reveal(Seq::filter);
            assert(rows.deep_view()[i as int] =~= rows@[i as int]@);
            assert(all.take(i + 1).drop_last() == all.take(i as int));
            assert(all.take(i + 1).last() == row@);
        }
        if row.len() > 0 {
            let text = text_of(row.as_slice());
            paths.push(text);
            assert(paths.deep_view() =~= before.push(row@));
        }
        i += 1;
    }
    assert(all.take(rows.len() as int) == all);
    paths
}

/// The files selected in the Finder, where `output` is what the script that
/// asks for them gave, if it could be run.
pub fn get_finder_selection(output: Option<CommandOutput>) -> (paths: Option<Vec<String>>)
    ensures
        match paths {
            Some(p) => selection(output) == Some(p.deep_view()),
            None => selection(output) is None,
        },
{
    match output {
        Some(out) => {
            if !out.success {
                return None;
            }
            let paths = parse_selection(out.stdout.as_str());
            if paths.len() > 0 {
                Some(paths)
            } else {
                None
            }
        },
        None => None,
    }
}

/// The first of the files selected in the Finder.
pub fn get_finder_selection_single(output: Option<CommandOutput>) -> (path: Option<String>)
    ensures
        match path {
            Some(p) => selection(output) is Some && p@ == selection(output)->0[0],
            None => selection(output) is None,
        },
{
    match get_finder_selection(output) {
        Some(paths) => {
            assert(paths.deep_view()[0] == paths@[0]@);
            Some(paths[0].clone())
        },
        None => None,
    }
}

} // verus!
