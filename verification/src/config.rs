//! The configuration as the graphical shell sees it: read from what the
//! command-line program prints.

use vstd::prelude::*;
use crate::text::{chars_of, has_prefix, join, join_rows, lines, split_lines, starts_with, text_of};

verus! {

/// What the user has configured.
#[derive(Debug, Clone)]
pub struct Config {
    pub openai_api_key: Option<String>,
    pub openai_prompt_file_path: Option<String>,
    pub openai_model: Option<String>,
}

/// The index of the last of `rows` that starts with `mark`; 0 where none does.
pub open spec fn last_starting(rows: Seq<Seq<char>>, mark: Seq<char>) -> int
    decreases rows.len(),
{
    if rows.len() == 0 {
        0
    } else if has_prefix(rows.last(), mark) {
        rows.len() - 1
    } else {
        last_starting(rows.drop_last(), mark)
    }
}

/// The JSON object in what was printed: the lines from the last one that
/// starts with `{` to the last one that starts with `}`, joined by line
/// feeds. `None` where the closing line stands before the opening one.
pub open spec fn printed_object(output: Seq<char>) -> Option<Seq<char>> {
    let rows = lines(output);
    let open = last_starting(rows, "{"@);
    let close = last_starting(rows, "}"@);
    if close < open {
        None
    } else if rows.len() == 0 {
        Some(Seq::<char>::empty())
    } else {
        Some(join(rows.subrange(open, close + 1), "\n"@))
    }
}

/// The index that [`last_starting`] gives is an index of `rows`, where
/// there are any.
pub proof fn lemma_last_starting_bound(rows: Seq<Seq<char>>, mark: Seq<char>)
    ensures
        0 <= last_starting(rows, mark),
        rows.len() > 0 ==> last_starting(rows, mark) < rows.len(),
    decreases rows.len(),
{
    if rows.len() > 0 && !has_prefix(rows.last(), mark) {
        lemma_last_starting_bound(rows.drop_last(), mark);
    }
}

impl Config {
    /// The JSON object in `output`, which may hold other lines before and
    /// after it.
    pub fn filter(output: &str) -> (object: Option<String>)
        ensures
            match object {
                Some(text) => printed_object(output@) == Some(text@),
                None => printed_object(output@) is None,
            },
    {
        let cs = chars_of(output);
        let rows = split_lines(cs.as_slice());
        let open_mark = chars_of("{");
        let close_mark = chars_of("}");
        let ghost all = rows.deep_view();
        let mut open: usize = 0;
        let mut close: usize = 0;
        let mut k: usize = 0;
        while k < rows.len()
            invariant
                k <= rows.len(),
                all == rows.deep_view(),
                open_mark@ == "{"@,
                close_mark@ == "}"@,
                open == last_starting(all.take(k as int), "{"@),
                close == last_starting(all.take(k as int), "}"@),
            decreases rows.len() - k,
        {
            proof {
                assert(all.take(k + 1).drop_last() == all.take(k as int));
                assert(all.take(k + 1).last() =~= rows@[k as int]@);
            }
            if starts_with(rows[k].as_slice(), open_mark.as_slice()) {
                open = k;
            }
            if starts_with(rows[k].as_slice(), close_mark.as_slice()) {
                close = k;
            }
            k += 1;
        }
        assert(all.take(rows.len() as int) == all);
        if close < open {
            return None;
        }
        if rows.len() == 0 {
            return Some(String::new());
        }
        proof {
            lemma_last_starting_bound(all, "}"@);
        }
        let newline = chars_of("\n");
        let joined = join_rows(&rows, open, close + 1, newline.as_slice());
        Some(text_of(joined.as_slice()))
    }
}

} // verus!
