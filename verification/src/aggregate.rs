//! The aggregate diff text: one entry per diffed file, in listing order.

use vstd::prelude::*;

verus! {

/// One entry of the aggregate text: the file's path, a newline, the file's
/// diff text, and a trailing newline.
pub open spec fn entry_of(file: Seq<char>, diff: Seq<char>) -> Seq<char> {
    file + seq!['\n'] + diff + seq!['\n']
}

/// The aggregate text once the first `diffs.len()` of the listed `files`
/// have been diffed: the entries for `files[0], files[1], ...` paired with
/// `diffs[0], diffs[1], ...`, concatenated in that order.
pub open spec fn aggregate_of(files: Seq<Seq<char>>, diffs: Seq<Seq<char>>) -> Seq<char>
    decreases diffs.len(),
{
    if diffs.len() == 0 || files.len() == 0 {
        Seq::empty()
    } else {
        entry_of(files[0], diffs[0]) + aggregate_of(files.drop_first(), diffs.drop_first())
    }
}

} // verus!
