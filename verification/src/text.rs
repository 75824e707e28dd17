//! Splitting the changed-file listing into one relative path per line.
//!
//! The listing produced by the version-control query is one file path per
//! line. `line_seq` is the specification of the split: the maximal
//! newline-free segments of the text, in order, with empty segments dropped
//! (so a trailing newline, or a stray blank line, yields no phantom entry).

use vstd::prelude::*;
use vstd::string::StrSliceExecFns;
use vstd::string::StringExecFns;

verus! {

/// State of a front-to-back scan of `s`: the lines completed so far, and the
/// partial line pending after the last newline.
pub open spec fn scan_lines(s: Seq<char>) -> (Seq<Seq<char>>, Seq<char>)
    decreases s.len(),
{
    if s.len() == 0 {
        (Seq::empty(), Seq::empty())
    } else {
        let prev = scan_lines(s.drop_last());
        if s.last() == '\n' {
            if prev.1.len() == 0 {
                (prev.0, Seq::empty())
            } else {
                (prev.0.push(prev.1), Seq::empty())
            }
        } else {
            (prev.0, prev.1.push(s.last()))
        }
    }
}

/// The non-empty lines of `s`, in order.
pub open spec fn line_seq(s: Seq<char>) -> Seq<Seq<char>> {
    let st = scan_lines(s);
    if st.1.len() == 0 {
        st.0
    } else {
        st.0.push(st.1)
    }
}

/// Splits a changed-file listing into its lines, dropping empty ones.
pub fn split_lines(s: &str) -> (lines: Vec<String>)
    ensures
        lines.deep_view() == line_seq(s@),
{
    let n = s.unicode_len();
    let mut lines: Vec<String> = Vec::new();
    let mut start: usize = 0;
    let mut i: usize = 0;
    while i < n
        invariant
            start <= i <= n,
            n == s@.len(),
            scan_lines(s@.subrange(0, i as int)).0 == lines.deep_view(),
            scan_lines(s@.subrange(0, i as int)).1 == s@.subrange(start as int, i as int),
        decreases n - i,
    {
        let ghost pre = s@.subrange(0, i as int);
        let ghost post = s@.subrange(0, i + 1 as int);
        proof {
            assert(post.drop_last() =~= pre);
            assert(post.last() == s@[i as int]);
        }
        let c = s.get_char(i);
        if c == '\n' {
            if i > start {
                let line = s.substring_char(start, i);
                let ghost old_lines = lines.deep_view();
                lines.push(String::from_str(line));
                proof {
                    assert(lines.deep_view() =~= old_lines.push(line@));
                }
            }
            start = i + 1;
            proof {
                assert(s@.subrange(start as int, i + 1 as int) =~= Seq::<char>::empty());
            }
        } else {
            proof {
                assert(s@.subrange(start as int, i + 1 as int) =~= s@.subrange(
                    start as int,
                    i as int,
                ).push(c));
            }
        }
        i = i + 1;
    }
    proof {
        assert(s@.subrange(0, n as int) =~= s@);
    }
    if start < n {
        let line = s.substring_char(start, n);
        let ghost old_lines = lines.deep_view();
        lines.push(String::from_str(line));
        proof {
            assert(lines.deep_view() =~= old_lines.push(line@));
        }
    }
    lines
}

} // verus!
