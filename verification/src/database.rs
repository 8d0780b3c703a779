//! Preparation of schema-initialization SQL: strip line comments and cut the
//! script into individual nonempty statements. Reading the script and running
//! the statements against the relational store happen outside the library.

use vstd::prelude::*;
use crate::text::{join, spec_join, spec_split_char, spec_trim, split_char, trim};

verus! {

/// Where the line comment of a line starts: the first position at which two
/// dashes stand side by side, scanning from `i`.
pub open spec fn spec_comment_start(l: Seq<char>, i: int) -> Option<int>
    decreases l.len() - i,
{
    if i < 0 || i + 2 > l.len() {
        None
    } else if l[i] == '-' && l[i + 1] == '-' {
        Some(i)
    } else {
        spec_comment_start(l, i + 1)
    }
}

/// A line with its comment removed: everything before the first `--`.
pub open spec fn spec_strip_comment(l: Seq<char>) -> Seq<char> {
    match spec_comment_start(l, 0) {
        Some(i) => l.subrange(0, i),
        None => l,
    }
}

/// Remove the `--` line comment from one line.
pub fn strip_comment<'a>(line: &'a str) -> (r: &'a str)
    ensures
        r@ == spec_strip_comment(line@),
{
    let n = line.unicode_len();
    let mut i: usize = 0;
    while i < n && i + 1 < n
        invariant
            i <= n,
            n == line@.len(),
            spec_comment_start(line@, 0) == spec_comment_start(line@, i as int),
        ensures
            i <= n,
            n == line@.len(),
            spec_comment_start(line@, 0) == (if i + 1 < n && line@[i as int] == '-' && line@[i
                + 1] == '-' {
                Some(i as int)
            } else {
                None
            }),
            i + 1 < n ==> line@[i as int] == '-' && line@[i + 1] == '-',
        decreases n - i,
    {
        if line.get_char(i) == '-' && line.get_char(i + 1) == '-' {
            break;
        }
        i = i + 1;
    }
    if i < n && i + 1 < n {
        line.substring_char(0, i)
    } else {
        proof {
            assert(line@.subrange(0, n as int) =~= line@);
        }
        line.substring_char(0, n)
    }
}

/// What preparing a schema script yields: the script is cut into lines, each
/// line loses its `--` comment, the lines are rejoined, the result is cut at
/// semicolons, and every piece is trimmed; only nonempty pieces remain, in
/// script order.
pub open spec fn spec_sql_statements(contents: Seq<char>) -> Seq<Seq<char>> {
    let stripped = spec_split_char(contents, '\n').map_values(|l: Seq<char>| spec_strip_comment(l));
    let rejoined = spec_join(stripped, "\n"@);
    let pieces = spec_split_char(rejoined, ';').map_values(|p: Seq<char>| spec_trim(p));
    pieces.filter(|p: Seq<char>| p.len() > 0)
}

/// Prepare a schema-initialization script: strip `--` comments and return the
/// individual nonempty statements, trimmed, in script order.
pub fn prepare_sql_statements(contents: &String) -> (r: Vec<String>)
    ensures
        r@.map_values(|s: String| s@) == spec_sql_statements(contents@),
{
    let lines = split_char(contents, '\n');
    let ghost lv = lines@.map_values(|l: String| l@);
    let mut stripped: Vec<String> = Vec::new();
    let mut i: usize = 0;
    while i < lines.len()
        invariant
            i <= lines@.len(),
            lv == lines@.map_values(|l: String| l@),
            stripped@.len() == i,
            forall|j: int|
                0 <= j < i ==> (#[trigger] stripped@[j])@ == spec_strip_comment(lv[j]),
        decreases lines@.len() - i,
    {
        let clean = strip_comment(lines[i].as_str());
        stripped.push(String::from_str(clean));
        i = i + 1;
    }
    proof {
        assert(stripped@.map_values(|l: String| l@) =~= lv.map_values(
            |l: Seq<char>| spec_strip_comment(l),
        ));
    }
    let rejoined = join(&stripped, "\n");
    let pieces = split_char(&rejoined, ';');
    let ghost pv = pieces@.map_values(|p: String| p@);
    let ghost trimmed = pv.map_values(|p: Seq<char>| spec_trim(p));
    let mut out: Vec<String> = Vec::new();
    let mut k: usize = 0;
    proof {
        reveal(Seq::filter);
        assert(trimmed.subrange(0, 0) =~= Seq::<Seq<char>>::empty());
        assert(out@.map_values(|s: String| s@) =~= trimmed.subrange(0, 0).filter(
            |p: Seq<char>| p.len() > 0,
        ));
    }
    while k < pieces.len()
        invariant
            k <= pieces@.len(),
            pv == pieces@.map_values(|p: String| p@),
            trimmed == pv.map_values(|p: Seq<char>| spec_trim(p)),
            out@.map_values(|s: String| s@) == trimmed.subrange(0, k as int).filter(
                |p: Seq<char>| p.len() > 0,
            ),
        decreases pieces@.len() - k,
    {
        let t = trim(pieces[k].as_str());
        let ghost pre = trimmed.subrange(0, k as int);
        let ghost pred = |p: Seq<char>| p.len() > 0;
        let ghost old_view = out@.map_values(|s: String| s@);
        proof {
            reveal(Seq::filter);
            let step = trimmed.subrange(0, k + 1 as int);
            assert(step =~= pre.push(trimmed[k as int]));
            assert(step.drop_last() =~= pre);
            assert(step.last() == trimmed[k as int]);
            assert(t@ == trimmed[k as int]);
            if pred(trimmed[k as int]) {
                assert(step.filter(pred) == pre.filter(pred).push(trimmed[k as int]));
            } else {
                assert(step.filter(pred) == pre.filter(pred));
            }
        }
        if !t.is_empty() {
            out.push(String::from_str(t));
            proof {
                reveal(Seq::filter);
                assert(out@.map_values(|s: String| s@) =~= old_view.push(t@));
                assert(out@.map_values(|s: String| s@) =~= trimmed.subrange(0, k + 1 as int).filter(
                    |p: Seq<char>| p.len() > 0,
                ));
            }
        } else {
            proof {
                reveal(Seq::filter);
                assert(t@.len() == 0);
                assert(out@.map_values(|s: String| s@) =~= trimmed.subrange(0, k + 1 as int).filter(
                    |p: Seq<char>| p.len() > 0,
                ));
            }
        }
        k = k + 1;
    }
    proof {
        assert(trimmed.subrange(0, trimmed.len() as int) =~= trimmed);
    }
    out
}

} // verus!
