//! Extraction of the focused window's capture geometry from the compositor's
//! window report.
//!
//! The surrounding application runs the report command and the capture tool;
//! this module says exactly which region string is handed to the capture.

use vstd::prelude::*;
use crate::text::{
    after_first, after_first_sub, chars_of, contains_seq, contains_sub, lemma_deep_view_chars,
    lines_of, lines_spec, replace_char, replaced, string_of, trim_chars, trimmed,
};

verus! {

/// The index of the first line at or after `k` that contains `p`, if any.
pub open spec fn first_line_with(lines: Seq<Seq<char>>, p: Seq<char>, k: int) -> Option<int>
    decreases lines.len() - k,
{
    if k < 0 || k >= lines.len() {
        None
    } else if contains_seq(lines[k], p) {
        Some(k)
    } else {
        first_line_with(lines, p, k + 1)
    }
}

proof fn lemma_first_line_with_prefix(lines: Seq<Seq<char>>, p: Seq<char>, j: int)
    requires
        0 <= j <= lines.len(),
        forall|k: int| 0 <= k < j ==> !contains_seq(#[trigger] lines[k], p),
    ensures
        first_line_with(lines, p, 0) == first_line_with(lines, p, j),
    decreases j,
{
    if j > 0 {
        lemma_first_line_with_prefix(lines, p, j - 1);
    }
}

/// The position value reported for the focused window: the text after the
/// first position marker of the first line that carries one, trimmed.
pub open spec fn window_at(s: Seq<char>) -> Option<Seq<char>> {
    let ls = lines_spec(s);
    match first_line_with(ls, "at:"@, 0) {
        Some(i) => Some(trimmed(after_first(ls[i], "at:"@))),
        None => None,
    }
}

/// The size value reported for the focused window: the text after the first
/// size marker of the first line that carries one, trimmed, with the
/// dimension separator rewritten from a comma to an 'x'.
pub open spec fn window_size(s: Seq<char>) -> Option<Seq<char>> {
    let ls = lines_spec(s);
    match first_line_with(ls, "size:"@, 0) {
        Some(i) => Some(replaced(trimmed(after_first(ls[i], "size:"@)), ',', 'x')),
        None => None,
    }
}

/// The capture region of the focused window: its position and its rewritten
/// size joined with a comma, or nothing when the report lacks either value.
pub open spec fn window_geometry(s: Seq<char>) -> Option<Seq<char>> {
    match (window_at(s), window_size(s)) {
        (Some(at), Some(size)) => Some(at + ","@ + size),
        _ => None,
    }
}

/// The index of the first line of `ls` that contains `p`, if any.
fn find_line_with(ls: &Vec<Vec<char>>, p: &Vec<char>) -> (r: Option<usize>)
    ensures
        match r {
            Some(i) => i < ls@.len() && first_line_with(ls.deep_view(), p@, 0) == Some(i as int),
            None => first_line_with(ls.deep_view(), p@, 0) is None,
        },
{
    proof {
        lemma_deep_view_chars(*ls);
    }
    let ghost lv = ls.deep_view();
    let n = ls.len();
    let mut i: usize = 0;
    while i < n
        invariant
            lv == ls.deep_view(),
            n == ls@.len(),
            lv.len() == n,
            forall|j: int| 0 <= j < n ==> lv[j] == ls@[j]@,
            i <= n,
            forall|k: int| 0 <= k < i ==> !contains_seq(#[trigger] lv[k], p@),
        decreases n - i,
    {
        if contains_sub(ls[i].as_slice(), p.as_slice()) {
            proof {
                lemma_first_line_with_prefix(lv, p@, i as int);
            }
            return Some(i);
        }
        i += 1;
    }
    proof {
        lemma_first_line_with_prefix(lv, p@, n as int);
    }
    None
}

/// Extracts the focused window's capture region from the compositor's window
/// report: the position after the first position marker and the size after
/// the first size marker, joined as one region string. Nothing is returned
/// when either marker is missing, and the caller is then to issue no capture
/// call and report the failure.
pub fn focused_window_geometry(output: &str) -> (r: Option<String>)
    ensures
        r is Some <==> window_geometry(output@) is Some,
        r matches Some(g) ==> window_geometry(output@) == Some(g@),
{
    let cs = chars_of(output);
    let ls = lines_of(cs.as_slice());
    proof {
        lemma_deep_view_chars(ls);
    }
    let at_marker = chars_of("at:");
    let size_marker = chars_of("size:");
    let at_idx = find_line_with(&ls, &at_marker);
    let size_idx = find_line_with(&ls, &size_marker);
    match (at_idx, size_idx) {
        (Some(a), Some(sz)) => {
            let at_raw = after_first_sub(ls[a].as_slice(), at_marker.as_slice());
            let at_part = trim_chars(at_raw.as_slice());
            let size_raw = after_first_sub(ls[sz].as_slice(), size_marker.as_slice());
            let size_trimmed = trim_chars(size_raw.as_slice());
            let size_part = replace_char(size_trimmed.as_slice(), ',', 'x');
            let mut g = at_part;
            g.push(',');
            crate::text::append_chars(&mut g, size_part.as_slice());
            proof {
                reveal_strlit(",");
                assert(g@ =~= window_at(output@)->0 + ","@ + window_size(output@)->0);
            }
            Some(string_of(g.as_slice()))
        },
        _ => None,
    }
}

} // verus!
