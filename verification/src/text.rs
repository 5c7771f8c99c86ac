//! Verified text toolkit: conversions between strings and character vectors,
//! prefix/suffix/substring predicates, tokenization, and decimal rendering of
//! integers and milli-unit fixed-point values.
//!
//! Every operation is specified against `Seq<char>` views, so the command and
//! directive builders elsewhere in the crate can pin their output exactly.

use vstd::prelude::*;
use vstd::string::*;

verus! {

/// Relies on std's `String::push`: appends exactly the one character.
#[verifier::external_body]
pub(crate) fn push_char(s: &mut String, c: char)
    ensures
        final(s)@ == old(s)@.push(c),
{
    s.push(c);
}

/// The characters of `s`, in order.
pub fn chars_of(s: &str) -> (r: Vec<char>)
    ensures
        r@ == s@,
{
    let n = s.unicode_len();
    let mut r: Vec<char> = Vec::new();
    let mut i: usize = 0;
    while i < n
        invariant
            i <= n,
            n == s@.len(),
            r@ == s@.take(i as int),
        decreases n - i,
    {
        r.push(s.get_char(i));
        i += 1;
        assert(r@ =~= s@.take(i as int));
    }
    assert(s@.take(n as int) =~= s@);
    r
}

/// The string holding exactly the characters of `cs`.
pub fn string_of(cs: &[char]) -> (r: String)
    ensures
        r@ == cs@,
{
    let mut r = String::new();
    let mut i: usize = 0;
    while i < cs.len()
        invariant
            i <= cs@.len(),
            r@ == cs@.take(i as int),
        decreases cs@.len() - i,
    {
        push_char(&mut r, cs[i]);
        i += 1;
        assert(r@ =~= cs@.take(i as int));
    }
    assert(cs@.take(cs@.len() as int) =~= cs@);
    r
}

/// `p` is a prefix of `s`.
pub open spec fn starts_with(s: Seq<char>, p: Seq<char>) -> bool {
    p.len() <= s.len() && s.take(p.len() as int) == p
}

/// `p` is a suffix of `s`.
pub open spec fn ends_with(s: Seq<char>, p: Seq<char>) -> bool {
    p.len() <= s.len() && s.skip(s.len() - p.len()) == p
}

pub fn has_prefix(s: &[char], p: &[char]) -> (r: bool)
    ensures
        r == starts_with(s@, p@),
{
    if p.len() > s.len() {
        return false;
    }
    let mut i: usize = 0;
    while i < p.len()
        invariant
            i <= p@.len() <= s@.len(),
            forall|j: int| 0 <= j < i ==> s@[j] == p@[j],
        decreases p@.len() - i,
    {
        if s[i] != p[i] {
            assert(s@.take(p@.len() as int)[i as int] != p@[i as int]);
            return false;
        }
        i += 1;
    }
    assert(s@.take(p@.len() as int) =~= p@);
    true
}

pub fn has_suffix(s: &[char], p: &[char]) -> (r: bool)
    ensures
        r == ends_with(s@, p@),
{
    if p.len() > s.len() {
        return false;
    }
    let off = s.len() - p.len();
    let mut i: usize = 0;
    while i < p.len()
        invariant
            i <= p@.len() <= s@.len(),
            off == s@.len() - p@.len(),
            off + p@.len() <= usize::MAX,
            forall|j: int| 0 <= j < i ==> s@[off + j] == p@[j],
        decreases p@.len() - i,
    {
        if s[off + i] != p[i] {
            assert(s@.skip(off as int)[i as int] != p@[i as int]);
            return false;
        }
        i += 1;
    }
    assert(s@.skip(off as int) =~= p@);
    true
}

/// The decimal digit `d` as a character.
pub open spec fn digit_char(d: int) -> char {
    if d == 0 {
        '0'
    } else if d == 1 {
        '1'
    } else if d == 2 {
        '2'
    } else if d == 3 {
        '3'
    } else if d == 4 {
        '4'
    } else if d == 5 {
        '5'
    } else if d == 6 {
        '6'
    } else if d == 7 {
        '7'
    } else if d == 8 {
        '8'
    } else {
        '9'
    }
}

/// The decimal digits of `n`, most significant first, with no sign and no
/// leading zeros (`0` renders as "0").
pub open spec fn dec_str(n: nat) -> Seq<char>
    decreases n,
{
    if n < 10 {
        seq![digit_char(n as int)]
    } else {
        dec_str(n / 10) + seq![digit_char((n % 10) as int)]
    }
}

/// The decimal rendering of `n`, with a leading '-' when negative.
pub open spec fn int_str(n: int) -> Seq<char> {
    if n < 0 {
        seq!['-'] + dec_str((-n) as nat)
    } else {
        dec_str(n as nat)
    }
}

fn digit_of(d: u64) -> (c: char)
    requires
        d < 10,
    ensures
        c == digit_char(d as int),
{
    if d == 0 {
        '0'
    } else if d == 1 {
        '1'
    } else if d == 2 {
        '2'
    } else if d == 3 {
        '3'
    } else if d == 4 {
        '4'
    } else if d == 5 {
        '5'
    } else if d == 6 {
        '6'
    } else if d == 7 {
        '7'
    } else if d == 8 {
        '8'
    } else {
        '9'
    }
}

/// Appends the decimal rendering of `n` to `s`.
pub fn push_u64(s: &mut String, n: u64)
    ensures
        final(s)@ == old(s)@ + dec_str(n as nat),
    decreases n,
{
    if n < 10 {
        push_char(s, digit_of(n));
        assert(final(s)@ =~= old(s)@ + dec_str(n as nat));
    } else {
        push_u64(s, n / 10);
        push_char(s, digit_of(n % 10));
        assert(final(s)@ =~= old(s)@ + dec_str(n as nat));
    }
}

/// Appends the decimal rendering of `n`, sign included, to `s`.
pub fn push_i64(s: &mut String, n: i64)
    requires
        n > i64::MIN,
    ensures
        final(s)@ == old(s)@ + int_str(n as int),
{
    if n < 0 {
        push_char(s, '-');
        push_u64(s, (-n) as u64);
        assert(final(s)@ =~= old(s)@ + int_str(n as int));
    } else {
        push_u64(s, n as u64);
    }
}

/// The fractional digits of a milli-unit remainder `f` (1..=999): leading
/// zeros kept, trailing zeros dropped.
pub open spec fn frac_str(f: nat) -> Seq<char>
    recommends
        1 <= f < 1000,
{
    let d1 = digit_char((f / 100) as int);
    let d2 = digit_char(((f / 10) % 10) as int);
    let d3 = digit_char((f % 10) as int);
    if f % 10 != 0 {
        seq![d1, d2, d3]
    } else if (f / 10) % 10 != 0 {
        seq![d1, d2]
    } else {
        seq![d1]
    }
}

/// The rendering of `m` thousandths: the whole part in decimal, then, when the
/// remainder is not zero, a '.' and the fractional digits without trailing
/// zeros. `1000` renders as "1", `1250` as "1.25".
pub open spec fn milli_str(m: nat) -> Seq<char> {
    if m % 1000 == 0 {
        dec_str(m / 1000)
    } else {
        dec_str(m / 1000) + seq!['.'] + frac_str(m % 1000)
    }
}

/// `p` occurs in `s` at position `k`.
pub open spec fn match_at(s: Seq<char>, p: Seq<char>, k: int) -> bool {
    0 <= k && k + p.len() <= s.len() && s.subrange(k, k + p.len()) == p
}

/// `p` occurs somewhere in `s`.
pub open spec fn contains_seq(s: Seq<char>, p: Seq<char>) -> bool {
    exists|k: int| match_at(s, p, k)
}

fn matches_at(s: &[char], p: &[char], k: usize) -> (r: bool)
    requires
        k + p@.len() <= s@.len(),
    ensures
        r == match_at(s@, p@, k as int),
{
    let n = s.len();
    let mut i: usize = 0;
    while i < p.len()
        invariant
            i <= p@.len(),
            n == s@.len(),
            k + p@.len() <= s@.len(),
            forall|j: int| 0 <= j < i ==> s@[k + j] == p@[j],
        decreases p@.len() - i,
    {
        if s[k + i] != p[i] {
            assert(s@.subrange(k as int, k + p@.len())[i as int] != p@[i as int]);
            return false;
        }
        i += 1;
    }
    assert(s@.subrange(k as int, k + p@.len()) =~= p@);
    true
}

/// The position of the first occurrence of `p` in `s`, if any.
pub fn find_sub(s: &[char], p: &[char]) -> (r: Option<usize>)
    ensures
        match r {
            Some(k) => match_at(s@, p@, k as int) && forall|j: int|
                0 <= j < k ==> !match_at(s@, p@, j),
            None => !contains_seq(s@, p@),
        },
{
    if p.len() > s.len() {
        return None;
    }
    if p.len() == 0 {
        assert(s@.subrange(0, 0) =~= p@);
        return Some(0);
    }
    let n = s.len();
    let last = n - p.len();
    let mut k: usize = 0;
    while k <= last
        invariant
            n == s@.len(),
            p@.len() >= 1,
            last == s@.len() - p@.len() >= 0,
            k <= last + 1,
            forall|j: int| 0 <= j < k ==> !match_at(s@, p@, j),
        decreases last - k + 1,
    {
        if matches_at(s, p, k) {
            return Some(k);
        }
        k += 1;
    }
    None
}

/// `s` contains `p` as a contiguous substring.
pub fn contains_sub(s: &[char], p: &[char]) -> (r: bool)
    ensures
        r == contains_seq(s@, p@),
{
    find_sub(s, p).is_some()
}

/// `s` with every occurrence of the character `from` replaced by `to`.
pub open spec fn replaced(s: Seq<char>, from: char, to: char) -> Seq<char> {
    s.map_values(|c: char| if c == from { to } else { c })
}

pub fn replace_char(s: &[char], from: char, to: char) -> (r: Vec<char>)
    ensures
        r@ == replaced(s@, from, to),
{
    let mut r: Vec<char> = Vec::new();
    let mut i: usize = 0;
    while i < s.len()
        invariant
            i <= s@.len(),
            r@ == replaced(s@.take(i as int), from, to),
        decreases s@.len() - i,
    {
        let c = s[i];
        r.push(if c == from { to } else { c });
        i += 1;
        assert(r@ =~= replaced(s@.take(i as int), from, to));
    }
    assert(s@.take(s@.len() as int) =~= s@);
    r
}

/// An ASCII whitespace character, as used by the tokenizers in this crate.
pub open spec fn is_space(c: char) -> bool {
    c == ' ' || c == '\t' || c == '\n' || c == '\r' || c == '\u{b}' || c == '\u{c}'
}

fn is_space_exec(c: char) -> (r: bool)
    ensures
        r == is_space(c),
{
    c == ' ' || c == '\t' || c == '\n' || c == '\r' || c == '\u{b}' || c == '\u{c}'
}

/// `s` without its leading whitespace.
pub open spec fn trimmed_start(s: Seq<char>) -> Seq<char>
    decreases s.len(),
{
    if s.len() > 0 && is_space(s[0]) {
        trimmed_start(s.skip(1))
    } else {
        s
    }
}

/// `s` without its trailing whitespace.
pub open spec fn trimmed_end(s: Seq<char>) -> Seq<char>
    decreases s.len(),
{
    if s.len() > 0 && is_space(s[s.len() - 1]) {
        trimmed_end(s.take(s.len() - 1))
    } else {
        s
    }
}

/// `s` without leading and trailing whitespace.
pub open spec fn trimmed(s: Seq<char>) -> Seq<char> {
    trimmed_end(trimmed_start(s))
}

proof fn lemma_trimmed_start_skip(s: Seq<char>, i: int)
    requires
        0 <= i <= s.len(),
        forall|j: int| 0 <= j < i ==> is_space(s[j]),
    ensures
        trimmed_start(s) == trimmed_start(s.skip(i)),
    decreases i,
{
    if i > 0 {
        assert(trimmed_start(s) == trimmed_start(s.skip(1)));
        assert(s.skip(1).skip(i - 1) =~= s.skip(i));
        lemma_trimmed_start_skip(s.skip(1), i - 1);
    } else {
        assert(s.skip(0) =~= s);
    }
}

proof fn lemma_trimmed_end_take(s: Seq<char>, i: int)
    requires
        0 <= i <= s.len(),
        forall|j: int| i <= j < s.len() ==> is_space(s[j]),
    ensures
        trimmed_end(s) == trimmed_end(s.take(i)),
    decreases s.len() - i,
{
    if i < s.len() {
        assert(trimmed_end(s) == trimmed_end(s.take(s.len() - 1)));
        assert(s.take(s.len() - 1).take(i) =~= s.take(i));
        lemma_trimmed_end_take(s.take(s.len() - 1), i);
    } else {
        assert(s.take(s.len() as int) =~= s);
    }
}

/// The characters of `s` with leading and trailing whitespace removed.
pub fn trim_chars(s: &[char]) -> (r: Vec<char>)
    ensures
        r@ == trimmed(s@),
{
    let mut lo: usize = 0;
    while lo < s.len() && is_space_exec(s[lo])
        invariant
            lo <= s@.len(),
            forall|j: int| 0 <= j < lo ==> is_space(s@[j]),
        decreases s@.len() - lo,
    {
        lo += 1;
    }
    proof {
        lemma_trimmed_start_skip(s@, lo as int);
        if lo < s@.len() {
            assert(trimmed_start(s@.skip(lo as int)) == s@.skip(lo as int));
        } else {
            assert(s@.skip(lo as int) =~= Seq::<char>::empty());
            assert(trimmed_start(s@.skip(lo as int)) =~= s@.skip(lo as int));
        }
    }
    let ghost t = s@.skip(lo as int);
    let mut hi: usize = s.len();
    while hi > lo && is_space_exec(s[hi - 1])
        invariant
            lo <= hi <= s@.len(),
            forall|j: int| hi <= j < s@.len() ==> is_space(s@[j]),
        decreases hi,
    {
        hi -= 1;
    }
    proof {
        assert(forall|j: int| hi - lo <= j < t.len() ==> is_space(t[j]));
        lemma_trimmed_end_take(t, hi - lo);
        if hi > lo {
            assert(!is_space(t[hi - lo - 1]));
            assert(trimmed_end(t.take(hi - lo)) == t.take(hi - lo));
        } else {
            assert(t.take(hi - lo) =~= Seq::<char>::empty());
            assert(trimmed_end(t.take(hi - lo)) =~= t.take(hi - lo));
        }
    }
    let mut r: Vec<char> = Vec::new();
    let mut i: usize = lo;
    while i < hi
        invariant
            lo <= i <= hi <= s@.len(),
            r@ == s@.subrange(lo as int, i as int),
        decreases hi - i,
    {
        r.push(s[i]);
        i += 1;
        assert(r@ =~= s@.subrange(lo as int, i as int));
    }
    assert(r@ =~= t.take(hi - lo));
    r
}

/// The two character sequences are equal.
pub fn chars_eq(a: &[char], b: &[char]) -> (r: bool)
    ensures
        r == (a@ == b@),
{
    if a.len() != b.len() {
        return false;
    }
    let mut i: usize = 0;
    while i < a.len()
        invariant
            i <= a@.len() == b@.len(),
            forall|j: int| 0 <= j < i ==> a@[j] == b@[j],
        decreases a@.len() - i,
    {
        if a[i] != b[i] {
            return false;
        }
        i += 1;
    }
    assert(a@ =~= b@);
    true
}

/// Appends all of `src` to `dst`.
pub fn append_chars(dst: &mut Vec<char>, src: &[char])
    ensures
        final(dst)@ == old(dst)@ + src@,
{
    let mut i: usize = 0;
    while i < src.len()
        invariant
            i <= src@.len(),
            dst@ == old(dst)@ + src@.take(i as int),
        decreases src@.len() - i,
    {
        dst.push(src[i]);
        i += 1;
        assert(dst@ =~= old(dst)@ + src@.take(i as int));
    }
    assert(old(dst)@ + src@.take(src@.len() as int) =~= old(dst)@ + src@);
}

/// The pieces of `s` between occurrences of the separator `c`, in order,
/// empty pieces kept; the empty input yields one empty piece.
pub open spec fn split_char_spec(s: Seq<char>, c: char) -> Seq<Seq<char>>
    decreases s.len(),
{
    if s.len() == 0 {
        seq![Seq::<char>::empty()]
    } else {
        let prev = split_char_spec(s.drop_last(), c);
        if s.last() == c {
            prev.push(Seq::<char>::empty())
        } else {
            prev.update(prev.len() - 1, prev.last().push(s.last()))
        }
    }
}

pub proof fn lemma_split_char_len(s: Seq<char>, c: char)
    ensures
        split_char_spec(s, c).len() >= 1,
    decreases s.len(),
{
    if s.len() > 0 {
        lemma_split_char_len(s.drop_last(), c);
    }
}

/// The deep view of a vector of character vectors is its views, elementwise.
pub proof fn lemma_deep_view_chars(v: Vec<Vec<char>>)
    ensures
        v.deep_view().len() == v@.len(),
        forall|j: int| 0 <= j < v@.len() ==> v.deep_view()[j] == v@[j]@,
{
    assert forall|j: int| 0 <= j < v@.len() implies v.deep_view()[j] == v@[j]@ by {
        assert(v@[j].deep_view() =~= v@[j]@);
    }
}

pub fn split_char(s: &[char], c: char) -> (r: Vec<Vec<char>>)
    ensures
        r.deep_view() == split_char_spec(s@, c),
        r@.len() >= 1,
{
    let mut r: Vec<Vec<char>> = Vec::new();
    let mut cur: Vec<char> = Vec::new();
    let mut i: usize = 0;
    while i < s.len()
        invariant
            i <= s@.len(),
            r.deep_view().push(cur@) == split_char_spec(s@.take(i as int), c),
        decreases s@.len() - i,
    {
        let ghost pre = s@.take(i as int);
        let ghost rd = r.deep_view();
        let ghost curv = cur@;
        if s[i] == c {
            r.push(cur);
            cur = Vec::new();
            assert(r.deep_view() =~~= rd.push(curv));
        } else {
            cur.push(s[i]);
        }
        i += 1;
        proof {
            let post = s@.take(i as int);
            assert(post.drop_last() =~= pre);
            lemma_split_char_len(pre, c);
            if s@[i - 1] == c {
                assert(r.deep_view().push(cur@) =~~= split_char_spec(pre, c).push(
                    Seq::<char>::empty(),
                ));
            } else {
                assert(r.deep_view().push(cur@) =~~= split_char_spec(pre, c).update(
                    split_char_spec(pre, c).len() - 1,
                    split_char_spec(pre, c).last().push(s@[i - 1]),
                ));
            }
        }
    }
    let ghost rd = r.deep_view();
    let ghost curv = cur@;
    r.push(cur);
    proof {
        assert(r.deep_view() =~~= rd.push(curv));
        assert(s@.take(s@.len() as int) =~= s@);
        lemma_split_char_len(s@, c);
    }
    r
}

/// The maximal runs of non-whitespace characters of `s`, in order.
pub open spec fn split_ws_spec(s: Seq<char>) -> Seq<Seq<char>>
    decreases s.len(),
{
    if s.len() == 0 {
        Seq::<Seq<char>>::empty()
    } else {
        let prev = split_ws_spec(s.drop_last());
        if is_space(s.last()) {
            prev
        } else if s.len() >= 2 && !is_space(s[s.len() - 2]) {
            prev.update(prev.len() - 1, prev.last().push(s.last()))
        } else {
            prev.push(seq![s.last()])
        }
    }
}

pub fn split_ws(s: &[char]) -> (r: Vec<Vec<char>>)
    ensures
        r.deep_view() == split_ws_spec(s@),
{
    let mut r: Vec<Vec<char>> = Vec::new();
    let mut cur: Vec<char> = Vec::new();
    let mut i: usize = 0;
    while i < s.len()
        invariant
            i <= s@.len(),
            cur@.len() > 0 ==> i > 0 && !is_space(s@[i - 1]) && r.deep_view().push(cur@)
                == split_ws_spec(s@.take(i as int)),
            cur@.len() == 0 ==> (i == 0 || is_space(s@[i - 1])) && r.deep_view()
                == split_ws_spec(s@.take(i as int)),
        decreases s@.len() - i,
    {
        let ghost pre = s@.take(i as int);
        let ghost rd = r.deep_view();
        let ghost curv = cur@;
        let ch = s[i];
        if is_space_exec(ch) {
            if cur.len() > 0 {
                r.push(cur);
                cur = Vec::new();
                assert(r.deep_view() =~~= rd.push(curv));
            }
        } else {
            cur.push(ch);
        }
        i += 1;
        proof {
            let post = s@.take(i as int);
            assert(post.drop_last() =~= pre);
            if !is_space(s@[i - 1]) {
                if curv.len() > 0 {
                    assert(split_ws_spec(pre).last() == curv);
                    assert(r.deep_view().push(cur@) =~~= split_ws_spec(pre).update(
                        split_ws_spec(pre).len() - 1,
                        split_ws_spec(pre).last().push(s@[i - 1]),
                    ));
                } else {
                    assert(r.deep_view().push(cur@) =~~= split_ws_spec(pre).push(
                        seq![s@[i - 1]],
                    ));
                }
            }
        }
    }
    if cur.len() > 0 {
        let ghost rd = r.deep_view();
        let ghost curv = cur@;
        r.push(cur);
        assert(r.deep_view() =~~= rd.push(curv));
    }
    assert(s@.take(s@.len() as int) =~= s@);
    r
}

/// `l` without one trailing carriage return, if it has one.
pub open spec fn strip_cr(l: Seq<char>) -> Seq<char> {
    if l.len() > 0 && l[l.len() - 1] == '\r' {
        l.take(l.len() - 1)
    } else {
        l
    }
}

/// The lines of `s`: pieces between newlines, each newline-terminated piece
/// without a trailing carriage return, and no empty piece after a final
/// newline.
pub open spec fn lines_spec(s: Seq<char>) -> Seq<Seq<char>> {
    let ps = split_char_spec(s, '\n');
    let q = Seq::new(
        ps.len(),
        |i: int| if i < ps.len() - 1 { strip_cr(ps[i]) } else { ps[i] },
    );
    if q.last().len() == 0 {
        q.drop_last()
    } else {
        q
    }
}

/// A copy of the first `k` characters of `v`.
pub fn prefix_of(v: &[char], k: usize) -> (r: Vec<char>)
    requires
        k <= v@.len(),
    ensures
        r@ == v@.take(k as int),
{
    let mut r: Vec<char> = Vec::new();
    let mut i: usize = 0;
    while i < k
        invariant
            i <= k <= v@.len(),
            r@ == v@.take(i as int),
        decreases k - i,
    {
        r.push(v[i]);
        i += 1;
        assert(r@ =~= v@.take(i as int));
    }
    r
}

pub fn lines_of(s: &[char]) -> (r: Vec<Vec<char>>)
    ensures
        r.deep_view() == lines_spec(s@),
{
    let ps = split_char(s, '\n');
    let ghost ps0 = ps.deep_view();
    proof {
        lemma_deep_view_chars(ps);
    }
    let n = ps.len();
    let mut r: Vec<Vec<char>> = Vec::new();
    let mut i: usize = 0;
    while i < n
        invariant
            n == ps@.len() >= 1,
            i <= n,
            ps0 == split_char_spec(s@, '\n'),
            ps0.len() == n,
            forall|j: int| 0 <= j < n ==> ps0[j] == ps@[j]@,
            r@.len() == i,
            forall|j: int|
                0 <= j < i ==> r@[j]@ == (if j < n - 1 {
                    strip_cr(ps0[j])
                } else {
                    ps0[j]
                }),
        decreases n - i,
    {
        let li = ps[i].len();
        if i < n - 1 && li > 0 && ps[i][li - 1] == '\r' {
            let piece = prefix_of(ps[i].as_slice(), li - 1);
            assert(piece@ =~= strip_cr(ps0[i as int]));
            r.push(piece);
        } else {
            let piece = prefix_of(ps[i].as_slice(), li);
            assert(piece@ =~= ps0[i as int]);
            r.push(piece);
        }
        i += 1;
    }
    let ghost q = Seq::new(
        ps0.len(),
        |j: int| if j < ps0.len() - 1 { strip_cr(ps0[j]) } else { ps0[j] },
    );
    proof {
        lemma_deep_view_chars(r);
        assert(r.deep_view() =~= q);
    }
    let rl = r.len();
    if r[rl - 1].len() == 0 {
        let ghost before = r.deep_view();
        r.pop();
        proof {
            assert(r.deep_view() =~~= before.drop_last());
        }
    }
    r
}

/// The parts joined with single spaces.
pub open spec fn join_space_spec(parts: Seq<Seq<char>>) -> Seq<char>
    decreases parts.len(),
{
    if parts.len() == 0 {
        Seq::<char>::empty()
    } else if parts.len() == 1 {
        parts[0]
    } else {
        join_space_spec(parts.drop_last()) + seq![' '] + parts.last()
    }
}

pub fn join_space(parts: &Vec<Vec<char>>, from: usize) -> (r: Vec<char>)
    requires
        from <= parts@.len(),
    ensures
        r@ == join_space_spec(parts.deep_view().skip(from as int)),
{
    let mut r: Vec<char> = Vec::new();
    let mut i: usize = from;
    while i < parts.len()
        invariant
            from <= i <= parts@.len(),
            parts.deep_view().len() == parts@.len(),
            r@ == join_space_spec(parts.deep_view().subrange(from as int, i as int)),
        decreases parts@.len() - i,
    {
        let ghost pre = parts.deep_view().subrange(from as int, i as int);
        if i > from {
            r.push(' ');
        }
        append_chars(&mut r, parts[i].as_slice());
        i += 1;
        proof {
            let post = parts.deep_view().subrange(from as int, i as int);
            assert(post.drop_last() =~= pre);
            assert(post.last() == parts.deep_view()[i - 1]);
            if pre.len() == 0 {
                assert(r@ =~= join_space_spec(post));
            } else {
                assert(r@ =~= join_space_spec(pre) + seq![' '] + post.last());
            }
        }
    }
    assert(parts.deep_view().subrange(from as int, parts@.len() as int) =~= parts.deep_view().skip(
        from as int,
    ));
    r
}


/// The position of the first occurrence of `p` in `s` at or after `k`.
pub open spec fn find_from(s: Seq<char>, p: Seq<char>, k: int) -> Option<int>
    decreases s.len() + 1 - k,
{
    if k < 0 || k + p.len() > s.len() {
        None
    } else if match_at(s, p, k) {
        Some(k)
    } else {
        find_from(s, p, k + 1)
    }
}

/// The position of the first occurrence of `p` in `s`, if any.
pub open spec fn find_first(s: Seq<char>, p: Seq<char>) -> Option<int> {
    find_from(s, p, 0)
}

pub proof fn lemma_find_from_skip(s: Seq<char>, p: Seq<char>, b: int, k: int)
    requires
        0 <= b <= k,
        forall|j: int| b <= j < k ==> !match_at(s, p, j),
    ensures
        find_from(s, p, b) == find_from(s, p, k),
    decreases k - b,
{
    if b < k {
        if b + p.len() > s.len() {
            assert(k + p.len() > s.len());
        } else {
            lemma_find_from_skip(s, p, b + 1, k);
        }
    }
}

/// A match at `k` with no match before it is the first match.
pub proof fn lemma_find_first_some(s: Seq<char>, p: Seq<char>, k: int)
    requires
        match_at(s, p, k),
        forall|j: int| 0 <= j < k ==> !match_at(s, p, j),
    ensures
        find_first(s, p) == Some(k),
{
    lemma_find_from_skip(s, p, 0, k);
}

/// Without any match, there is no first match.
pub proof fn lemma_find_first_none(s: Seq<char>, p: Seq<char>)
    requires
        forall|j: int| !match_at(s, p, j),
    ensures
        find_first(s, p) is None,
{
    if s.len() >= p.len() {
        let k0 = s.len() - p.len();
        lemma_find_from_skip(s, p, 0, k0);
        assert(!match_at(s, p, k0));
        assert(find_from(s, p, k0) == find_from(s, p, k0 + 1));
        assert(find_from(s, p, k0 + 1) is None);
    } else {
        assert(find_from(s, p, 0) is None);
    }
}

/// The segment of `s` after the first occurrence of `p`, up to the next
/// occurrence of `p` or the end; empty when `p` does not occur.
pub open spec fn after_first(s: Seq<char>, p: Seq<char>) -> Seq<char> {
    match find_first(s, p) {
        Some(k) => {
            let rest = s.skip(k + p.len());
            match find_first(rest, p) {
                Some(j) => rest.take(j),
                None => rest,
            }
        },
        None => Seq::<char>::empty(),
    }
}

/// A copy of the characters of `v` from `a` (inclusive) to `b` (exclusive).
pub fn range_of(v: &[char], a: usize, b: usize) -> (r: Vec<char>)
    requires
        a <= b <= v@.len(),
    ensures
        r@ == v@.subrange(a as int, b as int),
{
    let mut r: Vec<char> = Vec::new();
    let mut i: usize = a;
    while i < b
        invariant
            a <= i <= b <= v@.len(),
            r@ == v@.subrange(a as int, i as int),
        decreases b - i,
    {
        r.push(v[i]);
        i += 1;
        assert(r@ =~= v@.subrange(a as int, i as int));
    }
    r
}

/// The characters of `s` after the first occurrence of `p`, up to the next
/// occurrence or the end.
pub fn after_first_sub(s: &[char], p: &[char]) -> (r: Vec<char>)
    ensures
        r@ == after_first(s@, p@),
{
    let n = s.len();
    match find_sub(s, p) {
        Some(k) => {
            proof {
                lemma_find_first_some(s@, p@, k as int);
                assert(k + p@.len() <= n);
            }
            let rest = range_of(s, k + p.len(), n);
            assert(rest@ =~= s@.skip(k + p@.len()));
            match find_sub(rest.as_slice(), p) {
                Some(j) => {
                    proof {
                        lemma_find_first_some(rest@, p@, j as int);
                    }
                    let out = range_of(rest.as_slice(), 0, j);
                    assert(out@ =~= rest@.take(j as int));
                    out
                },
                None => {
                    proof {
                        lemma_find_first_none(rest@, p@);
                    }
                    rest
                },
            }
        },
        None => {
            proof {
                lemma_find_first_none(s@, p@);
            }
            Vec::new()
        },
    }
}

/// Appends the rendering of `m` thousandths to `s`.
pub fn push_milli(s: &mut String, m: u64)
    ensures
        final(s)@ == old(s)@ + milli_str(m as nat),
{
    push_u64(s, m / 1000);
    let f = m % 1000;
    if f != 0 {
        push_char(s, '.');
        push_char(s, digit_of(f / 100));
        if f % 10 != 0 {
            push_char(s, digit_of((f / 10) % 10));
            push_char(s, digit_of(f % 10));
        } else if (f / 10) % 10 != 0 {
            push_char(s, digit_of((f / 10) % 10));
        }
        assert(final(s)@ =~= old(s)@ + milli_str(m as nat));
    }
}

} // verus!
