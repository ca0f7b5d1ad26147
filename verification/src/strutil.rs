//! Verified text utilities shared by the whole library: decimal rendering of
//! integers, prefix and substring tests, ASCII trimming, and line splitting.

use vstd::prelude::*;
use vstd::string::StrSliceExecFns;
use vstd::string::StringExecFns;

verus! {

/// The character for one decimal digit.
pub open spec fn dec_digit_char(d: nat) -> char {
    if d == 0 {
        '0'
    } else if d == 1 {
        '1'
    } else if d == 2 {
        '2'
    } else if d == 3 {
        '3'
    } else if d == 4 {
        '4'
    } else if d == 5 {
        '5'
    } else if d == 6 {
        '6'
    } else if d == 7 {
        '7'
    } else if d == 8 {
        '8'
    } else {
        '9'
    }
}

/// The usual decimal rendering of a natural number, without leading zeros.
pub open spec fn dec_rep(n: nat) -> Seq<char>
    decreases n,
{
    if n < 10 {
        seq![dec_digit_char(n)]
    } else {
        dec_rep(n / 10).push(dec_digit_char(n % 10))
    }
}

fn digit_str(d: u64) -> (r: &'static str)
    requires
        d < 10,
    ensures
        r@ == seq![dec_digit_char(d as nat)],
{
    proof {
        reveal_strlit("0");
        reveal_strlit("1");
        reveal_strlit("2");
        reveal_strlit("3");
        reveal_strlit("4");
        reveal_strlit("5");
        reveal_strlit("6");
        reveal_strlit("7");
        reveal_strlit("8");
        reveal_strlit("9");
    }
    let r: &'static str = if d == 0 {
        "0"
    } else if d == 1 {
        "1"
    } else if d == 2 {
        "2"
    } else if d == 3 {
        "3"
    } else if d == 4 {
        "4"
    } else if d == 5 {
        "5"
    } else if d == 6 {
        "6"
    } else if d == 7 {
        "7"
    } else if d == 8 {
        "8"
    } else {
        "9"
    };
    proof {
        assert(r@ =~= seq![dec_digit_char(d as nat)]);
    }
    r
}

/// Renders a number in decimal, exactly as `dec_rep` describes.
pub fn u64_to_dec_string(n: u64) -> (r: String)
    ensures
        r@ == dec_rep(n as nat),
    decreases n,
{
    if n < 10 {
        let r = String::from_str(digit_str(n));
        proof {
            assert(r@ =~= dec_rep(n as nat));
        }
        r
    } else {
        let mut r = u64_to_dec_string(n / 10);
        r.append(digit_str(n % 10));
        proof {
            assert(r@ =~= dec_rep(n as nat));
        }
        r
    }
}

/// Renders a number in decimal, exactly as `dec_rep` describes.
pub fn u32_to_dec_string(n: u32) -> (r: String)
    ensures
        r@ == dec_rep(n as nat),
{
    u64_to_dec_string(n as u64)
}

/// Renders a number in decimal, exactly as `dec_rep` describes.
pub fn usize_to_dec_string(n: usize) -> (r: String)
    ensures
        r@ == dec_rep(n as nat),
{
    u64_to_dec_string(n as u64)
}

/// `p` is an initial segment of `s`.
pub open spec fn is_prefix_of(p: Seq<char>, s: Seq<char>) -> bool {
    p.len() <= s.len() && s.subrange(0, p.len() as int) == p
}

/// Whether `s` starts with `p`, by character comparison.
pub fn str_has_prefix(s: &str, p: &str) -> (r: bool)
    ensures
        r == is_prefix_of(p@, s@),
{
    let sl = s.unicode_len();
    let pl = p.unicode_len();
    if pl > sl {
        return false;
    }
    let mut i: usize = 0;
    while i < pl
        invariant
            0 <= i <= pl,
            pl <= sl,
            pl == p@.len(),
            sl == s@.len(),
            forall|j: int| 0 <= j < i ==> s@[j] == p@[j],
        decreases pl - i,
    {
        if s.get_char(i) != p.get_char(i) {
            proof {
                assert(s@.subrange(0, pl as int)[i as int] != p@[i as int]);
            }
            return false;
        }
        i += 1;
    }
    proof {
        assert(s@.subrange(0, pl as int) =~= p@);
    }
    true
}

/// `needle` occurs somewhere in `s`.
pub open spec fn seq_contains_sub(s: Seq<char>, needle: Seq<char>) -> bool {
    exists|i: int|
        0 <= i && i + needle.len() <= s.len() && #[trigger] s.subrange(
            i,
            i + needle.len() as int,
        ) == needle
}

/// Whether the characters of `s` from position `at` onward start with `needle`.
fn str_matches_at(s: &str, at: usize, needle: &str) -> (r: bool)
    requires
        at + needle@.len() <= s@.len(),
        s@.len() <= usize::MAX,
    ensures
        r == (s@.subrange(at as int, at + needle@.len() as int) == needle@),
{
    let nl = needle.unicode_len();
    let mut j: usize = 0;
    while j < nl
        invariant
            0 <= j <= nl,
            nl == needle@.len(),
            at + nl <= s@.len(),
            s@.len() <= usize::MAX,
            forall|k: int| 0 <= k < j ==> s@[at + k] == needle@[k],
        decreases nl - j,
    {
        if s.get_char(at + j) != needle.get_char(j) {
            proof {
                assert(s@.subrange(at as int, at + nl as int)[j as int] != needle@[j as int]);
            }
            return false;
        }
        j += 1;
    }
    proof {
        assert(s@.subrange(at as int, at + nl as int) =~= needle@);
    }
    true
}

/// Naive substring search, exact against `seq_contains_sub`.
pub fn str_contains_sub(s: &str, needle: &str) -> (r: bool)
    ensures
        r == seq_contains_sub(s@, needle@),
{
    let sl = s.unicode_len();
    let nl = needle.unicode_len();
    if nl > sl {
        return false;
    }
    if nl == 0 {
        proof {
            assert(s@.subrange(0, 0 + needle@.len() as int) =~= needle@);
        }
        return true;
    }
    let mut i: usize = 0;
    while i <= sl - nl
        invariant
            0 <= i <= sl - nl + 1,
            1 <= nl <= sl,
            nl == needle@.len(),
            sl == s@.len(),
            forall|j: int|
                0 <= j < i ==> #[trigger] s@.subrange(j, j + needle@.len() as int) != needle@,
        decreases sl - i,
    {
        if str_matches_at(s, i, needle) {
            return true;
        }
        i += 1;
    }
    false
}

/// ASCII whitespace, the characters this library's trimming removes.
pub open spec fn is_ws_char(c: char) -> bool {
    c == ' ' || c == '\t' || c == '\n' || c == '\r' || c == '\u{b}' || c == '\u{c}'
}

fn is_ws(c: char) -> (r: bool)
    ensures
        r == is_ws_char(c),
{
    c == ' ' || c == '\t' || c == '\n' || c == '\r' || c == '\u{b}' || c == '\u{c}'
}

/// `s` without its leading ASCII whitespace.
pub open spec fn drop_leading_ws(s: Seq<char>) -> Seq<char>
    decreases s.len(),
{
    if s.len() > 0 && is_ws_char(s[0]) {
        drop_leading_ws(s.skip(1))
    } else {
        s
    }
}

/// `s` without its trailing ASCII whitespace.
pub open spec fn drop_trailing_ws(s: Seq<char>) -> Seq<char>
    decreases s.len(),
{
    if s.len() > 0 && is_ws_char(s.last()) {
        drop_trailing_ws(s.drop_last())
    } else {
        s
    }
}

/// `s` with ASCII whitespace removed from both ends.
pub open spec fn ascii_trimmed(s: Seq<char>) -> Seq<char> {
    drop_trailing_ws(drop_leading_ws(s))
}

proof fn lemma_drop_leading_step(s: Seq<char>, lo: int, hi: int)
    requires
        0 <= lo < hi <= s.len(),
        is_ws_char(s[lo]),
    ensures
        drop_leading_ws(s.subrange(lo, hi)) == drop_leading_ws(s.subrange(lo + 1, hi)),
{
    assert(s.subrange(lo, hi).skip(1) =~= s.subrange(lo + 1, hi));
}

proof fn lemma_drop_trailing_step(s: Seq<char>, lo: int, hi: int)
    requires
        0 <= lo < hi <= s.len(),
        is_ws_char(s[hi - 1]),
    ensures
        drop_trailing_ws(s.subrange(lo, hi)) == drop_trailing_ws(s.subrange(lo, hi - 1)),
{
    assert(s.subrange(lo, hi).drop_last() =~= s.subrange(lo, hi - 1));
}

/// Bounds of the trimmed middle of `s@.subrange(lo, hi)`, without copying.
pub fn trimmed_bounds(s: &str, lo: usize, hi: usize) -> (res: (usize, usize))
    requires
        lo <= hi <= s@.len(),
    ensures
        lo <= res.0 <= res.1 <= hi,
        s@.subrange(res.0 as int, res.1 as int) == ascii_trimmed(s@.subrange(lo as int, hi as int)),
        res.0 > lo ==> is_ws_char(s@[lo as int]),
{
    let mut a = lo;
    while a < hi && is_ws(s.get_char(a))
        invariant
            lo <= a <= hi <= s@.len(),
            drop_leading_ws(s@.subrange(lo as int, hi as int)) == drop_leading_ws(
                s@.subrange(a as int, hi as int),
            ),
            a > lo ==> is_ws_char(s@[lo as int]),
        decreases hi - a,
    {
        proof {
            lemma_drop_leading_step(s@, a as int, hi as int);
        }
        a += 1;
    }
    proof {
        // the leading loop stopped: nothing more to drop in front
        assert(drop_leading_ws(s@.subrange(a as int, hi as int)) == s@.subrange(a as int, hi as int));
    }
    let mut b = hi;
    while b > a && is_ws(s.get_char(b - 1))
        invariant
            lo <= a <= b <= hi <= s@.len(),
            drop_trailing_ws(s@.subrange(a as int, hi as int)) == drop_trailing_ws(
                s@.subrange(a as int, b as int),
            ),
        decreases b,
    {
        proof {
            lemma_drop_trailing_step(s@, a as int, b as int);
        }
        b -= 1;
    }
    proof {
        assert(drop_trailing_ws(s@.subrange(a as int, b as int)) == s@.subrange(a as int, b as int));
        assert(ascii_trimmed(s@.subrange(lo as int, hi as int)) == s@.subrange(a as int, b as int));
    }
    (a, b)
}

/// A copy of `s` with ASCII whitespace removed from both ends.
pub fn trim_ascii_string(s: &str) -> (r: String)
    ensures
        r@ == ascii_trimmed(s@),
{
    let sl = s.unicode_len();
    let (a, b) = trimmed_bounds(s, 0, sl);
    proof {
        assert(s@.subrange(0, sl as int) =~= s@);
    }
    let piece = s.substring_char(a, b);
    piece.to_owned()
}

/// The lines of `s`, split at every newline; one more line than newlines.
pub open spec fn split_lines(s: Seq<char>) -> Seq<Seq<char>>
    decreases s.len(),
{
    if s.len() == 0 {
        seq![Seq::empty()]
    } else if s[0] == '\n' {
        seq![Seq::<char>::empty()] + split_lines(s.skip(1))
    } else {
        let rest = split_lines(s.skip(1));
        seq![seq![s[0]] + rest[0]] + rest.skip(1)
    }
}

proof fn lemma_split_lines_len(s: Seq<char>)
    ensures
        split_lines(s).len() >= 1,
    decreases s.len(),
{
    if s.len() == 0 {
    } else if s[0] == '\n' {
        lemma_split_lines_len(s.skip(1));
    } else {
        lemma_split_lines_len(s.skip(1));
    }
}

/// Splitting `s` whose first newline (if any) is at `m`: the first line is
/// `s.take(m)` and the rest is the split of what follows that newline.
proof fn lemma_split_first_line(s: Seq<char>, m: int)
    requires
        0 <= m <= s.len(),
        forall|r: int| 0 <= r < m ==> s[r] != '\n',
        m == s.len() || s[m] == '\n',
    ensures
        m == s.len() ==> split_lines(s) == seq![s],
        m < s.len() ==> split_lines(s) == seq![s.take(m)] + split_lines(s.skip(m + 1)),
    decreases s.len(),
{
    lemma_split_lines_len(s);
    if s.len() == 0 {
        assert(s =~= Seq::<char>::empty());
        assert(split_lines(s) == seq![Seq::<char>::empty()]);
        assert(seq![Seq::<char>::empty()] == seq![s]);
    } else if s[0] == '\n' {
        assert(m == 0);
        assert(s.take(0) =~= Seq::<char>::empty());
        assert(split_lines(s) =~= seq![s.take(0)] + split_lines(s.skip(1)));
    } else {
        assert(m >= 1);
        let t = s.skip(1);
        lemma_split_lines_len(t);
        assert(forall|r: int| 0 <= r < m - 1 ==> t[r] != '\n');
        lemma_split_first_line(t, m - 1);
        let rest = split_lines(t);
        if m == s.len() {
            assert(rest == seq![t]);
            assert(seq![s[0]] + rest[0] =~= s);
            assert(split_lines(s) =~= seq![s]);
        } else {
            assert(rest == seq![t.take(m - 1)] + split_lines(t.skip(m)));
            assert(seq![s[0]] + rest[0] =~= s.take(m));
            assert(t.skip(m) =~= s.skip(m + 1));
            assert(rest.skip(1) =~= split_lines(s.skip(m + 1)));
            assert(split_lines(s) =~= seq![s.take(m)] + split_lines(s.skip(m + 1)));
        }
    }
}

/// The `(start, end)` bounds of each line of `s`, in order.
pub fn line_bounds(s: &str) -> (res: Vec<(usize, usize)>)
    ensures
        res@.len() == split_lines(s@).len(),
        forall|i: int|
            0 <= i < res@.len() ==> {
                &&& 0 <= #[trigger] res@[i].0 <= res@[i].1 <= s@.len()
                &&& s@.subrange(res@[i].0 as int, res@[i].1 as int) == split_lines(s@)[i]
            },
{
    let sl = s.unicode_len();
    let mut res: Vec<(usize, usize)> = Vec::new();
    let mut start: usize = 0;
    let mut i: usize = 0;
    proof {
        assert(s@.skip(0) =~= s@);
        assert(res@.map_values(|p: (usize, usize)| s@.subrange(p.0 as int, p.1 as int))
            =~= Seq::<Seq<char>>::empty());
    }
    while i < sl
        invariant
            0 <= start <= i <= sl,
            sl == s@.len(),
            forall|r: int| start <= r < i ==> s@[r] != '\n',
            start == 0 || s@[start - 1] == '\n',
            split_lines(s@) =~= res@.map_values(
                |p: (usize, usize)| s@.subrange(p.0 as int, p.1 as int),
            ) + split_lines(s@.skip(start as int)),
            forall|k: int|
                0 <= k < res@.len() ==> #[trigger] res@[k].0 <= res@[k].1 <= s@.len(),
        decreases sl - i,
    {
        if s.get_char(i) == '\n' {
            proof {
                let t = s@.skip(start as int);
                assert(forall|r: int|
                    0 <= r < i - start ==> t[r] == s@[start + r] && s@[start + r] != '\n');
                lemma_split_first_line(t, i - start);
                assert(t.take(i - start) =~= s@.subrange(start as int, i as int));
                assert(t.skip(i - start + 1) =~= s@.skip(i + 1));
                let old_map = res@.map_values(
                    |p: (usize, usize)| s@.subrange(p.0 as int, p.1 as int),
                );
                assert((res@ + seq![(start, i)]).map_values(
                    |p: (usize, usize)| s@.subrange(p.0 as int, p.1 as int),
                ) =~= old_map + seq![s@.subrange(start as int, i as int)]);
            }
            res.push((start, i));
            start = i + 1;
        }
        i += 1;
    }
    proof {
        let t = s@.skip(start as int);
        assert(forall|r: int| 0 <= r < sl - start ==> t[r] == s@[start + r] && s@[start + r] != '\n');
        lemma_split_first_line(t, sl - start as int);
        assert(t =~= s@.subrange(start as int, sl as int));
        let old_map = res@.map_values(|p: (usize, usize)| s@.subrange(p.0 as int, p.1 as int));
        assert((res@ + seq![(start, sl)]).map_values(
            |p: (usize, usize)| s@.subrange(p.0 as int, p.1 as int),
        ) =~= old_map + seq![s@.subrange(start as int, sl as int)]);
    }
    res.push((start, sl));
    res
}

/// All the parts joined with single spaces between them.
pub open spec fn join_space(parts: Seq<Seq<char>>) -> Seq<char>
    decreases parts.len(),
{
    if parts.len() == 0 {
        Seq::empty()
    } else if parts.len() == 1 {
        parts[0]
    } else {
        parts[0] + seq![' '] + join_space(parts.skip(1))
    }
}

proof fn lemma_join_space_take(parts: Seq<Seq<char>>, i: int)
    requires
        1 <= i < parts.len(),
    ensures
        join_space(parts.take(i + 1)) == join_space(parts.take(i)) + seq![' '] + parts[i],
    decreases i,
{
    if i == 1 {
        assert(parts.take(2).len() == 2);
        assert(parts.take(2)[0] == parts[0]);
        assert(parts.take(2).skip(1) =~= seq![parts[1]]);
        assert(seq![parts[1]].len() == 1);
        assert(seq![parts[1]][0] == parts[1]);
        assert(join_space(seq![parts[1]]) == parts[1]);
        assert(parts.take(1) =~= seq![parts[0]]);
        assert(join_space(parts.take(1)) == parts[0]);
        assert(join_space(parts.take(2)) =~= parts[0] + seq![' '] + parts[1]);
    } else {
        lemma_join_space_take(parts.skip(1), i - 1);
        assert(parts.take(i + 1).skip(1) =~= parts.skip(1).take(i));
        assert(parts.take(i).skip(1) =~= parts.skip(1).take(i - 1));
        assert(join_space(parts.take(i + 1)) =~= parts[0] + seq![' '] + join_space(
            parts.skip(1).take(i),
        ));
        assert(join_space(parts.take(i)) =~= parts[0] + seq![' '] + join_space(
            parts.skip(1).take(i - 1),
        ));
        assert(join_space(parts.take(i + 1)) =~= join_space(parts.take(i)) + seq![' ']
            + parts[i]);
    }
}

/// Joins strings with single spaces, exactly as `join_space` describes.
pub fn join_with_spaces(parts: &Vec<String>) -> (r: String)
    ensures
        r@ == join_space(parts.deep_view()),
{
    let mut r = String::new();
    let mut i: usize = 0;
    while i < parts.len()
        invariant
            0 <= i <= parts@.len(),
            parts.deep_view().len() == parts@.len(),
            forall|k: int| 0 <= k < parts@.len() ==> parts.deep_view()[k] == #[trigger] parts@[k]@,
            r@ == join_space(parts.deep_view().take(i as int)),
        decreases parts@.len() - i,
    {
        if i > 0 {
            r.append(" ");
            proof {
                reveal_strlit(" ");
            }
        }
        r.append(parts[i].as_str());
        proof {
            let dv = parts.deep_view();
            if i == 0 {
                assert(dv.take(1) =~= seq![dv[0]]);
                assert(r@ =~= join_space(dv.take(1)));
            } else {
                lemma_join_space_take(dv, i as int);
                assert(" "@ =~= seq![' ']);
                assert(r@ =~= join_space(dv.take(i + 1)));
            }
        }
        i += 1;
    }
    proof {
        assert(parts.deep_view().take(parts@.len() as int) =~= parts.deep_view());
    }
    r
}

} // verus!
