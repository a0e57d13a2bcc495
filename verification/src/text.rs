//! Small verified text utilities shared by the registry, the protocol and
//! the shell-out parsers: line splitting, field splitting, trimming,
//! substring search and decimal parsing.
//!
//! Whitespace here is the ASCII whitespace that the shell-out formats use;
//! the parsers built on these utilities only ever meet machine-written
//! output.

use vstd::prelude::*;

verus! {

/// Whether two string slices hold the same characters.
pub fn str_eq(a: &str, b: &str) -> (r: bool)
    ensures
        r == (a@ == b@),
{
    let n = a.unicode_len();
    if n != b.unicode_len() {
        assert(a@ != b@);
        return false;
    }
    let mut i: usize = 0;
    while i < n
        invariant
            n == a@.len(),
            n == b@.len(),
            i <= n,
            forall|j: int| 0 <= j < i ==> a@[j] == b@[j],
        decreases n - i,
    {
        if a.get_char(i) != b.get_char(i) {
            return false;
        }
        i = i + 1;
    }
    assert(a@ =~= b@);
    true
}

/// An ASCII whitespace character.
pub open spec fn is_wspace(c: char) -> bool {
    c == ' ' || c == '\t' || c == '\n' || c == '\r' || c == '\u{b}' || c == '\u{c}'
}

/// The same test on a character in hand.
pub fn is_wspace_char(c: char) -> (r: bool)
    ensures
        r == is_wspace(c),
{
    c == ' ' || c == '\t' || c == '\n' || c == '\r' || c == '\u{b}' || c == '\u{c}'
}

/// The position of the first occurrence of `sep` at or after `i`, or the
/// text's length where there is none.
pub open spec fn find_char(s: Seq<char>, sep: char, i: int) -> int
    decreases s.len() - i,
{
    if i < 0 || i >= s.len() {
        s.len() as int
    } else if s[i] == sep {
        i
    } else {
        find_char(s, sep, i + 1)
    }
}

/// Where `find_char` lands: at or after `i`, at a separator or the end,
/// with none in between.
pub proof fn lemma_find_char(s: Seq<char>, sep: char, i: int)
    requires
        0 <= i <= s.len(),
    ensures
        i <= find_char(s, sep, i) <= s.len(),
        find_char(s, sep, i) < s.len() ==> s[find_char(s, sep, i)] == sep,
        forall|j: int| i <= j < find_char(s, sep, i) ==> s[j] != sep,
    decreases s.len() - i,
{
    if i < s.len() && s[i] != sep {
        lemma_find_char(s, sep, i + 1);
    }
}

/// The same search, in executable form.
pub fn find_char_exec(s: &str, sep: char, i: usize) -> (r: usize)
    requires
        i <= s@.len(),
    ensures
        r == find_char(s@, sep, i as int),
        i <= r <= s@.len(),
    decreases s@.len() - i,
{
    proof {
        lemma_find_char(s@, sep, i as int);
    }
    if i == s.unicode_len() {
        i
    } else if s.get_char(i) == sep {
        i
    } else {
        find_char_exec(s, sep, i + 1)
    }
}

/// A line with a trailing carriage return stripped.
pub open spec fn strip_cr(line: Seq<char>) -> Seq<char> {
    if line.len() > 0 && line.last() == '\r' {
        line.drop_last()
    } else {
        line
    }
}

/// The lines of the text from position `i` on, as `str::lines` reads them:
/// terminated by a newline or the end, a carriage return before the newline
/// stripped, and no phantom empty line after a final newline.
pub open spec fn spec_lines_from(s: Seq<char>, i: int) -> Seq<Seq<char>>
    decreases s.len() - i when 0 <= i via spec_lines_from_decreases
{
    if i >= s.len() {
        Seq::empty()
    } else {
        let j = find_char(s, '\n', i);
        if j >= s.len() {
            seq![strip_cr(s.subrange(i, j))]
        } else {
            seq![strip_cr(s.subrange(i, j))] + spec_lines_from(s, j + 1)
        }
    }
}

#[via_fn]
proof fn spec_lines_from_decreases(s: Seq<char>, i: int) {
    if 0 <= i && i < s.len() {
        lemma_find_char(s, '\n', i);
    }
}

/// The lines of a whole text.
pub open spec fn spec_lines(s: Seq<char>) -> Seq<Seq<char>> {
    spec_lines_from(s, 0)
}

/// The lines of the text from position `i` on.
fn lines_from(s: &str, i: usize) -> (r: Vec<String>)
    requires
        i <= s@.len(),
    ensures
        r.deep_view() == spec_lines_from(s@, i as int),
    decreases s@.len() - i,
{
    proof {
        lemma_find_char(s@, '\n', i as int);
    }
    if i == s.unicode_len() {
        let r: Vec<String> = Vec::new();
        proof {
            assert(r.deep_view() =~= spec_lines_from(s@, i as int));
        }
        r
    } else {
        let j = find_char_exec(s, '\n', i);
        let line_end = if j > i && s.get_char(j - 1) == '\r' {
            j - 1
        } else {
            j
        };
        let line = String::from_str(s.substring_char(i, line_end));
        proof {
            assert(strip_cr(s@.subrange(i as int, j as int)) =~= s@.subrange(
                i as int,
                line_end as int,
            ));
        }
        if j == s.unicode_len() {
            let mut r: Vec<String> = Vec::new();
            r.push(line);
            proof {
                assert(r.deep_view() =~= spec_lines_from(s@, i as int));
            }
            r
        } else {
            let mut rest = lines_from(s, j + 1);
            let ghost before = rest.deep_view();
            rest.insert(0, line);
            proof {
                assert(rest.deep_view() =~= seq![line@] + before);
                assert(rest.deep_view() =~= spec_lines_from(s@, i as int));
            }
            rest
        }
    }
}

/// The lines of a text, as `str::lines` reads them.
pub fn split_lines(s: &str) -> (r: Vec<String>)
    ensures
        r.deep_view() == spec_lines(s@),
{
    lines_from(s, 0)
}

/// The fields of the text split on `sep`, empties kept: one field more than
/// there are separators.
pub open spec fn split_char_from(s: Seq<char>, sep: char, i: int) -> Seq<Seq<char>>
    decreases s.len() - i when 0 <= i via split_char_from_decreases
{
    if i > s.len() {
        Seq::empty()
    } else {
        let j = find_char(s, sep, i);
        if j >= s.len() {
            seq![s.subrange(i, s.len() as int)]
        } else {
            seq![s.subrange(i, j)] + split_char_from(s, sep, j + 1)
        }
    }
}

#[via_fn]
proof fn split_char_from_decreases(s: Seq<char>, sep: char, i: int) {
    if 0 <= i && i <= s.len() {
        lemma_find_char(s, sep, i);
    }
}

/// The fields of a whole text split on `sep`.
pub open spec fn spec_split_char(s: Seq<char>, sep: char) -> Seq<Seq<char>> {
    split_char_from(s, sep, 0)
}

/// The fields of the text from `i` on, split on `sep`.
fn split_char_exec_from(s: &str, sep: char, i: usize) -> (r: Vec<String>)
    requires
        i <= s@.len(),
    ensures
        r.deep_view() == split_char_from(s@, sep, i as int),
    decreases s@.len() - i,
{
    proof {
        lemma_find_char(s@, sep, i as int);
    }
    let j = find_char_exec(s, sep, i);
    if j == s.unicode_len() {
        let mut r: Vec<String> = Vec::new();
        r.push(String::from_str(s.substring_char(i, j)));
        proof {
            assert(r.deep_view() =~= split_char_from(s@, sep, i as int));
        }
        r
    } else {
        let field = String::from_str(s.substring_char(i, j));
        let mut rest = split_char_exec_from(s, sep, j + 1);
        let ghost before = rest.deep_view();
        rest.insert(0, field);
        proof {
            assert(rest.deep_view() =~= seq![field@] + before);
            assert(rest.deep_view() =~= split_char_from(s@, sep, i as int));
        }
        rest
    }
}

/// The fields of a text split on `sep`, empties kept.
pub fn split_char(s: &str, sep: char) -> (r: Vec<String>)
    ensures
        r.deep_view() == spec_split_char(s@, sep),
{
    split_char_exec_from(s, sep, 0)
}

/// At most `n` fields of the text from `i` on: the last field takes the
/// whole remainder, separators included.
pub open spec fn splitn_char_from(s: Seq<char>, n: int, sep: char, i: int) -> Seq<Seq<char>>
    decreases n when 0 <= i <= s.len()
{
    if n <= 0 {
        Seq::empty()
    } else if n == 1 {
        seq![s.subrange(i, s.len() as int)]
    } else {
        let j = find_char(s, sep, i);
        if j >= s.len() {
            seq![s.subrange(i, s.len() as int)]
        } else {
            seq![s.subrange(i, j)] + splitn_char_from(s, n - 1, sep, j + 1)
        }
    }
}

/// At most `n` fields of a text split on `sep`, the last taking the rest.
pub open spec fn spec_splitn_char(s: Seq<char>, n: int, sep: char) -> Seq<Seq<char>> {
    splitn_char_from(s, n, sep, 0)
}

/// At most `n` fields of the text from `i` on.
fn splitn_char_exec_from(s: &str, n: usize, sep: char, i: usize) -> (r: Vec<String>)
    requires
        i <= s@.len(),
    ensures
        r.deep_view() == splitn_char_from(s@, n as int, sep, i as int),
    decreases n,
{
    proof {
        lemma_find_char(s@, sep, i as int);
    }
    if n == 0 {
        let r: Vec<String> = Vec::new();
        proof {
            assert(r.deep_view() =~= splitn_char_from(s@, n as int, sep, i as int));
        }
        r
    } else {
        let j = if n == 1 {
            s.unicode_len()
        } else {
            find_char_exec(s, sep, i)
        };
        if j == s.unicode_len() {
            let mut r: Vec<String> = Vec::new();
            r.push(String::from_str(s.substring_char(i, s.unicode_len())));
            proof {
                assert(r.deep_view() =~= splitn_char_from(s@, n as int, sep, i as int));
            }
            r
        } else {
            let field = String::from_str(s.substring_char(i, j));
            let mut rest = splitn_char_exec_from(s, n - 1, sep, j + 1);
            let ghost before = rest.deep_view();
            rest.insert(0, field);
            proof {
                assert(rest.deep_view() =~= seq![field@] + before);
                assert(rest.deep_view() =~= splitn_char_from(s@, n as int, sep, i as int));
            }
            rest
        }
    }
}

/// At most `n` fields of a text split on `sep`, the last taking the rest.
pub fn splitn_char(s: &str, n: usize, sep: char) -> (r: Vec<String>)
    ensures
        r.deep_view() == spec_splitn_char(s@, n as int, sep),
{
    splitn_char_exec_from(s, n, sep, 0)
}

/// The position of the first ASCII whitespace character at or after `i`,
/// or the end.
pub open spec fn find_ws_in(s: Seq<char>, i: int) -> int
    decreases s.len() - i,
{
    if i < 0 || i >= s.len() {
        s.len() as int
    } else if is_wspace(s[i]) {
        i
    } else {
        find_ws_in(s, i + 1)
    }
}

/// Where `find_ws_in` lands.
pub proof fn lemma_find_ws_in(s: Seq<char>, i: int)
    requires
        0 <= i <= s.len(),
    ensures
        i <= find_ws_in(s, i) <= s.len(),
    decreases s.len() - i,
{
    if i < s.len() && !is_wspace(s[i]) {
        lemma_find_ws_in(s, i + 1);
    }
}

/// The same search, in executable form.
pub fn find_ws_in_exec(s: &str, i: usize) -> (r: usize)
    requires
        i <= s@.len(),
    ensures
        r == find_ws_in(s@, i as int),
        i <= r <= s@.len(),
    decreases s@.len() - i,
{
    proof {
        lemma_find_ws_in(s@, i as int);
    }
    if i == s.unicode_len() {
        i
    } else if is_wspace_char(s.get_char(i)) {
        i
    } else {
        find_ws_in_exec(s, i + 1)
    }
}

/// The first position at or after `i` that does not satisfy ASCII
/// whitespace, or the end.
pub open spec fn skip_ws(s: Seq<char>, i: int) -> int
    decreases s.len() - i,
{
    if i < 0 || i >= s.len() {
        s.len() as int
    } else if is_wspace(s[i]) {
        skip_ws(s, i + 1)
    } else {
        i
    }
}

/// Where `skip_ws` lands.
pub proof fn lemma_skip_ws(s: Seq<char>, i: int)
    requires
        0 <= i <= s.len(),
    ensures
        i <= skip_ws(s, i) <= s.len(),
        skip_ws(s, i) < s.len() ==> !is_wspace(s[skip_ws(s, i)]),
        forall|j: int| i <= j < skip_ws(s, i) ==> is_wspace(s[j]),
    decreases s.len() - i,
{
    if i < s.len() && is_wspace(s[i]) {
        lemma_skip_ws(s, i + 1);
    }
}

/// The text with ASCII whitespace removed at both ends.
pub open spec fn spec_trim(s: Seq<char>) -> Seq<char>
    decreases s.len(),
{
    if s.len() == 0 {
        s
    } else if is_wspace(s[0]) {
        spec_trim(s.subrange(1, s.len() as int))
    } else if is_wspace(s.last()) {
        spec_trim(s.subrange(0, s.len() as int - 1))
    } else {
        s
    }
}

/// The text with ASCII whitespace removed at both ends.
pub fn trim(s: &str) -> (r: String)
    ensures
        r@ == spec_trim(s@),
    decreases s@.len(),
{
    let n = s.unicode_len();
    if n == 0 {
        String::from_str(s)
    } else if is_wspace_char(s.get_char(0)) {
        let rest = s.substring_char(1, n);
        trim(rest)
    } else if is_wspace_char(s.get_char(n - 1)) {
        let rest = s.substring_char(0, n - 1);
        trim(rest)
    } else {
        String::from_str(s)
    }
}

/// Whether the text holds `pat` as a contiguous run.
pub open spec fn contains_seq(s: Seq<char>, pat: Seq<char>) -> bool {
    exists|i: int| 0 <= i <= s.len() - pat.len() && #[trigger] s.subrange(i, i + pat.len()) == pat
}

/// Whether the text holds `pat` as a contiguous run, decided by scanning.
pub fn contains_str(s: &str, pat: &str) -> (r: bool)
    ensures
        r == contains_seq(s@, pat@),
{
    let n = s.unicode_len();
    let m = pat.unicode_len();
    if m > n {
        proof {
            assert(!contains_seq(s@, pat@));
        }
        return false;
    }
    let mut i: usize = 0;
    while i <= n - m
        invariant
            n == s@.len(),
            m == pat@.len(),
            m <= n,
            i <= n - m + 1,
            forall|k: int| 0 <= k < i ==> #[trigger] s@.subrange(k, k + pat@.len()) != pat@,
        decreases n - m + 1 - i,
    {
        let mut j: usize = 0;
        let mut matched = true;
        while j < m
            invariant
                n == s@.len(),
                m == pat@.len(),
                i + m <= n,
                j <= m,
                matched == (forall|k: int| 0 <= k < j ==> s@[i + k] == pat@[k]),
            decreases m - j,
        {
            if s.get_char(i + j) != pat.get_char(j) {
                proof {
                    assert(s@[i as int + j as int] != pat@[j as int]);
                }
                matched = false;
                j = m;
            } else {
                j = j + 1;
            }
        }
        if matched {
            proof {
                assert(s@.subrange(i as int, i as int + pat@.len()) =~= pat@);
            }
            return true;
        }
        proof {
            if s@.subrange(i as int, i as int + pat@.len()) == pat@ {
                let k = choose|k: int|
                    0 <= k < m && s@[i + k] != pat@[k];
                assert(s@.subrange(i as int, i as int + pat@.len())[k] == pat@[k]);
            }
        }
        i = i + 1;
    }
    proof {
        assert(!contains_seq(s@, pat@));
    }
    false
}

/// Whether the text holds the character anywhere.
pub open spec fn contains_char(s: Seq<char>, c: char) -> bool {
    exists|i: int| 0 <= i < s.len() && s[i] == c
}

/// Whether the text holds the character anywhere, decided by scanning.
pub fn contains_char_exec(s: &str, c: char) -> (r: bool)
    ensures
        r == contains_char(s@, c),
{
    let n = s.unicode_len();
    let mut i: usize = 0;
    while i < n
        invariant
            n == s@.len(),
            i <= n,
            forall|j: int| 0 <= j < i ==> s@[j] != c,
        decreases n - i,
    {
        if s.get_char(i) == c {
            return true;
        }
        i = i + 1;
    }
    false
}

/// A decimal digit, by code point.
pub open spec fn is_digit(c: char) -> bool {
    48 <= c as u32 && c as u32 <= 57
}

/// A nonempty run of decimal digits.
pub open spec fn all_digits(s: Seq<char>) -> bool {
    s.len() > 0 && forall|i: int| 0 <= i < s.len() ==> is_digit(s[i])
}

/// The value of a run of decimal digits, most significant first.
pub open spec fn dec_value(s: Seq<char>) -> int
    decreases s.len(),
{
    if s.len() == 0 {
        0
    } else {
        dec_value(s.drop_last()) * 10 + (s.last() as u32 - 48)
    }
}

/// A run of digits has a value of at least zero.
proof fn lemma_dec_value_nonneg(t: Seq<char>)
    requires
        forall|i: int| 0 <= i < t.len() ==> is_digit(t[i]),
    ensures
        dec_value(t) >= 0,
    decreases t.len(),
{
    if t.len() > 0 {
        lemma_dec_value_nonneg(t.drop_last());
    }
}

/// Reading more digits never shrinks the value: every prefix of a digit run
/// is worth at most the whole run.
proof fn lemma_dec_value_prefix(t: Seq<char>, p: int)
    requires
        0 <= p <= t.len(),
        forall|i: int| 0 <= i < t.len() ==> is_digit(t[i]),
    ensures
        dec_value(t.subrange(0, p)) <= dec_value(t),
    decreases t.len() - p,
{
    if p < t.len() {
        lemma_dec_value_prefix(t, p + 1);
        lemma_dec_value_nonneg(t.subrange(0, p));
        assert(t.subrange(0, p + 1).drop_last() =~= t.subrange(0, p));
        assert(t.subrange(0, p + 1).last() == t[p]);
        assert(dec_value(t.subrange(0, p + 1)) == dec_value(t.subrange(0, p)) * 10 + (
        t[p] as u32 - 48));
    } else {
        assert(t.subrange(0, p) =~= t);
    }
}

/// What parsing an unsigned decimal yields: the digits' value where the
/// text, after an optional leading plus sign, is all digits and the value
/// fits the bound; nothing otherwise.
pub open spec fn spec_parse_uint(s: Seq<char>, bound: int) -> Option<int> {
    let t = if s.len() > 0 && s[0] == '+' {
        s.subrange(1, s.len() as int)
    } else {
        s
    };
    if all_digits(t) && dec_value(t) <= bound {
        Some(dec_value(t))
    } else {
        None
    }
}

/// Parses the digit run between `i` and the end, accumulating left to
/// right; fails on a non-digit or when the bound is exceeded.
fn parse_digits(s: &str, i: usize, bound: u64) -> (r: Option<u64>)
    requires
        i <= s@.len(),
    ensures
        ({
            let t = s@.subrange(i as int, s@.len() as int);
            match r {
                Some(v) => all_digits(t) && dec_value(t) == v && v <= bound,
                None => !(all_digits(t) && dec_value(t) <= bound),
            }
        }),
{
    let n = s.unicode_len();
    if i == n {
        proof {
            assert(s@.subrange(i as int, s@.len() as int).len() == 0);
        }
        return None;
    }
    let mut acc: u64 = 0;
    let mut k: usize = i;
    while k < n
        invariant
            n == s@.len(),
            i <= k <= n,
            i < n,
            forall|j: int| i <= j < k ==> is_digit(s@[j]),
            acc == dec_value(s@.subrange(i as int, k as int)),
            acc <= bound,
        decreases n - k,
    {
        let c = s.get_char(k);
        let u = c as u32;
        if !(u >= 48 && u <= 57) {
            proof {
                assert(s@.subrange(i as int, s@.len() as int)[k - i] == s@[k as int]);
            }
            return None;
        }
        let d: u64 = (u - 48) as u64;
        if acc > bound / 10 || (acc == bound / 10 && d > bound % 10) {
            proof {
                let t = s@.subrange(i as int, s@.len() as int);
                if all_digits(t) {
                    assert(t.subrange(0, k - i + 1) =~= s@.subrange(i as int, k as int + 1));
                    assert(s@.subrange(i as int, k as int + 1).drop_last() =~= s@.subrange(
                        i as int,
                        k as int,
                    ));
                    assert(s@.subrange(i as int, k as int + 1).last() == s@[k as int]);
                    lemma_dec_value_prefix(t, k - i + 1);
                    assert(dec_value(t) >= acc * 10 + d > bound);
                }
            }
            return None;
        }
        acc = acc * 10 + d;
        proof {
            assert(s@.subrange(i as int, k as int + 1).drop_last() =~= s@.subrange(
                i as int,
                k as int,
            ));
            assert(s@.subrange(i as int, k as int + 1).last() == s@[k as int]);
        }
        k = k + 1;
    }
    proof {
        assert(s@.subrange(i as int, k as int) =~= s@.subrange(i as int, s@.len() as int));
    }
    Some(acc)
}

/// Parses an unsigned decimal, with an optional leading plus sign, into a
/// value within `bound`; yields nothing exactly where `str::parse` on the
/// matching unsigned type fails.
pub fn parse_uint(s: &str, bound: u64) -> (r: Option<u64>)
    ensures
        match r {
            Some(v) => spec_parse_uint(s@, bound as int) == Some(v as int),
            None => spec_parse_uint(s@, bound as int) is None,
        },
{
    let n = s.unicode_len();
    let start: usize = if n > 0 && s.get_char(0) == '+' {
        1
    } else {
        0
    };
    let r = parse_digits(s, start, bound);
    proof {
        if start == 1 {
            assert(s@.subrange(1, s@.len() as int) =~= s@.subrange(
                start as int,
                s@.len() as int,
            ));
        } else {
            assert(s@.subrange(0, s@.len() as int) =~= s@);
        }
    }
    r
}

} // verus!
