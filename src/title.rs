//! Extraction of a clean search phrase from a decorated archive title such as
//! `[Group] Title (Extra) [Lang]`.
use vstd::prelude::*;
use vstd::string::*;

verus! {

/// Unicode `White_Space` characters.
pub open spec fn is_space(c: char) -> bool {
    let u = c as u32;
    (0x09 <= u && u <= 0x0D) || u == 0x20 || u == 0x85 || u == 0xA0 || u == 0x1680
        || (0x2000 <= u && u <= 0x200A) || u == 0x2028 || u == 0x2029 || u == 0x202F
        || u == 0x205F || u == 0x3000
}

/// A character that may stand in a captured title run: not whitespace, not an
/// opening bracket or parenthesis, and not one of the two full-width vertical
/// bar separators.
pub open spec fn is_title_char(c: char) -> bool {
    c != '(' && c != '[' && c != '\u{FF5C}' && c != '\u{FE31}' && !is_space(c)
}

/// The first index at or after `i` that holds `c`.
pub open spec fn find_from(s: Seq<char>, i: int, c: char) -> Option<int>
    decreases s.len() - i,
{
    if i < 0 || i >= s.len() {
        None
    } else if s[i] == c {
        Some(i)
    } else {
        find_from(s, i + 1, c)
    }
}

/// The first index at or after `i` that does not hold whitespace.
pub open spec fn skip_spaces(s: Seq<char>, i: int) -> int
    decreases s.len() - i,
{
    if 0 <= i < s.len() && is_space(s[i]) {
        skip_spaces(s, i + 1)
    } else {
        i
    }
}

/// The end of the run of title characters that starts at `i`.
pub open spec fn run_end(s: Seq<char>, i: int) -> int
    decreases s.len() - i,
{
    if 0 <= i < s.len() && is_title_char(s[i]) {
        run_end(s, i + 1)
    } else {
        i
    }
}

/// Where a bracketed (`[..]`) or parenthesized (`(..)`) segment that opens at
/// `p` closes: the index just past its first closing character.
pub open spec fn segment_end(s: Seq<char>, p: int) -> Option<int> {
    if 0 <= p < s.len() && s[p] == '[' {
        match find_from(s, p + 1, ']') {
            Some(j) => Some(j + 1),
            None => None,
        }
    } else if 0 <= p < s.len() && s[p] == '(' {
        match find_from(s, p + 1, ')') {
            Some(j) => Some(j + 1),
            None => None,
        }
    } else {
        None
    }
}

/// The title run captured after a segment that opens at `p`, if that segment
/// is followed (after optional whitespace) by at least one title character.
pub open spec fn capture_at(s: Seq<char>, p: int) -> Option<(int, int)> {
    match segment_end(s, p) {
        Some(e) => {
            let k = skip_spaces(s, e);
            let r = run_end(s, k);
            if k < r {
                Some((k, r))
            } else {
                None
            }
        },
        None => None,
    }
}

/// The leftmost capture that starts at or after `p`.
pub open spec fn first_capture_from(s: Seq<char>, p: int) -> Option<(int, int)>
    decreases s.len() - p,
{
    if p < 0 || p >= s.len() {
        None
    } else {
        match capture_at(s, p) {
            Some(m) => Some(m),
            None => first_capture_from(s, p + 1),
        }
    }
}

pub open spec fn first_capture(s: Seq<char>) -> Option<(int, int)> {
    first_capture_from(s, 0)
}

/// The search phrase of a raw title. A capture of a single character is taken
/// for a stray symbol: the search goes on after it, and its first capture is
/// kept only if it is longer than one character. Empty means no match.
pub open spec fn extracted_title(s: Seq<char>) -> Seq<char> {
    match first_capture(s) {
        None => Seq::empty(),
        Some((k, r)) => if r - k == 1 {
            let rest = s.subrange(r, s.len() as int);
            match first_capture(rest) {
                Some((k2, r2)) => if r2 - k2 > 1 {
                    rest.subrange(k2, r2)
                } else {
                    Seq::empty()
                },
                None => Seq::empty(),
            }
        } else {
            s.subrange(k, r)
        },
    }
}

/// The characters of `s` from `i` on, with every closed bracketed or
/// parenthesized segment removed; `close` is the closing character of the
/// segment that `i` stands in, if any.
pub open spec fn without_segments_from(s: Seq<char>, i: int, close: Option<char>) -> Seq<char>
    decreases s.len() - i,
{
    if i < 0 || i >= s.len() {
        Seq::empty()
    } else {
        match close {
            Some(c) => if s[i] == c {
                without_segments_from(s, i + 1, None)
            } else {
                without_segments_from(s, i + 1, close)
            },
            None => if s[i] == '[' && find_from(s, i + 1, ']') is Some {
                without_segments_from(s, i + 1, Some(']'))
            } else if s[i] == '(' && find_from(s, i + 1, ')') is Some {
                without_segments_from(s, i + 1, Some(')'))
            } else {
                seq![s[i]] + without_segments_from(s, i + 1, None)
            },
        }
    }
}

/// The end of `s[..j]` once trailing whitespace is dropped.
pub open spec fn trimmed_end(s: Seq<char>, j: int) -> int
    decreases j,
{
    if 0 < j <= s.len() && is_space(s[j - 1]) {
        trimmed_end(s, j - 1)
    } else {
        j
    }
}

/// `s` without leading and trailing whitespace.
pub open spec fn trimmed(s: Seq<char>) -> Seq<char> {
    let a = skip_spaces(s, 0);
    let b = trimmed_end(s, s.len() as int);
    if a < b {
        s.subrange(a, b)
    } else {
        Seq::empty()
    }
}

/// A raw title without its decorations: every closed `[..]` and `(..)`
/// segment removed, surrounding whitespace trimmed.
pub open spec fn undecorated(s: Seq<char>) -> Seq<char> {
    trimmed(without_segments_from(s, 0, None))
}

proof fn lemma_find_at(s: Seq<char>, i: int, m: int, c: char)
    requires
        0 <= i <= m < s.len(),
        s[m] == c,
        forall|j: int| i <= j < m ==> s[j] != c,
    ensures
        find_from(s, i, c) == Some(m),
    decreases m - i,
{
    if i < m {
        lemma_find_at(s, i + 1, m, c);
    }
}

proof fn lemma_run_to(s: Seq<char>, i: int, m: int)
    requires
        0 <= i <= m <= s.len(),
        forall|j: int| i <= j < m ==> is_title_char(s[j]),
        m == s.len() || !is_title_char(s[m]),
    ensures
        run_end(s, i) == m,
    decreases m - i,
{
    if i < m {
        lemma_run_to(s, i + 1, m);
    }
}

proof fn lemma_no_segment_no_capture(s: Seq<char>, p: int)
    requires
        0 <= p,
        forall|j: int| 0 <= j < s.len() ==> s[j] != '[' && s[j] != '(',
    ensures
        first_capture_from(s, p) is None,
    decreases s.len() - p,
{
    if p < s.len() {
        lemma_no_segment_no_capture(s, p + 1);
    }
}

/// A title with neither an opening bracket nor an opening parenthesis has no
/// bracket- or parenthesis-delimited segment, and yields no search phrase.
pub proof fn lemma_extract_without_segments(s: Seq<char>)
    requires
        forall|j: int| 0 <= j < s.len() ==> s[j] != '[' && s[j] != '(',
    ensures
        extracted_title(s) == Seq::<char>::empty(),
{
    lemma_no_segment_no_capture(s, 0);
}

/// `[X] Title [Y]`, with `X` free of `]` and a title of two or more title
/// characters, yields exactly the title.
pub proof fn lemma_extract_bracketed_title(x: Seq<char>, t: Seq<char>, y: Seq<char>)
    requires
        x.len() >= 1,
        forall|j: int| 0 <= j < x.len() ==> x[j] != ']',
        t.len() >= 2,
        forall|j: int| 0 <= j < t.len() ==> is_title_char(t[j]),
        y.len() >= 1,
    ensures
        extracted_title(seq!['['] + x + seq![']', ' '] + t + seq![' ', '['] + y + seq![']']) == t,
{
    let s = seq!['['] + x + seq![']', ' '] + t + seq![' ', '['] + y + seq![']'];
    let a = x.len() as int;
    let k = a + 3;
    let r = k + t.len();
    assert(s[0] == '[');
    assert forall|j: int| 1 <= j < a + 1 implies s[j] != ']' by {
        assert(s[j] == x[j - 1]);
    }
    assert(s[a + 1] == ']');
    lemma_find_at(s, 1, a + 1, ']');
    assert(s[a + 2] == ' ');
    assert(is_space(s[a + 2]));
    assert(s[k] == t[0]);
    assert(skip_spaces(s, k) == k);
    assert forall|j: int| k <= j < r implies is_title_char(s[j]) by {
        assert(s[j] == t[j - k]);
    }
    assert(s[r] == ' ');
    lemma_run_to(s, k, r);
    assert(capture_at(s, 0) == Some((k, r)));
    assert(s.subrange(k, r) =~= t);
}

/// `[A][B] Title [Y]`, with `A` a single character (neither `(` nor `]`), `B`
/// free of `]` and a title of two or more title characters, yields the title,
/// not `A` nor `B`.
pub proof fn lemma_extract_after_double_group(
    a: char,
    b: Seq<char>,
    t: Seq<char>,
    y: Seq<char>,
)
    requires
        a != '(' && a != ']',
        forall|j: int| 0 <= j < b.len() ==> b[j] != ']',
        t.len() >= 2,
        forall|j: int| 0 <= j < t.len() ==> is_title_char(t[j]),
        y.len() >= 1,
    ensures
        extracted_title(
            seq!['[', a, ']', '['] + b + seq![']', ' '] + t + seq![' ', '['] + y + seq![']'],
        ) == t,
{
    let s = seq!['[', a, ']', '['] + b + seq![']', ' '] + t + seq![' ', '['] + y + seq![']'];
    let m = b.len() as int;
    let k = m + 6;
    let r = k + t.len();
    assert(s[0] == '[' && s[1] == a && s[2] == ']' && s[3] == '[');
    // No capture at 0: `[A]` is followed directly by `[`.
    lemma_find_at(s, 1, 2, ']');
    assert(!is_space(s[3]) && !is_title_char(s[3]));
    assert(skip_spaces(s, 3) == 3);
    assert(run_end(s, 3) == 3);
    assert(capture_at(s, 0) is None);
    // None at 1: a `[` there closes at 2 and is followed by `[` as well.
    if a == '[' {
        lemma_find_at(s, 2, 2, ']');
    }
    assert(capture_at(s, 1) is None);
    assert(capture_at(s, 2) is None);
    // The capture at 3 is the title.
    assert forall|j: int| 4 <= j < m + 4 implies s[j] != ']' by {
        assert(s[j] == b[j - 4]);
    }
    assert(s[m + 4] == ']');
    lemma_find_at(s, 4, m + 4, ']');
    assert(s[m + 5] == ' ');
    assert(is_space(s[m + 5]));
    assert(s[k] == t[0]);
    assert(skip_spaces(s, k) == k);
    assert forall|j: int| k <= j < r implies is_title_char(s[j]) by {
        assert(s[j] == t[j - k]);
    }
    assert(s[r] == ' ');
    lemma_run_to(s, k, r);
    assert(capture_at(s, 3) == Some((k, r)));
    assert(first_capture_from(s, 2) == first_capture_from(s, 3));
    assert(first_capture_from(s, 1) == first_capture_from(s, 2));
    assert(first_capture_from(s, 0) == first_capture_from(s, 1));
    assert(s.subrange(k, r) =~= t);
}

fn char_is_space(c: char) -> (r: bool)
    ensures
        r == is_space(c),
{
    let u = c as u32;
    (0x09 <= u && u <= 0x0D) || u == 0x20 || u == 0x85 || u == 0xA0 || u == 0x1680
        || (0x2000 <= u && u <= 0x200A) || u == 0x2028 || u == 0x2029 || u == 0x202F
        || u == 0x205F || u == 0x3000
}

fn char_is_title(c: char) -> (r: bool)
    ensures
        r == is_title_char(c),
{
    c != '(' && c != '[' && c != '\u{FF5C}' && c != '\u{FE31}' && !char_is_space(c)
}

fn find_char(s: &str, n: usize, i: usize, c: char) -> (r: Option<usize>)
    requires
        n == s@.len(),
        i <= n,
    ensures
        match r {
            Some(j) => find_from(s@, i as int, c) == Some(j as int) && i <= j < n,
            None => find_from(s@, i as int, c) is None,
        },
{
    let mut j: usize = i;
    while j < n
        invariant
            n == s@.len(),
            i <= j <= n,
            find_from(s@, i as int, c) == find_from(s@, j as int, c),
        decreases n - j,
    {
        if s.get_char(j) == c {
            return Some(j);
        }
        j = j + 1;
    }
    None
}

fn skip_spaces_from(s: &str, n: usize, i: usize) -> (r: usize)
    requires
        n == s@.len(),
        i <= n,
    ensures
        r as int == skip_spaces(s@, i as int),
        i <= r <= n,
{
    let mut j: usize = i;
    while j < n && char_is_space(s.get_char(j))
        invariant
            n == s@.len(),
            i <= j <= n,
            skip_spaces(s@, i as int) == skip_spaces(s@, j as int),
        decreases n - j,
    {
        j = j + 1;
    }
    j
}

fn run_end_from(s: &str, n: usize, i: usize) -> (r: usize)
    requires
        n == s@.len(),
        i <= n,
    ensures
        r as int == run_end(s@, i as int),
        i <= r <= n,
{
    let mut j: usize = i;
    while j < n && char_is_title(s.get_char(j))
        invariant
            n == s@.len(),
            i <= j <= n,
            run_end(s@, i as int) == run_end(s@, j as int),
        decreases n - j,
    {
        j = j + 1;
    }
    j
}

fn capture_at_exec(s: &str, n: usize, p: usize) -> (r: Option<(usize, usize)>)
    requires
        n == s@.len(),
        p < n,
    ensures
        match r {
            Some((k, e)) => capture_at(s@, p as int) == Some((k as int, e as int)) && k < e <= n,
            None => capture_at(s@, p as int) is None,
        },
{
    let c = s.get_char(p);
    let close = if c == '[' {
        ']'
    } else if c == '(' {
        ')'
    } else {
        return None;
    };
    match find_char(s, n, p + 1, close) {
        None => None,
        Some(j) => {
            let k = skip_spaces_from(s, n, j + 1);
            let e = run_end_from(s, n, k);
            if k < e {
                Some((k, e))
            } else {
                None
            }
        },
    }
}

fn first_capture_exec(s: &str) -> (r: Option<(usize, usize)>)
    ensures
        match r {
            Some((k, e)) => first_capture(s@) == Some((k as int, e as int)) && k < e <= s@.len(),
            None => first_capture(s@) is None,
        },
{
    let n = s.unicode_len();
    let mut p: usize = 0;
    while p < n
        invariant
            n == s@.len(),
            p <= n,
            first_capture(s@) == first_capture_from(s@, p as int),
        decreases n - p,
    {
        match capture_at_exec(s, n, p) {
            Some(m) => {
                return Some(m);
            },
            None => {},
        }
        p = p + 1;
    }
    None
}

/// The title without its bracketed and parenthesized segments, trimmed.
pub fn undecorated_title(title: &str) -> (r: String)
    ensures
        r@ == undecorated(title@),
{
    let n = title.unicode_len();
    let mut out = String::new();
    let mut close: Option<char> = None;
    let mut i: usize = 0;
    while i < n
        invariant
            n == title@.len(),
            i <= n,
            out@ + without_segments_from(title@, i as int, close) == without_segments_from(
                title@,
                0,
                None,
            ),
        decreases n - i,
    {
        let c = title.get_char(i);
        match close {
            Some(cl) => {
                if c == cl {
                    close = None;
                }
            },
            None => {
                if c == '[' && find_char(title, n, i + 1, ']').is_some() {
                    close = Some(']');
                } else if c == '(' && find_char(title, n, i + 1, ')').is_some() {
                    close = Some(')');
                } else {
                    let ghost before = out@;
                    out = out.concat(title.substring_char(i, i + 1));
                    proof {
                        assert(title@.subrange(i as int, i + 1) =~= seq![c]);
                        assert(out@ + without_segments_from(title@, i + 1, None) =~= before + (
                        seq![c] + without_segments_from(title@, i + 1, None)));
                    }
                }
            },
        }
        i = i + 1;
    }
    proof {
        assert(out@ + Seq::<char>::empty() =~= out@);
    }
    let t = out.as_str();
    let m = t.unicode_len();
    let a = skip_spaces_from(t, m, 0);
    let mut b: usize = m;
    while b > 0 && char_is_space(t.get_char(b - 1))
        invariant
            m == t@.len(),
            b <= m,
            trimmed_end(t@, m as int) == trimmed_end(t@, b as int),
        decreases b,
    {
        b = b - 1;
    }
    if a < b {
        String::from_str(t.substring_char(a, b))
    } else {
        String::new()
    }
}

/// The search phrase of `title` (empty when the title has no match).
pub fn extract_title(title: &str) -> (r: String)
    ensures
        r@ == extracted_title(title@),
{
    match first_capture_exec(title) {
        None => String::new(),
        Some((k, e)) => {
            if e - k == 1 {
                let n = title.unicode_len();
                let rest = title.substring_char(e, n);
                match first_capture_exec(rest) {
                    Some((k2, e2)) => {
                        if e2 - k2 > 1 {
                            String::from_str(rest.substring_char(k2, e2))
                        } else {
                            String::new()
                        }
                    },
                    None => String::new(),
                }
            } else {
                String::from_str(title.substring_char(k, e))
            }
        },
    }
}

} // verus!
