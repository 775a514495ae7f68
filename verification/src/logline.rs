//! Extraction of report payloads from the companion process's log lines.
//!
//! A line qualifies when it contains three fixed substrings; from a
//! qualifying line the token between the first delimiter and the next (or
//! the end of the line), trimmed and cut at the first space, is published to
//! the report topic. Non-qualifying lines yield nothing.

use vstd::prelude::*;

use vstd::string::StrSliceExecFns;
use vstd::string::StringExecFns;

verus! {

/// Whether the pattern occurs in `s` starting at position `i`.
pub open spec fn is_match_at(s: Seq<char>, pat: Seq<char>, i: int) -> bool {
    0 <= i && i + pat.len() <= s.len() && s.subrange(i, i + pat.len()) == pat
}

/// The first position at or after `from` where the pattern occurs, if any.
pub open spec fn first_match(s: Seq<char>, pat: Seq<char>, from: int) -> Option<int>
    decreases s.len() - from,
        when 0 <= from <= s.len()
{
    if from + pat.len() > s.len() {
        None
    } else if s.subrange(from, from + pat.len()) =~= pat {
        Some(from)
    } else {
        first_match(s, pat, from + 1)
    }
}

/// Whether the pattern occurs anywhere in `s`.
pub open spec fn contains_pat(s: Seq<char>, pat: Seq<char>) -> bool {
    first_match(s, pat, 0) is Some
}

/// `first_match` means what its name says: a found position is an
/// occurrence and the earliest one at or after `from`, and a miss means no
/// occurrence at or after `from` at all.
pub proof fn lemma_first_match_is_first(s: Seq<char>, pat: Seq<char>, from: int)
    requires
        0 <= from <= s.len(),
    ensures
        match first_match(s, pat, from) {
            Some(i) => {
                &&& from <= i
                &&& is_match_at(s, pat, i)
                &&& forall|j: int| from <= j < i ==> !is_match_at(s, pat, j)
            },
            None => forall|j: int| from <= j ==> !is_match_at(s, pat, j),
        },
    decreases s.len() - from,
{
    if from + pat.len() > s.len() {
    } else if s.subrange(from, from + pat.len()) =~= pat {
    } else {
        lemma_first_match_is_first(s, pat, from + 1);
        assert(!is_match_at(s, pat, from));
    }
}

/// The pattern occurs in `s` exactly when some position carries it.
pub proof fn lemma_contains_is_occurrence(s: Seq<char>, pat: Seq<char>)
    ensures
        contains_pat(s, pat) <==> exists|i: int| is_match_at(s, pat, i),
{
    lemma_first_match_is_first(s, pat, 0);
    if exists|i: int| is_match_at(s, pat, i) {
        let i = choose|i: int| is_match_at(s, pat, i);
        assert(0 <= i);
    }
}

/// The whitespace characters trimmed from the extracted segment.
pub open spec fn is_space_char(c: char) -> bool {
    c == ' ' || c == '\t' || c == '\n' || c == '\r' || c == '\u{b}' || c == '\u{c}'
}

/// The first position in `i..end` holding a non-whitespace character, or
/// `end` if there is none.
pub open spec fn skip_space_fwd(s: Seq<char>, i: int, end: int) -> int
    decreases end - i,
        when 0 <= i <= end <= s.len()
{
    if i < end && is_space_char(s[i]) {
        skip_space_fwd(s, i + 1, end)
    } else {
        i
    }
}

/// The position after the last non-whitespace character of `start..j`, or
/// `start` if the whole range is whitespace.
pub open spec fn skip_space_back(s: Seq<char>, start: int, j: int) -> int
    decreases j - start,
        when 0 <= start <= j <= s.len()
{
    if j > start && is_space_char(s[j - 1]) {
        skip_space_back(s, start, j - 1)
    } else {
        j
    }
}

/// The position of the first space in `i..end`, or `end` if there is none.
pub open spec fn scan_to_space(s: Seq<char>, i: int, end: int) -> int
    decreases end - i,
        when 0 <= i <= end <= s.len()
{
    if i < end && s[i] != ' ' {
        scan_to_space(s, i + 1, end)
    } else {
        i
    }
}

/// Whether a line qualifies for extraction: it contains all three fixed
/// substrings.
pub open spec fn spec_qualifies(line: Seq<char>) -> bool {
    &&& contains_pat(line, "onReceiveMessage"@)
    &&& contains_pat(line, "method"@)
    &&& contains_pat(line, "res/report"@)
}

/// The token of one line: the text between the first `>>` and the next one
/// (or the end of the line), trimmed of surrounding whitespace and cut at
/// the first space; nothing when the line holds no `>>`.
pub open spec fn spec_token(line: Seq<char>) -> Option<Seq<char>> {
    match first_match(line, ">>"@, 0) {
        None => None,
        Some(d) => {
            let seg_start = d + 2;
            let seg_end = match first_match(line, ">>"@, seg_start) {
                Some(e) => e,
                None => line.len() as int,
            };
            let a = skip_space_fwd(line, seg_start, seg_end);
            let b0 = skip_space_back(line, a, seg_end);
            let b = scan_to_space(line, a, b0);
            Some(line.subrange(a, b))
        },
    }
}

/// The payload extracted from one line: the token of a qualifying line that
/// carries a delimiter, nothing otherwise.
pub open spec fn spec_extract(line: Seq<char>) -> Option<Seq<char>> {
    if spec_qualifies(line) {
        spec_token(line)
    } else {
        None
    }
}

/// Whether `pat` occurs in `s` at position `i`, by character comparison.
fn match_at(s: &str, s_len: usize, pat: &str, pat_len: usize, i: usize) -> (r: bool)
    requires
        s_len == s@.len(),
        pat_len == pat@.len(),
        i + pat_len <= s_len,
    ensures
        r == (s@.subrange(i as int, i as int + pat@.len() as int) == pat@),
{
    let mut k: usize = 0;
    while k < pat_len
        invariant
            s_len == s@.len(),
            pat_len == pat@.len(),
            i + pat_len <= s_len,
            k <= pat_len,
            forall|j: int| 0 <= j < k ==> s@[i + j] == pat@[j],
        decreases pat_len - k,
    {
        let cs = s.get_char(i + k);
        let cp = pat.get_char(k);
        if cs != cp {
            proof {
                assert(s@.subrange(i as int, i as int + pat@.len() as int)[k as int] == s@[i + k]);
            }
            return false;
        }
        k += 1;
    }
    proof {
        assert(s@.subrange(i as int, i as int + pat@.len() as int) =~= pat@);
    }
    true
}

/// The first occurrence of `pat` in `s` at or after `from`.
fn find_from(s: &str, s_len: usize, pat: &str, pat_len: usize, from: usize) -> (r: Option<usize>)
    requires
        s_len == s@.len(),
        pat_len == pat@.len(),
        from <= s_len,
    ensures
        r is Some ==> {
            &&& first_match(s@, pat@, from as int) == Some(r->0 as int)
            &&& from <= r->0
            &&& r->0 + pat_len <= s_len
            &&& s@.subrange(r->0 as int, r->0 + pat@.len() as int) == pat@
        },
        r is None ==> first_match(s@, pat@, from as int) is None,
{
    let mut i: usize = from;
    loop
        invariant
            s_len == s@.len(),
            pat_len == pat@.len(),
            from <= i <= s_len,
            first_match(s@, pat@, from as int) == first_match(s@, pat@, i as int),
        decreases s_len - i,
    {
        if pat_len > s_len - i {
            return None;
        }
        if match_at(s, s_len, pat, pat_len, i) {
            return Some(i);
        }
        proof {
            let subr = s@.subrange(i as int, i as int + pat@.len() as int);
            if pat@.len() == 0 {
                assert(subr =~= pat@);
            }
        }
        i += 1;
    }
}

/// Whether `pat` occurs anywhere in `s`.
fn contains_str(s: &str, s_len: usize, pat: &str) -> (r: bool)
    requires
        s_len == s@.len(),
    ensures
        r == contains_pat(s@, pat@),
{
    let pat_len = pat.unicode_len();
    match find_from(s, s_len, pat, pat_len, 0) {
        Some(_) => true,
        None => false,
    }
}

/// Whether this character is trimmed from the segment's ends.
fn is_space(c: char) -> (r: bool)
    ensures
        r == is_space_char(c),
{
    c == ' ' || c == '\t' || c == '\n' || c == '\r' || c == '\u{b}' || c == '\u{c}'
}

/// The report payload extracted from one line of the companion process's
/// output: the token of a qualifying line carrying a delimiter, to be
/// published raw to the report topic; nothing for any other line.
pub fn extract_report(line: &str) -> (r: Option<String>)
    ensures
        r is Some ==> spec_extract(line@) == Some(r->0@),
        r is None ==> spec_extract(line@) is None,
{
    let n = line.unicode_len();
    if !contains_str(line, n, "onReceiveMessage") {
        return None;
    }
    if !contains_str(line, n, "method") {
        return None;
    }
    if !contains_str(line, n, "res/report") {
        return None;
    }
    let delim = ">>";
    let delim_len = delim.unicode_len();
    proof {
        reveal_strlit(">>");
    }
    let d = match find_from(line, n, delim, delim_len, 0) {
        Some(d) => d,
        None => {
            return None;
        },
    };
    let seg_start = d + 2;
    let seg_end = match find_from(line, n, delim, delim_len, seg_start) {
        Some(e) => e,
        None => n,
    };
    let mut a: usize = seg_start;
    while a < seg_end && is_space(line.get_char(a))
        invariant
            n == line@.len(),
            seg_start <= a <= seg_end <= n,
            skip_space_fwd(line@, seg_start as int, seg_end as int) == skip_space_fwd(
                line@,
                a as int,
                seg_end as int,
            ),
        decreases seg_end - a,
    {
        a += 1;
    }
    let mut b0: usize = seg_end;
    while b0 > a && is_space(line.get_char(b0 - 1))
        invariant
            n == line@.len(),
            a <= b0 <= seg_end <= n,
            skip_space_back(line@, a as int, seg_end as int) == skip_space_back(
                line@,
                a as int,
                b0 as int,
            ),
        decreases b0 - a,
    {
        b0 -= 1;
    }
    let mut b: usize = a;
    while b < b0 && line.get_char(b) != ' '
        invariant
            n == line@.len(),
            a <= b <= b0 <= n,
            scan_to_space(line@, a as int, b0 as int) == scan_to_space(line@, b as int, b0 as int),
        decreases b0 - b,
    {
        b += 1;
    }
    Some(line.substring_char(a, b).to_owned())
}

} // verus!
