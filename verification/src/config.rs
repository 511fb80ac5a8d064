//! The simulated-failure switch: the pure truthiness test applied to an
//! environment value. Reading the environment is the host program's job; it
//! hands the raw value here.

use vstd::prelude::*;

use crate::text::{lower_ascii, lower_char, str_to_chars};

verus! {

/// The ASCII whitespace characters trimmed from an environment value.
pub open spec fn is_ascii_space_char(c: char) -> bool {
    c == ' ' || c == '\t' || c == '\n' || c == '\r' || c == '\u{000C}'
}

/// Executable check for [`is_ascii_space_char`].
pub fn ascii_space_char(c: char) -> (r: bool)
    ensures
        r == is_ascii_space_char(c),
{
    c == ' ' || c == '\t' || c == '\n' || c == '\r' || c == '\u{000C}'
}

/// `s` without its leading ASCII whitespace.
pub open spec fn trim_start_spaces(s: Seq<char>) -> Seq<char>
    decreases s.len(),
{
    if s.len() > 0 && is_ascii_space_char(s[0]) {
        trim_start_spaces(s.drop_first())
    } else {
        s
    }
}

/// `s` without its trailing ASCII whitespace.
pub open spec fn trim_end_spaces(s: Seq<char>) -> Seq<char>
    decreases s.len(),
{
    if s.len() > 0 && is_ascii_space_char(s[s.len() - 1]) {
        trim_end_spaces(s.drop_last())
    } else {
        s
    }
}

/// `s` without leading and trailing ASCII whitespace.
pub open spec fn trim_spaces(s: Seq<char>) -> Seq<char> {
    trim_end_spaces(trim_start_spaces(s))
}

/// A value is truthy when, trimmed and ASCII-lowercased, it is `1`, `true`
/// or `yes`.
pub open spec fn spec_truthy(s: Seq<char>) -> bool {
    lower_ascii(trim_spaces(s)) == "1"@ || lower_ascii(trim_spaces(s)) == "true"@ || lower_ascii(
        trim_spaces(s),
    ) == "yes"@
}

/// When the first `k` characters are whitespace and position `k` is the end
/// or holds none, trimming the start drops exactly those `k` characters.
proof fn lemma_trim_start(s: Seq<char>, k: int)
    requires
        0 <= k <= s.len(),
        forall|j: int| 0 <= j < k ==> is_ascii_space_char(#[trigger] s[j]),
        k == s.len() || !is_ascii_space_char(s[k]),
    ensures
        trim_start_spaces(s) == s.skip(k),
    decreases k,
{
    if k == 0 {
        assert(trim_start_spaces(s) =~= s.skip(0));
    } else {
        assert(is_ascii_space_char(s[0]));
        lemma_trim_start(s.drop_first(), k - 1);
        assert(s.drop_first().skip(k - 1) =~= s.skip(k));
    }
}

/// When every character from position `k` on is whitespace and position
/// `k - 1` holds none (or `k` is zero), trimming the end keeps exactly the
/// first `k` characters.
proof fn lemma_trim_end(s: Seq<char>, k: int)
    requires
        0 <= k <= s.len(),
        forall|j: int| k <= j < s.len() ==> is_ascii_space_char(#[trigger] s[j]),
        k == 0 || !is_ascii_space_char(s[k - 1]),
    ensures
        trim_end_spaces(s) == s.take(k),
    decreases s.len(),
{
    if k == s.len() {
        assert(trim_end_spaces(s) =~= s.take(k));
    } else {
        assert(is_ascii_space_char(s[s.len() - 1]));
        lemma_trim_end(s.drop_last(), k);
        assert(s.drop_last().take(k) =~= s.take(k));
    }
}

/// Compares a character vector with a string slice.
fn chars_eq(v: &Vec<char>, s: &str) -> (r: bool)
    ensures
        r == (v@ == s@),
{
    let sc = str_to_chars(s);
    if v.len() != sc.len() {
        return false;
    }
    let mut i: usize = 0;
    while i < v.len()
        invariant
            i <= v@.len(),
            v@.len() == sc@.len(),
            sc@ == s@,
            forall|j: int| 0 <= j < i ==> v@[j] == sc@[j],
        decreases v@.len() - i,
    {
        if v[i] != sc[i] {
            return false;
        }
        i = i + 1;
    }
    proof {
        assert(v@ =~= sc@);
    }
    true
}

/// Decides the simulated-failure switch from a raw environment value: true
/// exactly for `1`, `true` or `yes`, after ASCII whitespace is trimmed and
/// ASCII uppercase lowercased.
pub fn parse_bool_value(value: &str) -> (r: bool)
    ensures
        r == spec_truthy(value@),
{
    let cs = str_to_chars(value);
    let mut start: usize = 0;
    while start < cs.len() && ascii_space_char(cs[start])
        invariant
            start <= cs@.len(),
            cs@ == value@,
            forall|j: int| 0 <= j < start ==> is_ascii_space_char(#[trigger] cs@[j]),
        decreases cs@.len() - start,
    {
        start = start + 1;
    }
    let mut end: usize = cs.len();
    while end > start && ascii_space_char(cs[end - 1])
        invariant
            start <= end <= cs@.len(),
            cs@ == value@,
            forall|j: int| end <= j < cs@.len() ==> is_ascii_space_char(#[trigger] cs@[j]),
        decreases end,
    {
        end = end - 1;
    }
    proof {
        lemma_trim_start(cs@, start as int);
        let tail = cs@.skip(start as int);
        assert forall|j: int|
            end - start <= j < tail.len() implies is_ascii_space_char(#[trigger] tail[j]) by {
            assert(tail[j] == cs@[start + j]);
        }
        if end > start {
            assert(tail[end - start - 1] == cs@[end - 1]);
        }
        lemma_trim_end(tail, end - start);
        assert(trim_spaces(value@) =~= cs@.subrange(start as int, end as int));
    }
    let mut t: Vec<char> = Vec::new();
    let mut i: usize = start;
    while i < end
        invariant
            start <= i <= end,
            end <= cs@.len(),
            cs@ == value@,
            t@.len() == i - start,
            forall|j: int| 0 <= j < t@.len() ==> t@[j] == lower_char(#[trigger] cs@[start + j]),
        decreases end - i,
    {
        let c = cs[i];
        if 'A' <= c && c <= 'Z' {
            t.push(((c as u8) + 32) as char);
        } else {
            t.push(c);
        }
        i = i + 1;
    }
    proof {
        let sub = cs@.subrange(start as int, end as int);
        assert(lower_ascii(sub).len() == sub.len());
        assert forall|j: int| 0 <= j < t@.len() implies t@[j] == lower_ascii(sub)[j] by {
            assert(sub[j] == cs@[start + j]);
            assert(lower_ascii(sub)[j] == lower_char(sub[j]));
        }
        assert(t@ =~= lower_ascii(sub));
    }
    let one = chars_eq(&t, "1");
    let tru = chars_eq(&t, "true");
    let yes = chars_eq(&t, "yes");
    one || tru || yes
}

} // verus!
