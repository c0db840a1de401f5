//! Character and string helpers shared by the formatting and parsing code.

use vstd::prelude::*;

verus! {

/// The decimal digit character for a value below ten.
pub open spec fn spec_digit_char(d: int) -> char {
    if d == 0 {
        '0'
    } else if d == 1 {
        '1'
    } else if d == 2 {
        '2'
    } else if d == 3 {
        '3'
    } else if d == 4 {
        '4'
    } else if d == 5 {
        '5'
    } else if d == 6 {
        '6'
    } else if d == 7 {
        '7'
    } else if d == 8 {
        '8'
    } else {
        '9'
    }
}

/// The decimal representation of a natural number, most significant digit first.
pub open spec fn spec_u64_str(n: nat) -> Seq<char>
    decreases n,
{
    if n < 10 {
        seq![spec_digit_char(n as int)]
    } else {
        spec_u64_str(n / 10) + seq![spec_digit_char((n % 10) as int)]
    }
}

pub fn digit_str(d: u64) -> (s: &'static str)
    requires
        d < 10,
    ensures
        s@ =~= seq![spec_digit_char(d as int)],
{
    proof {
        reveal_strlit("0");
        reveal_strlit("1");
        reveal_strlit("2");
        reveal_strlit("3");
        reveal_strlit("4");
        reveal_strlit("5");
        reveal_strlit("6");
        reveal_strlit("7");
        reveal_strlit("8");
        reveal_strlit("9");
    }
    if d == 0 {
        "0"
    } else if d == 1 {
        "1"
    } else if d == 2 {
        "2"
    } else if d == 3 {
        "3"
    } else if d == 4 {
        "4"
    } else if d == 5 {
        "5"
    } else if d == 6 {
        "6"
    } else if d == 7 {
        "7"
    } else if d == 8 {
        "8"
    } else {
        "9"
    }
}

/// Renders a number in decimal.
pub fn u64_to_string(n: u64) -> (s: String)
    ensures
        s@ == spec_u64_str(n as nat),
    decreases n,
{
    if n < 10 {
        digit_str(n).to_owned()
    } else {
        let mut s = u64_to_string(n / 10);
        s.append(digit_str(n % 10));
        proof {
            assert(s@ == spec_u64_str((n / 10) as nat) + seq![
                spec_digit_char((n % 10) as int),
            ]);
        }
        s
    }
}

/// Whether `p` opens `s`, character for character.
pub open spec fn spec_str_has_prefix(s: Seq<char>, p: Seq<char>) -> bool {
    p.len() <= s.len() && s.subrange(0, p.len() as int) == p
}

/// Whether `p` opens `s`, character for character.
pub fn str_has_prefix(s: &str, p: &str) -> (r: bool)
    ensures
        r == spec_str_has_prefix(s@, p@),
{
    let plen = p.unicode_len();
    let len = s.unicode_len();
    if plen > len {
        return false;
    }
    let mut i: usize = 0;
    while i < plen
        invariant
            i <= plen,
            plen == p@.len(),
            len == s@.len(),
            plen <= len,
            forall|j: int| 0 <= j < i ==> s@[j] == p@[j],
        decreases plen - i,
    {
        if s.get_char(i) != p.get_char(i) {
            proof {
                assert(s@.subrange(0, plen as int)[i as int] != p@[i as int]);
            }
            return false;
        }
        i = i + 1;
    }
    proof {
        assert(s@.subrange(0, plen as int) =~= p@);
    }
    true
}

/// Character-for-character string equality.
pub fn str_eq(a: &str, b: &str) -> (r: bool)
    ensures
        r == (a@ == b@),
{
    let alen = a.unicode_len();
    let blen = b.unicode_len();
    if alen != blen {
        return false;
    }
    let mut i: usize = 0;
    while i < alen
        invariant
            i <= alen,
            alen == a@.len(),
            blen == b@.len(),
            alen == blen,
            forall|j: int| 0 <= j < i ==> a@[j] == b@[j],
        decreases alen - i,
    {
        if a.get_char(i) != b.get_char(i) {
            return false;
        }
        i = i + 1;
    }
    proof {
        assert(a@ =~= b@);
    }
    true
}

/// Whether `sub` occurs in `s` at position `i`.
pub open spec fn spec_matches_at(s: Seq<char>, sub: Seq<char>, i: int) -> bool {
    0 <= i && i + sub.len() <= s.len() && s.subrange(i, i + sub.len()) == sub
}

/// Whether `sub` occurs anywhere in `s`.
pub open spec fn spec_contains_seq(s: Seq<char>, sub: Seq<char>) -> bool {
    exists|i: int| spec_matches_at(s, sub, i)
}

fn matches_at(s: &str, sub: &str, i: usize) -> (r: bool)
    requires
        i + sub@.len() <= s@.len(),
    ensures
        r == spec_matches_at(s@, sub@, i as int),
{
    let n = sub.unicode_len();
    let slen = s.unicode_len();
    let mut j: usize = 0;
    while j < n
        invariant
            j <= n,
            n == sub@.len(),
            slen == s@.len(),
            i + n <= slen,
            forall|k: int| 0 <= k < j ==> s@[i + k] == sub@[k],
        decreases n - j,
    {
        if s.get_char(i + j) != sub.get_char(j) {
            proof {
                assert(s@.subrange(i as int, i + n)[j as int] != sub@[j as int]);
            }
            return false;
        }
        j = j + 1;
    }
    proof {
        assert(s@.subrange(i as int, i + n) =~= sub@);
    }
    true
}

/// Whether `sub` occurs anywhere in `s`.
pub fn str_contains(s: &str, sub: &str) -> (r: bool)
    ensures
        r == spec_contains_seq(s@, sub@),
{
    let len = s.unicode_len();
    let n = sub.unicode_len();
    if n > len {
        proof {
            assert(!spec_contains_seq(s@, sub@)) by {
                if spec_contains_seq(s@, sub@) {
                    let i = choose|i: int| spec_matches_at(s@, sub@, i);
                }
            }
        }
        return false;
    }
    if n == 0 {
        proof {
            assert(s@.subrange(0, 0) =~= sub@);
            assert(spec_matches_at(s@, sub@, 0));
        }
        return true;
    }
    let last = len - n;
    let mut i: usize = 0;
    while i <= last
        invariant
            i <= last + 1,
            last == s@.len() - sub@.len(),
            len == s@.len(),
            n == sub@.len(),
            n >= 1,
            forall|k: int| 0 <= k < i ==> !spec_matches_at(s@, sub@, k),
        decreases last - i + 1,
    {
        if matches_at(s, sub, i) {
            return true;
        }
        i = i + 1;
    }
    proof {
        assert(!spec_contains_seq(s@, sub@)) by {
            if spec_contains_seq(s@, sub@) {
                let k = choose|k: int| spec_matches_at(s@, sub@, k);
                assert(k <= last);
                assert(!spec_matches_at(s@, sub@, k));
            }
        }
    }
    false
}

pub open spec fn spec_is_space(c: char) -> bool {
    c == ' ' || c == '\t' || c == '\n' || c == '\r'
}

/// The first index at or after `i` that holds no space.
pub open spec fn spec_skip_spaces(s: Seq<char>, i: int) -> int
    decreases s.len() - i,
{
    if 0 <= i < s.len() && spec_is_space(s[i]) {
        spec_skip_spaces(s, i + 1)
    } else {
        i
    }
}

/// The end of the string once trailing spaces before `j` are dropped.
pub open spec fn spec_rtrim(s: Seq<char>, j: int) -> int
    decreases j,
{
    if 0 < j <= s.len() && spec_is_space(s[j - 1]) {
        spec_rtrim(s, j - 1)
    } else {
        j
    }
}

/// The string without leading and trailing spaces.
pub open spec fn spec_trimmed(s: Seq<char>) -> Seq<char> {
    let start = spec_skip_spaces(s, 0);
    let end = spec_rtrim(s, s.len() as int);
    if start <= end {
        s.subrange(start, end)
    } else {
        Seq::empty()
    }
}

pub fn is_space_char(c: char) -> (r: bool)
    ensures
        r == spec_is_space(c),
{
    c == ' ' || c == '\t' || c == '\n' || c == '\r'
}

/// The string without leading and trailing spaces.
pub fn trim_str(s: &str) -> (r: String)
    ensures
        r@ == spec_trimmed(s@),
{
    let len = s.unicode_len();
    let mut start: usize = 0;
    while start < len
        invariant
            0 <= start <= len,
            len == s@.len(),
            spec_skip_spaces(s@, 0) == spec_skip_spaces(s@, start as int),
        ensures
            0 <= start <= len,
            spec_skip_spaces(s@, 0) == spec_skip_spaces(s@, start as int),
            start < len ==> !spec_is_space(s@[start as int]),
        decreases len - start,
    {
        if !is_space_char(s.get_char(start)) {
            break ;
        }
        start = start + 1;
    }
    let mut end: usize = len;
    while end > 0
        invariant
            0 <= end <= len,
            len == s@.len(),
            spec_rtrim(s@, len as int) == spec_rtrim(s@, end as int),
        ensures
            0 <= end <= len,
            spec_rtrim(s@, len as int) == spec_rtrim(s@, end as int),
            end > 0 ==> !spec_is_space(s@[end - 1]),
        decreases end,
    {
        if !is_space_char(s.get_char(end - 1)) {
            break ;
        }
        end = end - 1;
    }
    proof {
        assert(spec_skip_spaces(s@, start as int) == start as int);
        assert(spec_rtrim(s@, end as int) == end as int);
    }
    if start <= end {
        s.substring_char(start, end).to_owned()
    } else {
        String::new()
    }
}

} // verus!
