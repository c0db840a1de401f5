//! Slash-separated path reasoning over plain strings.
//!
//! Paths handled by this crate are canonical: absolute or relative strings
//! with `/` between components and no trailing separator.

use vstd::prelude::*;

verus! {

/// Whether `path` lies at or under `prefix`, component-wise: either the two
/// are equal, or `path` continues past `prefix` with a separator.
pub open spec fn spec_path_starts_with(path: Seq<char>, prefix: Seq<char>) -> bool {
    ||| path == prefix
    ||| (prefix.len() < path.len() && path.subrange(0, prefix.len() as int) == prefix && path[
        prefix.len() as int
    ] == '/')
}

/// Whether `path` lies strictly under `prefix`: under it and not equal to it.
pub open spec fn spec_path_strictly_under(path: Seq<char>, prefix: Seq<char>) -> bool {
    prefix.len() < path.len() && path.subrange(0, prefix.len() as int) == prefix && path[
        prefix.len() as int
    ] == '/'
}

/// The index of the last separator, or -1 when there is none.
pub open spec fn spec_last_slash(s: Seq<char>) -> int
    decreases s.len(),
{
    if s.len() == 0 {
        -1
    } else if s[s.len() - 1] == '/' {
        s.len() - 1
    } else {
        spec_last_slash(s.drop_last())
    }
}

/// What follows the last separator; the whole string when there is none.
pub open spec fn spec_last_component(s: Seq<char>) -> Seq<char> {
    s.subrange(spec_last_slash(s) + 1, s.len() as int)
}

/// What precedes the last separator; empty when there is none.
pub open spec fn spec_parent(s: Seq<char>) -> Seq<char> {
    if spec_last_slash(s) <= 0 {
        Seq::empty()
    } else {
        s.subrange(0, spec_last_slash(s))
    }
}

proof fn lemma_last_slash_bounds(s: Seq<char>)
    ensures
        -1 <= spec_last_slash(s) < s.len(),
        spec_last_slash(s) >= 0 ==> s[spec_last_slash(s)] == '/',
        forall|j: int| spec_last_slash(s) < j < s.len() ==> s[j] != '/',
    decreases s.len(),
{
    if s.len() == 0 {
    } else if s[s.len() - 1] == '/' {
    } else {
        lemma_last_slash_bounds(s.drop_last());
        assert forall|j: int| spec_last_slash(s) < j < s.len() implies s[j] != '/' by {
            if j < s.len() - 1 {
                assert(s.drop_last()[j] == s[j]);
            }
        }
    }
}

proof fn lemma_no_slash_after(s: Seq<char>, i: int)
    requires
        -1 <= i < s.len(),
        i >= 0 ==> s[i] == '/',
        forall|j: int| i < j < s.len() ==> s[j] != '/',
    ensures
        spec_last_slash(s) == i,
    decreases s.len(),
{
    if s.len() == 0 {
    } else if s[s.len() - 1] == '/' {
        assert(i == s.len() - 1);
    } else {
        assert(i < s.len() - 1);
        lemma_no_slash_after(s.drop_last(), i);
    }
}

/// Whether `path` lies at or under `prefix`, component-wise.
pub fn path_starts_with(path: &str, prefix: &str) -> (r: bool)
    ensures
        r == spec_path_starts_with(path@, prefix@),
{
    let plen = prefix.unicode_len();
    let len = path.unicode_len();
    if plen > len {
        proof {
            assert(!spec_path_starts_with(path@, prefix@));
        }
        return false;
    }
    let mut i: usize = 0;
    while i < plen
        invariant
            i <= plen,
            plen == prefix@.len(),
            len == path@.len(),
            plen <= len,
            forall|j: int| 0 <= j < i ==> path@[j] == prefix@[j],
        decreases plen - i,
    {
        if path.get_char(i) != prefix.get_char(i) {
            proof {
                assert(path@.subrange(0, plen as int)[i as int] != prefix@[i as int]);
                assert(path@ != prefix@) by {
                    if path@ == prefix@ {
                        assert(path@[i as int] == prefix@[i as int]);
                    }
                }
            }
            return false;
        }
        i = i + 1;
    }
    if plen == len {
        proof {
            assert(path@ =~= prefix@);
        }
        true
    } else {
        let r = path.get_char(plen) == '/';
        proof {
            assert(path@.subrange(0, plen as int) =~= prefix@);
        }
        r
    }
}

/// Whether `path` lies strictly under `prefix`.
pub fn path_strictly_under(path: &str, prefix: &str) -> (r: bool)
    ensures
        r == spec_path_strictly_under(path@, prefix@),
{
    let plen = prefix.unicode_len();
    let len = path.unicode_len();
    if plen >= len {
        return false;
    }
    let mut i: usize = 0;
    while i < plen
        invariant
            i <= plen,
            plen == prefix@.len(),
            len == path@.len(),
            plen < len,
            forall|j: int| 0 <= j < i ==> path@[j] == prefix@[j],
        decreases plen - i,
    {
        if path.get_char(i) != prefix.get_char(i) {
            proof {
                assert(path@.subrange(0, plen as int)[i as int] != prefix@[i as int]);
            }
            return false;
        }
        i = i + 1;
    }
    let r = path.get_char(plen) == '/';
    proof {
        assert(path@.subrange(0, plen as int) =~= prefix@);
    }
    r
}

/// The index one past the last separator, or 0 when there is none.
fn last_slash_end(s: &str) -> (r: usize)
    ensures
        r == spec_last_slash(s@) + 1,
{
    let len = s.unicode_len();
    let mut i: usize = len;
    while i > 0
        invariant
            i <= len,
            len == s@.len(),
            forall|j: int| i <= j < len ==> s@[j] != '/',
        decreases i,
    {
        if s.get_char(i - 1) == '/' {
            proof {
                lemma_no_slash_after(s@, i - 1);
            }
            return i;
        }
        i = i - 1;
    }
    proof {
        lemma_no_slash_after(s@, -1);
    }
    0
}

/// What follows the last separator; the whole string when there is none.
pub fn last_component(s: &str) -> (r: String)
    ensures
        r@ == spec_last_component(s@),
{
    let len = s.unicode_len();
    let start = last_slash_end(s);
    proof {
        lemma_last_slash_bounds(s@);
    }
    let part = s.substring_char(start, len);
    part.to_owned()
}

/// What precedes the last separator; empty when there is none.
pub fn parent_of(s: &str) -> (r: String)
    ensures
        r@ == spec_parent(s@),
{
    let start = last_slash_end(s);
    proof {
        lemma_last_slash_bounds(s@);
    }
    if start <= 1 {
        proof {
            assert(spec_parent(s@) =~= Seq::<char>::empty());
        }
        String::new()
    } else {
        let part = s.substring_char(0, start - 1);
        part.to_owned()
    }
}

/// `base` and `name` joined with a separator.
pub fn path_join(base: &str, name: &str) -> (r: String)
    ensures
        r@ == base@ + seq!['/'] + name@,
{
    let mut s = base.to_owned();
    proof {
        reveal_strlit("/");
    }
    s.append("/");
    s.append(name);
    proof {
        assert("/"@ =~= seq!['/']);
    }
    s
}

} // verus!
