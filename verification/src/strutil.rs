use vstd::prelude::*;
use vstd::string::StrSliceExecFns;

verus! {

/// The views of a sequence of strings, as a sequence of character sequences.
pub open spec fn seq_views(v: Seq<String>) -> Seq<Seq<char>> {
    v.map_values(|s: String| s@)
}

/// Character-by-character string equality, stated over the string views.
pub fn str_eq(a: &str, b: &str) -> (r: bool)
    ensures
        r == (a@ == b@),
{
    let alen: usize = a.unicode_len();
    let blen: usize = b.unicode_len();
    if alen != blen {
        return false;
    }
    let mut i: usize = 0;
    while i < alen
        invariant
            alen == a@.len(),
            blen == b@.len(),
            alen == blen,
            i <= alen,
            forall|j: int| 0 <= j < i ==> a@[j] == b@[j],
        decreases alen - i,
    {
        if a.get_char(i) != b.get_char(i) {
            return false;
        }
        i += 1;
    }
    proof {
        assert(a@ =~= b@);
    }
    true
}

/// Does `s` begin with the prefix `p`?
pub open spec fn spec_starts_with(s: Seq<char>, p: Seq<char>) -> bool {
    p.len() <= s.len() && s.subrange(0, p.len() as int) == p
}

/// Prefix test, stated over the string views.
pub fn starts_with(s: &str, p: &str) -> (r: bool)
    ensures
        r == spec_starts_with(s@, p@),
{
    let slen: usize = s.unicode_len();
    let plen: usize = p.unicode_len();
    if plen > slen {
        return false;
    }
    let mut i: usize = 0;
    while i < plen
        invariant
            slen == s@.len(),
            plen == p@.len(),
            plen <= slen,
            i <= plen,
            forall|j: int| 0 <= j < i ==> s@[j] == p@[j],
        decreases plen - i,
    {
        if s.get_char(i) != p.get_char(i) {
            proof {
                assert(s@.subrange(0, p@.len() as int)[i as int] == s@[i as int]);
            }
            return false;
        }
        i += 1;
    }
    proof {
        assert(s@.subrange(0, p@.len() as int) =~= p@);
    }
    true
}

/// The substring `sub` occurs in `s` starting at position `i`.
pub open spec fn match_at(s: Seq<char>, sub: Seq<char>, i: int) -> bool {
    0 <= i && i + sub.len() <= s.len() && s.subrange(i, i + sub.len() as int) == sub
}

/// The substring `sub` occurs somewhere in `s`.
pub open spec fn spec_contains_substr(s: Seq<char>, sub: Seq<char>) -> bool {
    exists|i: int| match_at(s, sub, i)
}

/// Substring search, stated over the string views.
pub fn contains_substring(s: &str, sub: &str) -> (r: bool)
    ensures
        r == spec_contains_substr(s@, sub@),
{
    let slen: usize = s.unicode_len();
    let m: usize = sub.unicode_len();
    if m > slen {
        assert(forall|i: int| !match_at(s@, sub@, i));
        return false;
    }
    let mut i: usize = 0;
    while i <= slen - m
        invariant
            slen == s@.len(),
            m == sub@.len(),
            m <= slen,
            i <= slen - m + 1,
            forall|k: int| 0 <= k < i ==> !match_at(s@, sub@, k),
        decreases slen - m - i + 1,
    {
        let mut j: usize = 0;
        let mut mismatch = false;
        while j < m
            invariant
                slen == s@.len(),
                m == sub@.len(),
                m <= slen,
                i <= slen - m,
                j <= m,
                !mismatch ==> forall|t: int| 0 <= t < j ==> s@[i + t] == sub@[t],
                mismatch ==> exists|t: int| 0 <= t < m && s@[i + t] != sub@[t],
            decreases m - j,
        {
            if s.get_char(i + j) != sub.get_char(j) {
                assert(s@[i + j] != sub@[j as int]);
                mismatch = true;
                j = m;
            } else {
                j += 1;
            }
        }
        if !mismatch {
            proof {
                assert(s@.subrange(i as int, i + sub@.len() as int) =~= sub@);
                assert(match_at(s@, sub@, i as int));
            }
            return true;
        }
        proof {
            assert(!match_at(s@, sub@, i as int)) by {
                if match_at(s@, sub@, i as int) {
                    let t = choose|t: int| 0 <= t < m && s@[i + t] != sub@[t];
                    assert(s@.subrange(i as int, i + sub@.len() as int)[t] == s@[i + t]);
                }
            }
        }
        i += 1;
    }
    proof {
        assert(forall|k: int| !match_at(s@, sub@, k)) by {
            assert(forall|k: int| k > slen - m ==> !match_at(s@, sub@, k));
        }
    }
    false
}

/// Membership of a string in a vector of strings, stated over the views.
pub fn contains_str(v: &Vec<String>, s: &str) -> (r: bool)
    ensures
        r == seq_views(v@).contains(s@),
{
    let mut i: usize = 0;
    while i < v.len()
        invariant
            i <= v@.len(),
            forall|j: int| 0 <= j < i ==> seq_views(v@)[j] != s@,
        decreases v@.len() - i,
    {
        if str_eq(v[i].as_str(), s) {
            assert(seq_views(v@)[i as int] == s@);
            return true;
        }
        i += 1;
    }
    false
}

} // verus!
