use vstd::prelude::*;

use vstd::string::StrSliceExecFns;

verus! {

/// Whether two strings hold the same characters.
pub fn str_eq(a: &str, b: &str) -> (r: bool)
    ensures
        r == (a@ == b@),
{
    let n = a.unicode_len();
    if n != b.unicode_len() {
        return false;
    }
    let mut i: usize = 0;
    while i < n
        invariant
            n == a@.len(),
            n == b@.len(),
            i <= n,
            forall|j: int| 0 <= j < i ==> a@[j] == b@[j],
        decreases n - i,
    {
        if a.get_char(i) != b.get_char(i) {
            return false;
        }
        i = i + 1;
    }
    assert(a@ =~= b@);
    true
}

/// Whether `needle` occurs in `hay` as a run of consecutive characters.
pub open spec fn occurs_in(needle: Seq<char>, hay: Seq<char>) -> bool {
    exists|p: int| 0 <= p && p + needle.len() <= hay.len() && #[trigger] hay.subrange(p, p + needle.len()) == needle
}

fn matches_at(hay: &str, needle: &str, p: usize) -> (r: bool)
    requires
        p + needle@.len() <= hay@.len(),
    ensures
        r == (hay@.subrange(p as int, p + needle@.len()) == needle@),
{
    let m = needle.unicode_len();
    let n = hay.unicode_len();
    let mut k: usize = 0;
    while k < m
        invariant
            m == needle@.len(),
            n == hay@.len(),
            p + m <= hay@.len(),
            k <= m,
            forall|q: int| 0 <= q < k ==> hay@[p + q] == needle@[q],
        decreases m - k,
    {
        if hay.get_char(p + k) != needle.get_char(k) {
            assert(hay@.subrange(p as int, p + m)[k as int] != needle@[k as int]);
            return false;
        }
        k = k + 1;
    }
    assert(hay@.subrange(p as int, p + m) =~= needle@);
    true
}

/// Whether `hay` contains `needle`.
pub fn str_contains(hay: &str, needle: &str) -> (r: bool)
    ensures
        r == occurs_in(needle@, hay@),
{
    let n = hay.unicode_len();
    let m = needle.unicode_len();
    if m > n {
        return false;
    }
    if m == 0 {
        assert(hay@.subrange(0int, 0int + needle@.len()) =~= needle@);
        return true;
    }
    let mut p: usize = 0;
    while p <= n - m
        invariant
            n == hay@.len(),
            m == needle@.len(),
            1 <= m <= n,
            p <= n - m + 1,
            forall|q: int| 0 <= q < p ==> #[trigger] hay@.subrange(q, q + m) != needle@,
        decreases n - m + 1 - p,
    {
        if matches_at(hay, needle, p) {
            assert(hay@.subrange(p as int, p + needle@.len()) == needle@);
            return true;
        }
        p = p + 1;
    }
    assert(!occurs_in(needle@, hay@)) by {
        if occurs_in(needle@, hay@) {
            let q = choose|q: int| 0 <= q && q + needle@.len() <= hay@.len() && #[trigger] hay@.subrange(q, q + needle@.len()) == needle@;
            assert(q < p);
        }
    }
    false
}

} // verus!
