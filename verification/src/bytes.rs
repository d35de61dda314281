use vstd::prelude::*;

verus! {

/// `needle` occurs in `hay` as a contiguous run starting at position `i`.
pub open spec fn matches_at(hay: Seq<u8>, needle: Seq<u8>, i: int) -> bool {
    &&& 0 <= i
    &&& i + needle.len() <= hay.len()
    &&& forall|k: int| 0 <= k < needle.len() ==> hay[i + k] == needle[k]
}

/// `needle` occurs somewhere in `hay` as a contiguous run.
pub open spec fn contains_bytes(hay: Seq<u8>, needle: Seq<u8>) -> bool {
    exists|i: int| matches_at(hay, needle, i)
}

/// Whether `needle` occurs in `hay` starting exactly at `i`.
fn matches_at_exec(hay: &Vec<u8>, needle: &Vec<u8>, i: usize) -> (r: bool)
    requires
        i + needle@.len() <= hay@.len(),
    ensures
        r == matches_at(hay@, needle@, i as int),
{
    let n = hay.len();
    let m = needle.len();
    let mut k: usize = 0;
    while k < m
        invariant
            i + m <= n,
            n == hay@.len(),
            m == needle@.len(),
            k <= m,
            forall|t: int| 0 <= t < k ==> hay@[i + t] == needle@[t],
        decreases m - k,
    {
        if hay[i + k] != needle[k] {
            return false;
        }
        k = k + 1;
    }
    true
}

/// Whether `needle` occurs contiguously anywhere in `hay`.
pub fn find_bytes(hay: &Vec<u8>, needle: &Vec<u8>) -> (r: bool)
    ensures
        r == contains_bytes(hay@, needle@),
{
    let n = hay.len();
    let m = needle.len();
    if m > n {
        return false;
    }
    let mut i: usize = 0;
    while i <= n - m
        invariant
            m <= n,
            n == hay@.len(),
            m == needle@.len(),
            i <= n - m + 1,
            forall|p: int| 0 <= p < i ==> !matches_at(hay@, needle@, p),
        decreases n + 1 - i,
    {
        if matches_at_exec(hay, needle, i) {
            return true;
        }
        i = i + 1;
    }
    false
}

/// Whether the two byte strings are equal.
pub fn bytes_eq(a: &Vec<u8>, b: &Vec<u8>) -> (r: bool)
    ensures
        r == (a@ == b@),
{
    let n = a.len();
    if n != b.len() {
        return false;
    }
    let mut i: usize = 0;
    while i < n
        invariant
            n == a@.len(),
            n == b@.len(),
            i <= n,
            forall|j: int| 0 <= j < i ==> a@[j] == b@[j],
        decreases n - i,
    {
        if a[i] != b[i] {
            return false;
        }
        i = i + 1;
    }
    proof {
        assert(a@ =~= b@);
    }
    true
}

/// The prefix of `s` up to, and not including, its first null byte — the
/// whole of `s` when it has none. Driver-reported names come in
/// fixed-size, null-terminated character arrays; this is what such an
/// array means as a byte string.
pub fn trim_at_nul(s: &Vec<u8>) -> (r: Vec<u8>)
    ensures
        r@.len() <= s@.len(),
        r@ == s@.take(r@.len() as int),
        forall|j: int| 0 <= j < r@.len() ==> s@[j] != 0,
        r@.len() < s@.len() ==> s@[r@.len() as int] == 0,
{
    let n = s.len();
    let mut r: Vec<u8> = Vec::new();
    let mut i: usize = 0;
    while i < n
        invariant
            n == s@.len(),
            i <= n,
            r@ == s@.take(i as int),
            forall|j: int| 0 <= j < i ==> s@[j] != 0,
        decreases n - i,
    {
        if s[i] == 0 {
            return r;
        }
        r.push(s[i]);
        proof {
            assert(r@ =~= s@.take(i + 1));
        }
        i = i + 1;
    }
    r
}

/// `name` is one of the byte strings in `names`.
pub open spec fn names_contain(names: Seq<Vec<u8>>, name: Seq<u8>) -> bool {
    exists|i: int| 0 <= i < names.len() && names[i]@ == name
}

/// Whether `name` is one of the byte strings in `names`.
pub fn find_name(names: &Vec<Vec<u8>>, name: &Vec<u8>) -> (r: bool)
    ensures
        r == names_contain(names@, name@),
{
    let n = names.len();
    let mut i: usize = 0;
    while i < n
        invariant
            n == names@.len(),
            i <= n,
            forall|j: int| 0 <= j < i ==> names@[j]@ != name@,
        decreases n - i,
    {
        if bytes_eq(&names[i], name) {
            return true;
        }
        i = i + 1;
    }
    false
}

} // verus!
