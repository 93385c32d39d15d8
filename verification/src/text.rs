//! Small verified helpers on strings.

use vstd::prelude::*;

verus! {

/// Returns `true` if `a` and `b` hold the same characters.
pub fn str_eq(a: &str, b: &str) -> (r: bool)
    ensures
        r == (a@ == b@),
{
    let n = a.unicode_len();
    let m = b.unicode_len();
    if n != m {
        return false;
    }
    let mut i: usize = 0;
    while i < n
        invariant
            n == a@.len(),
            m == b@.len(),
            n == m,
            0 <= i <= n,
            forall|k: int| 0 <= k < i ==> a@[k] == b@[k],
        decreases n - i,
    {
        if a.get_char(i) != b.get_char(i) {
            return false;
        }
        i = i + 1;
    }
    assert(a@ =~= b@);
    true
}

/// `s` ends with `suffix`.
pub open spec fn ends_with(s: Seq<char>, suffix: Seq<char>) -> bool {
    suffix.len() <= s.len() && s.subrange(s.len() - suffix.len(), s.len() as int) == suffix
}

/// Returns `true` if `s` ends with `suffix`.
pub fn str_ends_with(s: &str, suffix: &str) -> (r: bool)
    ensures
        r == ends_with(s@, suffix@),
{
    let n = s.unicode_len();
    let m = suffix.unicode_len();
    if m > n {
        return false;
    }
    let off = n - m;
    let mut i: usize = 0;
    while i < m
        invariant
            n == s@.len(),
            m == suffix@.len(),
            off == n - m,
            0 <= i <= m,
            forall|k: int| 0 <= k < i ==> s@[off + k] == suffix@[k],
        decreases m - i,
    {
        if s.get_char(off + i) != suffix.get_char(i) {
            assert(s@.subrange(off as int, n as int)[i as int] != suffix@[i as int]);
            return false;
        }
        i = i + 1;
    }
    assert(s@.subrange(off as int, n as int) =~= suffix@);
    true
}

} // verus!

verus! {

/// Some string of `names` equals `s`.
pub open spec fn has_str(names: Seq<String>, s: Seq<char>) -> bool {
    exists|k: int| 0 <= k < names.len() && (#[trigger] names[k])@ == s
}

/// Returns `true` if some string of `names` equals `s`.
pub fn contains_str(names: &Vec<String>, s: &str) -> (b: bool)
    ensures
        b == has_str(names@, s@),
{
    let n = names.len();
    let mut k: usize = 0;
    while k < n
        invariant
            n == names.len(),
            0 <= k <= n,
            forall|j: int| 0 <= j < k ==> (#[trigger] names@[j])@ != s@,
        decreases n - k,
    {
        if str_eq(names[k].as_str(), s) {
            return true;
        }
        k = k + 1;
    }
    false
}

/// A copy of a list of strings.
pub fn clone_strings(names: &Vec<String>) -> (v: Vec<String>)
    ensures
        v@ == names@,
{
    let n = names.len();
    let mut v: Vec<String> = Vec::new();
    let mut k: usize = 0;
    while k < n
        invariant
            n == names.len(),
            0 <= k <= n,
            v@ == names@.take(k as int),
        decreases n - k,
    {
        v.push(names[k].clone());
        proof {
            assert(names@.take(k + 1) =~= names@.take(k as int).push(names@[k as int]));
        }
        k = k + 1;
    }
    assert(names@.take(n as int) =~= names@);
    v
}

/// The strings of `names` that differ from `s`, in their order.
pub fn without_str(names: &Vec<String>, s: &str) -> (v: Vec<String>)
    ensures
        forall|x: Seq<char>| has_str(v@, x) <==> has_str(names@, x) && x != s@,
{
    let n = names.len();
    let mut v: Vec<String> = Vec::new();
    let mut k: usize = 0;
    while k < n
        invariant
            n == names.len(),
            0 <= k <= n,
            forall|x: Seq<char>| has_str(v@, x) <==> has_str(names@.take(k as int), x) && x != s@,
        decreases n - k,
    {
        let ghost prev = v@;
        if !str_eq(names[k].as_str(), s) {
            v.push(names[k].clone());
        }
        proof {
            let t = names@.take(k + 1);
            assert(t =~= names@.take(k as int).push(names@[k as int]));
            assert forall|x: Seq<char>| has_str(v@, x) <==> has_str(t, x) && x != s@ by {
                if has_str(v@, x) {
                    let j = choose|j: int| 0 <= j < v@.len() && (#[trigger] v@[j])@ == x;
                    if j < prev.len() {
                        assert(prev[j] == v@[j]);
                        assert(has_str(prev, x));
                        let i = choose|i: int| 0 <= i < k && (#[trigger] names@.take(k as int)[i])@ == x;
                        assert(t[i] == names@.take(k as int)[i]);
                    } else {
                        assert(t[k as int] == names@[k as int]);
                    }
                }
                if has_str(t, x) && x != s@ {
                    let i = choose|i: int| 0 <= i < k + 1 && (#[trigger] t[i])@ == x;
                    if i < k {
                        assert(t[i] == names@.take(k as int)[i]);
                        assert(has_str(names@.take(k as int), x));
                        assert(has_str(prev, x));
                        let j = choose|j: int| 0 <= j < prev.len() && (#[trigger] prev[j])@ == x;
                        assert(v@[j] == prev[j]);
                    } else {
                        assert(v@[v@.len() - 1]@ == x);
                    }
                }
            }
        }
        k = k + 1;
    }
    assert(names@.take(n as int) =~= names@);
    v
}

} // verus!