//! Substring search on character sequences.

use vstd::prelude::*;
use vstd::std_specs::iter::IteratorSpec;

verus! {

/// `needle` occurs in `hay` starting at position `at`.
pub open spec fn occurs_at(hay: Seq<char>, needle: Seq<char>, at: int) -> bool {
    &&& 0 <= at
    &&& at + needle.len() <= hay.len()
    &&& hay.subrange(at, at + needle.len()) == needle
}

/// `needle` occurs somewhere in `hay` as a contiguous run of characters.
/// The empty sequence occurs in every sequence.
pub open spec fn contains_seq(hay: Seq<char>, needle: Seq<char>) -> bool {
    exists|at: int| occurs_at(hay, needle, at)
}

/// The characters of a string slice, in order.
pub fn chars_of(s: &str) -> (out: Vec<char>)
    ensures
        out@ == s@,
{
    broadcast use vstd::string::group_string_axioms;

    let mut out: Vec<char> = Vec::new();
    let mut rest = s.chars();
    loop
        invariant
            out@ + rest.remaining() == s@,
            rest.decrease() is Some,
        ensures
            out@ == s@,
        decreases rest.decrease()->0,
    {
        match rest.next() {
            Some(c) => {
                out.push(c);
            },
            None => {
                break ;
            },
        }
    }
    out
}

/// Tests whether `needle` occurs in `hay` at position `at`.
pub fn matches_at(hay: &Vec<char>, needle: &Vec<char>, at: usize) -> (found: bool)
    requires
        at + needle@.len() <= hay@.len(),
    ensures
        found == occurs_at(hay@, needle@, at as int),
{
    let n: usize = hay.len();
    let m: usize = needle.len();
    let mut j: usize = 0;
    while j < m
        invariant
            n == hay@.len(),
            m == needle@.len(),
            j <= m,
            at + m <= n,
            forall|k: int| 0 <= k < j ==> hay@[at + k] == needle@[k],
        decreases m - j,
    {
        if hay[at + j] != needle[j] {
            proof {
                assert(hay@.subrange(at as int, at + m)[j as int] == hay@[at + j]);
            }
            return false;
        }
        j += 1;
    }
    proof {
        assert(hay@.subrange(at as int, at + m) =~= needle@);
    }
    true
}

/// Tests whether `needle` occurs in `hay`; the comparison is exact, character
/// by character, with no folding of case.
pub fn contains_chars(hay: &Vec<char>, needle: &Vec<char>) -> (found: bool)
    ensures
        found == contains_seq(hay@, needle@),
{
    let n: usize = hay.len();
    let m: usize = needle.len();
    if m > n {
        return false;
    }
    let last: usize = n - m;
    let mut i: usize = 0;
    while i < last
        invariant
            n == hay@.len(),
            m == needle@.len(),
            last == n - m,
            i <= last,
            forall|k: int| 0 <= k < i ==> !occurs_at(hay@, needle@, k),
        decreases last - i,
    {
        if matches_at(hay, needle, i) {
            return true;
        }
        i += 1;
    }
    matches_at(hay, needle, last)
}

/// Tests whether the string `needle` occurs in the string `hay`.
pub fn contains(hay: &str, needle: &str) -> (found: bool)
    ensures
        found == contains_seq(hay@, needle@),
{
    let h = chars_of(hay);
    let n = chars_of(needle);
    contains_chars(&h, &n)
}

} // verus!
