//! Strings as sequences of characters, and the search for one sequence
//! inside another.

use vstd::prelude::*;

verus! {

/// `needle` stands in `haystack` starting at position `at`.
pub open spec fn occurs_at(haystack: Seq<char>, needle: Seq<char>, at: int) -> bool {
    &&& 0 <= at
    &&& at + needle.len() <= haystack.len()
    &&& haystack.subrange(at, at + needle.len()) == needle
}

/// `needle` stands somewhere in `haystack` as a contiguous run.
pub open spec fn contains_run(haystack: Seq<char>, needle: Seq<char>) -> bool {
    exists|at: int| occurs_at(haystack, needle, at)
}

/// The characters of a string, in order.
pub fn chars_of(s: &str) -> (v: Vec<char>)
    ensures
        v@ == s@,
{
    let mut v: Vec<char> = Vec::new();
    for c in it: s.chars()
        invariant
            it.seq() == s@,
            v@ =~= s@.take(it.index()),
    {
        v.push(c);
    }
    assert(s@.take(s@.len() as int) =~= s@);
    v
}

/// Whether `needle` stands in `haystack` at position `at`.
pub fn matches_at(haystack: &Vec<char>, needle: &Vec<char>, at: usize) -> (same: bool)
    ensures
        same == occurs_at(haystack@, needle@, at as int),
{
    if at > haystack.len() || needle.len() > haystack.len() - at {
        return false;
    }
    let mut k: usize = 0;
    while k < needle.len()
        invariant
            k <= needle.len(),
            at + needle.len() <= haystack.len(),
            haystack@.subrange(at as int, at + k) =~= needle@.take(k as int),
        decreases needle.len() - k,
    {
        if haystack[at + k] != needle[k] {
            assert(haystack@.subrange(at as int, at + needle.len())[k as int] != needle@[k as int]);
            return false;
        }
        k += 1;
    }
    assert(needle@.take(k as int) =~= needle@);
    true
}

/// The first position at which `needle` stands in `haystack`.
pub fn first_occurrence(haystack: &Vec<char>, needle: &Vec<char>) -> (found: Option<usize>)
    ensures
        match found {
            Some(at) => occurs_at(haystack@, needle@, at as int) && forall|earlier: int|
                0 <= earlier < at ==> !occurs_at(haystack@, needle@, earlier),
            None => !contains_run(haystack@, needle@),
        },
{
    if needle.len() > haystack.len() {
        return None;
    }
    let last: usize = haystack.len() - needle.len();
    let mut at: usize = 0;
    while at < last
        invariant
            last == haystack.len() - needle.len(),
            at <= last,
            forall|earlier: int| 0 <= earlier < at ==> !occurs_at(haystack@, needle@, earlier),
        decreases last - at,
    {
        if matches_at(haystack, needle, at) {
            return Some(at);
        }
        at += 1;
    }
    if matches_at(haystack, needle, last) {
        Some(last)
    } else {
        None
    }
}

/// What `str::trim` leaves of `s`.
pub uninterp spec fn trimmed(s: Seq<char>) -> Seq<char>;

/// Calls `str::trim` of the standard library, which takes leading and
/// trailing whitespace off. Nothing is proved of it: that the result depends
/// on the characters alone, and that it is a part of the string and so no
/// longer than it, is taken from the standard library's documentation.
#[verifier::external_body]
pub(crate) fn trim(s: &str) -> (rest: &str)
    ensures
        rest@ == trimmed(s@),
        rest@.len() <= s@.len(),
{
    s.trim()
}

} // verus!
