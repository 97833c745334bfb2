//! Text matching over sequences of characters.
//!
//! Names are compared character by character, so everything here is stated
//! over `Seq<char>`, the view of `str` and `String`.

use vstd::prelude::*;

verus! {

/// `pattern` appears in `text` starting at position `at`.
pub open spec fn occurs_at(pattern: Seq<char>, text: Seq<char>, at: int) -> bool {
    &&& 0 <= at
    &&& at + pattern.len() <= text.len()
    &&& text.subrange(at, at + pattern.len()) == pattern
}

/// `pattern` appears somewhere in `text` as a contiguous run of characters.
pub open spec fn occurs_in(pattern: Seq<char>, text: Seq<char>) -> bool {
    exists|at: int| occurs_at(pattern, text, at)
}

/// The characters of `s`, in order.
pub fn chars_of(s: &str) -> (v: Vec<char>)
    ensures
        v@ == s@,
{
    let mut v: Vec<char> = Vec::new();
    for c in it: s.chars()
        invariant
            it.seq() == s@,
            v@ == s@.take(it.index()),
    {
        v.push(c);
    }
    v
}

/// Whether two character vectors hold the same text.
pub fn same_text(a: &Vec<char>, b: &Vec<char>) -> (same: bool)
    ensures
        same == (a@ == b@),
{
    if a.len() != b.len() {
        return false;
    }
    let mut i: usize = 0;
    while i < a.len()
        invariant
            a.len() == b.len(),
            i <= a.len(),
            forall|k: int| 0 <= k < i ==> a@[k] == b@[k],
        decreases a.len() - i,
    {
        if a[i] != b[i] {
            return false;
        }
        i += 1;
    }
    assert(a@ =~= b@);
    true
}

/// Whether `pattern` appears in `text` at position `at`. A position at which
/// the pattern would not fit is not a match.
pub fn appears_at(pattern: &Vec<char>, text: &Vec<char>, at: usize) -> (found: bool)
    ensures
        found == occurs_at(pattern@, text@, at as int),
{
    if pattern.len() > text.len() || at > text.len() - pattern.len() {
        return false;
    }
    let ghost window = text@.subrange(at as int, at + pattern.len());
    let mut j: usize = 0;
    while j < pattern.len()
        invariant
            at + pattern.len() <= text.len(),
            window == text@.subrange(at as int, at + pattern.len()),
            j <= pattern.len(),
            forall|k: int| 0 <= k < j ==> window[k] == pattern@[k],
        decreases pattern.len() - j,
    {
        if text[at + j] != pattern[j] {
            return false;
        }
        j += 1;
    }
    assert(window =~= pattern@);
    true
}

/// Whether `pattern` appears anywhere in `text`.
///
/// The empty pattern appears in every text.
pub fn appears_in(pattern: &Vec<char>, text: &Vec<char>) -> (found: bool)
    ensures
        found == occurs_in(pattern@, text@),
{
    if pattern.len() > text.len() {
        return false;
    }
    let last: usize = text.len() - pattern.len();
    let mut at: usize = 0;
    while at < last
        invariant
            last == text.len() - pattern.len(),
            at <= last,
            forall|k: int| 0 <= k < at ==> !occurs_at(pattern@, text@, k),
        decreases last - at,
    {
        if appears_at(pattern, text, at) {
            return true;
        }
        at += 1;
    }
    appears_at(pattern, text, last)
}

} // verus!
