//! Substring search over the characters of a line.
//!
//! A line is modelled as its sequence of characters (`Seq<char>`, the view of
//! `str`). Positions are character positions, counted from zero.

use vstd::prelude::*;

verus! {

/// `pattern` stands in `text` at position `at`.
pub open spec fn occurs_at(text: Seq<char>, pattern: Seq<char>, at: int) -> bool {
    &&& 0 <= at
    &&& at + pattern.len() <= text.len()
    &&& text.subrange(at, at + pattern.len()) == pattern
}

/// `pattern` stands somewhere in `text`.
pub open spec fn contains(text: Seq<char>, pattern: Seq<char>) -> bool {
    exists|at: int| occurs_at(text, pattern, at)
}

/// `at` is the first position, not before `from`, at which `pattern` stands in `text`.
pub open spec fn first_at(text: Seq<char>, pattern: Seq<char>, from: int, at: int) -> bool {
    &&& from <= at
    &&& occurs_at(text, pattern, at)
    &&& forall|earlier: int| from <= earlier < at ==> !occurs_at(text, pattern, earlier)
}

/// The first position, not before `from`, at which `pattern` stands in `text`,
/// or `None` if there is no such position.
pub open spec fn first_occurrence(text: Seq<char>, pattern: Seq<char>, from: int) -> Option<int> {
    if exists|at: int| first_at(text, pattern, from, at) {
        Some(choose|at: int| first_at(text, pattern, from, at))
    } else {
        None
    }
}

/// The result of a search as a mathematical position.
pub open spec fn position(found: Option<usize>) -> Option<int> {
    match found {
        Some(at) => Some(at as int),
        None => None,
    }
}

/// A first position is unique, so it is the one `first_occurrence` names.
pub proof fn lemma_first_occurrence_is(text: Seq<char>, pattern: Seq<char>, from: int, at: int)
    requires
        first_at(text, pattern, from, at),
    ensures
        first_occurrence(text, pattern, from) == Some(at),
{
    let chosen = choose|c: int| first_at(text, pattern, from, c);
    assert(first_at(text, pattern, from, chosen));
    if chosen < at {
        assert(!occurs_at(text, pattern, chosen));
    }
    if at < chosen {
        assert(!occurs_at(text, pattern, at));
    }
}

/// Where `pattern` stands at or after `from`, it has a first such position.
pub proof fn lemma_occurrence_has_first(text: Seq<char>, pattern: Seq<char>, from: int, at: int)
    requires
        0 <= from <= at,
        occurs_at(text, pattern, at),
    ensures
        first_occurrence(text, pattern, from) is Some,
        from <= first_occurrence(text, pattern, from)->0 <= at,
        first_at(text, pattern, from, first_occurrence(text, pattern, from)->0),
    decreases at - from,
{
    if exists|earlier: int| from <= earlier < at && occurs_at(text, pattern, earlier) {
        let earlier = choose|earlier: int| from <= earlier < at && occurs_at(text, pattern, earlier);
        lemma_occurrence_has_first(text, pattern, from, earlier);
    } else {
        assert(first_at(text, pattern, from, at));
        lemma_first_occurrence_is(text, pattern, from, at);
    }
}

/// A text contains a pattern exactly when a search from its start finds one.
pub proof fn lemma_contains_iff_found(text: Seq<char>, pattern: Seq<char>)
    ensures
        contains(text, pattern) <==> first_occurrence(text, pattern, 0) is Some,
{
    if contains(text, pattern) {
        let at = choose|at: int| occurs_at(text, pattern, at);
        lemma_occurrence_has_first(text, pattern, 0, at);
    }
    if first_occurrence(text, pattern, 0) is Some {
        let at = choose|at: int| first_at(text, pattern, 0, at);
        assert(occurs_at(text, pattern, at));
    }
}

/// The characters of `s`, in order.
pub fn chars_of(s: &str) -> (chars: Vec<char>)
    ensures
        chars@ == s@,
{
    let mut chars: Vec<char> = Vec::new();
    for c in it: s.chars()
        invariant
            chars@ == it.seq().take(it.index()),
    {
        chars.push(c);
    }
    chars
}

/// Tells whether `pattern` stands in `text` at position `at`.
pub fn matches_at(text: &Vec<char>, pattern: &Vec<char>, at: usize) -> (matched: bool)
    ensures
        matched == occurs_at(text@, pattern@, at as int),
{
    if pattern.len() > text.len() || at > text.len() - pattern.len() {
        return false;
    }
    let mut k: usize = 0;
    while k < pattern.len()
        invariant
            k <= pattern.len(),
            at + pattern.len() <= text.len(),
            forall|j: int| 0 <= j < k ==> text@[at + j] == pattern@[j],
        decreases pattern.len() - k,
    {
        if text[at + k] != pattern[k] {
            assert(text@.subrange(at as int, at + pattern.len())[k as int] != pattern@[k as int]);
            return false;
        }
        k += 1;
    }
    assert(text@.subrange(at as int, at + pattern.len()) =~= pattern@);
    true
}

/// Searches `text` for `pattern` from position `from` on and returns the
/// first position at which it stands.
pub fn find_from(text: &Vec<char>, pattern: &Vec<char>, from: usize) -> (found: Option<usize>)
    ensures
        position(found) == first_occurrence(text@, pattern@, from as int),
        found matches Some(at) ==> first_at(text@, pattern@, from as int, at as int),
        found is None ==> forall|at: int| from <= at ==> !occurs_at(text@, pattern@, at),
{
    if pattern.len() > text.len() {
        return None;
    }
    let last: usize = text.len() - pattern.len();
    let mut at: usize = from;
    while at <= last
        invariant
            from <= at,
            last == text.len() - pattern.len(),
            forall|earlier: int| from <= earlier < at ==> !occurs_at(text@, pattern@, earlier),
        decreases last + 1 - at,
    {
        if matches_at(text, pattern, at) {
            proof {
                lemma_first_occurrence_is(text@, pattern@, from as int, at as int);
            }
            return Some(at);
        }
        if at == last {
            return None;
        }
        at += 1;
    }
    None
}

/// Searches `text` for `pattern` and returns the first position at which it
/// stands.
pub fn find(text: &Vec<char>, pattern: &Vec<char>) -> (found: Option<usize>)
    ensures
        position(found) == first_occurrence(text@, pattern@, 0),
        found is Some <==> contains(text@, pattern@),
{
    proof {
        lemma_contains_iff_found(text@, pattern@);
    }
    find_from(text, pattern, 0)
}

} // verus!
