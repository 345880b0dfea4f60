//! The scan of a whole source: every line is read in order, and the line
//! number goes up by one after each.

use vstd::prelude::*;
use crate::line_type::classify;
use crate::parser::{parse_line, step};
use crate::signature::SignaturePatterns;
use crate::state::{closes, lemma_advance_ranges, State, StateView};
use crate::text::{chars_of, contains, find};

verus! {

/// The texts of a list of lines.
pub open spec fn texts(lines: Seq<&str>) -> Seq<Seq<char>> {
    Seq::new(lines.len(), |i: int| lines[i]@)
}

/// The state with the line number moved on by one.
pub open spec fn next_line(s: StateView) -> StateView {
    StateView { index: s.index + 1, ..s }
}

/// The state after `lines` were read in order from the state `start`.
pub open spec fn run(start: StateView, lines: Seq<Seq<char>>) -> StateView
    decreases lines.len(),
{
    if lines.len() == 0 {
        start
    } else {
        next_line(step(run(start, lines.drop_last()), lines.last()))
    }
}

/// The number of lines among `lines` that close a region when they are read
/// in order from the state `start`.
pub open spec fn closings(start: StateView, lines: Seq<Seq<char>>) -> nat
    decreases lines.len(),
{
    if lines.len() == 0 {
        0
    } else {
        let earlier = closings(start, lines.drop_last());
        if closes(run(start, lines.drop_last()).current, classify(lines.last())) {
            earlier + 1
        } else {
            earlier
        }
    }
}

/// Reading a line adds a range exactly when the line closes a region, and
/// keeps an ordered state ordered.
pub proof fn lemma_step_ranges(s: StateView, line: Seq<char>)
    ensures
        step(s, line).ranges.len() == s.ranges.len() + if closes(s.current, classify(line)) {
            1int
        } else {
            0int
        },
        s.ordered() ==> next_line(step(s, line)).ordered(),
{
    lemma_advance_ranges(s, classify(line));
}

/// A scan emits as many ranges as it meets closing lines, and none of its
/// ranges ends before it starts, whatever the lines are.
pub proof fn lemma_ranges_match_closings(start: StateView, lines: Seq<Seq<char>>)
    ensures
        run(start, lines).ranges.len() == start.ranges.len() + closings(start, lines),
        start.ordered() ==> run(start, lines).ordered(),
    decreases lines.len(),
{
    if lines.len() > 0 {
        lemma_ranges_match_closings(start, lines.drop_last());
        lemma_step_ranges(run(start, lines.drop_last()), lines.last());
    }
}

/// Scans `lines` from the first to the last and returns the state reached.
pub fn scan(lines: &Vec<&str>, patterns: &SignaturePatterns) -> (state: State)
    ensures
        state@ == run(StateView::initial(), texts(lines@)),
        state.sig_map@.len() == closings(StateView::initial(), texts(lines@)),
        state.wf(),
{
    let mut state = State::new();
    let mut i: usize = 0;
    while i < lines.len()
        invariant
            i <= lines.len(),
            state.index == i,
            state@ == run(StateView::initial(), texts(lines@).take(i as int)),
            state.wf(),
        decreases lines.len() - i,
    {
        let ghost before = state@;
        parse_line(lines[i], &mut state, patterns);
        state.index += 1;
        proof {
            let read = texts(lines@).take(i + 1);
            assert(read.drop_last() =~= texts(lines@).take(i as int));
            assert(read.last() == lines@[i as int]@);
            lemma_step_ranges(before, lines@[i as int]@);
            assert(state@ == next_line(step(before, lines@[i as int]@)));
        }
        i += 1;
    }
    proof {
        assert(texts(lines@).take(i as int) =~= texts(lines@));
        lemma_ranges_match_closings(StateView::initial(), texts(lines@));
    }
    state
}

/// The number of the first line, from line `index` on, that contains `end`.
pub fn find_end_of_function(contents: Vec<&str>, index: usize) -> (found: Option<usize>)
    ensures
        match found {
            Some(at) => index <= at < contents@.len() && contains(contents@[at as int]@, "end"@)
                && forall|earlier: int|
                index <= earlier < at ==> !contains(#[trigger] contents@[earlier]@, "end"@),
            None => forall|later: int|
                index <= later < contents@.len() ==> !contains(#[trigger] contents@[later]@, "end"@),
        },
{
    let keyword = chars_of("end");
    let mut at: usize = index;
    while at < contents.len()
        invariant
            keyword@ == "end"@,
            index <= at,
            forall|earlier: int|
                index <= earlier < at ==> !contains(#[trigger] contents@[earlier]@, "end"@),
        decreases contents.len() - at,
    {
        let line = chars_of(contents[at]);
        if find(&line, &keyword).is_some() {
            return Some(at);
        }
        at += 1;
    }
    None
}

} // verus!
