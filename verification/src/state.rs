//! The state of a scan and the transition that a classified line causes.

use vstd::prelude::*;
use std::ops::Range;
use crate::doc_map::{filed, DocMap, Docs};
use crate::line_type::LineType;

verus! {

/// The structural context in which the next line is read.
#[derive(Debug, PartialEq, Eq, Clone, Copy, Structural)]
pub enum ParserState {
    Default,
    InFunction,
    InComment,
    TypeStart,
    InType,
    InTable,
    OneLineTable,
    LeftComment,
}

/// The state of a scan.
///
/// `index` is the number of the line that is read next, `sig_index` the
/// number of the line that opened the latest region. `sig_map` holds the
/// regions closed so far, oldest first, each as the half-open range of its
/// line numbers.
#[derive(Debug, Clone)]
pub struct State {
    pub current: ParserState,
    pub previous: ParserState,
    pub doc_map: DocMap,
    pub sig_map: Vec<Range<usize>>,
    pub index: usize,
    pub sig_index: usize,
}

/// The mathematical content of a `State`.
pub struct StateView {
    pub current: ParserState,
    pub previous: ParserState,
    pub docs: Docs,
    /// The closed regions, each as `(start, end)` of the half-open range.
    pub ranges: Seq<(int, int)>,
    pub index: int,
    pub sig_index: int,
}

impl StateView {
    /// The state in which a scan begins. The latest region is taken to have
    /// opened at line 0 until a line opens one.
    pub open spec fn initial() -> StateView {
        StateView {
            current: ParserState::Default,
            previous: ParserState::Default,
            docs: Docs::empty(),
            ranges: Seq::empty(),
            index: 0,
            sig_index: 0,
        }
    }

    /// No region opened after the line that is read next, and no closed
    /// region ends before it starts.
    pub open spec fn ordered(self) -> bool {
        &&& 0 <= self.sig_index <= self.index
        &&& forall|k: int| 0 <= k < self.ranges.len() ==> (#[trigger] self.ranges[k]).0 <= self.ranges[k].1
    }
}

/// A line of this type closes a region, so that a range is emitted, when it
/// is read in the context `current`.
pub open spec fn closes(current: ParserState, marker: LineType) -> bool {
    ||| marker == LineType::End
    ||| marker == LineType::CommentEnd
    ||| marker == LineType::TableInitialization
    ||| marker == LineType::EndBracket && current == ParserState::InType
}

/// A line of this type opens a region whose first line is remembered.
pub open spec fn opens(marker: LineType) -> bool {
    ||| marker == LineType::Function
    ||| marker == LineType::CommentStart
    ||| marker == LineType::TypeDefinition
    ||| marker == LineType::TableStart
}

/// The context after a line of type `marker` was read in the context `current`.
pub open spec fn next_state(current: ParserState, marker: LineType) -> ParserState {
    match marker {
        LineType::Function => ParserState::InFunction,
        LineType::End => ParserState::Default,
        LineType::CommentStart => ParserState::InComment,
        LineType::CommentEnd => ParserState::LeftComment,
        LineType::TypeDefinition => ParserState::TypeStart,
        LineType::TableStart => ParserState::InTable,
        LineType::TableInitialization => ParserState::OneLineTable,
        LineType::EndBracket => if current == ParserState::InType {
            ParserState::Default
        } else {
            current
        },
        LineType::While | LineType::For | LineType::Default => if current
            == ParserState::LeftComment || current == ParserState::OneLineTable {
            ParserState::Default
        } else if current == ParserState::TypeStart {
            ParserState::InType
        } else {
            current
        },
    }
}

/// The range emitted by a closing line of type `marker`: the line alone for
/// a one-line table, else from the line that opened the latest region up to
/// and including the closing line.
pub open spec fn closed_range(s: StateView, marker: LineType) -> (int, int) {
    if marker == LineType::TableInitialization {
        (s.index, s.index + 1)
    } else {
        (s.sig_index, s.index + 1)
    }
}

/// The state after a line of type `marker` was read in the state `s`. The
/// line number and the documentation stay as they are.
pub open spec fn advance(s: StateView, marker: LineType) -> StateView {
    StateView {
        current: next_state(s.current, marker),
        previous: s.current,
        docs: s.docs,
        ranges: if closes(s.current, marker) {
            s.ranges.push(closed_range(s, marker))
        } else {
            s.ranges
        },
        index: s.index,
        sig_index: if opens(marker) {
            s.index
        } else {
            s.sig_index
        },
    }
}

/// A closing line adds one range, any other line none, and no range that
/// ends before it starts comes to a state that had none.
pub proof fn lemma_advance_ranges(s: StateView, marker: LineType)
    ensures
        advance(s, marker).ranges.len() == s.ranges.len() + if closes(s.current, marker) {
            1int
        } else {
            0int
        },
        s.ordered() ==> advance(s, marker).ordered(),
{
}

impl View for State {
    type V = StateView;

    open spec fn view(&self) -> StateView {
        StateView {
            current: self.current,
            previous: self.previous,
            docs: self.doc_map@,
            ranges: Seq::new(
                self.sig_map@.len(),
                |k: int| (self.sig_map@[k].start as int, self.sig_map@[k].end as int),
            ),
            index: self.index as int,
            sig_index: self.sig_index as int,
        }
    }
}

impl State {
    /// No category of the documentation is held twice, and the state's
    /// content is ordered.
    pub open spec fn wf(&self) -> bool {
        &&& self.doc_map.wf()
        &&& self@.ordered()
    }

    /// The state in which a scan begins.
    pub fn new() -> (state: State)
        ensures
            state@ == StateView::initial(),
            state.wf(),
    {
        let state = State {
            current: ParserState::Default,
            previous: ParserState::Default,
            doc_map: DocMap::new(),
            sig_map: Vec::new(),
            index: 0,
            sig_index: 0,
        };
        assert(state@.ranges =~= Seq::empty());
        state
    }

    /// Files `entry` under the category `doc_type`, after the entries that
    /// the category already holds.
    pub fn add_doc(&mut self, doc_type: &str, entry: Vec<String>)
        ensures
            final(self)@ == (StateView {
                docs: filed(old(self)@.docs, doc_type@, entry.deep_view()),
                ..old(self)@
            }),
            old(self).wf() ==> final(self).wf(),
    {
        self.doc_map.add(doc_type, entry);
    }

    /// Takes the transition that a line of type `marker` causes: saves the
    /// context, enters the new one, remembers an opening line and emits the
    /// range of a region that the line closes.
    pub fn advance(&mut self, marker: LineType)
        requires
            old(self).index < usize::MAX,
        ensures
            final(self)@ == advance(old(self)@, marker),
            old(self).wf() ==> final(self).wf(),
    {
        let ghost before = self@;
        self.previous = self.current;
        match marker {
            LineType::Function => {
                self.current = ParserState::InFunction;
                self.sig_index = self.index;
            },
            LineType::End => {
                self.current = ParserState::Default;
                self.sig_map.push(Range { start: self.sig_index, end: self.index + 1 });
            },
            LineType::CommentStart => {
                self.current = ParserState::InComment;
                self.sig_index = self.index;
            },
            LineType::CommentEnd => {
                self.current = ParserState::LeftComment;
                self.sig_map.push(Range { start: self.sig_index, end: self.index + 1 });
            },
            LineType::TypeDefinition => {
                self.current = ParserState::TypeStart;
                self.sig_index = self.index;
            },
            LineType::TableStart => {
                self.current = ParserState::InTable;
                self.sig_index = self.index;
            },
            LineType::TableInitialization => {
                self.current = ParserState::OneLineTable;
                self.sig_map.push(Range { start: self.index, end: self.index + 1 });
            },
            LineType::EndBracket => {
                if self.current == ParserState::InType {
                    self.current = ParserState::Default;
                    self.sig_map.push(Range { start: self.sig_index, end: self.index + 1 });
                }
            },
            _ => {
                if self.current == ParserState::LeftComment || self.current
                    == ParserState::OneLineTable {
                    self.current = ParserState::Default;
                } else if self.current == ParserState::TypeStart {
                    self.current = ParserState::InType;
                }
            },
        }
        assert(self@.ranges =~= advance(before, marker).ranges);
        proof {
            lemma_advance_ranges(before, marker);
        }
    }
}

} // verus!
