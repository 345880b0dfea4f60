//! The reading of one line: classify it, take the transition it causes, and
//! file the name that a function declaration declares.

use vstd::prelude::*;
use crate::doc_map::filed;
use crate::line_type::{classify, get_line_type, LineType};
use crate::signature::{
    declaration_of,
    declared,
    function_name,
    read_declaration,
    Declaration,
    SignaturePatterns,
};
use crate::state::{advance, ParserState, State, StateView};

verus! {

/// What may be amiss with a line. Neither stops a scan.
#[derive(Debug, Clone, Copy, PartialEq, Eq, Structural)]
pub enum Fault {
    /// A function line that declares no name: nothing is filed for it.
    MalformedDeclaration,
    /// A closing line met outside the region that it closes. An `end` or a
    /// comment end still emits a range, from the line that opened the latest
    /// region, or from line 0 where none was opened; a bracket emits none.
    UnmatchedClose,
}

/// What reading a line has found.
#[derive(Debug, Clone)]
pub struct LineReport {
    /// The type of the line.
    pub line_type: LineType,
    /// The declaration read from a function line that declares a name.
    pub declaration: Option<Declaration>,
    /// What is amiss with the line, if anything.
    pub fault: Option<Fault>,
}

/// The documentation entry of a function: its name alone.
pub open spec fn function_entry(name: Seq<char>) -> Seq<Seq<char>> {
    seq![name]
}

/// The state after the name declared on `line`, if there is one, was filed
/// under the category `function`.
pub open spec fn file_declaration(s: StateView, line: Seq<char>) -> StateView {
    match function_name(line) {
        Some(name) => StateView { docs: filed(s.docs, "function"@, function_entry(name)), ..s },
        None => s,
    }
}

/// The state after `line` was read in the state `s`: the transition of the
/// line's type and, for a function line, the filing of the declared name.
pub open spec fn step(s: StateView, line: Seq<char>) -> StateView {
    let marker = classify(line);
    if marker == LineType::Function {
        file_declaration(advance(s, marker), line)
    } else {
        advance(s, marker)
    }
}

/// A line of type `marker` closes a kind of region, and `current` is not
/// the context of a region of that kind.
pub open spec fn unmatched(current: ParserState, marker: LineType) -> bool {
    ||| marker == LineType::End && current != ParserState::InFunction
    ||| marker == LineType::CommentEnd && current != ParserState::InComment
    ||| marker == LineType::EndBracket && current != ParserState::InType
}

/// What is amiss with `line` when it is read in the context `current`.
pub open spec fn fault_of(current: ParserState, line: Seq<char>) -> Option<Fault> {
    let marker = classify(line);
    if marker == LineType::Function && function_name(line) is None {
        Some(Fault::MalformedDeclaration)
    } else if unmatched(current, marker) {
        Some(Fault::UnmatchedClose)
    } else {
        None
    }
}

/// Reads the function declaration on `line` and files the declared name
/// under the category `function`. A line that declares no name is refused
/// and leaves the state as it is.
pub fn parse_function(line: &str, state: &mut State, patterns: &SignaturePatterns) -> (outcome:
    Result<Declaration, Fault>)
    ensures
        final(state)@ == file_declaration(old(state)@, line@),
        old(state).wf() ==> final(state).wf(),
        match outcome {
            Ok(found) => Some(found@) == declaration_of(*patterns, line@),
            Err(fault) => fault == Fault::MalformedDeclaration && function_name(line@) is None,
        },
{
    match read_declaration(line, patterns) {
        Some(found) => {
            let mut func_vec: Vec<String> = Vec::new();
            func_vec.push(found.name.clone());
            assert(func_vec.deep_view() =~= function_entry(found.name@));
            state.add_doc("function", func_vec);
            Ok(found)
        },
        None => Err(Fault::MalformedDeclaration),
    }
}

/// Reads `line` in the state `state`: classifies it, saves the context and
/// takes the transition of the line's type, and for a function line files
/// the declared name. The line number is left to the caller.
pub fn parse_line(line: &str, state: &mut State, patterns: &SignaturePatterns) -> (report:
    LineReport)
    requires
        old(state).index < usize::MAX,
    ensures
        final(state)@ == step(old(state)@, line@),
        old(state).wf() ==> final(state).wf(),
        report.line_type == classify(line@),
        report.fault == fault_of(old(state).current, line@),
        declared(report.declaration) == if classify(line@) == LineType::Function {
            declaration_of(*patterns, line@)
        } else {
            None
        },
{
    let line_type_enum = get_line_type(line);
    let unmatched_close = match line_type_enum {
        LineType::End => state.current != ParserState::InFunction,
        LineType::CommentEnd => state.current != ParserState::InComment,
        LineType::EndBracket => state.current != ParserState::InType,
        _ => false,
    };
    state.advance(line_type_enum);
    match line_type_enum {
        LineType::Function => match parse_function(line, state, patterns) {
            Ok(found) => LineReport {
                line_type: line_type_enum,
                declaration: Some(found),
                fault: None,
            },
            Err(fault) => LineReport {
                line_type: line_type_enum,
                declaration: None,
                fault: Some(fault),
            },
        },
        _ => LineReport {
            line_type: line_type_enum,
            declaration: None,
            fault: if unmatched_close {
                Some(Fault::UnmatchedClose)
            } else {
                None
            },
        },
    }
}

} // verus!
