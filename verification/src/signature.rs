//! What a function declaration line yields: the declared name, and the
//! texts of its argument list and of its return type as a pattern search
//! locates them.

use vstd::prelude::*;
use regex::Regex;
use crate::pattern::{leftmost_match, pattern_text, search, text_of};
use crate::text::{chars_of, find_from, first_occurrence, matches_at, occurs_at};

verus! {

/// The pattern of an argument list: a parenthesized group.
pub const ARGUMENTS_PATTERN: &'static str = "\\([^)]*\\)";

/// The pattern of a return type: a closing parenthesis, colons if any, one
/// more character and a run of letters.
pub const RETURN_TYPE_PATTERN: &'static str = "\\):*.[a-zA-Z]+";

/// Which of the two patterns was not compiled.
#[derive(Debug, Clone, Copy, PartialEq, Eq, Structural)]
pub enum PatternError {
    Arguments,
    ReturnType,
}

/// The compiled patterns with which a declaration is searched.
#[derive(Debug)]
pub struct SignaturePatterns {
    pub arguments: Regex,
    pub return_type: Regex,
}

/// What was found of a declaration.
#[derive(Debug, Clone)]
pub struct Declaration {
    /// The declared name.
    pub name: String,
    /// The argument list with its parentheses, where the line has one.
    pub arguments: Option<String>,
    /// The text that announces a return type, where the line has one.
    pub return_type: Option<String>,
}

/// The mathematical content of a `Declaration`.
pub struct DeclarationView {
    pub name: Seq<char>,
    pub arguments: Option<Seq<char>>,
    pub return_type: Option<Seq<char>>,
}

impl View for Declaration {
    type V = DeclarationView;

    open spec fn view(&self) -> DeclarationView {
        DeclarationView {
            name: self.name@,
            arguments: text_of(self.arguments),
            return_type: text_of(self.return_type),
        }
    }
}

/// The name that a line declares: the text between the prefix `function `
/// and the first opening parenthesis after it. A line without that prefix,
/// or without a parenthesis after it, declares none.
pub open spec fn function_name(line: Seq<char>) -> Option<Seq<char>> {
    let prefix = "function "@;
    if occurs_at(line, prefix, 0) {
        match first_occurrence(line, "("@, prefix.len() as int) {
            Some(open) => Some(line.subrange(prefix.len() as int, open)),
            None => None,
        }
    } else {
        None
    }
}

/// What the patterns find of the declaration on a line, if the line
/// declares a name.
pub open spec fn declaration_of(patterns: SignaturePatterns, line: Seq<char>) -> Option<
    DeclarationView,
> {
    match function_name(line) {
        Some(name) => Some(
            DeclarationView {
                name,
                arguments: leftmost_match(patterns.arguments, line),
                return_type: leftmost_match(patterns.return_type, line),
            },
        ),
        None => None,
    }
}

/// The view of an optional declaration.
pub open spec fn declared(found: Option<Declaration>) -> Option<DeclarationView> {
    match found {
        Some(declaration) => Some(declaration@),
        None => None,
    }
}

impl SignaturePatterns {
    /// The patterns are the two with which a declaration is meant to be
    /// searched: that of an argument list and that of a return type.
    pub open spec fn standard(&self) -> bool {
        &&& pattern_text(self.arguments) == ARGUMENTS_PATTERN@
        &&& pattern_text(self.return_type) == RETURN_TYPE_PATTERN@
    }

    /// Compiles the two patterns. Whether a pattern is accepted is for the
    /// pattern engine to say: an error names the pattern that it refused.
    pub fn new() -> (patterns: Result<SignaturePatterns, PatternError>)
        ensures
            patterns matches Ok(compiled) ==> compiled.standard(),
    {
        match Regex::new(ARGUMENTS_PATTERN) {
            Ok(arguments) => match Regex::new(RETURN_TYPE_PATTERN) {
                Ok(return_type) => Ok(SignaturePatterns { arguments, return_type }),
                Err(_) => Err(PatternError::ReturnType),
            },
            Err(_) => Err(PatternError::Arguments),
        }
    }
}

/// Extracts the name that a line declares.
pub fn extract_function_name(line: &str) -> (name: Option<String>)
    ensures
        text_of(name) == function_name(line@),
{
    let chars = chars_of(line);
    let prefix = chars_of("function ");
    if !matches_at(&chars, &prefix, 0) {
        return None;
    }
    let parenthesis = chars_of("(");
    match find_from(&chars, &parenthesis, prefix.len()) {
        Some(open) => Some(line.substring_char(prefix.len(), open).to_owned()),
        None => None,
    }
}

/// Reads the declaration on a line: its name, and what the patterns find of
/// its argument list and return type. `None` where the line declares no
/// name.
pub fn read_declaration(line: &str, patterns: &SignaturePatterns) -> (found: Option<Declaration>)
    ensures
        declared(found) == declaration_of(*patterns, line@),
{
    match extract_function_name(line) {
        Some(name) => {
            let arguments = search(&patterns.arguments, line);
            let return_type = search(&patterns.return_type, line);
            Some(Declaration { name, arguments, return_type })
        },
        None => None,
    }
}

} // verus!
