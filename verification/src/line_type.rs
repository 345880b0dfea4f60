//! The line classifier: an ordered table of textual rules, of which the last
//! one that matches a line decides the line's type.

use vstd::prelude::*;
use crate::text::{chars_of, contains, find, first_occurrence};

verus! {

/// What a line of source text represents.
#[derive(Debug, Clone, Copy, PartialEq, Eq, Structural)]
pub enum LineType {
    /// The head of a function declaration.
    Function,
    /// The `end` keyword that closes a block.
    End,
    /// The head of a `while` loop.
    While,
    /// The head of a `for` loop.
    For,
    /// The opening of a block comment.
    CommentStart,
    /// The closing of a block comment.
    CommentEnd,
    /// A table that is opened and closed on one line.
    TableInitialization,
    /// The opening of a table that spans several lines.
    TableStart,
    /// A closing curly bracket.
    EndBracket,
    /// The head of a type definition.
    TypeDefinition,
    /// None of the above.
    Default,
}

/// The mathematical content of a rule of the classifier.
pub struct Rule {
    /// The text that the line must contain, anywhere.
    pub contains: Seq<char>,
    /// Where present: a text and the position at which the line's first
    /// occurrence of that text must stand.
    pub anchor: Option<(Seq<char>, int)>,
    /// The type given to a line that the rule matches.
    pub line_type: LineType,
}

/// A rule of the classifier.
#[derive(Debug, Clone)]
pub struct Type {
    pub contains_string: String,
    pub find_string: Option<String>,
    pub find_expected_index: usize,
    pub line_type: LineType,
}

impl View for Type {
    type V = Rule;

    open spec fn view(&self) -> Rule {
        Rule {
            contains: self.contains_string@,
            anchor: match self.find_string {
                Some(text) => Some((text@, self.find_expected_index as int)),
                None => None,
            },
            line_type: self.line_type,
        }
    }
}

/// A rule matches a line that contains the rule's text and, where the rule
/// has an anchor, has its first occurrence of the anchor's text at the
/// anchor's position.
pub open spec fn rule_matches(rule: Rule, line: Seq<char>) -> bool {
    &&& contains(line, rule.contains)
    &&& match rule.anchor {
        Some((text, index)) => first_occurrence(line, text, 0) == Some(index),
        None => true,
    }
}

/// The type that an ordered list of rules gives to a line: that of the last
/// rule that matches, and `Default` where none does.
pub open spec fn classify_by(rules: Seq<Rule>, line: Seq<char>) -> LineType
    decreases rules.len(),
{
    if rules.len() == 0 {
        LineType::Default
    } else if rule_matches(rules.last(), line) {
        rules.last().line_type
    } else {
        classify_by(rules.drop_last(), line)
    }
}

/// The classifier's rules, in the order in which they are tried.
pub open spec fn line_rules() -> Seq<Rule> {
    seq![
        Rule { contains: "function"@, anchor: None, line_type: LineType::Function },
        Rule { contains: "end"@, anchor: None, line_type: LineType::End },
        Rule { contains: "while"@, anchor: None, line_type: LineType::While },
        Rule { contains: "for"@, anchor: None, line_type: LineType::For },
        Rule { contains: "--[[--"@, anchor: None, line_type: LineType::CommentStart },
        Rule { contains: "--]]"@, anchor: None, line_type: LineType::CommentEnd },
        Rule { contains: "type"@, anchor: None, line_type: LineType::TypeDefinition },
        Rule { contains: "}"@, anchor: None, line_type: LineType::EndBracket },
        Rule { contains: "= {"@, anchor: Some(("local"@, 0int)), line_type: LineType::TableStart },
        Rule {
            contains: "= {}"@,
            anchor: Some(("local"@, 0int)),
            line_type: LineType::TableInitialization,
        },
    ]
}

/// The type of a line.
pub open spec fn classify(line: Seq<char>) -> LineType {
    classify_by(line_rules(), line)
}

/// The rules that a list of `Type` values stands for.
pub open spec fn rules_of(types: Seq<Type>) -> Seq<Rule> {
    Seq::new(types.len(), |i: int| types[i]@)
}

impl Type {
    /// A rule that asks only that the line contain `c_str`.
    pub fn new(c_str: &str, l_type: LineType) -> (rule: Type)
        ensures
            rule@ == (Rule { contains: c_str@, anchor: None, line_type: l_type }),
    {
        Type {
            contains_string: c_str.to_owned(),
            find_string: None,
            find_expected_index: 0,
            line_type: l_type,
        }
    }

    /// A rule that asks that the line contain `c_str` and that its first
    /// occurrence of `f_str` stand at position `f_index`.
    pub fn new_with_find(c_str: &str, f_str: &str, f_index: usize, l_type: LineType) -> (rule: Type)
        ensures
            rule@ == (Rule {
                contains: c_str@,
                anchor: Some((f_str@, f_index as int)),
                line_type: l_type,
            }),
    {
        Type {
            contains_string: c_str.to_owned(),
            find_string: Some(f_str.to_owned()),
            find_expected_index: f_index,
            line_type: l_type,
        }
    }

    /// Tells whether the rule matches the line with the characters `line`.
    pub fn applies(&self, line: &Vec<char>) -> (matched: bool)
        ensures
            matched == rule_matches(self@, line@),
    {
        let wanted = chars_of(self.contains_string.as_str());
        if find(line, &wanted).is_none() {
            return false;
        }
        match &self.find_string {
            Some(text) => {
                let anchor = chars_of(text.as_str());
                match find(line, &anchor) {
                    Some(at) => at == self.find_expected_index,
                    None => false,
                }
            },
            None => true,
        }
    }
}

/// Builds the classifier's rules.
pub fn line_types() -> (types: Vec<Type>)
    ensures
        rules_of(types@) == line_rules(),
{
    let mut types: Vec<Type> = Vec::new();
    types.push(Type::new("function", LineType::Function));
    types.push(Type::new("end", LineType::End));
    types.push(Type::new("while", LineType::While));
    types.push(Type::new("for", LineType::For));
    types.push(Type::new("--[[--", LineType::CommentStart));
    types.push(Type::new("--]]", LineType::CommentEnd));
    types.push(Type::new("type", LineType::TypeDefinition));
    types.push(Type::new("}", LineType::EndBracket));
    types.push(Type::new_with_find("= {", "local", 0, LineType::TableStart));
    types.push(Type::new_with_find("= {}", "local", 0, LineType::TableInitialization));
    assert(rules_of(types@) =~= line_rules());
    types
}

/// Classifies a line: tries every rule in order and keeps the type of the
/// last one that matches.
pub fn get_line_type(line: &str) -> (line_type: LineType)
    ensures
        line_type == classify(line@),
{
    let chars = chars_of(line);
    let types = line_types();
    let mut line_type_enum = LineType::Default;
    let mut i: usize = 0;
    while i < types.len()
        invariant
            i <= types.len(),
            chars@ == line@,
            rules_of(types@) == line_rules(),
            line_type_enum == classify_by(line_rules().take(i as int), line@),
        decreases types.len() - i,
    {
        if types[i].applies(&chars) {
            line_type_enum = types[i].line_type;
        }
        proof {
            let tried = line_rules().take(i + 1);
            assert(tried.drop_last() =~= line_rules().take(i as int));
            assert(tried.last() == rules_of(types@)[i as int]);
        }
        i += 1;
    }
    assert(line_rules().take(i as int) =~= line_rules());
    line_type_enum
}

/// A line that the last rule matches has that rule's type, whatever other
/// rules match it too: a line that contains `= {}` and begins with `local`
/// is a `TableInitialization`, though it contains `= {` as well.
pub proof fn lemma_table_initialization_wins(line: Seq<char>)
    requires
        contains(line, "= {}"@),
        first_occurrence(line, "local"@, 0) == Some(0int),
    ensures
        classify(line) == LineType::TableInitialization,
{
    assert(rule_matches(line_rules().last(), line));
}

/// Lines with the same text have the same type.
pub proof fn lemma_classify_is_a_function_of_the_text(first: &str, second: &str)
    requires
        first@ == second@,
    ensures
        classify(first@) == classify(second@),
{
}

} // verus!
