use lua_regions::doc_map::DocMap;
use lua_regions::line_type::LineType;
use lua_regions::parser::{parse_function, parse_line, Fault};
use lua_regions::scan::{find_end_of_function, scan};
use lua_regions::signature::{
    extract_function_name,
    read_declaration,
    SignaturePatterns,
    ARGUMENTS_PATTERN,
    RETURN_TYPE_PATTERN,
};
use lua_regions::state::{ParserState, State};

fn patterns() -> SignaturePatterns {
    match SignaturePatterns::new() {
        Ok(patterns) => patterns,
        Err(error) => panic!("pattern refused: {:?}", error),
    }
}

fn words(texts: &[&str]) -> Vec<String> {
    texts.iter().map(|text| String::from(*text)).collect()
}

fn ranges(state: &State) -> Vec<(usize, usize)> {
    state.sig_map.iter().map(|range| (range.start, range.end)).collect()
}

fn state_at(current: ParserState, index: usize, sig_index: usize) -> State {
    let mut state = State::new();
    state.current = current;
    state.index = index;
    state.sig_index = sig_index;
    state
}

#[test]
fn a_new_state_is_empty() {
    let state = State::new();
    assert_eq!(state.current, ParserState::Default);
    assert_eq!(state.previous, ParserState::Default);
    assert_eq!(state.index, 0);
    assert_eq!(state.sig_index, 0);
    assert!(state.sig_map.is_empty());
    assert!(state.doc_map.categories.is_empty());
}

#[test]
fn a_new_category_holds_one_entry() {
    let mut state = State::new();
    state.add_doc("function", words(&["foo"]));
    assert_eq!(state.doc_map.get("function"), Some(&vec![words(&["foo"])]));
    assert_eq!(state.doc_map.get("type"), None);
}

#[test]
fn entries_keep_the_order_in_which_they_came() {
    let mut state = State::new();
    state.add_doc("function", words(&["first"]));
    state.add_doc("type", words(&["Point", "x"]));
    state.add_doc("function", words(&["second"]));
    assert_eq!(
        state.doc_map.get("function"),
        Some(&vec![words(&["first"]), words(&["second"])])
    );
    assert_eq!(state.doc_map.get("type"), Some(&vec![words(&["Point", "x"])]));
    assert_eq!(state.doc_map.categories.len(), 2);
    assert_eq!(state.doc_map.categories[0].name, "function");
    assert_eq!(state.doc_map.categories[1].name, "type");
}

#[test]
fn add_doc_leaves_the_tracker_alone() {
    let mut state = state_at(ParserState::InFunction, 7, 3);
    state.add_doc("function", words(&["foo"]));
    assert_eq!(state.current, ParserState::InFunction);
    assert_eq!(state.previous, ParserState::Default);
    assert_eq!(state.index, 7);
    assert_eq!(state.sig_index, 3);
    assert!(state.sig_map.is_empty());
}

#[test]
fn doc_map_lookup_finds_the_place() {
    let mut docs = DocMap::new();
    assert_eq!(docs.find_category("a"), None);
    docs.add("a", words(&["1"]));
    docs.add("b", words(&["2"]));
    assert_eq!(docs.find_category("a"), Some(0));
    assert_eq!(docs.find_category("b"), Some(1));
    assert_eq!(docs.find_category("c"), None);
}

#[test]
fn opening_lines_remember_their_number() {
    let opening = [
        (LineType::Function, ParserState::InFunction),
        (LineType::CommentStart, ParserState::InComment),
        (LineType::TypeDefinition, ParserState::TypeStart),
        (LineType::TableStart, ParserState::InTable),
    ];
    for (marker, entered) in opening {
        let mut state = state_at(ParserState::InTable, 5, 2);
        state.advance(marker);
        assert_eq!(state.current, entered);
        assert_eq!(state.previous, ParserState::InTable);
        assert_eq!(state.sig_index, 5);
        assert_eq!(state.index, 5);
        assert!(state.sig_map.is_empty());
    }
}

#[test]
fn closing_lines_emit_the_range_from_the_opening_line() {
    let mut state = state_at(ParserState::InFunction, 5, 2);
    state.advance(LineType::End);
    assert_eq!(state.current, ParserState::Default);
    assert_eq!(state.previous, ParserState::InFunction);
    assert_eq!(ranges(&state), vec![(2, 6)]);
    assert_eq!(state.sig_index, 2);

    let mut state = state_at(ParserState::InComment, 5, 2);
    state.advance(LineType::CommentEnd);
    assert_eq!(state.current, ParserState::LeftComment);
    assert_eq!(ranges(&state), vec![(2, 6)]);
}

#[test]
fn a_one_line_table_emits_its_own_line() {
    let mut state = state_at(ParserState::Default, 5, 2);
    state.advance(LineType::TableInitialization);
    assert_eq!(state.current, ParserState::OneLineTable);
    assert_eq!(ranges(&state), vec![(5, 6)]);
    assert_eq!(state.sig_index, 2);
}

#[test]
fn a_bracket_closes_a_type_only() {
    let mut state = state_at(ParserState::InType, 5, 2);
    state.advance(LineType::EndBracket);
    assert_eq!(state.current, ParserState::Default);
    assert_eq!(state.previous, ParserState::InType);
    assert_eq!(ranges(&state), vec![(2, 6)]);

    let others = [
        ParserState::Default,
        ParserState::InFunction,
        ParserState::InComment,
        ParserState::TypeStart,
        ParserState::InTable,
        ParserState::OneLineTable,
        ParserState::LeftComment,
    ];
    for current in others {
        let mut state = state_at(current, 5, 2);
        state.advance(LineType::EndBracket);
        assert_eq!(state.current, current);
        assert_eq!(state.previous, current);
        assert!(state.sig_map.is_empty());
    }
}

#[test]
fn plain_lines_leave_the_cool_down_states() {
    let plain = [LineType::Default, LineType::While, LineType::For];
    let moves = [
        (ParserState::LeftComment, ParserState::Default),
        (ParserState::OneLineTable, ParserState::Default),
        (ParserState::TypeStart, ParserState::InType),
        (ParserState::Default, ParserState::Default),
        (ParserState::InFunction, ParserState::InFunction),
        (ParserState::InComment, ParserState::InComment),
        (ParserState::InType, ParserState::InType),
        (ParserState::InTable, ParserState::InTable),
    ];
    for marker in plain {
        for (from, to) in moves {
            let mut state = state_at(from, 5, 2);
            state.advance(marker);
            assert_eq!(state.current, to);
            assert_eq!(state.previous, from);
            assert_eq!(state.sig_index, 2);
            assert!(state.sig_map.is_empty());
        }
    }
}

#[test]
fn the_patterns_are_accepted() {
    assert!(SignaturePatterns::new().is_ok());
    assert_eq!(ARGUMENTS_PATTERN, r"\([^)]*\)");
    assert_eq!(RETURN_TYPE_PATTERN, r"\):*.[a-zA-Z]+");
}

#[test]
fn the_name_stands_between_prefix_and_parenthesis() {
    assert_eq!(extract_function_name("function foo()"), Some(String::from("foo")));
    assert_eq!(extract_function_name("function a.b:c(x)(y)"), Some(String::from("a.b:c")));
    assert_eq!(extract_function_name("function (x)"), Some(String::from("")));
    assert_eq!(extract_function_name("function é(x)"), Some(String::from("é")));
}

#[test]
fn a_line_without_prefix_or_parenthesis_declares_nothing() {
    assert_eq!(extract_function_name("function foo"), None);
    assert_eq!(extract_function_name("function"), None);
    assert_eq!(extract_function_name("functional(x)"), None);
    assert_eq!(extract_function_name("local function foo()"), None);
    assert_eq!(extract_function_name("(function foo"), None);
    assert_eq!(extract_function_name(""), None);
}

#[test]
fn a_declaration_holds_what_the_patterns_find() {
    let patterns = patterns();
    let line = "function area(w, h): number";
    let found = read_declaration(line, &patterns).unwrap();
    assert_eq!(found.name, "area");
    assert_eq!(found.arguments, Some(String::from("(w, h)")));
    assert_eq!(found.return_type, Some(String::from("): number")));
    assert_ne!(found.arguments, Some(String::from(line)));

    let found = read_declaration("function foo()", &patterns).unwrap();
    assert_eq!(found.name, "foo");
    assert_eq!(found.arguments, Some(String::from("()")));
    assert_eq!(found.return_type, None);

    let found = read_declaration("function foo(", &patterns).unwrap();
    assert_eq!(found.name, "foo");
    assert_eq!(found.arguments, None);
    assert_eq!(found.return_type, None);

    assert!(read_declaration("foo()", &patterns).is_none());
}

#[test]
fn parse_function_files_the_name() {
    let patterns = patterns();
    let mut state = state_at(ParserState::InFunction, 4, 4);
    let found = parse_function("function foo(a)", &mut state, &patterns).unwrap();
    assert_eq!(found.name, "foo");
    assert_eq!(found.arguments, Some(String::from("(a)")));
    assert_eq!(state.doc_map.get("function"), Some(&vec![words(&["foo"])]));
    assert_eq!(state.current, ParserState::InFunction);
    assert_eq!(state.index, 4);
    assert!(state.sig_map.is_empty());
}

#[test]
fn parse_function_refuses_a_malformed_declaration() {
    let patterns = patterns();
    let mut state = State::new();
    let outcome = parse_function("function foo", &mut state, &patterns);
    assert_eq!(outcome.err(), Some(Fault::MalformedDeclaration));
    assert!(state.doc_map.categories.is_empty());
    let outcome = parse_function("end", &mut state, &patterns);
    assert_eq!(outcome.err(), Some(Fault::MalformedDeclaration));
    assert!(state.doc_map.categories.is_empty());
}

#[test]
fn a_malformed_function_line_still_moves_the_state() {
    let patterns = patterns();
    let mut state = state_at(ParserState::Default, 3, 1);
    let report = parse_line("local function foo()", &mut state, &patterns);
    assert_eq!(report.line_type, LineType::Function);
    assert_eq!(report.fault, Some(Fault::MalformedDeclaration));
    assert!(report.declaration.is_none());
    assert_eq!(state.current, ParserState::InFunction);
    assert_eq!(state.sig_index, 3);
    assert!(state.doc_map.categories.is_empty());
}

#[test]
fn parse_line_saves_the_previous_state_on_every_line() {
    let patterns = patterns();
    let mut state = state_at(ParserState::InTable, 3, 1);
    let report = parse_line("x = 1", &mut state, &patterns);
    assert_eq!(report.line_type, LineType::Default);
    assert_eq!(report.fault, None);
    assert_eq!(state.previous, ParserState::InTable);
    assert_eq!(state.current, ParserState::InTable);
    state.previous = ParserState::Default;
    parse_line("}", &mut state, &patterns);
    assert_eq!(state.previous, ParserState::InTable);
}

#[test]
fn parse_line_reports_an_unmatched_close() {
    let patterns = patterns();
    let mut state = State::new();
    assert_eq!(parse_line("--]]", &mut state, &patterns).fault, Some(Fault::UnmatchedClose));
    assert_eq!(ranges(&state), vec![(0, 1)]);
    let mut state = state_at(ParserState::InComment, 2, 1);
    assert_eq!(parse_line("end", &mut state, &patterns).fault, Some(Fault::UnmatchedClose));
    let mut state = state_at(ParserState::InFunction, 2, 1);
    assert_eq!(parse_line("end", &mut state, &patterns).fault, None);
    let mut state = state_at(ParserState::InComment, 2, 1);
    assert_eq!(parse_line("--]]", &mut state, &patterns).fault, None);
    let mut state = state_at(ParserState::InType, 2, 1);
    assert_eq!(parse_line("}", &mut state, &patterns).fault, None);
    assert_eq!(ranges(&state), vec![(1, 3)]);
    let mut state = state_at(ParserState::InTable, 2, 1);
    assert_eq!(parse_line("}", &mut state, &patterns).fault, Some(Fault::UnmatchedClose));
    assert!(state.sig_map.is_empty());
}

#[test]
fn a_function_is_one_range_and_one_entry() {
    let patterns = patterns();
    let lines = vec!["function foo()", "  return 1", "end"];
    let mut state = State::new();
    let mut types = Vec::new();
    for line in &lines {
        let report = parse_line(line, &mut state, &patterns);
        assert_eq!(report.fault, None);
        types.push(report.line_type);
        state.index += 1;
    }
    assert_eq!(types, vec![LineType::Function, LineType::Default, LineType::End]);
    assert_eq!(ranges(&state), vec![(0, 3)]);
    assert_eq!(state.doc_map.categories.len(), 1);
    assert_eq!(state.doc_map.get("function"), Some(&vec![words(&["foo"])]));

    let scanned = scan(&lines, &patterns);
    assert_eq!(ranges(&scanned), vec![(0, 3)]);
    assert_eq!(scanned.doc_map.get("function"), Some(&vec![words(&["foo"])]));
    assert_eq!(scanned.index, 3);
    assert_eq!(scanned.current, ParserState::Default);
    assert_eq!(scanned.previous, ParserState::InFunction);
}

#[test]
fn a_comment_is_one_range_and_no_entry() {
    let state = scan(&vec!["--[[--", "doc text", "--]]"], &patterns());
    assert_eq!(ranges(&state), vec![(0, 3)]);
    assert!(state.doc_map.categories.is_empty());
    assert_eq!(state.current, ParserState::LeftComment);
}

#[test]
fn a_one_line_table_is_emitted_at_once() {
    let patterns = patterns();
    let mut state = State::new();
    let report = parse_line("local t = {}", &mut state, &patterns);
    assert_eq!(report.line_type, LineType::TableInitialization);
    assert_eq!(report.fault, None);
    assert_eq!(ranges(&state), vec![(0, 1)]);
    assert_eq!(state.current, ParserState::OneLineTable);
    state.index += 1;
    parse_line("", &mut state, &patterns);
    assert_eq!(state.current, ParserState::Default);
    assert_eq!(ranges(&state), vec![(0, 1)]);

    let scanned = scan(&vec!["local t = {}"], &patterns);
    assert_eq!(ranges(&scanned), vec![(0, 1)]);
}

#[test]
fn a_lone_end_gives_one_range_from_line_zero() {
    let patterns = patterns();
    let state = scan(&vec!["end"], &patterns);
    assert_eq!(ranges(&state), vec![(0, 1)]);
    let state = scan(&vec!["x = 1", "y = 2", "end"], &patterns);
    assert_eq!(ranges(&state), vec![(0, 3)]);
    assert_eq!(state.current, ParserState::Default);
}

#[test]
fn a_type_block_closes_at_its_bracket() {
    let lines = vec!["type Point = {", "  x: number,", "}", "}"];
    let state = scan(&lines, &patterns());
    assert_eq!(ranges(&state), vec![(0, 3)]);
    assert_eq!(state.current, ParserState::Default);
}

#[test]
fn a_scan_emits_one_range_for_each_closing_line() {
    let lines = vec![
        "--[[--",
        "a module",
        "--]]",
        "local t = {}",
        "local u = {",
        "}",
        "function f(x)",
        "  while x do",
        "  end",
        "end",
        "type T = {",
        "  a,",
        "}",
    ];
    let state = scan(&lines, &patterns());
    assert_eq!(ranges(&state), vec![(0, 3), (3, 4), (6, 9), (6, 10), (10, 13)]);
    for range in &state.sig_map {
        assert!(range.start <= range.end);
    }
    assert_eq!(state.index, lines.len());
    assert_eq!(state.doc_map.get("function"), Some(&vec![words(&["f"])]));
}

#[test]
fn a_scan_of_nothing_is_the_new_state() {
    let state = scan(&Vec::new(), &patterns());
    assert!(state.sig_map.is_empty());
    assert_eq!(state.index, 0);
    assert_eq!(state.current, ParserState::Default);
}

#[test]
fn find_end_of_function_gives_the_first_line_with_end() {
    let lines = vec!["function f()", "  return 1", "end", "x", "  end"];
    assert_eq!(find_end_of_function(lines.clone(), 0), Some(2));
    assert_eq!(find_end_of_function(lines.clone(), 2), Some(2));
    assert_eq!(find_end_of_function(lines.clone(), 3), Some(4));
    assert_eq!(find_end_of_function(lines.clone(), 5), None);
    assert_eq!(find_end_of_function(lines.clone(), 50), None);
    assert_eq!(find_end_of_function(vec!["a", "b"], 0), None);
    assert_eq!(find_end_of_function(Vec::new(), 0), None);
}
