use todo_rs::codec::{load_state, parse_todo, save_state, split_lines, FormatError};
use todo_rs::status::Status;

fn strings(items: &[&str]) -> Vec<String> {
    items.iter().map(|item| item.to_string()).collect()
}

#[test]
fn parse_todo_reads_a_todo_line() {
    assert_eq!(parse_todo("TODO: buy milk"), Some((Status::Todo, "buy milk")));
}

#[test]
fn parse_todo_reads_a_done_line() {
    assert_eq!(parse_todo("DONE: write tests"), Some((Status::Done, "write tests")));
}

#[test]
fn parse_todo_rejects_a_line_without_a_tag() {
    assert_eq!(parse_todo("NOTE: buy milk"), None);
    assert_eq!(parse_todo(""), None);
    assert_eq!(parse_todo("TODO"), None);
    assert_eq!(parse_todo("TODO:"), None);
    assert_eq!(parse_todo(" TODO: a"), None);
}

#[test]
fn parse_todo_wants_the_space_after_the_colon() {
    assert_eq!(parse_todo("TODO:buy milk"), None);
    assert_eq!(parse_todo("DONE:x"), None);
}

#[test]
fn parse_todo_is_case_sensitive() {
    assert_eq!(parse_todo("todo: a"), None);
    assert_eq!(parse_todo("Done: a"), None);
}

#[test]
fn parse_todo_accepts_an_empty_item() {
    assert_eq!(parse_todo("TODO: "), Some((Status::Todo, "")));
    assert_eq!(parse_todo("DONE: "), Some((Status::Done, "")));
}

#[test]
fn parse_todo_keeps_the_item_as_it_is() {
    assert_eq!(parse_todo("TODO:  two spaces "), Some((Status::Todo, " two spaces ")));
    assert_eq!(parse_todo("DONE: TODO: nested"), Some((Status::Done, "TODO: nested")));
    assert_eq!(
        parse_todo("TODO: caf\u{e9} \u{1f600}"),
        Some((Status::Todo, "caf\u{e9} \u{1f600}"))
    );
}

#[test]
fn split_lines_of_the_empty_text_is_empty() {
    assert_eq!(split_lines(""), Vec::<String>::new());
}

#[test]
fn split_lines_takes_a_last_line_without_line_feed() {
    assert_eq!(split_lines("a"), strings(&["a"]));
    assert_eq!(split_lines("a\nb"), strings(&["a", "b"]));
}

#[test]
fn split_lines_adds_no_line_after_a_final_line_feed() {
    assert_eq!(split_lines("a\n"), strings(&["a"]));
    assert_eq!(split_lines("a\nb\n"), strings(&["a", "b"]));
}

#[test]
fn split_lines_keeps_empty_lines() {
    assert_eq!(split_lines("\n"), strings(&[""]));
    assert_eq!(split_lines("a\n\n"), strings(&["a", ""]));
    assert_eq!(split_lines("\n\nb"), strings(&["", "", "b"]));
}

#[test]
fn split_lines_leaves_carriage_returns_in_the_lines() {
    assert_eq!(split_lines("a\r\nb\r\n"), strings(&["a\r", "b\r"]));
    assert_eq!(split_lines("a\rb\n"), strings(&["a\rb"]));
    assert_eq!(split_lines("a\r"), strings(&["a\r"]));
}

#[test]
fn split_lines_counts_characters_not_bytes() {
    assert_eq!(
        split_lines("caf\u{e9}\n\u{1f600}\u{1f600}\nz"),
        strings(&["caf\u{e9}", "\u{1f600}\u{1f600}", "z"])
    );
}

#[test]
fn split_lines_cuts_at_line_feeds_only() {
    // U+010A and U+0A0A have the digits of a line feed in their code points
    // but no byte 10 in their UTF-8 form.
    assert_eq!(
        split_lines("\u{10a}\u{a0a}\n\u{a0a}"),
        strings(&["\u{10a}\u{a0a}", "\u{a0a}"])
    );
    assert_eq!(
        split_lines("a\u{b}b\u{c}c\u{85}d\u{2028}e"),
        strings(&["a\u{b}b\u{c}c\u{85}d\u{2028}e"])
    );
}

#[test]
fn split_lines_of_a_long_text() {
    let mut text = String::new();
    let mut expected = Vec::new();
    for number in 0..2000 {
        let line = format!("line {} \u{e9}", number);
        text.push_str(&line);
        text.push('\n');
        expected.push(line);
    }
    assert_eq!(split_lines(&text), expected);
}

#[test]
fn load_state_sorts_the_lines_by_tag() {
    let loaded = load_state("TODO: a\nTODO: b\nDONE: c\n");
    assert_eq!(loaded, Ok((strings(&["a", "b"]), strings(&["c"]))));
}

#[test]
fn load_state_keeps_file_order_of_interleaved_lines() {
    let loaded = load_state("DONE: 1\nTODO: 2\nDONE: 3\nTODO: 4\nTODO: 5");
    assert_eq!(loaded, Ok((strings(&["2", "4", "5"]), strings(&["1", "3"]))));
}

#[test]
fn load_state_of_the_empty_text_gives_two_empty_lists() {
    assert_eq!(load_state(""), Ok((Vec::new(), Vec::new())));
}

#[test]
fn load_state_reports_the_first_line_without_a_tag() {
    assert_eq!(load_state("NOTE: buy milk"), Err(FormatError { line: 1 }));
    assert_eq!(
        load_state("TODO: a\nDONE: b\nNOTE: buy milk\nTODO: c\n"),
        Err(FormatError { line: 3 })
    );
    assert_eq!(load_state("TODO: a\nbad\nworse\n"), Err(FormatError { line: 2 }));
}

#[test]
fn load_state_rejects_an_empty_line() {
    assert_eq!(load_state("TODO: a\n\nTODO: b\n"), Err(FormatError { line: 2 }));
    assert_eq!(load_state("\n"), Err(FormatError { line: 1 }));
}

#[test]
fn load_state_keeps_a_carriage_return_with_its_item() {
    let loaded = load_state("TODO: a\r\nDONE: b\r\n");
    assert_eq!(loaded, Ok((strings(&["a\r"]), strings(&["b\r"]))));
}

#[test]
fn save_state_writes_todo_lines_then_done_lines() {
    let text = save_state(&strings(&["a", "b"]), &strings(&["c"]));
    assert_eq!(text, "TODO: a\nTODO: b\nDONE: c\n");
}

#[test]
fn save_state_of_empty_lists_is_empty() {
    assert_eq!(save_state(&Vec::new(), &Vec::new()), "");
    assert_eq!(save_state(&Vec::new(), &strings(&["x"])), "DONE: x\n");
    assert_eq!(save_state(&strings(&[""]), &Vec::new()), "TODO: \n");
}

#[test]
fn saved_lists_load_back_unchanged() {
    let todos = strings(&["a", "", "TODO: inner", "caf\u{e9}", "tab\there", "cr\rinside", " lead"]);
    let dones = strings(&["DONE: x", "z", "z", "trail ", "cr at the end\r", "\r"]);
    let text = save_state(&todos, &dones);
    assert_eq!(load_state(&text), Ok((todos, dones)));
}

#[test]
fn saved_empty_lists_load_back_unchanged() {
    let text = save_state(&Vec::new(), &Vec::new());
    assert_eq!(load_state(&text), Ok((Vec::new(), Vec::new())));
}

#[test]
fn an_item_with_a_line_feed_does_not_load_back() {
    let todos = strings(&["a\nDONE: b"]);
    let text = save_state(&todos, &Vec::new());
    assert_eq!(load_state(&text), Ok((strings(&["a"]), strings(&["b"]))));
}

#[test]
fn note_line_is_a_format_error_with_path_and_line_number() {
    let error = load_state("NOTE: buy milk").unwrap_err();
    assert_eq!(error.line, 1);
    let report = error.diagnostic("tasks.txt");
    assert_eq!(report, "tasks.txt:1: ERROR: item line format incorrectly");
}

#[test]
fn diagnostic_writes_the_line_number_in_decimal() {
    assert_eq!(FormatError { line: 7 }.diagnostic("f"), "f:7: ERROR: item line format incorrectly");
    assert_eq!(
        FormatError { line: 10 }.diagnostic("f"),
        "f:10: ERROR: item line format incorrectly"
    );
    assert_eq!(
        FormatError { line: 12345 }.diagnostic("a/b.txt"),
        "a/b.txt:12345: ERROR: item line format incorrectly"
    );
    assert_eq!(FormatError { line: 0 }.diagnostic(""), ":0: ERROR: item line format incorrectly");
    assert_eq!(
        FormatError { line: usize::MAX }.diagnostic("f"),
        format!("f:{}: ERROR: item line format incorrectly", usize::MAX)
    );
}

#[test]
fn diagnostic_names_the_offending_line_of_a_longer_file() {
    let mut text = String::new();
    for _ in 0..11 {
        text.push_str("TODO: fine\n");
    }
    text.push_str("oops\n");
    let error = load_state(&text).unwrap_err();
    assert_eq!(error, FormatError { line: 12 });
    assert_eq!(error.diagnostic("/tmp/todo"), "/tmp/todo:12: ERROR: item line format incorrectly");
}
