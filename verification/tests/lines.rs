use server::utils::line_breaks;

fn shown(text: &str, lines: usize) -> Vec<String> {
    line_breaks(text, lines)
}

#[test]
fn excerpt_with_two_lines_shows_two_when_three_are_allowed() {
    let text = "Lorem ipsum dolor sit amet,\n consectetur adipiscing elit.";
    let lines = shown(text, 3);
    assert_eq!(lines.len(), 2);
    assert_eq!(lines, vec!["Lorem ipsum dolor sit amet,", " consectetur adipiscing elit."]);
}

#[test]
fn only_the_allowed_number_of_lines_is_shown() {
    assert_eq!(shown("a\nb\nc\nd", 2), vec!["a", "b"]);
    assert_eq!(shown("a\nb\nc\nd", 4), vec!["a", "b", "c", "d"]);
    assert_eq!(shown("a\nb\nc\nd", 10), vec!["a", "b", "c", "d"]);
}

#[test]
fn zero_lines_shows_nothing() {
    assert!(shown("a\nb", 0).is_empty());
}

#[test]
fn empty_text_has_no_line() {
    assert!(shown("", 5).is_empty());
}

#[test]
fn lone_newline_is_one_empty_line() {
    assert_eq!(shown("\n", 5), vec![""]);
    assert_eq!(shown("\n\n", 5), vec!["", ""]);
}

#[test]
fn carriage_return_before_newline_is_dropped() {
    assert_eq!(shown("foo\r\nbar\n\nbaz\r", 10), vec!["foo", "bar", "", "baz\r"]);
}

#[test]
fn final_line_ending_adds_no_line() {
    assert_eq!(shown("one\ntwo\r\n", 10), vec!["one", "two"]);
    assert_eq!(shown("one\ntwo", 10), shown("one\ntwo\r\n", 10));
    assert_eq!(shown("one\ntwo", 10), shown("one\ntwo\n", 10));
}

#[test]
fn empty_text_gains_a_line_from_a_newline() {
    assert_eq!(shown("", 10).len(), 0);
    assert_eq!(shown("\n", 10).len(), 1);
}

#[test]
fn lines_match_std_lines_on_samples() {
    let samples = ["", "x", "x\n", "x\r\n", "\r\n\r\n", "a\rb\nc", "é\nñ\r\nü", "\n\nz", "tail\r"];
    for text in samples {
        for limit in 0..5 {
            let expected: Vec<String> = text.lines().take(limit).map(|l| l.to_string()).collect();
            assert_eq!(shown(text, limit), expected, "text {:?} limit {}", text, limit);
        }
    }
}

#[test]
fn no_shown_line_holds_a_newline() {
    for line in shown("a\nb\r\n\nc\n", 10) {
        assert!(!line.contains('\n'));
    }
}
