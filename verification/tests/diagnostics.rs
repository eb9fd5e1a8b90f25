use spice_parser_core::editor::{incremental_change, Position, Range};

#[test]
fn test_single_line_insert() {
    let mut text = String::from("R1 1 2 1k\nC1 2 3 1uF");
    let range = Range {
        start: Position::new(0, 8),
        end: Position::new(0, 8),
    };
    let (line_idx, new_line) = incremental_change(&mut text, &range, "0");
    assert_eq!(line_idx, 0);
    assert_eq!(new_line, "R1 1 2 10k");
    assert_eq!(text, "R1 1 2 10k\nC1 2 3 1uF");
}

#[test]
fn test_single_line_delete() {
    let mut text = String::from("R1 1 2 1k\nC1 2 3 1uF");
    let range = Range {
        start: Position::new(0, 7),
        end: Position::new(0, 9),
    };
    let (line_idx, new_line) = incremental_change(&mut text, &range, "");
    assert_eq!(line_idx, 0);
    assert_eq!(new_line, "R1 1 2 ");
    assert_eq!(text, "R1 1 2 \nC1 2 3 1uF");
}

#[test]
fn test_insert_newline_within_line() {
    let mut text = String::from("R1 1 2 1k\nC1 2 3 1uF");
    let range = Range {
        start: Position::new(0, 10),
        end: Position::new(0, 10),
    };
    let (line_idx, new_line) = incremental_change(&mut text, &range, "\nR2 2 3 2k");
    assert_eq!(line_idx, 0);
    assert_eq!(new_line, "R1 1 2 1k");
    assert_eq!(text, "R1 1 2 1k\nR2 2 3 2k\nC1 2 3 1uF");
}

#[test]
fn test_multi_line_replace_spanning() {
    let mut text = String::from("R1 1 2 1k\nC1 0 0 1uF\nL1 3 0 1mH");
    let range = Range {
        start: Position::new(0, 7),
        end: Position::new(1, 7),
    };
    let (line_idx, new_line) = incremental_change(&mut text, &range, "10k\nC1 2 3 ");
    assert_eq!(line_idx, 0);
    assert_eq!(new_line, "R1 1 2 10k");
    assert_eq!(text, "R1 1 2 10k\nC1 2 3 1uF\nL1 3 0 1mH");
}

#[test]
fn a_change_past_the_end_of_a_line_is_at_its_end() {
    let mut text = String::from("ab\ncd");
    let range = Range { start: Position::new(0, 9), end: Position::new(1, 9) };
    let (line_idx, new_line) = incremental_change(&mut text, &range, "-");
    assert_eq!(line_idx, 0);
    assert_eq!(new_line, "ab-");
    assert_eq!(text, "ab-");
}

#[test]
fn a_change_after_the_last_line_adds_a_line() {
    let mut text = String::from("ab\ncd");
    let range = Range { start: Position::new(2, 0), end: Position::new(2, 0) };
    let (line_idx, new_line) = incremental_change(&mut text, &range, "ef\ngh");
    assert_eq!(line_idx, 2);
    assert_eq!(new_line, "ef");
    assert_eq!(text, "ab\ncd\nef\ngh");
}

#[test]
fn a_change_counts_characters() {
    let mut text = String::from("né=1\nx");
    let range = Range { start: Position::new(0, 2), end: Position::new(0, 3) };
    let (_, new_line) = incremental_change(&mut text, &range, " = ");
    assert_eq!(new_line, "né = 1");
    assert_eq!(text, "né = 1\nx");
    let mut text = String::new();
    let range = Range { start: Position::new(0, 0), end: Position::new(0, 0) };
    let (line_idx, new_line) = incremental_change(&mut text, &range, "");
    assert_eq!((line_idx, new_line.as_str(), text.as_str()), (0, "", ""));
}
