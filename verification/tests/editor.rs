use spice_parser_core::editor::{
    error_range, extract_word, offset_to_line_col, word_length, Position, Range,
};
use spice_parser_core::parse::ParseError;

#[test]
fn main_test_extract_word() {
    let line = "hello world rust";
    assert_eq!(extract_word(line, 1), Some("hello".to_string()));
    assert_eq!(extract_word(line, 7), Some("world".to_string()));
    assert_eq!(extract_word(line, 13), Some("rust".to_string()));
    assert_eq!(extract_word(line, 0), Some("hello".to_string()));
    assert_eq!(extract_word(line, 15), Some("rust".to_string()));
    assert_eq!(extract_word(line, 5), None);

    let line2 = ".TRAN 1M 1 ";
    assert_eq!(extract_word(line2, 2), Some(".TRAN".to_string()));
}

#[test]
fn handler_test_extract_word() {
    let line = "hello world rust";
    assert_eq!(extract_word(line, 1), Some("hello".to_string()));
    assert_eq!(extract_word(line, 7), Some("world".to_string()));
    assert_eq!(extract_word(line, 13), Some("rust".to_string()));
    assert_eq!(extract_word(line, 0), Some("hello".to_string()));
    assert_eq!(extract_word(line, 15), Some("rust".to_string()));
    assert_eq!(extract_word(line, 5), None);

    let line2 = ".TRAN 1M 1 ";
    assert_eq!(extract_word(line2, 2), Some(".TRAN".to_string()));
}

#[test]
fn test_offset_start_of_text() {
    let source = "
        R1 N1 N2
        V1 N3 0
        .TRAN 1m 10m
        ";
    let offset = 0;
    assert_eq!(offset_to_line_col(source, offset), (0, 0));
}

#[test]
fn extract_word_counts_characters_not_bytes() {
    let line = "né R1 x";
    assert_eq!(extract_word(line, 1), Some("né".to_string()));
    assert_eq!(extract_word(line, 3), Some("R1".to_string()));
    assert_eq!(extract_word(line, 2), None);
    assert_eq!(extract_word(line, 6), Some("x".to_string()));
}

#[test]
fn word_length_of_each_position() {
    let line = "R1 N2  10k";
    assert_eq!(word_length(line, 0), Some(2));
    assert_eq!(word_length(line, 1), Some(2));
    assert_eq!(word_length(line, 2), None);
    assert_eq!(word_length(line, 4), Some(2));
    assert_eq!(word_length(line, 5), None);
    assert_eq!(word_length(line, 6), None);
    assert_eq!(word_length(line, 9), Some(3));
}

#[test]
fn word_length_past_the_end_is_one() {
    assert_eq!(word_length("R1", 2), Some(1));
    assert_eq!(word_length("R1", 100), Some(1));
    assert_eq!(word_length("", 0), Some(1));
}

#[test]
fn offset_to_line_col_walks_lines() {
    let source = "R1 1 2\nC1 2 3\n.END";
    assert_eq!(offset_to_line_col(source, 0), (0, 0));
    assert_eq!(offset_to_line_col(source, 3), (0, 3));
    assert_eq!(offset_to_line_col(source, 6), (0, 6));
    assert_eq!(offset_to_line_col(source, 7), (1, 0));
    assert_eq!(offset_to_line_col(source, 9), (1, 2));
    assert_eq!(offset_to_line_col(source, 14), (2, 0));
    assert_eq!(offset_to_line_col(source, 18), (2, 4));
}

#[test]
fn offset_to_line_col_past_the_end_is_the_end() {
    assert_eq!(offset_to_line_col("ab\ncd", 100), (1, 2));
    assert_eq!(offset_to_line_col("", 3), (0, 0));
}

#[test]
fn offset_to_line_col_counts_bytes_of_wide_characters() {
    // `é` takes two bytes: the `b` after it starts at byte 3.
    let source = "aéb\nc";
    assert_eq!(offset_to_line_col(source, 1), (0, 1));
    assert_eq!(offset_to_line_col(source, 3), (0, 2));
    assert_eq!(offset_to_line_col(source, 5), (1, 0));
    // No character starts at byte 2: the end of the text is reported.
    assert_eq!(offset_to_line_col(source, 2), (1, 1));
}

fn marked(source: &str, position: Option<(usize, usize)>) -> ((u32, u32), (u32, u32)) {
    let error = ParseError { reason: "Unexpected token".to_string(), position };
    let Range { start, end } = error_range(source, &error);
    ((start.line, start.character), (end.line, end.character))
}

#[test]
fn a_rejection_marks_the_word_at_its_place() {
    let source = "Title\nR1 N2  10k\r\n.TRAN 1m\n";
    assert_eq!(marked(source, Some((1, 3))), ((1, 3), (1, 5)));
    assert_eq!(marked(source, Some((1, 4))), ((1, 4), (1, 6)));
    assert_eq!(marked(source, Some((1, 7))), ((1, 7), (1, 10)));
    assert_eq!(marked(source, Some((2, 0))), ((2, 0), (2, 5)));
    // One character where a space stands, past the end of the line, and
    // on a line that the text does not have.
    assert_eq!(marked(source, Some((1, 5))), ((1, 5), (1, 6)));
    assert_eq!(marked(source, Some((1, 10))), ((1, 10), (1, 11)));
    assert_eq!(marked(source, Some((3, 2))), ((3, 2), (3, 3)));
    assert_eq!(marked("", Some((0, 0))), ((0, 0), (0, 1)));
    // Without a place the start of the text is marked.
    assert_eq!(marked(source, None), ((0, 0), (0, 5)));
    assert_eq!(error_range("ab", &ParseError { reason: String::new(), position: None }).start, Position::new(0, 0));
}

#[test]
fn a_place_beyond_the_range_of_positions_is_held_at_its_end() {
    let far = u32::MAX as usize;
    assert_eq!(marked("R1", Some((0, far))), ((0, u32::MAX), (0, u32::MAX)));
    assert_eq!(marked("R1", Some((0, far - 1))), ((0, u32::MAX - 1), (0, u32::MAX)));
    assert_eq!(marked("R1", Some((usize::MAX, usize::MAX))), ((u32::MAX, u32::MAX), (u32::MAX, u32::MAX)));
}
