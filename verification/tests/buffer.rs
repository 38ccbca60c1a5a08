use hecto::buffer::Buffer;

#[test]
fn load_then_query_round_trip() {
    let buffer = Buffer::from_contents("a\nbb\nccc");
    assert_eq!(buffer.get_line(0).map(String::as_str), Some("a"));
    assert_eq!(buffer.get_line(1).map(String::as_str), Some("bb"));
    assert_eq!(buffer.get_line(2).map(String::as_str), Some("ccc"));
    assert_eq!(buffer.get_line(3), None);
}

#[test]
fn empty_source_has_no_lines() {
    let buffer = Buffer::from_contents("");
    assert!(buffer.is_empty());
    assert_eq!(buffer.get_line(0), None);
}

#[test]
fn trailing_terminator_adds_no_empty_line() {
    let buffer = Buffer::from_contents("a\n");
    assert_eq!(buffer.get_line(0).map(String::as_str), Some("a"));
    assert_eq!(buffer.get_line(1), None);
}

#[test]
fn crlf_terminator_is_discarded() {
    let buffer = Buffer::from_contents("a\r\nb");
    assert_eq!(buffer.get_line(0).map(String::as_str), Some("a"));
    assert_eq!(buffer.get_line(1).map(String::as_str), Some("b"));
    assert_eq!(buffer.get_line(2), None);
}

#[test]
fn blank_lines_are_kept() {
    let buffer = Buffer::from_contents("\n\n");
    assert_eq!(buffer.get_line(0).map(String::as_str), Some(""));
    assert_eq!(buffer.get_line(1).map(String::as_str), Some(""));
    assert_eq!(buffer.get_line(2), None);
}

#[test]
fn carriage_return_without_newline_is_kept() {
    let buffer = Buffer::from_contents("a\rb");
    assert_eq!(buffer.get_line(0).map(String::as_str), Some("a\rb"));
    assert_eq!(buffer.get_line(1), None);
}

#[test]
fn default_buffer_is_empty() {
    let buffer = Buffer::default();
    assert!(buffer.is_empty());
    assert_eq!(buffer.get_line(0), None);
}
