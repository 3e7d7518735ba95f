use rope_editor::buffer::TextBuffer;

#[test]
fn empty_buffer_has_one_line() {
    let buffer = TextBuffer::new();
    assert_eq!(buffer.char_count(), 0);
    assert_eq!(buffer.line_count(), 1);
    assert_eq!(buffer.line_to_char_index(0), 0);
    assert_eq!(buffer.line_to_char_index(1), 0);
    assert_eq!(buffer.line_length(0), 0);
    assert_eq!(buffer.text(), "");
    assert_eq!(buffer.lines(), vec![String::new()]);
}

#[test]
fn only_line_feed_breaks_lines() {
    let buffer = TextBuffer::from_str("a\rb\u{2028}c\u{85}d\u{b}e\u{c}f");
    assert_eq!(buffer.line_count(), 1);
    assert_eq!(buffer.line_length(0), 11);
    let buffer = TextBuffer::from_str("a\r\nb");
    assert_eq!(buffer.line_count(), 2);
    assert_eq!(buffer.line_to_char_index(1), 3);
    assert_eq!(buffer.line_length(0), 2);
}

#[test]
fn text_without_terminator_is_one_line() {
    let buffer = TextBuffer::from_str("abc");
    assert_eq!(buffer.char_count(), 3);
    assert_eq!(buffer.line_count(), 1);
    assert_eq!(buffer.line_length(0), 3);
    assert_eq!(buffer.line_to_char_index(1), 3);
}

#[test]
fn trailing_terminator_adds_an_empty_line() {
    let buffer = TextBuffer::from_str("abc\n");
    assert_eq!(buffer.char_count(), 4);
    assert_eq!(buffer.line_count(), 2);
    assert_eq!(buffer.line_length(0), 3);
    assert_eq!(buffer.line_length(1), 0);
    assert_eq!(buffer.line_to_char_index(1), 4);
    assert_eq!(buffer.line_to_char_index(2), 4);
    assert_eq!(buffer.lines(), vec!["abc\n".to_string(), String::new()]);
}

#[test]
fn line_starts_follow_the_terminators() {
    let buffer = TextBuffer::from_str("one\n\nthree\nfour");
    assert_eq!(buffer.line_count(), 4);
    assert_eq!(buffer.line_to_char_index(0), 0);
    assert_eq!(buffer.line_to_char_index(1), 4);
    assert_eq!(buffer.line_to_char_index(2), 5);
    assert_eq!(buffer.line_to_char_index(3), 11);
    assert_eq!(buffer.line_to_char_index(4), 15);
    assert_eq!(buffer.char_count(), 15);
}

#[test]
fn line_starts_do_not_decrease() {
    let buffer = TextBuffer::from_str("a\n\n\nbcd\ne\n");
    let mut last = 0;
    for line in 0..=buffer.line_count() {
        let start = buffer.line_to_char_index(line);
        assert!(start >= last);
        last = start;
    }
    assert_eq!(last, buffer.char_count());
}

#[test]
fn line_length_leaves_out_the_terminator() {
    let buffer = TextBuffer::from_str("one\n\nthree\nfour");
    assert_eq!(buffer.line_length(0), 3);
    assert_eq!(buffer.line_length(1), 0);
    assert_eq!(buffer.line_length(2), 5);
    assert_eq!(buffer.line_length(3), 4);
}

#[test]
fn line_length_out_of_range_is_zero() {
    let buffer = TextBuffer::from_str("one\ntwo");
    assert_eq!(buffer.line_length(2), 0);
    assert_eq!(buffer.line_length(3), 0);
    assert_eq!(buffer.line_length(usize::MAX), 0);
}

#[test]
fn line_length_counts_characters_not_bytes() {
    let buffer = TextBuffer::from_str("h\u{e9}llo \u{4e16}\u{754c}\nx");
    assert_eq!(buffer.char_count(), 10);
    assert_eq!(buffer.line_length(0), 8);
    assert_eq!(buffer.line_to_char_index(1), 9);
}

#[test]
fn insert_char_puts_the_character_at_the_index() {
    let mut buffer = TextBuffer::from_str("ac");
    buffer.insert_char(1, 'b');
    assert_eq!(buffer.text(), "abc");
    buffer.insert_char(0, '>');
    assert_eq!(buffer.text(), ">abc");
    buffer.insert_char(4, '<');
    assert_eq!(buffer.text(), ">abc<");
    assert_eq!(buffer.char_count(), 5);
}

#[test]
fn insert_puts_the_text_at_the_index() {
    let mut buffer = TextBuffer::from_str("held");
    buffer.insert(3, "lo wor");
    assert_eq!(buffer.text(), "hello word");
    buffer.insert(0, "");
    assert_eq!(buffer.text(), "hello word");
    buffer.insert(10, "\n!");
    assert_eq!(buffer.text(), "hello word\n!");
    assert_eq!(buffer.line_count(), 2);
}

#[test]
fn remove_takes_out_the_range() {
    let mut buffer = TextBuffer::from_str("hello world");
    buffer.remove(5, 11);
    assert_eq!(buffer.text(), "hello");
    buffer.remove(2, 2);
    assert_eq!(buffer.text(), "hello");
    buffer.remove(0, 1);
    assert_eq!(buffer.text(), "ello");
    buffer.remove(0, 4);
    assert_eq!(buffer.text(), "");
    assert_eq!(buffer.line_count(), 1);
}

#[test]
fn removing_a_terminator_joins_lines() {
    let mut buffer = TextBuffer::from_str("ab\ncd");
    buffer.remove(2, 3);
    assert_eq!(buffer.text(), "abcd");
    assert_eq!(buffer.line_count(), 1);
    assert_eq!(buffer.line_length(0), 4);
}

#[test]
fn line_gives_the_raw_text_of_a_line() {
    let buffer = TextBuffer::from_str("one\n\nthree\nfour");
    assert_eq!(buffer.line(0), "one\n");
    assert_eq!(buffer.line(1), "\n");
    assert_eq!(buffer.line(2), "three\n");
    assert_eq!(buffer.line(3), "four");
}

#[test]
fn lines_put_together_are_the_text() {
    let text = "one\n\nthree\nfour\n";
    let buffer = TextBuffer::from_str(text);
    let lines = buffer.lines();
    assert_eq!(lines.len(), buffer.line_count());
    assert_eq!(lines.concat(), text);
    assert_eq!(buffer.text(), text);
}

#[test]
fn large_text_keeps_its_lines() {
    let mut text = String::new();
    for i in 0..2000 {
        text.push_str(&format!("line number {}\n", i));
    }
    let mut buffer = TextBuffer::from_str(&text);
    assert_eq!(buffer.line_count(), 2001);
    assert_eq!(buffer.line(1999), "line number 1999\n");
    assert_eq!(buffer.line_length(1999), 16);
    let start = buffer.line_to_char_index(1000);
    buffer.insert(start, "inserted\n");
    assert_eq!(buffer.line_count(), 2002);
    assert_eq!(buffer.line(1000), "inserted\n");
    assert_eq!(buffer.line(1001), "line number 1000\n");
    buffer.remove(start, start + 9);
    assert_eq!(buffer.text(), text);
}
