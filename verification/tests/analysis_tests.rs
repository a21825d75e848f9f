use textframe::analysis::analyze;

#[test]
fn counts_words_lines_and_bytes() {
    let r = analyze(b"one two three Snow");
    assert_eq!(r.word_count, 4);
    assert_eq!(r.line_count, 1);
    assert_eq!(r.char_count, 18);
}

#[test]
fn counts_trailing_newline_as_line() {
    let r = analyze(b"line1\nline2\n");
    assert_eq!(r.line_count, 3);
}

#[test]
fn empty_content_has_one_line() {
    let r = analyze(b"");
    assert_eq!(r.line_count, 1);
    assert_eq!(r.word_count, 0);
    assert_eq!(r.char_count, 0);
}

#[test]
fn apostrophes_join_words() {
    let r = analyze(b"don't stop");
    assert_eq!(r.word_count, 2);
}

#[test]
fn separators_split_words() {
    let r = analyze(b"a.b,c-d");
    assert_eq!(r.word_count, 4);
}

#[test]
fn extra_separators_do_not_change_word_count() {
    let plain = analyze(b"one two three");
    let padded = analyze(b"  one , two ,, three  ");
    assert_eq!(plain.word_count, padded.word_count);
}

#[test]
fn char_count_is_bytes_not_characters() {
    // One two-byte UTF-8 character counts as two bytes.
    let r = analyze("é".as_bytes());
    assert_eq!(r.char_count, 2);
}
