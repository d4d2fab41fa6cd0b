use text_viewer::document::{Document, Line};
use text_viewer::terminal::{Position, Terminal};

fn doc(text: &[u8]) -> Document {
    Document::from_bytes(&text.to_vec())
}

fn line_bytes(l: &Line) -> Vec<u8> {
    l.render(0, l.len())
}

fn doc_lines(d: &Document) -> Vec<Vec<u8>> {
    let mut out = Vec::new();
    let mut i = 0;
    while let Some(l) = d.get_line(i) {
        out.push(line_bytes(l));
        i += 1;
    }
    out
}

#[test]
fn from_bytes_splits_on_newline() {
    let d = doc(b"abc\nde\nfghij");
    assert_eq!(doc_lines(&d), vec![b"abc".to_vec(), b"de".to_vec(), b"fghij".to_vec()]);
}

#[test]
fn from_bytes_final_newline_is_optional() {
    let d = doc(b"abc\nde\n");
    assert_eq!(doc_lines(&d), vec![b"abc".to_vec(), b"de".to_vec()]);
}

#[test]
fn from_bytes_crlf_ends_a_line() {
    let d = doc(b"a\r\nb");
    assert_eq!(doc_lines(&d), vec![b"a".to_vec(), b"b".to_vec()]);
}

#[test]
fn from_bytes_lone_carriage_return_stays() {
    let d = doc(b"a\rb\nc");
    assert_eq!(doc_lines(&d), vec![b"a\rb".to_vec(), b"c".to_vec()]);
}

#[test]
fn from_bytes_trailing_carriage_return_without_newline_stays() {
    let d = doc(b"abc\r");
    assert_eq!(doc_lines(&d), vec![b"abc\r".to_vec()]);
}

#[test]
fn from_bytes_blank_lines_are_kept() {
    let d = doc(b"\n\n");
    assert_eq!(doc_lines(&d), vec![b"".to_vec(), b"".to_vec()]);
    let d = doc(b"a\n\nb");
    assert_eq!(doc_lines(&d), vec![b"a".to_vec(), b"".to_vec(), b"b".to_vec()]);
}

#[test]
fn from_bytes_empty_text_gives_one_empty_line() {
    let d = doc(b"");
    assert_eq!(doc_lines(&d), vec![b"".to_vec()]);
    assert!(d.is_empty());
}

#[test]
fn default_document_is_one_empty_line() {
    let d = Document::default();
    assert_eq!(doc_lines(&d), vec![b"".to_vec()]);
    assert!(d.is_empty());
}

#[test]
fn is_empty_needs_exactly_one_empty_line() {
    assert!(doc(b"\n").is_empty());
    assert!(!doc(b"a").is_empty());
    assert!(!doc(b"\n\n").is_empty());
}

#[test]
fn get_line_out_of_range_is_none() {
    let d = doc(b"abc");
    assert!(d.get_line(0).is_some());
    assert!(d.get_line(1).is_none());
    assert!(d.get_line(1000).is_none());
}

#[test]
fn render_clips_to_line_bounds() {
    let d = doc(b"hello");
    let l = d.get_line(0).unwrap();
    assert_eq!(l.len(), 5);
    assert_eq!(l.render(1, 3), b"el".to_vec());
    assert_eq!(l.render(3, 100), b"lo".to_vec());
    assert_eq!(l.render(5, 2), b"".to_vec());
    assert_eq!(l.render(50, 60), b"".to_vec());
    assert_eq!(l.render(0, 0), b"".to_vec());
}

#[test]
fn line_new_keeps_bytes() {
    let l = Line::new(b"xyz".to_vec());
    assert_eq!(line_bytes(&l), b"xyz".to_vec());
    assert_eq!(l.len(), 3);
}

#[test]
fn position_setters() {
    let mut p = Position { x: 0, y: 0 };
    p.set_x(4);
    p.set_y(7);
    assert_eq!(p.x, 4);
    assert_eq!(p.y, 7);
}

#[test]
fn terminal_set_size_and_get_pos() {
    let mut t = Terminal::new(10, 20);
    assert_eq!(t.get_pos(), (0, 0));
    t.set_size(5, 8);
    assert_eq!(t.rows, 5);
    assert_eq!(t.cols, 8);
    t.position.set_x(3);
    assert_eq!(t.get_pos(), (3, 0));
}

#[test]
fn welcome_line_centers_the_message() {
    let t = Terminal::new(10, 20);
    let out = t.welcome_line(&b"hi".to_vec());
    assert_eq!(out, b"         hi".to_vec());
}

#[test]
fn welcome_line_truncates_to_width() {
    let t = Terminal::new(10, 5);
    let out = t.welcome_line(&b"abcdefgh".to_vec());
    assert_eq!(out, b"abcde".to_vec());
}

#[test]
fn welcome_line_odd_padding_rounds_down() {
    let t = Terminal::new(10, 4);
    let out = t.welcome_line(&b"abc".to_vec());
    assert_eq!(out, b"abc".to_vec());
    let t = Terminal::new(10, 6);
    let out = t.welcome_line(&b"abc".to_vec());
    assert_eq!(out, b" abc".to_vec());
}
