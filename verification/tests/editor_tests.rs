use text_viewer::document::Document;
use text_viewer::editor::{match_keycode, Editor, KeyAction, KeyModifier, NavCommand};

fn editor(text: &[u8], rows: u16, cols: u16) -> Editor {
    Editor::new(Document::from_bytes(&text.to_vec()), rows, cols)
}

const ALL_COMMANDS: [NavCommand; 8] = [
    NavCommand::Left,
    NavCommand::Right,
    NavCommand::Up,
    NavCommand::Down,
    NavCommand::LineStart,
    NavCommand::LineEnd,
    NavCommand::PageUp,
    NavCommand::PageDown,
];

#[test]
fn three_line_scenario() {
    // Document ["abc", "de", "fghij"], viewport rows=2, cols=3.
    let mut e = editor(b"abc\nde\nfghij", 2, 3);
    assert_eq!(e.cursor(), (0, 0));
    assert_eq!(e.scroll_offset(), (0, 0));

    let repaint = e.apply(NavCommand::Down);
    assert_eq!(e.cursor(), (0, 1));
    assert_eq!(e.scroll_offset(), (0, 0));
    assert!(!repaint);

    // On "de" (length 2) the first move-right steps to column 1...
    let repaint = e.apply(NavCommand::Right);
    assert_eq!(e.cursor(), (1, 1));
    assert_eq!(e.scroll_offset(), (0, 0));
    assert!(!repaint);

    // ...and the second is blocked at the last character.
    let repaint = e.apply(NavCommand::Right);
    assert_eq!(e.cursor(), (1, 1));
    assert_eq!(e.scroll_offset(), (0, 0));
    assert!(!repaint);
}

#[test]
fn empty_document_every_command_is_a_noop() {
    for cmd in ALL_COMMANDS {
        let mut e = editor(b"", 5, 5);
        let repaint = e.apply(cmd);
        assert_eq!(e.cursor(), (0, 0));
        assert_eq!(e.scroll_offset(), (0, 0));
        assert!(!repaint);
    }
}

#[test]
fn resize_reclamps_vertical_offset() {
    // 12 lines, 2 rows: scroll until offset.y == 8, then resize to 5 rows.
    let mut e = editor(b"a\nb\nc\nd\ne\nf\ng\nh\ni\nj\nk\nl", 2, 3);
    for _ in 0..9 {
        e.apply(NavCommand::Down);
    }
    assert_eq!(e.scroll_offset(), (0, 8));
    e.handle_resize(5, 3);
    assert_eq!(e.scroll_offset(), (0, 7));
    let (rows, cols) = e.viewport();
    assert_eq!((rows, cols), (5, 3));
    let (x, y) = e.cursor();
    assert!(x < cols && y < rows);
}

#[test]
fn resize_reclamps_cursor() {
    let mut e = editor(b"abcdef\nxy\nz", 3, 6);
    e.apply(NavCommand::LineEnd);
    assert_eq!(e.cursor(), (5, 0));
    e.handle_resize(3, 2);
    assert_eq!(e.cursor(), (1, 0));
}

#[test]
fn move_right_scrolls_at_viewport_edge() {
    let mut e = editor(b"abcdef", 1, 3);
    let mut repaints = Vec::new();
    for _ in 0..6 {
        repaints.push(e.apply(NavCommand::Right));
    }
    // Cursor stops on the last character: column 2 on screen, offset 3.
    assert_eq!(e.cursor(), (2, 0));
    assert_eq!(e.scroll_offset(), (3, 0));
    assert_eq!(repaints, vec![false, false, true, true, true, false]);
}

#[test]
fn move_left_scrolls_back_and_stops_at_origin() {
    let mut e = editor(b"abcdef", 1, 3);
    for _ in 0..5 {
        e.apply(NavCommand::Right);
    }
    let mut repaints = Vec::new();
    for _ in 0..6 {
        repaints.push(e.apply(NavCommand::Left));
    }
    assert_eq!(e.cursor(), (0, 0));
    assert_eq!(e.scroll_offset(), (0, 0));
    assert_eq!(repaints, vec![false, false, true, true, true, false]);
}

#[test]
fn move_left_at_origin_is_idempotent() {
    let mut e = editor(b"abc\nde", 2, 3);
    let repaint = e.apply(NavCommand::Left);
    assert_eq!(e.cursor(), (0, 0));
    assert_eq!(e.scroll_offset(), (0, 0));
    assert!(!repaint);
}

#[test]
fn line_end_scrolls_tail_into_view() {
    let mut e = editor(b"hello world", 1, 5);
    let repaint = e.apply(NavCommand::LineEnd);
    assert_eq!(e.scroll_offset(), (6, 0));
    assert_eq!(e.cursor(), (4, 0));
    assert!(repaint);
}

#[test]
fn line_end_without_scroll() {
    let mut e = editor(b"abc", 1, 5);
    let repaint = e.apply(NavCommand::LineEnd);
    assert_eq!(e.cursor(), (2, 0));
    assert_eq!(e.scroll_offset(), (0, 0));
    assert!(!repaint);
}

#[test]
fn line_end_then_line_start_returns_to_column_zero() {
    let mut e = editor(b"hello world", 1, 5);
    e.apply(NavCommand::LineEnd);
    let repaint = e.apply(NavCommand::LineStart);
    assert_eq!(e.cursor(), (0, 0));
    assert_eq!(e.scroll_offset(), (0, 0));
    assert!(repaint);
}

#[test]
fn moving_down_into_shorter_line_clamps() {
    let mut e = editor(b"abcdef\nab", 2, 3);
    e.apply(NavCommand::LineEnd);
    assert_eq!(e.scroll_offset(), (3, 0));
    assert_eq!(e.cursor(), (2, 0));
    let repaint = e.apply(NavCommand::Down);
    // "ab" has its last character at column 1: offset pulled back to 1,
    // cursor clamped onto it.
    assert_eq!(e.scroll_offset(), (1, 0));
    assert_eq!(e.cursor(), (0, 1));
    assert!(repaint);
    let (off_x, _) = e.scroll_offset();
    let (cur_x, _) = e.cursor();
    assert!(off_x + cur_x as usize <= 1);
}

#[test]
fn moving_up_into_shorter_line_clamps() {
    let mut e = editor(b"ab\nabcdef", 2, 3);
    e.apply(NavCommand::Down);
    e.apply(NavCommand::LineEnd);
    assert_eq!(e.scroll_offset(), (3, 0));
    let _ = e.apply(NavCommand::Up);
    assert_eq!(e.scroll_offset(), (1, 0));
    assert_eq!(e.cursor(), (0, 0));
}

#[test]
fn move_down_scrolls_and_stops(){
    let mut e = editor(b"a\nb\nc\nd\ne", 2, 3);
    // One cursor step, then scrolling while offset.y + 1 < 5 - 2.
    let mut states = Vec::new();
    for _ in 0..5 {
        e.apply(NavCommand::Down);
        states.push((e.cursor().1, e.scroll_offset().1));
    }
    assert_eq!(states, vec![(1, 0), (1, 1), (1, 2), (1, 2), (1, 2)]);
}

#[test]
fn move_up_scrolls_back_to_top() {
    let mut e = editor(b"a\nb\nc\nd\ne", 2, 3);
    for _ in 0..3 {
        e.apply(NavCommand::Down);
    }
    assert_eq!(e.scroll_offset(), (0, 2));
    let mut states = Vec::new();
    for _ in 0..4 {
        e.apply(NavCommand::Up);
        states.push((e.cursor().1, e.scroll_offset().1));
    }
    assert_eq!(states, vec![(0, 2), (0, 1), (0, 0), (0, 0)]);
}

#[test]
fn page_jumps_stay_within_rendered_rows() {
    let mut e = editor(b"a\nb\nc", 10, 5);
    e.apply(NavCommand::PageDown);
    assert_eq!(e.cursor(), (0, 2));
    assert_eq!(e.scroll_offset(), (0, 0));
    e.apply(NavCommand::PageUp);
    assert_eq!(e.cursor(), (0, 0));

    let mut e = editor(b"a\nb\nc\nd\ne\nf", 3, 5);
    e.apply(NavCommand::PageDown);
    assert_eq!(e.cursor(), (0, 2));
    assert_eq!(e.scroll_offset(), (0, 0));
}

#[test]
fn render_viewport_shows_the_visible_window() {
    let e = editor(b"abc\nde\nfghij", 2, 3);
    assert_eq!(e.render_viewport(), vec![b"abc".to_vec(), b"de".to_vec()]);

    let mut e = editor(b"abc\nde\nfghij\nxy", 2, 3);
    e.apply(NavCommand::Down);
    e.apply(NavCommand::Down);
    assert_eq!(e.scroll_offset(), (0, 1));
    assert_eq!(e.render_viewport(), vec![b"de".to_vec(), b"fgh".to_vec()]);
}

#[test]
fn render_viewport_pads_past_document_end() {
    let e = editor(b"abc", 3, 5);
    assert_eq!(e.render_viewport(), vec![b"abc".to_vec(), b"".to_vec(), b"".to_vec()]);
}

#[test]
fn render_viewport_clips_columns_by_offset() {
    let mut e = editor(b"hello world", 1, 5);
    e.apply(NavCommand::LineEnd);
    assert_eq!(e.scroll_offset(), (6, 0));
    assert_eq!(e.render_viewport(), vec![b"world".to_vec()]);
}

#[test]
fn keymap_plain_keys() {
    assert_eq!(match_keycode('h', KeyModifier::Plain), KeyAction::Move(NavCommand::Left));
    assert_eq!(match_keycode('j', KeyModifier::Plain), KeyAction::Move(NavCommand::Down));
    assert_eq!(match_keycode('k', KeyModifier::Plain), KeyAction::Move(NavCommand::Up));
    assert_eq!(match_keycode('l', KeyModifier::Plain), KeyAction::Move(NavCommand::Right));
    assert_eq!(match_keycode('0', KeyModifier::Plain), KeyAction::Move(NavCommand::LineStart));
    assert_eq!(match_keycode('$', KeyModifier::Plain), KeyAction::Move(NavCommand::LineEnd));
    assert_eq!(match_keycode('x', KeyModifier::Plain), KeyAction::Ignore);
    assert_eq!(match_keycode('q', KeyModifier::Plain), KeyAction::Ignore);
}

#[test]
fn keymap_control_keys() {
    assert_eq!(match_keycode('u', KeyModifier::Control), KeyAction::Move(NavCommand::PageUp));
    assert_eq!(match_keycode('d', KeyModifier::Control), KeyAction::Move(NavCommand::PageDown));
    assert_eq!(match_keycode('q', KeyModifier::Control), KeyAction::Quit);
    assert_eq!(match_keycode('h', KeyModifier::Control), KeyAction::Ignore);
}

#[test]
fn keymap_other_modifiers_ignored() {
    assert_eq!(match_keycode('h', KeyModifier::Other), KeyAction::Ignore);
    assert_eq!(match_keycode('q', KeyModifier::Other), KeyAction::Ignore);
}

#[test]
fn bounds_hold_along_any_command_sequence() {
    // The invariant checked after every step of a mixed sequence: cursor in
    // [0, cols-1] x [0, rows-1], offset.y in [0, max(0, line_count - rows)].
    let text: &[u8] = b"short\n\nlonger line here\nx\nanother one\n\nlast";
    let line_count: usize = 7;
    let (rows, cols) = (3u16, 4u16);
    let mut e = editor(text, rows, cols);
    let sequence = [
        NavCommand::Down,
        NavCommand::LineEnd,
        NavCommand::Down,
        NavCommand::Right,
        NavCommand::Right,
        NavCommand::Down,
        NavCommand::PageDown,
        NavCommand::LineEnd,
        NavCommand::Up,
        NavCommand::Left,
        NavCommand::PageUp,
        NavCommand::Down,
        NavCommand::Down,
        NavCommand::Down,
        NavCommand::LineStart,
        NavCommand::Up,
        NavCommand::LineEnd,
        NavCommand::Right,
        NavCommand::Up,
        NavCommand::Left,
    ];
    for cmd in sequence {
        e.apply(cmd);
        let (x, y) = e.cursor();
        assert!(x < cols && y < rows);
        let (_, off_y) = e.scroll_offset();
        assert!(off_y <= line_count - rows as usize);
    }
}

#[test]
fn document_accessor_returns_the_document() {
    let e = editor(b"abc\nde", 2, 3);
    assert_eq!(e.document().get_line(1).unwrap().len(), 2);
    assert!(e.document().get_line(2).is_none());
}
