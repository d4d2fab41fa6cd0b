//! The cursor/scroll coordinator: the state machine at the heart of the viewer.
//!
//! The coordinator owns the viewport-relative cursor position and the
//! document-relative scroll offset. On every navigation command it decides
//! whether the cursor moves within the visible window or the window itself
//! scrolls over the document, and re-clamps the horizontal position when the
//! cursor enters a line of different length. `EditorView` is the mathematical
//! model of that state; every transition is a spec function on it, and the
//! executable methods are proved to implement them.
//!
//! All position arithmetic saturates: no decrement goes below zero and no
//! position leaves the invariant ranges.

use crate::document::Document;
use crate::document::render_spec;
use crate::terminal::Terminal;
use vstd::math::max;
use vstd::math::min;
use vstd::prelude::*;

verus! {

/// The closed set of navigation commands.
#[derive(Clone, Copy, PartialEq, Eq, Structural, Debug)]
pub enum NavCommand {
    Left,
    Right,
    Up,
    Down,
    LineStart,
    LineEnd,
    PageUp,
    PageDown,
}

/// The modifier held with a key press, as far as the key map cares.
#[derive(Clone, Copy, PartialEq, Eq, Structural, Debug)]
pub enum KeyModifier {
    Plain,
    Control,
    Other,
}

/// What a key press asks for: a navigation command, quitting, or nothing.
#[derive(Clone, Copy, PartialEq, Eq, Structural, Debug)]
pub enum KeyAction {
    Move(NavCommand),
    Quit,
    Ignore,
}

/// The key map: vi-style `h`/`j`/`k`/`l`, `0` for line start, `$` for line
/// end, ctrl-`u`/ctrl-`d` for page jumps, ctrl-`q` to quit.
pub open spec fn match_keycode_spec(key: char, modifier: KeyModifier) -> KeyAction {
    match modifier {
        KeyModifier::Plain => match key {
            'h' => KeyAction::Move(NavCommand::Left),
            'j' => KeyAction::Move(NavCommand::Down),
            'k' => KeyAction::Move(NavCommand::Up),
            'l' => KeyAction::Move(NavCommand::Right),
            '0' => KeyAction::Move(NavCommand::LineStart),
            '$' => KeyAction::Move(NavCommand::LineEnd),
            _ => KeyAction::Ignore,
        },
        KeyModifier::Control => match key {
            'u' => KeyAction::Move(NavCommand::PageUp),
            'd' => KeyAction::Move(NavCommand::PageDown),
            'q' => KeyAction::Quit,
            _ => KeyAction::Ignore,
        },
        KeyModifier::Other => KeyAction::Ignore,
    }
}

/// Translates one key press into at most one command; unrecognized keys are
/// ignored and keep the input loop running.
pub fn match_keycode(key: char, modifier: KeyModifier) -> (r: KeyAction)
    ensures
        r == match_keycode_spec(key, modifier),
{
    match modifier {
        KeyModifier::Plain => match key {
            'h' => KeyAction::Move(NavCommand::Left),
            'j' => KeyAction::Move(NavCommand::Down),
            'k' => KeyAction::Move(NavCommand::Up),
            'l' => KeyAction::Move(NavCommand::Right),
            '0' => KeyAction::Move(NavCommand::LineStart),
            '$' => KeyAction::Move(NavCommand::LineEnd),
            _ => KeyAction::Ignore,
        },
        KeyModifier::Control => match key {
            'u' => KeyAction::Move(NavCommand::PageUp),
            'd' => KeyAction::Move(NavCommand::PageDown),
            'q' => KeyAction::Quit,
            _ => KeyAction::Ignore,
        },
        KeyModifier::Other => KeyAction::Ignore,
    }
}

/// The mathematical model of the coordinator's state: cursor (viewport
/// relative), offset (document relative), viewport dimensions and the
/// document's lines. The cursor's absolute document location is
/// `(off_x + cur_x, off_y + cur_y)`.
#[verifier::ext_equal]
pub ghost struct EditorView {
    pub cur_x: int,
    pub cur_y: int,
    pub off_x: int,
    pub off_y: int,
    pub rows: int,
    pub cols: int,
    pub lines: Seq<Seq<u8>>,
}

impl EditorView {
    /// The document index of the line the cursor stands on.
    pub open spec fn line_index(self) -> int {
        self.off_y + self.cur_y
    }

    /// The line the cursor stands on.
    pub open spec fn cur_line(self) -> Seq<u8> {
        self.lines[self.line_index()]
    }

    /// The column of the last character of the cursor's line, floored at 0
    /// for an empty line.
    pub open spec fn line_last_col(self) -> int {
        max(self.cur_line().len() as int - 1, 0)
    }

    /// The document is the default one: a single empty line.
    pub open spec fn doc_is_empty(self) -> bool {
        self.lines.len() == 1 && self.lines[0].len() == 0
    }

    /// The state invariant: the viewport is non-degenerate, the cursor lies
    /// within it and on an existing document line, and the vertical offset
    /// never scrolls past `line_count - rows`. The size bounds record what
    /// the machine forces on any state an executable editor can hold.
    pub open spec fn wf(self) -> bool {
        &&& 1 <= self.rows <= u16::MAX
        &&& 1 <= self.cols <= u16::MAX
        &&& 0 <= self.cur_x < self.cols
        &&& 0 <= self.cur_y < self.rows
        &&& 1 <= self.lines.len() <= usize::MAX
        &&& forall|i: int| 0 <= i < self.lines.len() ==> #[trigger] self.lines[i].len() <= usize::MAX
        &&& 0 <= self.off_x <= usize::MAX
        &&& 0 <= self.off_y <= max(self.lines.len() - self.rows, 0)
        &&& self.off_y + self.cur_y < self.lines.len()
    }

    /// Whether `other` differs from `self` in the scroll offset; a change of
    /// offset is what obliges a full repaint.
    pub open spec fn offset_moved(self, other: EditorView) -> bool {
        self.off_x != other.off_x || self.off_y != other.off_y
    }

    /// move-left: step the cursor left within the viewport, else scroll left,
    /// else nothing.
    pub open spec fn left_spec(self) -> EditorView {
        if self.cur_x > 0 {
            EditorView { cur_x: self.cur_x - 1, ..self }
        } else if self.off_x > 0 {
            EditorView { off_x: self.off_x - 1, ..self }
        } else {
            self
        }
    }

    /// move-right: step the cursor right while it stays within the viewport
    /// and at or before the last character of the line, else scroll right if
    /// that still keeps the cursor at or before that character, else nothing.
    pub open spec fn right_spec(self) -> EditorView {
        let le = self.line_last_col();
        if self.cur_x < self.cols - 1 && self.off_x + self.cur_x < le {
            EditorView { cur_x: self.cur_x + 1, ..self }
        } else if self.off_x + 1 + self.cur_x <= le {
            EditorView { off_x: self.off_x + 1, ..self }
        } else {
            self
        }
    }

    /// Line re-entry after vertical motion: if the line the cursor now stands
    /// on is shorter than the current horizontal position, pull the offset
    /// back just enough that the line's last character is visible, then clamp
    /// the cursor to that character. The empty document short-circuits to no
    /// change.
    pub open spec fn reenter_spec(self) -> EditorView {
        if self.doc_is_empty() {
            self
        } else {
            let le = self.line_last_col();
            let ox = min(self.off_x, le);
            EditorView { off_x: ox, cur_x: min(le - ox, self.cur_x), ..self }
        }
    }

    /// The vertical part of move-up: step the cursor up within the viewport,
    /// else scroll up, else nothing.
    pub open spec fn vert_up_spec(self) -> EditorView {
        if self.cur_y > 0 {
            EditorView { cur_y: self.cur_y - 1, ..self }
        } else if self.off_y > 0 {
            EditorView { off_y: self.off_y - 1, ..self }
        } else {
            self
        }
    }

    /// move-up: vertical step, then line re-entry.
    pub open spec fn up_spec(self) -> EditorView {
        self.vert_up_spec().reenter_spec()
    }

    /// The vertical part of move-down: step the cursor down while it stays
    /// within the viewport and on an existing line, else scroll down from the
    /// bottom row while `offset.y + 1 < line_count - rows`, else nothing.
    pub open spec fn vert_down_spec(self) -> EditorView {
        let cy = self.cur_y + 1;
        if cy < self.rows && self.off_y + cy < self.lines.len() {
            EditorView { cur_y: cy, ..self }
        } else if cy == self.rows && self.off_y + 1 < self.lines.len() - self.rows {
            EditorView { off_y: self.off_y + 1, ..self }
        } else {
            self
        }
    }

    /// move-down: vertical step, then line re-entry.
    pub open spec fn down_spec(self) -> EditorView {
        self.vert_down_spec().reenter_spec()
    }

    /// line-start: jump to column 0 of the line, resetting the horizontal
    /// scroll.
    pub open spec fn line_start_spec(self) -> EditorView {
        EditorView { cur_x: 0, off_x: 0, ..self }
    }

    /// line-end: jump to the last character of the line; if that character
    /// does not fit in the viewport from the current offset, scroll right so
    /// the line's tail becomes visible and park the cursor on the last
    /// on-screen column.
    pub open spec fn line_end_spec(self) -> EditorView {
        let ll = self.cur_line().len() as int;
        let need = ll - (self.off_x + self.cols);
        if need > 0 {
            EditorView { off_x: self.off_x + need, cur_x: self.cols - 1, ..self }
        } else {
            EditorView { cur_x: max(ll - self.off_x - 1, 0), ..self }
        }
    }

    /// page-up: jump the cursor to the viewport's top row without scrolling.
    pub open spec fn page_up_spec(self) -> EditorView {
        EditorView { cur_y: 0, ..self }
    }

    /// page-down: jump the cursor to the viewport's bottom row without
    /// scrolling, clamped to the last rendered document line.
    pub open spec fn page_down_spec(self) -> EditorView {
        EditorView { cur_y: min(self.rows - 1, self.lines.len() - 1 - self.off_y), ..self }
    }

    /// One navigation step.
    pub open spec fn step_spec(self, cmd: NavCommand) -> EditorView {
        match cmd {
            NavCommand::Left => self.left_spec(),
            NavCommand::Right => self.right_spec(),
            NavCommand::Up => self.up_spec(),
            NavCommand::Down => self.down_spec(),
            NavCommand::LineStart => self.line_start_spec(),
            NavCommand::LineEnd => self.line_end_spec(),
            NavCommand::PageUp => self.page_up_spec(),
            NavCommand::PageDown => self.page_down_spec(),
        }
    }

    /// A terminal resize: take the new dimensions and re-clamp the offset and
    /// the cursor so the invariant holds against them.
    pub open spec fn resize_spec(self, rows: int, cols: int) -> EditorView {
        let oy = min(self.off_y, max(self.lines.len() - rows, 0));
        let cy = min(self.cur_y, min(rows - 1, self.lines.len() - 1 - oy));
        let cx = min(self.cur_x, cols - 1);
        EditorView { rows, cols, off_y: oy, cur_y: cy, cur_x: cx, ..self }
    }

    /// What viewport row `r` shows: the sub-range `[off_x, off_x + cols)` of
    /// document line `off_y + r`, or an empty row past the document's end.
    pub open spec fn rendered_row(self, r: int) -> Seq<u8> {
        if self.off_y + r < self.lines.len() {
            render_spec(self.lines[self.off_y + r], self.off_x, self.off_x + self.cols)
        } else {
            Seq::empty()
        }
    }
}

/// The state after running a whole sequence of navigation commands.
pub open spec fn run_commands(s: EditorView, cmds: Seq<NavCommand>) -> EditorView
    decreases cmds.len(),
{
    if cmds.len() == 0 {
        s
    } else {
        run_commands(s.step_spec(cmds[0]), cmds.drop_first())
    }
}

/// Every single navigation command preserves the invariant: afterwards the
/// cursor still lies in `[0, cols-1] x [0, rows-1]` and the offset in
/// `[0, max(0, line_count - rows)]`, against the unchanged viewport and
/// document.
pub proof fn lemma_step_preserves_wf(s: EditorView, cmd: NavCommand)
    requires
        s.wf(),
    ensures
        s.step_spec(cmd).wf(),
        s.step_spec(cmd).rows == s.rows,
        s.step_spec(cmd).cols == s.cols,
        s.step_spec(cmd).lines == s.lines,
        0 <= s.step_spec(cmd).cur_x <= s.cols - 1,
        0 <= s.step_spec(cmd).cur_y <= s.rows - 1,
        0 <= s.step_spec(cmd).off_y <= max(s.lines.len() - s.rows, 0),
        s.step_spec(cmd).off_x >= 0,
{
}

/// After any sequence of navigation commands from a well-formed state, the
/// cursor still lies in `[0, cols-1] x [0, rows-1]` and the offset in
/// `[0, max(0, line_count - rows)]`: no sequence can break the invariant.
pub proof fn lemma_run_commands_wf(s: EditorView, cmds: Seq<NavCommand>)
    requires
        s.wf(),
    ensures
        run_commands(s, cmds).wf(),
        run_commands(s, cmds).rows == s.rows,
        run_commands(s, cmds).cols == s.cols,
        run_commands(s, cmds).lines == s.lines,
        0 <= run_commands(s, cmds).cur_x <= s.cols - 1,
        0 <= run_commands(s, cmds).cur_y <= s.rows - 1,
        0 <= run_commands(s, cmds).off_y <= max(s.lines.len() - s.rows, 0),
        run_commands(s, cmds).off_x >= 0,
    decreases cmds.len(),
{
    if cmds.len() > 0 {
        lemma_step_preserves_wf(s, cmds[0]);
        lemma_run_commands_wf(s.step_spec(cmds[0]), cmds.drop_first());
    }
}

/// Idempotence at the left edge: move-left with the cursor and the offset
/// both at column 0 leaves the state unchanged.
pub proof fn lemma_left_at_origin_is_noop(s: EditorView)
    requires
        s.wf(),
        s.cur_x == 0,
        s.off_x == 0,
    ensures
        s.step_spec(NavCommand::Left) == s,
{
}

/// Round trip: line-end followed immediately by line-start returns the
/// cursor's column and the horizontal offset to 0.
pub proof fn lemma_line_end_then_line_start(s: EditorView)
    requires
        s.wf(),
    ensures
        s.step_spec(NavCommand::LineEnd).step_spec(NavCommand::LineStart).cur_x == 0,
        s.step_spec(NavCommand::LineEnd).step_spec(NavCommand::LineStart).off_x == 0,
{
}

/// Clamp on vertical motion: moving down (or up) into any line, however
/// short, leaves the absolute cursor column at or before the line's last
/// character. On the empty document vertical motion touches nothing, so the
/// claim is stated for documents with content.
pub proof fn lemma_vertical_motion_clamps(s: EditorView, cmd: NavCommand)
    requires
        s.wf(),
        !s.doc_is_empty(),
        cmd == NavCommand::Down || cmd == NavCommand::Up,
    ensures
        s.step_spec(cmd).off_x + s.step_spec(cmd).cur_x <= max(
            s.step_spec(cmd).cur_line().len() as int - 1,
            0,
        ),
{
}

/// On the empty document with the cursor and the offset at the origin, every
/// navigation command is a no-op.
pub proof fn lemma_empty_doc_noop(s: EditorView, cmd: NavCommand)
    requires
        s.wf(),
        s.doc_is_empty(),
        s.cur_x == 0,
        s.cur_y == 0,
        s.off_x == 0,
        s.off_y == 0,
    ensures
        s.step_spec(cmd) == s,
{
    assert(s.step_spec(cmd) =~= s);
}

/// On the empty document with the cursor and the offset at the origin, every
/// whole sequence of navigation commands is a no-op.
pub proof fn lemma_empty_doc_sequence_noop(s: EditorView, cmds: Seq<NavCommand>)
    requires
        s.wf(),
        s.doc_is_empty(),
        s.cur_x == 0,
        s.cur_y == 0,
        s.off_x == 0,
        s.off_y == 0,
    ensures
        run_commands(s, cmds) == s,
    decreases cmds.len(),
{
    if cmds.len() > 0 {
        lemma_empty_doc_noop(s, cmds[0]);
        lemma_empty_doc_sequence_noop(s, cmds.drop_first());
    }
}

/// A resize re-clamps at once: afterwards the offset and the cursor satisfy
/// the invariant against the new dimensions; in particular the vertical
/// offset is at most `max(0, line_count - rows)` for the new row count.
pub proof fn lemma_resize_preserves_wf(s: EditorView, rows: int, cols: int)
    requires
        s.wf(),
        1 <= rows <= u16::MAX,
        1 <= cols <= u16::MAX,
    ensures
        s.resize_spec(rows, cols).wf(),
        s.resize_spec(rows, cols).lines == s.lines,
        s.resize_spec(rows, cols).off_y <= max(s.lines.len() - rows, 0),
{
}

/// A document-relative scroll position, in bytes (x) and lines (y).
struct Position {
    x: usize,
    y: usize,
}

impl Position {
    fn set_x(&mut self, x: usize)
        ensures
            final(self).x == x,
            final(self).y == old(self).y,
    {
        self.x = x;
    }

    fn set_y(&mut self, y: usize)
        ensures
            final(self).x == old(self).x,
            final(self).y == y,
    {
        self.y = y;
    }
}

/// The coordinator: viewport, scroll offset and document, owned together.
pub struct Editor {
    terminal: Terminal,
    offset: Position,
    document: Document,
}

impl View for Editor {
    type V = EditorView;

    closed spec fn view(&self) -> EditorView {
        EditorView {
            cur_x: self.terminal.position.x as int,
            cur_y: self.terminal.position.y as int,
            off_x: self.offset.x as int,
            off_y: self.offset.y as int,
            rows: self.terminal.rows as int,
            cols: self.terminal.cols as int,
            lines: self.document@,
        }
    }
}

impl Editor {
    pub open spec fn wf(&self) -> bool {
        self@.wf()
    }

    /// A fresh editor on the given document: cursor and offset at the origin.
    pub fn new(document: Document, rows: u16, cols: u16) -> (e: Editor)
        requires
            rows >= 1,
            cols >= 1,
            document@.len() >= 1,
        ensures
            e@ == (EditorView {
                cur_x: 0,
                cur_y: 0,
                off_x: 0,
                off_y: 0,
                rows: rows as int,
                cols: cols as int,
                lines: document@,
            }),
            e.wf(),
    {
        proof {
            crate::document::lemma_view_bounds(&document);
        }
        Editor {
            terminal: Terminal::new(rows, cols),
            offset: Position { x: 0, y: 0 },
            document,
        }
    }

    /// The viewport-relative cursor position `(x, y)`.
    pub fn cursor(&self) -> (p: (u16, u16))
        ensures
            p.0 == self@.cur_x,
            p.1 == self@.cur_y,
    {
        self.terminal.get_pos()
    }

    /// The document coordinate of the viewport's top-left cell `(x, y)`.
    pub fn scroll_offset(&self) -> (p: (usize, usize))
        ensures
            p.0 == self@.off_x,
            p.1 == self@.off_y,
    {
        (self.offset.x, self.offset.y)
    }

    /// The viewport dimensions `(rows, cols)`.
    pub fn viewport(&self) -> (p: (u16, u16))
        ensures
            p.0 == self@.rows,
            p.1 == self@.cols,
    {
        (self.terminal.rows, self.terminal.cols)
    }

    /// The document being viewed.
    pub fn document(&self) -> (d: &Document)
        ensures
            d@ == self@.lines,
    {
        &self.document
    }

    /// move-left. Returns whether the offset changed, which obliges a repaint.
    pub fn go_left(&mut self) -> (repaint: bool)
        requires
            old(self).wf(),
        ensures
            final(self)@ == old(self)@.left_spec(),
            final(self).wf(),
            repaint == old(self)@.offset_moved(final(self)@),
    {
        if self.terminal.position.x > 0 {
            let x = self.terminal.position.x - 1;
            self.terminal.position.set_x(x);
            false
        } else if self.offset.x > 0 {
            let x = self.offset.x - 1;
            self.offset.set_x(x);
            true
        } else {
            false
        }
    }

    /// move-right: the cursor never advances past the last character of the
    /// current line. Returns whether the offset changed.
    pub fn go_right(&mut self) -> (repaint: bool)
        requires
            old(self).wf(),
        ensures
            final(self)@ == old(self)@.right_spec(),
            final(self).wf(),
            repaint == old(self)@.offset_moved(final(self)@),
    {
        let line_index = self.terminal.position.y as usize + self.offset.y;
        let line_end = self.document.lines[line_index].len().saturating_sub(1);

        let curs_x = self.terminal.position.x;
        if curs_x < self.terminal.cols - 1 && self.offset.x.saturating_add(curs_x as usize) < line_end {
            self.terminal.position.set_x(curs_x + 1);
            false
        } else {
            let offs_x = self.offset.x.saturating_add(1);
            if offs_x.saturating_add(curs_x as usize) <= line_end {
                self.offset.set_x(offs_x);
                true
            } else {
                false
            }
        }
    }

    /// Line re-entry: pull the horizontal offset back until the current
    /// line's last character is visible and clamp the cursor to it. Returns
    /// whether the offset changed.
    pub fn line_into_view(&mut self) -> (repaint: bool)
        requires
            old(self).wf(),
        ensures
            final(self)@ == old(self)@.reenter_spec(),
            final(self).wf(),
            repaint == old(self)@.offset_moved(final(self)@),
    {
        if self.document.is_empty() {
            return false;
        }

        let line_index = self.offset.y.saturating_add(self.terminal.position.y as usize);
        let line_end = self.document.lines[line_index].len().saturating_sub(1);
        let eol_to_offset = self.offset.x.saturating_sub(line_end);
        let mut repaint = false;
        if eol_to_offset > 0 {
            let x = self.offset.x - eol_to_offset;
            self.offset.set_x(x);
            repaint = true;
        }

        let visible_end = line_end.saturating_sub(self.offset.x);
        let curs_x = self.terminal.position.x;
        let new_x = if visible_end < curs_x as usize {
            visible_end as u16
        } else {
            curs_x
        };
        self.terminal.position.set_x(new_x);
        repaint
    }

    /// move-up, followed by line re-entry. Returns whether the offset changed.
    pub fn go_up(&mut self) -> (repaint: bool)
        requires
            old(self).wf(),
        ensures
            final(self)@ == old(self)@.up_spec(),
            final(self).wf(),
            repaint == old(self)@.offset_moved(final(self)@),
    {
        let mut scrolled = false;
        if self.terminal.position.y > 0 {
            let y = self.terminal.position.y - 1;
            self.terminal.position.set_y(y);
        } else if self.offset.y > 0 {
            let y = self.offset.y - 1;
            self.offset.set_y(y);
            scrolled = true;
        }
        let repaint = self.line_into_view();
        scrolled || repaint
    }

    /// move-down, followed by line re-entry. Returns whether the offset
    /// changed.
    pub fn go_down(&mut self) -> (repaint: bool)
        requires
            old(self).wf(),
        ensures
            final(self)@ == old(self)@.down_spec(),
            final(self).wf(),
            repaint == old(self)@.offset_moved(final(self)@),
    {
        let curs_y = self.terminal.position.y.saturating_add(1);
        let offs_y = self.offset.y.saturating_add(1);
        let mut scrolled = false;
        if curs_y < self.terminal.rows
            && self.offset.y.saturating_add(curs_y as usize) < self.document.lines.len()
        {
            self.terminal.position.set_y(curs_y);
        } else if curs_y == self.terminal.rows
            && offs_y < self.document.lines.len() - self.terminal.rows as usize
        {
            self.offset.set_y(offs_y);
            scrolled = true;
        }
        let repaint = self.line_into_view();
        scrolled || repaint
    }

    /// line-start: jump to column 0, resetting the horizontal scroll. Returns
    /// whether the offset changed.
    pub fn line_start(&mut self) -> (repaint: bool)
        requires
            old(self).wf(),
        ensures
            final(self)@ == old(self)@.line_start_spec(),
            final(self).wf(),
            repaint == old(self)@.offset_moved(final(self)@),
    {
        self.terminal.position.set_x(0);
        if self.offset.x > 0 {
            self.offset.set_x(0);
            true
        } else {
            false
        }
    }

    /// line-end: jump to the last character of the line, scrolling right if
    /// its tail lies outside the viewport. Returns whether the offset changed.
    pub fn line_end(&mut self) -> (repaint: bool)
        requires
            old(self).wf(),
        ensures
            final(self)@ == old(self)@.line_end_spec(),
            final(self).wf(),
            repaint == old(self)@.offset_moved(final(self)@),
    {
        let line_index = self.terminal.position.y as usize + self.offset.y;
        let line_len = self.document.lines[line_index].len();
        let edge_pos = self.offset.x.saturating_add(self.terminal.cols as usize);
        let offset_needed = line_len.saturating_sub(edge_pos);
        if offset_needed > 0 {
            let x = self.offset.x.saturating_add(offset_needed);
            self.offset.set_x(x);
            self.terminal.position.set_x(self.terminal.cols - 1);
            true
        } else {
            let x = line_len.saturating_sub(self.offset.x).saturating_sub(1);
            self.terminal.position.set_x(x as u16);
            false
        }
    }

    /// page-up: jump the cursor to the viewport's top row; the offset stays.
    pub fn page_up(&mut self) -> (repaint: bool)
        requires
            old(self).wf(),
        ensures
            final(self)@ == old(self)@.page_up_spec(),
            final(self).wf(),
            repaint == old(self)@.offset_moved(final(self)@),
    {
        self.terminal.position.set_y(0);
        false
    }

    /// page-down: jump the cursor to the viewport's bottom row, clamped to
    /// the last rendered document line; the offset stays.
    pub fn page_down(&mut self) -> (repaint: bool)
        requires
            old(self).wf(),
        ensures
            final(self)@ == old(self)@.page_down_spec(),
            final(self).wf(),
            repaint == old(self)@.offset_moved(final(self)@),
    {
        let last_row = self.terminal.rows - 1;
        let remaining = self.document.lines.len() - 1 - self.offset.y;
        let y = if (last_row as usize) < remaining {
            last_row
        } else {
            remaining as u16
        };
        self.terminal.position.set_y(y);
        false
    }

    /// Process one navigation command. Returns whether the offset changed,
    /// which obliges a full repaint; pure intra-viewport cursor moves do not.
    pub fn apply(&mut self, cmd: NavCommand) -> (repaint: bool)
        requires
            old(self).wf(),
        ensures
            final(self)@ == old(self)@.step_spec(cmd),
            final(self).wf(),
            repaint == old(self)@.offset_moved(final(self)@),
    {
        match cmd {
            NavCommand::Left => self.go_left(),
            NavCommand::Right => self.go_right(),
            NavCommand::Up => self.go_up(),
            NavCommand::Down => self.go_down(),
            NavCommand::LineStart => self.line_start(),
            NavCommand::LineEnd => self.line_end(),
            NavCommand::PageUp => self.page_up(),
            NavCommand::PageDown => self.page_down(),
        }
    }

    /// A terminal resize: take the new dimensions and re-clamp the offset and
    /// the cursor immediately, so the invariant holds against the new
    /// viewport. A resize always obliges a full repaint.
    pub fn handle_resize(&mut self, rows: u16, cols: u16)
        requires
            old(self).wf(),
            rows >= 1,
            cols >= 1,
        ensures
            final(self)@ == old(self)@.resize_spec(rows as int, cols as int),
            final(self).wf(),
    {
        self.terminal.set_size(rows, cols);
        let lc = self.document.lines.len();
        let max_off = if lc > rows as usize {
            lc - rows as usize
        } else {
            0
        };
        if self.offset.y > max_off {
            self.offset.set_y(max_off);
        }
        let remaining = lc - 1 - self.offset.y;
        let last_row = rows - 1;
        let max_y = if (last_row as usize) < remaining {
            last_row
        } else {
            remaining as u16
        };
        if self.terminal.position.y > max_y {
            self.terminal.position.set_y(max_y);
        }
        if self.terminal.position.x > cols - 1 {
            self.terminal.position.set_x(cols - 1);
        }
    }

    /// The text each viewport row shows: for row `r`, the sub-range
    /// `[off_x, off_x + cols)` of document line `off_y + r`, and an empty row
    /// for rows past the document's end.
    pub fn render_viewport(&self) -> (out: Vec<Vec<u8>>)
        requires
            self.wf(),
        ensures
            out@.len() == self@.rows,
            forall|r: int| 0 <= r < self@.rows ==> #[trigger] out@[r]@ == self@.rendered_row(r),
            forall|r: int| 0 <= r < self@.rows ==> #[trigger] out@[r]@.len() <= self@.cols,
    {
        let rows = self.terminal.rows;
        let start = self.offset.x;
        let end = start.saturating_add(self.terminal.cols as usize);
        let mut out: Vec<Vec<u8>> = Vec::new();
        let mut r: u16 = 0;
        while r < rows
            invariant
                self.wf(),
                r <= rows,
                rows == self@.rows,
                start == self@.off_x,
                end == min(self@.off_x + self@.cols, usize::MAX as int),
                out@.len() == r,
                forall|i: int| 0 <= i < r ==> #[trigger] out@[i]@ == self@.rendered_row(i),
            decreases rows - r,
        {
            match self.document.get_line(r as usize + self.offset.y) {
                Some(line) => {
                    let rendered = line.render(start, end);
                    proof {
                        assert(rendered@ =~= self@.rendered_row(r as int));
                    }
                    out.push(rendered);
                }
                None => {
                    out.push(Vec::new());
                }
            }
            r = r + 1;
        }
        out
    }
}

} // verus!
