//! The visible terminal rectangle and the on-screen cursor position.
//!
//! `Terminal` records the viewport dimensions (rows and columns of the
//! terminal, in cells) and the viewport-relative cursor position. It owns no
//! document data and performs no I/O; the surrounding program queries the real
//! terminal and feeds the dimensions in.

use vstd::prelude::*;

verus! {

/// What the centered welcome row holds: the message preceded by half the
/// free width in spaces, the whole truncated to the viewport width.
pub open spec fn welcome_spec(width: int, message: Seq<u8>) -> Seq<u8> {
    let pad = vstd::math::max(width - message.len(), 0) / 2;
    (Seq::new(pad as nat, |i: int| 32u8) + message).take(
        vstd::math::min(width, pad + message.len()),
    )
}

/// A viewport-relative screen coordinate: `x` is the column, `y` the row.
pub struct Position {
    pub x: u16,
    pub y: u16,
}

impl Position {
    pub fn set_x(&mut self, x: u16)
        ensures
            final(self).x == x,
            final(self).y == old(self).y,
    {
        self.x = x;
    }

    pub fn set_y(&mut self, y: u16)
        ensures
            final(self).x == old(self).x,
            final(self).y == y,
    {
        self.y = y;
    }
}

/// The visible screen area: `rows` x `cols` cells, plus the cursor position.
pub struct Terminal {
    pub rows: u16,
    pub cols: u16,
    pub position: Position,
}

impl Terminal {
    /// A viewport of the given dimensions with the cursor at the top-left cell.
    pub fn new(rows: u16, cols: u16) -> (t: Terminal)
        ensures
            t.rows == rows,
            t.cols == cols,
            t.position.x == 0,
            t.position.y == 0,
    {
        Terminal { rows, cols, position: Position { x: 0, y: 0 } }
    }

    pub fn set_size(&mut self, rows: u16, cols: u16)
        ensures
            final(self).rows == rows,
            final(self).cols == cols,
            final(self).position == old(self).position,
    {
        self.rows = rows;
        self.cols = cols;
    }

    pub fn get_pos(&self) -> (p: (u16, u16))
        ensures
            p.0 == self.position.x,
            p.1 == self.position.y,
    {
        (self.position.x, self.position.y)
    }

    /// The welcome row: the message centered by left padding and truncated
    /// to the viewport width.
    pub fn welcome_line(&self, message: &Vec<u8>) -> (out: Vec<u8>)
        ensures
            out@ == welcome_spec(self.cols as int, message@),
    {
        let width = self.cols as usize;
        let pad = width.saturating_sub(message.len()) / 2;
        let mut out: Vec<u8> = Vec::new();
        let mut i: usize = 0;
        while i < pad
            invariant
                i <= pad,
                pad == vstd::math::max(width - message@.len(), 0) / 2,
                out@.len() == i,
                forall|k: int| 0 <= k < i ==> out@[k] == 32u8,
            decreases pad - i,
        {
            out.push(32);
            i = i + 1;
        }
        let mut j: usize = 0;
        while j < message.len() && out.len() < width
            invariant
                pad == vstd::math::max(width - message@.len(), 0) / 2,
                pad <= width,
                j <= message@.len(),
                out@.len() == pad + j,
                out@.len() <= width,
                forall|k: int| 0 <= k < pad ==> out@[k] == 32u8,
                forall|k: int| pad <= k < pad + j ==> out@[k] == message@[k - pad],
            decreases message@.len() - j,
        {
            out.push(message[j]);
            j = j + 1;
        }
        proof {
            assert(out@ =~= welcome_spec(self.cols as int, message@));
        }
        out
    }
}

} // verus!
