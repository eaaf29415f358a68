//! Where the cursor of the message box is drawn: the cell that the end of
//! the text before the cursor falls on when the text is wrapped to the box.

use crate::text::chars_of;
use vstd::prelude::*;

verus! {

/// A rectangle of cells on the screen.
#[derive(Debug, Clone, Copy, PartialEq, Eq)]
pub struct Area {
    pub x: u16,
    pub y: u16,
    pub width: u16,
    pub height: u16,
}

/// One cell of the screen.
#[derive(Debug, Clone, Copy, PartialEq, Eq)]
pub struct Position {
    pub x: u16,
    pub y: u16,
}

/// A place in a wrapped text: the row, and the number of characters that
/// stand on it so far.
pub struct Place {
    pub row: nat,
    pub col: nat,
}

/// Where one more character leaves the end of the text. A line feed opens
/// a new row; so does a character for which the row has no room left.
pub open spec fn advance(at: Place, c: char, width: nat) -> Place {
    if c == '\n' {
        Place { row: at.row + 1, col: 0 }
    } else if at.col >= width {
        Place { row: at.row + 1, col: 1 }
    } else {
        Place { row: at.row, col: at.col + 1 }
    }
}

/// Where a text ends when it is wrapped to rows of `width` cells.
pub open spec fn wrapped(text: Seq<char>, width: nat) -> Place
    decreases text.len(),
{
    if text.len() == 0 {
        Place { row: 0, col: 0 }
    } else {
        advance(wrapped(text.drop_last(), width), text.last(), width)
    }
}

/// The cells of one side that are left inside a border of one cell.
pub open spec fn inner(side: u16) -> nat {
    if side >= 2 {
        (side - 2) as nat
    } else {
        0
    }
}

/// The last row or column of an inner side, counted from 0.
pub open spec fn last_of(inner_side: nat) -> nat {
    if inner_side >= 1 {
        (inner_side - 1) as nat
    } else {
        0
    }
}

/// The smaller of two numbers.
pub open spec fn least(a: nat, b: nat) -> nat {
    if a <= b {
        a
    } else {
        b
    }
}

/// The column, inside the border, that the cursor is drawn in.
pub open spec fn aim_col(area: Area, before: Seq<char>) -> nat {
    least(wrapped(before, inner(area.width)).col, last_of(inner(area.width)))
}

/// The row, inside the border, that the cursor is drawn in.
pub open spec fn aim_row(area: Area, before: Seq<char>) -> nat {
    least(wrapped(before, inner(area.width)).row, last_of(inner(area.height)))
}

/// An area whose first inner cell, and with it every cell that the cursor
/// can be drawn in, has coordinates that fit.
pub open spec fn fits(area: Area) -> bool {
    &&& area.x < u16::MAX
    &&& area.y < u16::MAX
    &&& area.x + area.width <= u16::MAX
    &&& area.y + area.height <= u16::MAX
}

/// Decides [`fits`].
pub fn area_fits(area: Area) -> (b: bool)
    ensures
        b == fits(area),
{
    area.x < u16::MAX && area.y < u16::MAX && area.width <= u16::MAX - area.x && area.height
        <= u16::MAX - area.y
}

/// The cell in which to draw the cursor of a bordered box at `area` that
/// shows `commit_msg`, when `cursor_pos` characters stand before the cursor.
/// The text before the cursor is wrapped to the width inside the border;
/// a cursor that falls outside the box is drawn on its last row or column.
pub fn make_cursor_aiming(area: Area, cursor_pos: usize, commit_msg: &str) -> (p: Position)
    requires
        fits(area),
        cursor_pos <= commit_msg@.len(),
    ensures
        p.x == area.x + 1 + aim_col(area, commit_msg@.take(cursor_pos as int)),
        p.y == area.y + 1 + aim_row(area, commit_msg@.take(cursor_pos as int)),
{
    let width: usize = if area.width >= 2 {
        (area.width - 2) as usize
    } else {
        0
    };
    let height: usize = if area.height >= 2 {
        (area.height - 2) as usize
    } else {
        0
    };
    let text = chars_of(commit_msg);
    let mut v_row: usize = 0;
    let mut v_col: usize = 0;
    let mut i: usize = 0;
    while i < cursor_pos
        invariant
            i <= cursor_pos <= text.len(),
            v_row <= i,
            v_col <= i,
            wrapped(text@.take(i as int), width as nat) == (Place {
                row: v_row as nat,
                col: v_col as nat,
            }),
        decreases cursor_pos - i,
    {
        assert(text@.take(i + 1).drop_last() == text@.take(i as int));
        if text[i] == '\n' {
            v_row += 1;
            v_col = 0;
        } else {
            if v_col >= width {
                v_row += 1;
                v_col = 0;
            }
            v_col += 1;
        }
        i += 1;
    }
    let last_row: usize = if height >= 1 {
        height - 1
    } else {
        0
    };
    let last_col: usize = if width >= 1 {
        width - 1
    } else {
        0
    };
    let visual_row: usize = if v_row <= last_row {
        v_row
    } else {
        last_row
    };
    let visual_col: usize = if v_col <= last_col {
        v_col
    } else {
        last_col
    };
    Position { x: area.x + 1 + visual_col as u16, y: area.y + 1 + visual_row as u16 }
}

/// How quotient and remainder move from `m` to `m + 1`.
proof fn lemma_div_mod_next(m: int, w: int)
    requires
        0 <= m,
        1 <= w,
    ensures
        m % w == w - 1 ==> (m + 1) / w == m / w + 1 && (m + 1) % w == 0,
        m % w != w - 1 ==> (m + 1) / w == m / w && (m + 1) % w == m % w + 1,
{
    vstd::arithmetic::div_mod::lemma_fundamental_div_mod(m, w);
    vstd::arithmetic::div_mod::lemma_mod_pos_bound(m, w);
    let q = m / w;
    let r = m % w;
    if r == w - 1 {
        assert(m + 1 == (q + 1) * w + 0) by (nonlinear_arith)
            requires
                m == w * q + r,
                r == w - 1,
        ;
        vstd::arithmetic::div_mod::lemma_fundamental_div_mod_converse(m + 1, w, q + 1, 0);
    } else {
        assert(m + 1 == q * w + (r + 1)) by (nonlinear_arith)
            requires
                m == w * q + r,
        ;
        vstd::arithmetic::div_mod::lemma_fundamental_div_mod_converse(m + 1, w, q, r + 1);
    }
}

/// A text without a line feed fills the rows one after the other: its
/// `n`-th character is the `((n - 1) % width + 1)`-th of row
/// `(n - 1) / width`.
pub proof fn lemma_wrapped_plain(text: Seq<char>, width: nat)
    requires
        width >= 1,
        text.len() >= 1,
        forall|k: int| 0 <= k < text.len() ==> text[k] != '\n',
    ensures
        wrapped(text, width).row == (text.len() - 1) / (width as int),
        wrapped(text, width).col == (text.len() - 1) % (width as int) + 1,
    decreases text.len(),
{
    let n = text.len() as int;
    let w = width as int;
    if n == 1 {
        assert(wrapped(text.drop_last(), width) == Place { row: 0, col: 0 });
        vstd::arithmetic::div_mod::lemma_fundamental_div_mod_converse(0, w, 0, 0);
    } else {
        lemma_wrapped_plain(text.drop_last(), width);
        lemma_div_mod_next(n - 2, w);
    }
}

/// A line feed opens a row: after it the text stands at the start of the
/// next row.
pub proof fn lemma_wrapped_line_feed(text: Seq<char>, width: nat)
    ensures
        wrapped(text.push('\n'), width) == (Place {
            row: wrapped(text, width).row + 1,
            col: 0,
        }),
{
    assert(text.push('\n').drop_last() == text);
}

} // verus!
