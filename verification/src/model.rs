//! The mathematical model of the terminal: byte classification, cursor
//! movement, and the drawing operations each input byte gives rise to.
//!
//! Every contract of the executable terminal is stated over these spec
//! functions, so the whole boundary policy is written down here in one place:
//! horizontal overflow wraps to the next line, vertical overflow wraps back
//! to the top row, and backspace clamps at the left edge.

use vstd::prelude::*;

use crate::point::SpecPoint;
use crate::style::black;
use crate::style::Rgb;

verus! {

/// Number of character cells one tab advances the cursor by.
pub const TAB_CELLS: u32 = 4;

/// Number of blank cells repainted when the cursor moves to a new line.
pub const FILLER_WIDTH: u32 = 60;

/// Upper bound on surface dimensions, so that all pixel arithmetic fits in
/// an `i32`.
pub const MAX_DIM: u32 = 0x1000_0000;

/// The geometry of a configured terminal: the surface dimensions, the origin
/// offset of the usable rectangle, and the character cell size.
pub ghost struct ScreenGeom {
    /// Surface width in pixels.
    pub width: int,
    /// Surface height in pixels.
    pub height: int,
    /// Horizontal origin of the usable rectangle.
    pub off_x: int,
    /// Vertical origin of the usable rectangle.
    pub off_y: int,
    /// Width of one character cell.
    pub cell_w: int,
    /// Height of one character cell.
    pub cell_h: int,
}

impl ScreenGeom {
    /// A geometry a terminal can be built over: the offset lies within the
    /// surface, at least one cell fits, and the dimensions are small enough
    /// that pixel arithmetic cannot overflow.
    pub open spec fn valid(self) -> bool {
        &&& 0 <= self.off_x <= self.width <= MAX_DIM
        &&& 0 <= self.off_y <= self.height <= MAX_DIM
        &&& 1 <= self.cell_w <= self.width
        &&& 1 <= self.cell_h <= self.height
    }

    /// Right boundary of the usable rectangle.
    pub open spec fn max_x(self) -> int {
        self.off_x + self.width
    }

    /// Bottom boundary of the usable rectangle.
    pub open spec fn max_y(self) -> int {
        self.off_y + self.height
    }

    /// Whether a whole character cell at origin `p` lies inside the usable
    /// rectangle. The cursor is at such a position at all observable times.
    pub open spec fn contains_cell(self, p: SpecPoint) -> bool {
        &&& self.off_x <= p.x
        &&& p.x + self.cell_w <= self.max_x()
        &&& self.off_y <= p.y
        &&& p.y + self.cell_h <= self.max_y()
    }
}

/// The immutable part of a terminal, as contracts see it: geometry plus the
/// configured colors.
pub ghost struct ConfigView {
    /// Surface and cell geometry.
    pub geom: ScreenGeom,
    /// Foreground color of drawn glyphs.
    pub fg: Rgb,
    /// Background color of glyphs and erased cells, if any.
    pub bg: Option<Rgb>,
    /// Color of the cursor overlay, if one is configured.
    pub cursor: Option<Rgb>,
    /// Whether the surface's draws are known never to fail.
    pub infallible: bool,
}

/// Bytes that are ignored: no cursor movement and no drawing of their own.
pub open spec fn is_ignored(c: u8) -> bool {
    c <= 0x07 || c == 0x0B || c == 0x0C || (0x0E <= c && c <= 0x1F)
}

/// Backspace and delete: both move the cursor one cell backwards.
pub open spec fn is_backspace(c: u8) -> bool {
    c == 0x08 || c == 0x7F
}

/// The tab byte.
pub open spec fn is_tab(c: u8) -> bool {
    c == 0x09
}

/// Line feed and carriage return: both move the cursor to the next line.
pub open spec fn is_line_break(c: u8) -> bool {
    c == 0x0A || c == 0x0D
}

/// Bytes that are drawn as glyphs: everything that is not a control code.
pub open spec fn is_printable(c: u8) -> bool {
    !is_ignored(c) && !is_backspace(c) && !is_tab(c) && !is_line_break(c)
}

/// Cursor position after a move to the next line: back to the left edge,
/// one cell height down, or wrapped to the top row when the new row's bottom
/// edge would leave the usable rectangle.
pub open spec fn next_line_pos(g: ScreenGeom, p: SpecPoint) -> SpecPoint {
    SpecPoint {
        x: g.off_x,
        y: if p.y + 2 * g.cell_h > g.max_y() {
            g.off_y
        } else {
            p.y + g.cell_h
        },
    }
}

/// Whether a forward move by `n` cells leaves no room for a whole cell at
/// the advanced position, so the move wraps to the next line instead.
pub open spec fn forward_wraps(g: ScreenGeom, p: SpecPoint, n: int) -> bool {
    p.x + (n + 1) * g.cell_w > g.max_x()
}

/// Cursor position after a forward move by `n` cells. The advance is
/// all-or-nothing: when the trailing edge would overflow, the partial
/// advance is discarded and the cursor goes to the next line.
pub open spec fn forward_pos(g: ScreenGeom, p: SpecPoint, n: int) -> SpecPoint {
    if forward_wraps(g, p, n) {
        next_line_pos(g, p)
    } else {
        SpecPoint { x: p.x + n * g.cell_w, y: p.y }
    }
}

/// Cursor position after a backward move by `n` cells: clamped, with no
/// wrap to the previous line, when the move would cross the left edge.
pub open spec fn backward_pos(g: ScreenGeom, p: SpecPoint, n: int) -> SpecPoint {
    if p.x - n * g.cell_w >= g.off_x {
        SpecPoint { x: p.x - n * g.cell_w, y: p.y }
    } else {
        p
    }
}

/// Cursor position after one input byte.
pub open spec fn step_pos(g: ScreenGeom, p: SpecPoint, c: u8) -> SpecPoint {
    if is_ignored(c) {
        p
    } else if is_backspace(c) {
        backward_pos(g, p, 1)
    } else if is_tab(c) {
        forward_pos(g, p, TAB_CELLS as int)
    } else if is_line_break(c) {
        next_line_pos(g, p)
    } else {
        forward_pos(g, p, 1)
    }
}

/// Cursor position after a whole byte sequence, fed in order.
pub open spec fn write_pos(g: ScreenGeom, p: SpecPoint, s: Seq<u8>) -> SpecPoint
    decreases s.len(),
{
    if s.len() == 0 {
        p
    } else {
        step_pos(g, write_pos(g, p, s.drop_last()), s.last())
    }
}

/// One drawing operation handed to the surface, as contracts see it.
pub ghost enum SpecOp {
    /// A single glyph cell drawn in the terminal's style.
    Glyph {
        /// Horizontal pixel origin of the cell.
        x: int,
        /// Vertical pixel origin of the cell.
        y: int,
        /// The byte drawn, after placeholder substitution.
        glyph: u8,
        /// Foreground color.
        fg: Rgb,
        /// Background color, if any.
        bg: Option<Rgb>,
    },
    /// A run of cells repainted in the background color.
    Erase {
        /// Horizontal pixel origin of the run.
        x: int,
        /// Vertical pixel origin of the run.
        y: int,
        /// Number of cells repainted.
        count: int,
        /// The color the cells are repainted with.
        color: Rgb,
    },
    /// The cursor overlay glyph.
    Cursor {
        /// Horizontal pixel origin of the cell.
        x: int,
        /// Vertical pixel origin of the cell.
        y: int,
        /// The configured cursor color.
        color: Rgb,
    },
}

/// The color erased cells are repainted with: the style's background, or
/// blank black when the style has none.
pub open spec fn erase_color(bg: Option<Rgb>) -> Rgb {
    match bg {
        Some(c) => c,
        None => black(),
    }
}

/// The erase operation for `count` cells at `p`.
pub open spec fn erase_op(cv: ConfigView, p: SpecPoint, count: int) -> SpecOp {
    SpecOp::Erase { x: p.x, y: p.y, count, color: erase_color(cv.bg) }
}

/// The byte actually drawn for an input byte: bytes that are no single-byte
/// encoding of a character are substituted by `?`.
pub open spec fn glyph_substitute(c: u8) -> u8 {
    if c >= 0x80 {
        0x3F
    } else {
        c
    }
}

/// The glyph operation for input byte `c` at `p`.
pub open spec fn glyph_op(cv: ConfigView, p: SpecPoint, c: u8) -> SpecOp {
    SpecOp::Glyph { x: p.x, y: p.y, glyph: glyph_substitute(c), fg: cv.fg, bg: cv.bg }
}

/// Operations a move to the next line issues: a blank filler line at the new
/// cursor position, clearing stray pixels on the new row.
pub open spec fn next_line_ops(cv: ConfigView, p: SpecPoint) -> Seq<SpecOp> {
    seq![erase_op(cv, next_line_pos(cv.geom, p), FILLER_WIDTH as int)]
}

/// Operations a forward move by `n` cells issues: none, unless the move
/// wraps to the next line.
pub open spec fn forward_ops(cv: ConfigView, p: SpecPoint, n: int) -> Seq<SpecOp> {
    if forward_wraps(cv.geom, p, n) {
        next_line_ops(cv, p)
    } else {
        Seq::<SpecOp>::empty()
    }
}

/// Operations the dispatch action for byte `c` issues, not counting the
/// cursor overlay.
pub open spec fn action_ops(cv: ConfigView, p: SpecPoint, c: u8) -> Seq<SpecOp> {
    if is_ignored(c) {
        Seq::<SpecOp>::empty()
    } else if is_backspace(c) {
        seq![erase_op(cv, backward_pos(cv.geom, p, 1), 1)]
    } else if is_tab(c) {
        forward_ops(cv, p, TAB_CELLS as int)
    } else if is_line_break(c) {
        next_line_ops(cv, p)
    } else {
        seq![glyph_op(cv, p, c)] + forward_ops(cv, p, 1)
    }
}

/// The erasure of the cursor overlay glyph at `p` before a byte is
/// dispatched: one blank cell, or nothing when no overlay is configured.
pub open spec fn cursor_erase_ops(cv: ConfigView, p: SpecPoint) -> Seq<SpecOp> {
    match cv.cursor {
        None => Seq::<SpecOp>::empty(),
        Some(_) => seq![erase_op(cv, p, 1)],
    }
}

/// The redraw of the cursor overlay glyph at `p` after a byte was
/// dispatched, or nothing when no overlay is configured.
pub open spec fn cursor_draw_ops(cv: ConfigView, p: SpecPoint) -> Seq<SpecOp> {
    match cv.cursor {
        None => Seq::<SpecOp>::empty(),
        Some(color) => seq![SpecOp::Cursor { x: p.x, y: p.y, color }],
    }
}

/// All operations one input byte issues. With a cursor overlay configured,
/// the overlay is first erased at the old position and redrawn at the new
/// one, so it always tracks the true cursor location between calls.
pub open spec fn step_ops(cv: ConfigView, p: SpecPoint, c: u8) -> Seq<SpecOp> {
    cursor_erase_ops(cv, p) + action_ops(cv, p, c)
        + cursor_draw_ops(cv, step_pos(cv.geom, p, c))
}

/// All operations a whole byte sequence issues, in order.
pub open spec fn write_ops(cv: ConfigView, p: SpecPoint, s: Seq<u8>) -> Seq<SpecOp>
    decreases s.len(),
{
    if s.len() == 0 {
        Seq::<SpecOp>::empty()
    } else {
        write_ops(cv, p, s.drop_last())
            + step_ops(cv, write_pos(cv.geom, p, s.drop_last()), s.last())
    }
}

/// When a whole byte sequence issues no operations at all, then no single
/// byte of it issues any, at the position the bytes before it lead to.
pub proof fn lemma_write_ops_step_empty(cv: ConfigView, p: SpecPoint, s: Seq<u8>, i: int)
    requires
        0 <= i < s.len(),
        write_ops(cv, p, s).len() == 0,
    ensures
        step_ops(cv, write_pos(cv.geom, p, s.take(i)), s[i]).len() == 0,
    decreases s.len(),
{
    if i == s.len() - 1 {
        assert(s.drop_last() =~= s.take(i));
    } else {
        assert(s.drop_last().take(i) =~= s.take(i));
        lemma_write_ops_step_empty(cv, p, s.drop_last(), i);
    }
}

} // verus!
