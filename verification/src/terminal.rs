//! The terminal: a byte-dispatch state machine over a drawable surface.
//!
//! A [`Terminal`] owns its configuration and the current cursor position,
//! classifies each input byte as a control code or a printable glyph, and
//! performs the movement, erasure and drawing policy. Its whole observable
//! behavior is pinned down by the spec functions of [`crate::model`].

use vstd::arithmetic::mul::lemma_mul_inequality;
use vstd::arithmetic::mul::lemma_mul_is_distributive_add_other_way;
use vstd::arithmetic::mul::lemma_mul_nonnegative;
use vstd::prelude::*;

use crate::model::action_ops;
use crate::model::backward_pos;
use crate::model::cursor_draw_ops;
use crate::model::erase_op;
use crate::model::forward_ops;
use crate::model::forward_pos;
use crate::model::forward_wraps;
use crate::model::is_printable;
use crate::model::lemma_write_ops_step_empty;
use crate::model::next_line_ops;
use crate::model::next_line_pos;
use crate::model::step_ops;
use crate::model::step_pos;
use crate::model::write_ops;
use crate::model::write_pos;
use crate::model::ConfigView;
use crate::model::ScreenGeom;
use crate::model::SpecOp;
use crate::model::FILLER_WIDTH;
use crate::model::MAX_DIM;
use crate::model::TAB_CELLS;
use crate::point::Point;
use crate::point::SpecPoint;
use crate::style::default_text_style;
use crate::style::Rgb;
use crate::style::TextStyle;
use crate::surface::DrawError;
use crate::surface::DrawOp;
use crate::surface::Surface;

verus! {

/// The terminal's error taxonomy. A drawing failure of the surface is
/// fatal and propagated; an invalid geometry is rejected when the terminal
/// is built.
#[derive(Clone, Copy, Debug, PartialEq, Eq, Structural)]
pub enum TermError {
    /// The surface failed to draw; the terminal does not recover.
    DrawFailed,
    /// The offset does not lie within the surface, no whole character cell
    /// fits, or a dimension exceeds [`MAX_DIM`].
    InvalidGeometry,
}

/// Configuration of a [`Terminal`]: the surface, the origin offset of the
/// usable rectangle, the text style, and the optional cursor overlay color.
struct TerminalConfig<S> {
    surface: S,
    offset: Point,
    cursor_color: Option<Rgb>,
    style: TextStyle,
}

/// A cursor-addressed monospaced text renderer over a drawable surface.
///
/// Built once via [`TerminalBuilder`]; mutated only by [`Terminal::write`]
/// and [`Terminal::write_char`]. Between calls the cursor always sits at
/// the origin of a whole character cell inside the usable rectangle.
pub struct Terminal<S> {
    config: TerminalConfig<S>,
    pos: Point,
}

impl<S: Surface> Terminal<S> {
    /// The terminal's geometry: surface dimensions, offset and cell size.
    pub closed spec fn geom(&self) -> ScreenGeom {
        ScreenGeom {
            width: self.config.surface.width_spec(),
            height: self.config.surface.height_spec(),
            off_x: self.config.offset@.x,
            off_y: self.config.offset@.y,
            cell_w: self.config.style.cell_w as int,
            cell_h: self.config.style.cell_h as int,
        }
    }

    /// The immutable part of the terminal, as contracts see it.
    pub closed spec fn cfg(&self) -> ConfigView {
        ConfigView {
            geom: self.geom(),
            fg: self.config.style.fg,
            bg: self.config.style.bg,
            cursor: self.config.cursor_color,
            infallible: self.config.surface.never_fails(),
        }
    }

    /// The current cursor position.
    pub closed spec fn cursor(&self) -> SpecPoint {
        self.pos@
    }

    /// The operations drawn onto the surface so far.
    pub closed spec fn ops(&self) -> Seq<SpecOp> {
        self.config.surface.ops()
    }

    /// The surface the terminal draws onto.
    pub closed spec fn surface_view(&self) -> S {
        self.config.surface
    }

    /// Well-formedness: the geometry is valid and the cursor's whole cell
    /// lies inside the usable rectangle. Established by
    /// [`TerminalBuilder::build`] and preserved by every operation.
    pub closed spec fn wf(&self) -> bool {
        self.geom().valid() && self.geom().contains_cell(self.cursor())
    }

    /// Reports the current cursor position in pixels.
    pub fn position(&self) -> (p: Point)
        ensures
            p@ == self.cursor(),
    {
        self.pos
    }

    /// Borrows the surface, e.g. to inspect what was drawn.
    pub fn surface(&self) -> (s: &S)
        ensures
            *s == self.surface_view(),
            s.ops() == self.ops(),
    {
        &self.config.surface
    }

    /// Left boundary of the usable rectangle.
    fn min_x(&self) -> (r: i32)
        ensures
            r as int == self.geom().off_x,
    {
        self.config.offset.x
    }

    /// Right boundary of the usable rectangle.
    fn max_x(&self) -> (r: i32)
        requires
            self.wf(),
        ensures
            r as int == self.geom().max_x(),
    {
        self.config.offset.x + self.config.surface.width() as i32
    }

    /// Bottom boundary of the usable rectangle.
    fn max_y(&self) -> (r: i32)
        requires
            self.wf(),
        ensures
            r as int == self.geom().max_y(),
    {
        self.config.offset.y + self.config.surface.height() as i32
    }

    /// Repaints `n` cells at the cursor with the background color (blank
    /// black when the style has none).
    fn erase_chars(&mut self, n: u32) -> (r: Result<(), DrawError>)
        requires
            old(self).wf(),
            1 <= n <= FILLER_WIDTH,
        ensures
            final(self).wf(),
            final(self).cfg() == old(self).cfg(),
            final(self).cursor() == old(self).cursor(),
            r is Ok ==> final(self).ops() == old(self).ops().push(
                erase_op(old(self).cfg(), old(self).cursor(), n as int),
            ),
            r is Err ==> final(self).ops() == old(self).ops(),
            old(self).cfg().infallible ==> r is Ok,
    {
        let color = match self.config.style.bg {
            Some(color) => color,
            None => Rgb::black(),
        };
        let op = DrawOp::Erase { at: self.pos, count: n, color };
        self.config.surface.draw(op)
    }

    /// Moves the cursor to the next line: back to the left edge and one
    /// cell height down, wrapping to the top row when the new row's bottom
    /// edge would leave the usable rectangle. The new cursor row is then
    /// repainted with a blank filler line.
    fn move_next_line(&mut self) -> (r: Result<(), DrawError>)
        requires
            old(self).wf(),
        ensures
            final(self).wf(),
            final(self).cfg() == old(self).cfg(),
            final(self).cursor() == next_line_pos(old(self).cfg().geom, old(self).cursor()),
            r is Ok ==> final(self).ops() == old(self).ops() + next_line_ops(
                old(self).cfg(),
                old(self).cursor(),
            ),
            r is Err ==> final(self).ops() == old(self).ops(),
            old(self).cfg().infallible ==> r is Ok,
    {
        let left = self.min_x();
        self.pos.x = left;
        let ch = self.config.style.cell_h as i32;
        let new_y = self.pos.y + ch;
        let bottom = self.max_y();
        if new_y + ch > bottom {
            self.pos.y = self.config.offset.y;
        } else {
            self.pos.y = new_y;
        }
        let r = self.erase_chars(FILLER_WIDTH);
        proof {
            if r is Ok {
                assert(self.ops() =~= old(self).ops() + next_line_ops(
                    old(self).cfg(),
                    old(self).cursor(),
                ));
            }
        }
        r
    }

    /// Advances the cursor by `n` character cells. When the advanced
    /// position's trailing edge would cross the right boundary, the whole
    /// advance is discarded and the cursor moves to the next line instead.
    fn move_forward(&mut self, n: u32) -> (r: Result<(), DrawError>)
        requires
            old(self).wf(),
            1 <= n <= TAB_CELLS,
        ensures
            final(self).wf(),
            final(self).cfg() == old(self).cfg(),
            final(self).cursor() == forward_pos(old(self).cfg().geom, old(self).cursor(), n as int),
            r is Ok ==> final(self).ops() == old(self).ops() + forward_ops(
                old(self).cfg(),
                old(self).cursor(),
                n as int,
            ),
            r is Err ==> final(self).ops() == old(self).ops(),
            !forward_wraps(old(self).cfg().geom, old(self).cursor(), n as int) ==> r is Ok,
            old(self).cfg().infallible ==> r is Ok,
    {
        let cw = self.config.style.cell_w as i32;
        proof {
            lemma_mul_nonnegative(n as int, cw as int);
            lemma_mul_inequality(n as int, TAB_CELLS as int, cw as int);
            lemma_mul_is_distributive_add_other_way(cw as int, n as int, 1);
            assert((n as int + 1) * (cw as int) == n as int * (cw as int) + cw as int);
        }
        let new_x = self.pos.x + (n as i32) * cw;
        let right = self.max_x();
        if new_x + cw > right {
            self.move_next_line()
        } else {
            self.pos.x = new_x;
            proof {
                assert(self.ops() =~= old(self).ops() + forward_ops(
                    old(self).cfg(),
                    old(self).cursor(),
                    n as int,
                ));
            }
            Ok(())
        }
    }

    /// Moves the cursor backwards by `n` character cells, clamped at the
    /// left edge with no wrap to the previous line, and repaints the `n`
    /// cells at the resulting position with the background color.
    fn move_backward(&mut self, n: u32) -> (r: Result<(), DrawError>)
        requires
            old(self).wf(),
            1 <= n <= FILLER_WIDTH,
            n as int * old(self).cfg().geom.cell_w <= MAX_DIM as int,
        ensures
            final(self).wf(),
            final(self).cfg() == old(self).cfg(),
            final(self).cursor() == backward_pos(old(self).cfg().geom, old(self).cursor(), n as int),
            r is Ok ==> final(self).ops() == old(self).ops().push(
                erase_op(
                    old(self).cfg(),
                    backward_pos(old(self).cfg().geom, old(self).cursor(), n as int),
                    n as int,
                ),
            ),
            r is Err ==> final(self).ops() == old(self).ops(),
            old(self).cfg().infallible ==> r is Ok,
    {
        let cw = self.config.style.cell_w as i32;
        proof {
            lemma_mul_nonnegative(n as int, cw as int);
        }
        let new_x = self.pos.x - (n as i32) * cw;
        let left = self.min_x();
        if new_x >= left {
            self.pos.x = new_x;
        }
        self.erase_chars(n)
    }

    /// Draws one printable byte at the cursor in the configured style and
    /// advances the cursor by one cell. A byte that is no single-byte
    /// encoding of a character is substituted by `?`.
    fn print_char(&mut self, c: u8) -> (r: Result<(), DrawError>)
        requires
            old(self).wf(),
            is_printable(c),
        ensures
            final(self).wf(),
            final(self).cfg() == old(self).cfg(),
            final(self).cursor() == old(self).cursor() || final(self).cursor() == step_pos(
                old(self).cfg().geom,
                old(self).cursor(),
                c,
            ),
            r is Ok ==> final(self).cursor() == step_pos(old(self).cfg().geom, old(self).cursor(), c)
                && final(self).ops() == old(self).ops() + action_ops(
                old(self).cfg(),
                old(self).cursor(),
                c,
            ),
            old(self).cfg().infallible ==> r is Ok,
    {
        let glyph = if c >= 0x80 {
            0x3F
        } else {
            c
        };
        let op = DrawOp::Glyph {
            at: self.pos,
            glyph,
            fg: self.config.style.fg,
            bg: self.config.style.bg,
        };
        match self.config.surface.draw(op) {
            Ok(()) => {},
            Err(e) => {
                return Err(e);
            },
        }
        let r = self.move_forward(1);
        proof {
            if r is Ok {
                assert(self.ops() =~= old(self).ops() + action_ops(
                    old(self).cfg(),
                    old(self).cursor(),
                    c,
                ));
            }
        }
        r
    }

    /// Redraws the cursor overlay glyph at the cursor, if an overlay color
    /// is configured.
    fn draw_cursor(&mut self) -> (r: Result<(), DrawError>)
        requires
            old(self).wf(),
        ensures
            final(self).wf(),
            final(self).cfg() == old(self).cfg(),
            final(self).cursor() == old(self).cursor(),
            r is Ok ==> final(self).ops() == old(self).ops() + cursor_draw_ops(
                old(self).cfg(),
                old(self).cursor(),
            ),
            r is Err ==> final(self).ops() == old(self).ops(),
            old(self).cfg().cursor is None ==> r is Ok,
            old(self).cfg().infallible ==> r is Ok,
    {
        match self.config.cursor_color {
            None => {
                proof {
                    assert(self.ops() =~= self.ops() + cursor_draw_ops(self.cfg(), self.cursor()));
                }
                Ok(())
            },
            Some(color) => {
                let op = DrawOp::Cursor { at: self.pos, color };
                let r = self.config.surface.draw(op);
                proof {
                    if r is Ok {
                        assert(self.ops() =~= old(self).ops() + cursor_draw_ops(
                            old(self).cfg(),
                            old(self).cursor(),
                        ));
                    }
                }
                r
            },
        }
    }

    /// Handles a single input byte: classifies it as a control code or a
    /// printable glyph and performs the movement, erasure or drawing it
    /// calls for. With a cursor overlay configured, the overlay is erased
    /// at the old position first and redrawn at the new one afterwards.
    ///
    /// On success the cursor moves to exactly `step_pos` of the byte and
    /// the surface receives exactly `step_ops`. A failing surface draw is
    /// fatal and reported as [`TermError::DrawFailed`]; a byte that issues
    /// no drawing at all cannot fail.
    pub fn write_char(&mut self, c: u8) -> (r: Result<(), TermError>)
        requires
            old(self).wf(),
        ensures
            final(self).wf(),
            final(self).cfg() == old(self).cfg(),
            r is Ok ==> final(self).cursor() == step_pos(old(self).cfg().geom, old(self).cursor(), c)
                && final(self).ops() == old(self).ops() + step_ops(
                old(self).cfg(),
                old(self).cursor(),
                c,
            ),
            r is Err ==> r == Err::<(), TermError>(TermError::DrawFailed) && (final(self).cursor()
                == old(self).cursor() || final(self).cursor() == step_pos(
                old(self).cfg().geom,
                old(self).cursor(),
                c,
            )),
            step_ops(old(self).cfg(), old(self).cursor(), c).len() == 0 ==> r is Ok,
            old(self).cfg().infallible ==> r is Ok,
    {
        if self.config.cursor_color.is_some() {
            match self.erase_chars(1) {
                Ok(()) => {},
                Err(_) => {
                    return Err(TermError::DrawFailed);
                },
            }
        }
        let step = if c <= 0x07 {
            Ok(())
        } else if c == 0x08 {
            self.move_backward(1)
        } else if c == 0x09 {
            self.move_forward(TAB_CELLS)
        } else if c == 0x0A {
            self.move_next_line()
        } else if c <= 0x0C {
            Ok(())
        } else if c == 0x0D {
            self.move_next_line()
        } else if c <= 0x1F {
            Ok(())
        } else if c == 0x7F {
            self.move_backward(1)
        } else {
            self.print_char(c)
        };
        match step {
            Ok(()) => {},
            Err(_) => {
                return Err(TermError::DrawFailed);
            },
        }
        match self.draw_cursor() {
            Ok(()) => {
                proof {
                    assert(self.ops() =~= old(self).ops() + step_ops(
                        old(self).cfg(),
                        old(self).cursor(),
                        c,
                    ));
                }
                Ok(())
            },
            Err(_) => Err(TermError::DrawFailed),
        }
    }

    /// Handles a batch of input bytes, in order, as if each byte were fed
    /// to [`Terminal::write_char`] immediately and in sequence. The first
    /// drawing failure stops the batch and is propagated.
    pub fn write(&mut self, bytes: &[u8]) -> (r: Result<(), TermError>)
        requires
            old(self).wf(),
        ensures
            final(self).wf(),
            final(self).cfg() == old(self).cfg(),
            r is Ok ==> final(self).cursor() == write_pos(
                old(self).cfg().geom,
                old(self).cursor(),
                bytes@,
            ) && final(self).ops() == old(self).ops() + write_ops(
                old(self).cfg(),
                old(self).cursor(),
                bytes@,
            ),
            r is Err ==> r == Err::<(), TermError>(TermError::DrawFailed),
            write_ops(old(self).cfg(), old(self).cursor(), bytes@).len() == 0 ==> r is Ok,
            old(self).cfg().infallible ==> r is Ok,
    {
        proof {
            assert(old(self).ops() + write_ops(
                old(self).cfg(),
                old(self).cursor(),
                bytes@.take(0),
            ) =~= old(self).ops());
        }
        let mut i: usize = 0;
        while i < bytes.len()
            invariant
                self.wf(),
                self.cfg() == old(self).cfg(),
                i <= bytes@.len(),
                self.cursor() == write_pos(
                    old(self).cfg().geom,
                    old(self).cursor(),
                    bytes@.take(i as int),
                ),
                self.ops() == old(self).ops() + write_ops(
                    old(self).cfg(),
                    old(self).cursor(),
                    bytes@.take(i as int),
                ),
            decreases bytes@.len() - i,
        {
            let c = bytes[i];
            let r = self.write_char(c);
            proof {
                assert(bytes@.take(i as int + 1).drop_last() =~= bytes@.take(i as int));
                assert(bytes@.take(i as int + 1).last() == bytes@[i as int]);
            }
            match r {
                Ok(()) => {},
                Err(_) => {
                    proof {
                        if write_ops(old(self).cfg(), old(self).cursor(), bytes@).len() == 0 {
                            lemma_write_ops_step_empty(
                                old(self).cfg(),
                                old(self).cursor(),
                                bytes@,
                                i as int,
                            );
                        }
                    }
                    return Err(TermError::DrawFailed);
                },
            }
            proof {
                assert(self.ops() =~= old(self).ops() + write_ops(
                    old(self).cfg(),
                    old(self).cursor(),
                    bytes@.take(i as int + 1),
                ));
            }
            i += 1;
        }
        proof {
            assert(bytes@.take(bytes@.len() as int) =~= bytes@);
        }
        Ok(())
    }
}

/// Builder for a [`Terminal`]: accumulates optional overrides of the
/// offset, the style and the cursor overlay color over a default
/// configuration, and is consumed by [`TerminalBuilder::build`].
pub struct TerminalBuilder<S> {
    config: TerminalConfig<S>,
}

impl<S: Surface> TerminalBuilder<S> {
    /// The surface the terminal will draw onto.
    pub closed spec fn surface_view(&self) -> S {
        self.config.surface
    }

    /// The configured origin offset of the usable rectangle.
    pub closed spec fn offset_view(&self) -> SpecPoint {
        self.config.offset@
    }

    /// The configured text style.
    pub closed spec fn style_view(&self) -> TextStyle {
        self.config.style
    }

    /// The configured cursor overlay color, if any.
    pub closed spec fn cursor_view(&self) -> Option<Rgb> {
        self.config.cursor_color
    }

    /// The geometry the built terminal will have.
    pub open spec fn geom(&self) -> ScreenGeom {
        ScreenGeom {
            width: self.surface_view().width_spec(),
            height: self.surface_view().height_spec(),
            off_x: self.offset_view().x,
            off_y: self.offset_view().y,
            cell_w: self.style_view().cell_w as int,
            cell_h: self.style_view().cell_h as int,
        }
    }

    /// The configuration the built terminal will have, as contracts see it.
    pub open spec fn cfg(&self) -> ConfigView {
        ConfigView {
            geom: self.geom(),
            fg: self.style_view().fg,
            bg: self.style_view().bg,
            cursor: self.cursor_view(),
            infallible: self.surface_view().never_fails(),
        }
    }

    /// Starts a builder over `surface` with the default configuration:
    /// offset `(0, 0)`, the default style, and no cursor overlay.
    pub fn new(surface: S) -> (b: TerminalBuilder<S>)
        ensures
            b.surface_view() == surface,
            b.offset_view() == (SpecPoint { x: 0, y: 0 }),
            b.style_view() == default_text_style(),
            b.cursor_view() is None,
    {
        TerminalBuilder {
            config: TerminalConfig {
                surface,
                offset: Point::new(0, 0),
                cursor_color: None,
                style: TextStyle::default_mono(),
            },
        }
    }

    /// Overrides the origin offset of the usable rectangle.
    pub fn with_offset(self, offset: Point) -> (b: TerminalBuilder<S>)
        ensures
            b.surface_view() == self.surface_view(),
            b.offset_view() == offset@,
            b.style_view() == self.style_view(),
            b.cursor_view() == self.cursor_view(),
    {
        TerminalBuilder { config: TerminalConfig { offset, ..self.config } }
    }

    /// Enables the blinking-cursor overlay with the given color.
    pub fn with_cursor(self, color: Rgb) -> (b: TerminalBuilder<S>)
        ensures
            b.surface_view() == self.surface_view(),
            b.offset_view() == self.offset_view(),
            b.style_view() == self.style_view(),
            b.cursor_view() == Some(color),
    {
        TerminalBuilder { config: TerminalConfig { cursor_color: Some(color), ..self.config } }
    }

    /// Overrides the full text style.
    pub fn with_style(self, style: TextStyle) -> (b: TerminalBuilder<S>)
        ensures
            b.surface_view() == self.surface_view(),
            b.offset_view() == self.offset_view(),
            b.style_view() == style,
            b.cursor_view() == self.cursor_view(),
    {
        TerminalBuilder { config: TerminalConfig { style, ..self.config } }
    }

    /// Consumes the builder and returns the terminal, with the cursor at
    /// the offset. Succeeds exactly when the geometry is valid: the offset
    /// lies within the surface, at least one whole character cell fits,
    /// and the dimensions do not exceed [`MAX_DIM`]; otherwise the
    /// configuration is rejected with [`TermError::InvalidGeometry`].
    pub fn build(self) -> (r: Result<Terminal<S>, TermError>)
        ensures
            r is Ok <==> self.geom().valid(),
            r matches Ok(t) ==> t.wf() && t.cfg() == self.cfg() && t.cursor()
                == self.offset_view() && t.ops() == self.surface_view().ops(),
            r is Err ==> r == Err::<Terminal<S>, TermError>(TermError::InvalidGeometry),
    {
        let w = self.config.surface.width();
        let h = self.config.surface.height();
        let ok = w <= MAX_DIM && h <= MAX_DIM && self.config.style.cell_w >= 1
            && self.config.style.cell_w <= w && self.config.style.cell_h >= 1
            && self.config.style.cell_h <= h && self.config.offset.x >= 0
            && (self.config.offset.x as i64) <= (w as i64) && self.config.offset.y >= 0
            && (self.config.offset.y as i64) <= (h as i64);
        if ok {
            Ok(Terminal { pos: self.config.offset, config: self.config })
        } else {
            Err(TermError::InvalidGeometry)
        }
    }
}

} // verus!
