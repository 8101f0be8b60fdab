//! The abstract drawable surface the terminal renders onto.
//!
//! A surface reports its pixel dimensions and draws short runs of
//! monospaced cells; the terminal never reads pixel contents back. Every
//! implementation carries a ghost log of the operations drawn so far, so
//! the terminal's contracts can state exactly which operations a byte
//! stream gives rise to. [`RecordingSurface`] is a verified headless
//! implementation that keeps the log for real.

use vstd::prelude::*;

use crate::model::SpecOp;
use crate::point::Point;
use crate::style::Rgb;

verus! {

/// One drawing operation handed to a surface.
#[derive(Clone, Copy, Debug, PartialEq, Eq)]
pub enum DrawOp {
    /// A single glyph cell.
    Glyph {
        /// Pixel origin of the cell.
        at: Point,
        /// The byte to draw; the terminal only sends bytes below `0x80`.
        glyph: u8,
        /// Foreground color.
        fg: Rgb,
        /// Background color, if any.
        bg: Option<Rgb>,
    },
    /// A run of cells repainted in one color.
    Erase {
        /// Pixel origin of the run.
        at: Point,
        /// Number of cells repainted.
        count: u32,
        /// The color to repaint with.
        color: Rgb,
    },
    /// The cursor overlay glyph.
    Cursor {
        /// Pixel origin of the cell.
        at: Point,
        /// The cursor color.
        color: Rgb,
    },
}

impl View for DrawOp {
    type V = SpecOp;

    open spec fn view(&self) -> SpecOp {
        match *self {
            DrawOp::Glyph { at, glyph, fg, bg } => SpecOp::Glyph {
                x: at@.x,
                y: at@.y,
                glyph,
                fg,
                bg,
            },
            DrawOp::Erase { at, count, color } => SpecOp::Erase {
                x: at@.x,
                y: at@.y,
                count: count as int,
                color,
            },
            DrawOp::Cursor { at, color } => SpecOp::Cursor { x: at@.x, y: at@.y, color },
        }
    }
}

/// A surface's drawing failure, e.g. a transport fault. The terminal never
/// recovers from it; it is propagated to the caller as fatal.
#[derive(Clone, Copy, Debug, PartialEq, Eq, Structural)]
pub struct DrawError;

/// A drawable surface: it reports fixed pixel dimensions and draws
/// operations synchronously.
///
/// The spec functions are the surface's model: its dimensions, which a draw
/// never changes, and the log of operations drawn so far, which a
/// successful draw extends by exactly the drawn operation and a failed draw
/// leaves unchanged.
pub trait Surface: Sized {
    /// The surface's pixel width.
    spec fn width_spec(&self) -> int;

    /// The surface's pixel height.
    spec fn height_spec(&self) -> int;

    /// The operations drawn so far, oldest first.
    spec fn ops(&self) -> Seq<SpecOp>;

    /// Whether this surface's draws are known never to fail. When it
    /// holds, every draw returns `Ok` and it keeps holding.
    spec fn never_fails(&self) -> bool;

    /// Reports the surface's pixel width.
    fn width(&self) -> (r: u32)
        ensures
            r as int == self.width_spec(),
    ;

    /// Reports the surface's pixel height.
    fn height(&self) -> (r: u32)
        ensures
            r as int == self.height_spec(),
    ;

    /// Draws one operation, blocking until it is committed.
    fn draw(&mut self, op: DrawOp) -> (r: Result<(), DrawError>)
        ensures
            final(self).width_spec() == old(self).width_spec(),
            final(self).height_spec() == old(self).height_spec(),
            final(self).never_fails() == old(self).never_fails(),
            r is Ok ==> final(self).ops() == old(self).ops().push(op@),
            r is Err ==> final(self).ops() == old(self).ops(),
            old(self).never_fails() ==> r is Ok,
    ;
}

/// A headless surface that records every operation instead of putting
/// pixels anywhere. Its draws always succeed.
pub struct RecordingSurface {
    width: u32,
    height: u32,
    log: Vec<DrawOp>,
}

impl RecordingSurface {
    /// Makes an empty recording surface with the given dimensions.
    pub fn new(width: u32, height: u32) -> (s: RecordingSurface)
        ensures
            s.width_spec() == width as int,
            s.height_spec() == height as int,
            s.ops() == Seq::<SpecOp>::empty(),
            s.never_fails(),
    {
        let s = RecordingSurface { width, height, log: Vec::new() };
        proof {
            assert(s.ops() =~= Seq::<SpecOp>::empty());
        }
        s
    }

    /// The operations drawn so far, oldest first.
    pub fn log(&self) -> (r: &Vec<DrawOp>)
        ensures
            r@.map_values(|op: DrawOp| op@) == self.ops(),
    {
        &self.log
    }
}

impl Surface for RecordingSurface {
    closed spec fn width_spec(&self) -> int {
        self.width as int
    }

    closed spec fn height_spec(&self) -> int {
        self.height as int
    }

    closed spec fn ops(&self) -> Seq<SpecOp> {
        self.log@.map_values(|op: DrawOp| op@)
    }

    closed spec fn never_fails(&self) -> bool {
        true
    }

    fn width(&self) -> u32 {
        self.width
    }

    fn height(&self) -> u32 {
        self.height
    }

    fn draw(&mut self, op: DrawOp) -> Result<(), DrawError> {
        self.log.push(op);
        proof {
            assert(self.ops() =~= old(self).ops().push(op@));
        }
        Ok(())
    }
}

/// A surface that reports its dimensions but refuses every draw, as a
/// stand-in for a target whose transport has failed: callers can exercise
/// their handling of fatal drawing errors against it.
pub struct RejectingSurface {
    width: u32,
    height: u32,
}

impl RejectingSurface {
    /// Makes a rejecting surface with the given dimensions.
    pub fn new(width: u32, height: u32) -> (s: RejectingSurface)
        ensures
            s.width_spec() == width as int,
            s.height_spec() == height as int,
            s.ops() == Seq::<SpecOp>::empty(),
            !s.never_fails(),
    {
        RejectingSurface { width, height }
    }
}

impl Surface for RejectingSurface {
    closed spec fn width_spec(&self) -> int {
        self.width as int
    }

    closed spec fn height_spec(&self) -> int {
        self.height as int
    }

    closed spec fn ops(&self) -> Seq<SpecOp> {
        Seq::<SpecOp>::empty()
    }

    closed spec fn never_fails(&self) -> bool {
        false
    }

    fn width(&self) -> u32 {
        self.width
    }

    fn height(&self) -> u32 {
        self.height
    }

    fn draw(&mut self, _op: DrawOp) -> Result<(), DrawError> {
        Err(DrawError)
    }
}

} // verus!
