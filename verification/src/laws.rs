//! The terminal's boundary policy, proved once and for all over the model
//! of [`crate::model`]: ignored bytes are no-ops, printable bytes advance
//! by exactly one cell, full rows wrap deterministically, line feeds cycle
//! through the rows and back to the top, backspace clamps at the left
//! edge, and a tab is exactly four cells wide.

use vstd::arithmetic::div_mod::lemma_fundamental_div_mod;
use vstd::arithmetic::div_mod::lemma_mod_bound;
use vstd::arithmetic::mul::lemma_mul_inequality;
use vstd::arithmetic::mul::lemma_mul_is_commutative;
use vstd::arithmetic::mul::lemma_mul_is_distributive_add_other_way;
use vstd::prelude::*;

use crate::model::is_backspace;
use crate::model::is_ignored;
use crate::model::is_line_break;
use crate::model::is_printable;
use crate::model::is_tab;
use crate::model::step_ops;
use crate::model::step_pos;
use crate::model::write_pos;
use crate::model::ConfigView;
use crate::model::ScreenGeom;
use crate::point::SpecPoint;

verus! {

/// An ignored control byte never moves the cursor, and when no cursor
/// overlay is configured it issues no draw operation at all.
pub proof fn lemma_ignored_byte_is_no_op(cv: ConfigView, p: SpecPoint, c: u8)
    requires
        is_ignored(c),
    ensures
        step_pos(cv.geom, p, c) == p,
        cv.cursor is None ==> step_ops(cv, p, c).len() == 0,
{
}

/// A printable byte written with room for one more whole cell to its
/// right advances the cursor by exactly one cell width and keeps the row.
pub proof fn lemma_printable_advances_one_cell(g: ScreenGeom, p: SpecPoint, c: u8)
    requires
        is_printable(c),
        p.x + 2 * g.cell_w <= g.max_x(),
    ensures
        step_pos(g, p, c) == (SpecPoint { x: p.x + g.cell_w, y: p.y }),
{
}

/// From the left edge, a backspace or delete byte leaves the cursor
/// unchanged: the move is clamped, with no wrap to the previous line.
pub proof fn lemma_backspace_clamps_at_left_edge(g: ScreenGeom, p: SpecPoint, c: u8)
    requires
        g.valid(),
        is_backspace(c),
        p.x == g.off_x,
    ensures
        step_pos(g, p, c) == p,
{
}

/// From the left edge of a surface with room for five cells, a single tab
/// byte advances the cursor by exactly four cell widths.
pub proof fn lemma_tab_advances_four_cells(g: ScreenGeom, p: SpecPoint, c: u8)
    requires
        is_tab(c),
        p.x == g.off_x,
        5 * g.cell_w <= g.width,
    ensures
        step_pos(g, p, c) == (SpecPoint { x: g.off_x + 4 * g.cell_w, y: p.y }),
{
}

/// The cursor invariant: from the origin of a whole cell inside the
/// usable rectangle, any single byte leads to the origin of a whole cell
/// inside it again — the cursor never parks outside, whatever is fed.
pub proof fn lemma_step_stays_in_rectangle(g: ScreenGeom, p: SpecPoint, c: u8)
    requires
        g.valid(),
        g.contains_cell(p),
    ensures
        g.contains_cell(step_pos(g, p, c)),
{
    if is_backspace(c) {
        lemma_mul_inequality(0, 1, g.cell_w);
    }
}

/// The cursor invariant holds after any byte sequence, fed in order.
pub proof fn lemma_write_stays_in_rectangle(g: ScreenGeom, p: SpecPoint, s: Seq<u8>)
    requires
        g.valid(),
        g.contains_cell(p),
    ensures
        g.contains_cell(write_pos(g, p, s)),
    decreases s.len(),
{
    if s.len() > 0 {
        lemma_write_stays_in_rectangle(g, p, s.drop_last());
        lemma_step_stays_in_rectangle(g, write_pos(g, p, s.drop_last()), s.last());
    }
}

/// Writing `j` printable bytes from the left edge of a row, where `j + 1`
/// cells fit into the usable width, advances the cursor by exactly `j`
/// cell widths with no wrap.
proof fn lemma_row_fill(g: ScreenGeom, p: SpecPoint, s: Seq<u8>)
    requires
        g.valid(),
        p.x == g.off_x,
        forall|k: int| 0 <= k < s.len() ==> is_printable(s[k]),
        (s.len() + 1) * g.cell_w <= g.width,
    ensures
        write_pos(g, p, s) == (SpecPoint { x: g.off_x + s.len() * g.cell_w, y: p.y }),
    decreases s.len(),
{
    if s.len() == 0 {
        assert(0 * g.cell_w == 0);
    } else {
        let s0 = s.drop_last();
        let j = s0.len() as int;
        lemma_mul_inequality(j + 1, j + 2, g.cell_w);
        lemma_row_fill(g, p, s0);
        lemma_mul_is_distributive_add_other_way(g.cell_w, j, 2);
        lemma_mul_is_distributive_add_other_way(g.cell_w, j, 1);
        assert(write_pos(g, p, s) == step_pos(g, write_pos(g, p, s0), s.last()));
    }
}

/// Wrap determinism: from the left edge of a row with at least one row of
/// space below, writing one printable byte more than the row has whole
/// cells advances the cursor's row exactly once and lands it one cell
/// width after the left edge.
pub proof fn lemma_wrap_determinism(g: ScreenGeom, p: SpecPoint, s: Seq<u8>)
    requires
        g.valid(),
        p.x == g.off_x,
        p.y + 2 * g.cell_h <= g.max_y(),
        2 * g.cell_w <= g.width,
        forall|k: int| 0 <= k < s.len() ==> is_printable(s[k]),
        s.len() == g.width / g.cell_w + 1,
    ensures
        // Right after the wrap-triggering byte the cursor is back at the
        // left edge of the next row...
        write_pos(g, p, s.drop_last()) == (SpecPoint { x: g.off_x, y: p.y + g.cell_h }),
        // ...and the final byte lands one cell in on that row.
        write_pos(g, p, s) == (SpecPoint { x: g.off_x + g.cell_w, y: p.y + g.cell_h }),
{
    let k = g.width / g.cell_w;
    lemma_fundamental_div_mod(g.width, g.cell_w);
    lemma_mod_bound(g.width, g.cell_w);
    lemma_mul_is_commutative(g.cell_w, k);
    assert(k * g.cell_w <= g.width < (k + 1) * g.cell_w) by {
        lemma_mul_is_distributive_add_other_way(g.cell_w, k, 1);
    }
    assert(2 * g.cell_w <= g.width ==> 2 <= k) by {
        if k < 2 {
            lemma_mul_inequality(k + 1, 2, g.cell_w);
        }
    }
    let s1 = s.drop_last();
    let s0 = s1.drop_last();
    assert(s0.len() + 2 == s.len());
    lemma_row_fill(g, p, s0);
    // The byte after the last whole cell wraps: its advanced trailing edge
    // would cross the right boundary.
    lemma_mul_is_distributive_add_other_way(g.cell_w, k - 1, 2);
    assert(write_pos(g, p, s1) == step_pos(g, write_pos(g, p, s0), s1.last()));
    assert(write_pos(g, p, s1) == (SpecPoint { x: g.off_x, y: p.y + g.cell_h }));
    // The wrap-triggering byte's successor starts the new row one cell in.
    assert(write_pos(g, p, s) == step_pos(g, write_pos(g, p, s1), s.last()));
}

/// Writing `j` line-break bytes from the top row, where `j + 1` rows fit
/// into the usable height, moves the cursor to the left edge of row `j`
/// with no vertical wrap.
proof fn lemma_column_fill(g: ScreenGeom, p: SpecPoint, s: Seq<u8>)
    requires
        g.valid(),
        p.y == g.off_y,
        1 <= s.len(),
        forall|k: int| 0 <= k < s.len() ==> is_line_break(s[k]),
        (s.len() + 1) * g.cell_h <= g.height,
    ensures
        write_pos(g, p, s) == (SpecPoint { x: g.off_x, y: g.off_y + s.len() * g.cell_h }),
    decreases s.len(),
{
    let j = s.len() as int;
    lemma_mul_is_distributive_add_other_way(g.cell_h, j, 1);
    if s.len() == 1 {
        assert(write_pos(g, p, s.drop_last()) == p);
        assert(write_pos(g, p, s) == step_pos(g, p, s.last()));
        assert(1 * g.cell_h == g.cell_h);
    } else {
        let s0 = s.drop_last();
        lemma_mul_inequality(j, j + 1, g.cell_h);
        lemma_column_fill(g, p, s0);
        lemma_mul_is_distributive_add_other_way(g.cell_h, j - 1, 2);
        lemma_mul_is_distributive_add_other_way(g.cell_h, j - 1, 1);
        assert(write_pos(g, p, s) == step_pos(g, write_pos(g, p, s0), s.last()));
    }
}

/// Vertical wrap: from the top row, writing exactly as many line feeds as
/// the usable rectangle has whole rows cycles the cursor's row through
/// every row and back to exactly the top row, not to any intermediate one.
pub proof fn lemma_vertical_wrap_cycle(g: ScreenGeom, p: SpecPoint, s: Seq<u8>)
    requires
        g.valid(),
        p.y == g.off_y,
        forall|k: int| 0 <= k < s.len() ==> is_line_break(s[k]),
        s.len() == g.height / g.cell_h,
    ensures
        write_pos(g, p, s) == (SpecPoint { x: g.off_x, y: g.off_y }),
{
    let r = g.height / g.cell_h;
    lemma_fundamental_div_mod(g.height, g.cell_h);
    lemma_mod_bound(g.height, g.cell_h);
    lemma_mul_is_commutative(g.cell_h, r);
    assert(r * g.cell_h <= g.height < (r + 1) * g.cell_h) by {
        lemma_mul_is_distributive_add_other_way(g.cell_h, r, 1);
    }
    assert(1 <= r) by {
        if r < 1 {
            lemma_mul_inequality(r + 1, 1, g.cell_h);
        }
    }
    if r == 1 {
        assert(write_pos(g, p, s) == step_pos(g, write_pos(g, p, s.drop_last()), s.last()));
        assert(write_pos(g, p, s.drop_last()) == p);
    } else {
        let s0 = s.drop_last();
        lemma_column_fill(g, p, s0);
        lemma_mul_is_distributive_add_other_way(g.cell_h, r - 1, 2);
        lemma_mul_is_distributive_add_other_way(g.cell_h, r - 1, 1);
        assert(write_pos(g, p, s) == step_pos(g, write_pos(g, p, s0), s.last()));
    }
}

} // verus!
