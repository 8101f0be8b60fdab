use monoterm::DrawOp;
use monoterm::Point;
use monoterm::RecordingSurface;
use monoterm::Rgb;
use monoterm::Terminal;
use monoterm::TerminalBuilder;

fn fresh_terminal(w: u32, h: u32) -> Terminal<RecordingSurface> {
    TerminalBuilder::new(RecordingSurface::new(w, h)).build().unwrap()
}

#[test]
fn two_glyphs_then_cursor_rests_after_them() {
    // 100x50 surface, default 6x10 cells, offset (0, 0): "Hi" gives two
    // glyph draws at (0, 0) and (6, 0) and leaves the cursor at (12, 0).
    let mut t = fresh_terminal(100, 50);
    t.write(b"Hi").unwrap();
    assert_eq!(t.position(), Point::new(12, 0));
    let log = t.surface().log();
    assert_eq!(log.len(), 2);
    assert_eq!(
        log[0],
        DrawOp::Glyph {
            at: Point::new(0, 0),
            glyph: b'H',
            fg: Rgb::red(),
            bg: Some(Rgb::black()),
        }
    );
    assert_eq!(
        log[1],
        DrawOp::Glyph {
            at: Point::new(6, 0),
            glyph: b'i',
            fg: Rgb::red(),
            bg: Some(Rgb::black()),
        }
    );
}

#[test]
fn overlong_row_wraps_to_next_line() {
    // floor(100 / 6) = 16 whole cells fit; writing 17 'x' bytes wraps once
    // and leaves the cursor one cell into the second row.
    let mut t = fresh_terminal(100, 50);
    t.write(&[b'x'; 17]).unwrap();
    assert_eq!(t.position(), Point::new(6, 10));
    let log = t.surface().log();
    // 17 glyphs plus the blank filler line drawn by the wrap.
    assert_eq!(log.len(), 18);
    // The sixteenth glyph still sits on the first row...
    assert!(matches!(log[15], DrawOp::Glyph { at: Point { x: 90, y: 0 }, .. }));
    // ...its cursor advance wraps, repainting the new row...
    assert!(matches!(log[16], DrawOp::Erase { at: Point { x: 0, y: 10 }, count: 60, .. }));
    // ...and the seventeenth glyph lands at the start of the second row.
    assert!(matches!(log[17], DrawOp::Glyph { at: Point { x: 0, y: 10 }, .. }));
}

#[test]
fn line_feeds_on_single_row_surface_stay_on_top_row() {
    // 100x10 surface with 10 pixel tall cells: exactly one row. Every line
    // feed wraps the cursor back to the top row, never to any other.
    let mut t = fresh_terminal(100, 10);
    t.write_char(0x0A).unwrap();
    assert_eq!(t.position(), Point::new(0, 0));
    t.write_char(0x0A).unwrap();
    assert_eq!(t.position(), Point::new(0, 0));
}
