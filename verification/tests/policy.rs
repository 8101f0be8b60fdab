use monoterm::DrawOp;
use monoterm::Point;
use monoterm::RecordingSurface;
use monoterm::Rgb;
use monoterm::Terminal;
use monoterm::TerminalBuilder;
use monoterm::TextStyle;

fn fresh_terminal(w: u32, h: u32) -> Terminal<RecordingSurface> {
    TerminalBuilder::new(RecordingSurface::new(w, h)).build().unwrap()
}

#[test]
fn ignored_control_bytes_move_nothing_and_draw_nothing() {
    let mut ignored: Vec<u8> = (0x00..=0x07).collect();
    ignored.push(0x0B);
    ignored.push(0x0C);
    ignored.extend(0x0E..=0x1F);
    for c in ignored {
        let mut t = fresh_terminal(100, 50);
        t.write(b"a").unwrap();
        let before = t.position();
        let drawn = t.surface().log().len();
        t.write_char(c).unwrap();
        assert_eq!(t.position(), before, "byte {c:#04x} moved the cursor");
        assert_eq!(t.surface().log().len(), drawn, "byte {c:#04x} drew something");
    }
}

#[test]
fn printable_byte_advances_one_cell_width() {
    let mut t = fresh_terminal(100, 50);
    t.write_char(b'A').unwrap();
    assert_eq!(t.position(), Point::new(6, 0));
}

#[test]
fn backspace_at_left_edge_is_clamped() {
    let mut t = fresh_terminal(100, 50);
    t.write_char(0x08).unwrap();
    assert_eq!(t.position(), Point::new(0, 0));
    // The vacated cell is still repainted, even though nothing moved.
    assert_eq!(
        t.surface().log().last(),
        Some(&DrawOp::Erase { at: Point::new(0, 0), count: 1, color: Rgb::black() })
    );
}

#[test]
fn backspace_mid_line_steps_back_and_erases() {
    let mut t = fresh_terminal(100, 50);
    t.write(b"ab").unwrap();
    t.write_char(0x08).unwrap();
    assert_eq!(t.position(), Point::new(6, 0));
    assert_eq!(
        t.surface().log().last(),
        Some(&DrawOp::Erase { at: Point::new(6, 0), count: 1, color: Rgb::black() })
    );
}

#[test]
fn delete_behaves_like_backspace() {
    let mut t = fresh_terminal(100, 50);
    t.write(b"ab").unwrap();
    t.write_char(0x7F).unwrap();
    assert_eq!(t.position(), Point::new(6, 0));
}

#[test]
fn tab_is_exactly_four_cells() {
    let mut t = fresh_terminal(100, 50);
    t.write_char(0x09).unwrap();
    assert_eq!(t.position(), Point::new(24, 0));
}

#[test]
fn tab_that_overflows_wraps_to_the_next_line() {
    // From x = 90 a tab would advance to x = 114, past the right boundary:
    // the whole advance is discarded and the cursor goes to the next line.
    let mut t = fresh_terminal(100, 50);
    t.write(&[b'x'; 15]).unwrap();
    assert_eq!(t.position(), Point::new(90, 0));
    t.write_char(0x09).unwrap();
    assert_eq!(t.position(), Point::new(0, 10));
}

#[test]
fn mixed_sequence_lands_where_the_model_says() {
    let mut t = fresh_terminal(100, 50);
    t.write(b"ab\ncd").unwrap();
    assert_eq!(t.position(), Point::new(12, 10));
}

#[test]
fn line_feed_cycle_returns_to_exactly_the_top_row() {
    // floor(50 / 10) = 5 rows; five line feeds cycle back to the top.
    let mut t = fresh_terminal(100, 50);
    for i in 1..=4u32 {
        t.write_char(0x0A).unwrap();
        assert_eq!(t.position(), Point::new(0, (i * 10) as i32));
    }
    t.write_char(0x0A).unwrap();
    assert_eq!(t.position(), Point::new(0, 0));
}

#[test]
fn carriage_return_acts_like_line_feed() {
    let mut t = fresh_terminal(100, 50);
    t.write(b"abc").unwrap();
    t.write_char(0x0D).unwrap();
    assert_eq!(t.position(), Point::new(0, 10));
}

#[test]
fn non_ascii_byte_is_substituted_by_question_mark() {
    let mut t = fresh_terminal(100, 50);
    t.write(&[0x80, 0xFF]).unwrap();
    let log = t.surface().log();
    assert!(matches!(log[0], DrawOp::Glyph { glyph: b'?', .. }));
    assert!(matches!(log[1], DrawOp::Glyph { glyph: b'?', .. }));
}

#[test]
fn erasure_without_background_falls_back_to_black() {
    let style = TextStyle::new(6, 10, Rgb::new(1, 2, 3), None);
    let mut t = TerminalBuilder::new(RecordingSurface::new(100, 50))
        .with_style(style)
        .build()
        .unwrap();
    t.write_char(0x08).unwrap();
    assert_eq!(
        t.surface().log().last(),
        Some(&DrawOp::Erase { at: Point::new(0, 0), count: 1, color: Rgb::new(0, 0, 0) })
    );
}

#[test]
fn empty_write_changes_nothing_and_succeeds() {
    let mut t = fresh_terminal(100, 50);
    assert_eq!(t.write(b""), Ok(()));
    assert_eq!(t.position(), Point::new(0, 0));
    assert_eq!(t.surface().log().len(), 0);
}

#[test]
fn usable_rectangle_spans_offset_plus_dimensions() {
    // The boundaries sit at offset + dimension: with offset (10, 20) on a
    // 100x50 surface the rows run from y = 20 up to y = 70, so five whole
    // rows fit before the vertical wrap returns to y = 20.
    let mut t = TerminalBuilder::new(RecordingSurface::new(100, 50))
        .with_offset(Point::new(10, 20))
        .build()
        .unwrap();
    for i in 1..=4u32 {
        t.write_char(0x0A).unwrap();
        assert_eq!(t.position(), Point::new(10, (20 + i * 10) as i32));
    }
    t.write_char(0x0A).unwrap();
    assert_eq!(t.position(), Point::new(10, 20));
}

#[test]
fn largest_accepted_surface_builds() {
    let t = TerminalBuilder::new(RecordingSurface::new(0x1000_0000, 0x1000_0000)).build();
    assert!(t.is_ok());
}

#[test]
fn line_feed_repaints_a_blank_filler_line() {
    let mut t = fresh_terminal(1000, 50);
    t.write_char(0x0A).unwrap();
    assert_eq!(
        t.surface().log().last(),
        Some(&DrawOp::Erase { at: Point::new(0, 10), count: 60, color: Rgb::black() })
    );
}
