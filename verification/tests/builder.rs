use monoterm::pin::DummyPin;
use monoterm::RejectingSurface;
use monoterm::DrawOp;
use monoterm::Point;
use monoterm::RecordingSurface;
use monoterm::Rgb;
use monoterm::TermError;
use monoterm::TerminalBuilder;
use monoterm::TextStyle;

#[test]
fn defaults_are_origin_offset_and_red_on_black_6x10() {
    let mut t = TerminalBuilder::new(RecordingSurface::new(100, 50)).build().unwrap();
    assert_eq!(t.position(), Point::new(0, 0));
    t.write_char(b'A').unwrap();
    assert_eq!(
        t.surface().log()[0],
        DrawOp::Glyph {
            at: Point::new(0, 0),
            glyph: b'A',
            fg: Rgb::new(255, 0, 0),
            bg: Some(Rgb::new(0, 0, 0)),
        }
    );
}

#[test]
fn offset_shifts_the_usable_rectangle() {
    let mut t = TerminalBuilder::new(RecordingSurface::new(100, 50))
        .with_offset(Point::new(10, 20))
        .build()
        .unwrap();
    assert_eq!(t.position(), Point::new(10, 20));
    t.write_char(b'A').unwrap();
    assert_eq!(t.position(), Point::new(16, 20));
    assert!(matches!(t.surface().log()[0], DrawOp::Glyph { at: Point { x: 10, y: 20 }, .. }));
    // Backspace clamps at the offset's left edge, not at the surface's.
    t.write_char(0x08).unwrap();
    t.write_char(0x08).unwrap();
    assert_eq!(t.position(), Point::new(10, 20));
}

#[test]
fn style_override_changes_cell_size_and_colors() {
    let style = TextStyle::new(9, 18, Rgb::new(0, 255, 0), Some(Rgb::new(0, 0, 128)));
    let mut t = TerminalBuilder::new(RecordingSurface::new(100, 50))
        .with_style(style)
        .build()
        .unwrap();
    t.write_char(b'A').unwrap();
    assert_eq!(t.position(), Point::new(9, 0));
    assert_eq!(
        t.surface().log()[0],
        DrawOp::Glyph {
            at: Point::new(0, 0),
            glyph: b'A',
            fg: Rgb::new(0, 255, 0),
            bg: Some(Rgb::new(0, 0, 128)),
        }
    );
}

#[test]
fn cursor_overlay_is_erased_and_redrawn_around_every_byte() {
    let mut t = TerminalBuilder::new(RecordingSurface::new(100, 50))
        .with_cursor(Rgb::new(255, 255, 255))
        .build()
        .unwrap();
    t.write_char(b'A').unwrap();
    let log = t.surface().log();
    assert_eq!(log.len(), 3);
    assert_eq!(log[0], DrawOp::Erase { at: Point::new(0, 0), count: 1, color: Rgb::black() });
    assert!(matches!(log[1], DrawOp::Glyph { at: Point { x: 0, y: 0 }, glyph: b'A', .. }));
    assert_eq!(log[2], DrawOp::Cursor { at: Point::new(6, 0), color: Rgb::new(255, 255, 255) });
    // Even an ignored byte erases and redraws the overlay in place.
    t.write_char(0x00).unwrap();
    let log = t.surface().log();
    assert_eq!(log.len(), 5);
    assert_eq!(log[3], DrawOp::Erase { at: Point::new(6, 0), count: 1, color: Rgb::black() });
    assert_eq!(log[4], DrawOp::Cursor { at: Point::new(6, 0), color: Rgb::new(255, 255, 255) });
}

#[test]
fn surface_too_narrow_for_one_cell_is_rejected() {
    let r = TerminalBuilder::new(RecordingSurface::new(5, 50)).build();
    assert!(matches!(r, Err(TermError::InvalidGeometry)));
}

#[test]
fn negative_offset_is_rejected() {
    let r = TerminalBuilder::new(RecordingSurface::new(100, 50))
        .with_offset(Point::new(-1, 0))
        .build();
    assert!(matches!(r, Err(TermError::InvalidGeometry)));
}

#[test]
fn offset_beyond_the_surface_is_rejected() {
    let r = TerminalBuilder::new(RecordingSurface::new(100, 50))
        .with_offset(Point::new(101, 0))
        .build();
    assert!(matches!(r, Err(TermError::InvalidGeometry)));
}

#[test]
fn oversized_surface_is_rejected() {
    let r = TerminalBuilder::new(RecordingSurface::new(0x1000_0001, 50)).build();
    assert!(matches!(r, Err(TermError::InvalidGeometry)));
}

#[test]
fn failing_surface_draw_is_reported_as_fatal() {
    let mut t = TerminalBuilder::new(RejectingSurface::new(100, 50)).build().unwrap();
    assert_eq!(t.write(b"a"), Err(TermError::DrawFailed));
    // A byte that draws nothing still succeeds on a failing surface.
    assert_eq!(t.write_char(0x00), Ok(()));
}

#[test]
fn dummy_pin_accepts_both_levels() {
    let mut pin = DummyPin;
    assert_eq!(pin.set_high(), Ok(()));
    assert_eq!(pin.set_low(), Ok(()));
}
