use sad_boy::backend::{mismatch_report, Backend, Color, FrameBuffer, FrameMismatch, HeadlessBackend, Mismatch};

/// Every differing pixel is reported, in pixel order
#[test]
fn frame_mismatches() {
    let expected = FrameBuffer::new();
    let mut actual = FrameBuffer::new();
    actual.set(5, 2, Color::white());
    actual.set(159, 0, Color::dark_gray());
    assert!(actual.compare_pixels(&actual.copy()).is_ok());
    let found = actual.compare_pixels(&expected).unwrap_err();
    assert_eq!(
        found,
        vec![
            Mismatch { x: 159, y: 0, actual: Color::dark_gray(), expected: Color::black() },
            Mismatch { x: 5, y: 2, actual: Color::white(), expected: Color::black() },
        ]
    );
    assert_eq!(actual.mismatches(&expected).len(), 2);
}

/// The headless backend compares the last frame it was given
#[test]
fn headless_backend() {
    let mut backend = HeadlessBackend::new();
    let frame = FrameBuffer::new();
    assert!(matches!(backend.compare_pixels(&frame), Err(FrameMismatch::NotDrawn)));
    backend.draw(&frame);
    assert!(backend.compare_pixels(&frame).is_ok());
    let mut other = FrameBuffer::new();
    other.set_region(0, 0, 2, 1, Color::light_gray());
    match backend.compare_pixels(&other) {
        Err(FrameMismatch::Pixels(found)) => assert_eq!(found.len(), 2),
        _ => panic!("expected mismatched pixels"),
    }
}

/// Colors print as their three channels
#[test]
fn color_text() {
    assert_eq!(Color::dark_gray().to_string(), "85,85,85");
    assert_eq!(Color::new(0, 128, 255).to_string(), "0,128,255");
}

/// Resetting a frame turns it black
#[test]
fn frame_reset() {
    let mut frame = FrameBuffer::new();
    frame.set_region(10, 10, 20, 20, Color::white());
    frame.reset();
    assert!(frame.compare_pixels(&FrameBuffer::new()).is_ok());
}

/// A mismatch report lists each differing pixel with both colors
#[test]
fn mismatch_report_lines() {
    let expected = FrameBuffer::new();
    let mut actual = FrameBuffer::new();
    actual.set(5, 2, Color::white());
    actual.set(159, 0, Color::dark_gray());
    let found = actual.compare_pixels(&expected).unwrap_err();
    assert_eq!(
        mismatch_report(&found),
        "Screen mismatch:\nAt 159,0: 85,85,85 != 0,0,0\nAt 5,2: 255,255,255 != 0,0,0\n"
    );
}

/// A mismatch report lists at most ten pixels and counts the rest
#[test]
fn mismatch_report_truncated() {
    let expected = FrameBuffer::new();
    let mut actual = FrameBuffer::new();
    actual.set_region(0, 0, 12, 1, Color::light_gray());
    let found = actual.compare_pixels(&expected).unwrap_err();
    assert_eq!(found.len(), 12);
    let mut report = String::from("Screen mismatch:\n");
    for x in 0..10 {
        report.push_str(&format!("At {x},0: 170,170,170 != 0,0,0\n"));
    }
    report.push_str("...and 2 more\n");
    assert_eq!(mismatch_report(&found), report);
    assert_eq!(mismatch_report(&Vec::new()), "Screen mismatch:\n");
}

/// Asserting equal frames succeeds, and the headless backend records every
/// frame it is given
#[test]
fn assert_equal_frames() {
    let mut frame = FrameBuffer::new();
    frame.set(3, 4, Color::white());
    frame.assert_pixels(&frame.copy());
    let mut backend = HeadlessBackend::new();
    backend.draw(&FrameBuffer::new());
    backend.draw(&frame);
    backend.assert_pixels(&frame);
    assert!(backend.compare_pixels(&FrameBuffer::new()).is_err());
}
