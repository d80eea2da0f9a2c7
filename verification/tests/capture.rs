use capture_as_image::capture_as_image;
use capture_as_image::capture::{next, start, CaptureState, OsAction, OsEvent, Step};
use capture_as_image::error::Error;
use capture_as_image::geometry::PixelRect;

fn rect(left: i32, top: i32, right: i32, bottom: i32) -> PixelRect {
    PixelRect { left, top, right, bottom }
}

#[test]
fn fullscreen_1080p_stream_length() {
    let responses = vec![
        OsEvent::Surface(Ok(1)),
        OsEvent::Rect(Ok(rect(0, 0, 1920, 1080))),
        OsEvent::Buffer(Ok(2)),
        OsEvent::Copied(Ok(())),
        OsEvent::Pixels(Ok(vec![0; 1920 * 1080 * 4])),
    ];
    let stream = capture_as_image(true, None, false, false, responses).expect("capture succeeds");
    assert_eq!(stream.len(), 8_294_454);
    assert_eq!(&stream[0..2], &[0x42, 0x4D]);
    // 1920 = 0x780, 1080 = 0x438, little-endian
    assert_eq!(&stream[18..22], &[0x80, 0x07, 0, 0]);
    assert_eq!(&stream[22..26], &[0x38, 0x04, 0, 0]);
}

#[test]
fn window_not_found_returns_platform_error() {
    let responses = vec![OsEvent::Window(Err(1400))];
    let result = capture_as_image(false, Some("Calculator"), false, false, responses);
    assert!(matches!(result, Err(Error::Win32(1400))));
}

#[test]
fn hosted_console_without_desktop_is_usage_error() {
    let responses = vec![OsEvent::Console { window: 1, parent: Some(2) }];
    let result = capture_as_image(false, None, false, false, responses);
    match result {
        Err(Error::Message(m)) => {
            assert_eq!(m, "Need to specify `--desktop` or `--fullscreen` option.");
        }
        other => panic!("expected the usage error, got {:?}", other),
    }
}

#[test]
fn hosted_console_fails_before_any_surface_opens() {
    let step = start(false, None, false, false);
    let (state, action) = match step {
        Step::Continue { state, action } => (state, action),
        Step::Done { result } => panic!("start cannot finish at once: {:?}", result),
    };
    assert_eq!(action, OsAction::QueryConsole);
    let step = next(state, OsEvent::Console { window: 1, parent: Some(2) });
    match step {
        Step::Done { result } => assert!(matches!(result, Err(Error::Message(_)))),
        Step::Continue { action, .. } => panic!("expected failure, got action {:?}", action),
    }
}

#[test]
fn console_without_parent_captures_directly() {
    let responses = vec![
        OsEvent::Console { window: 5, parent: None },
        OsEvent::Surface(Ok(1)),
        OsEvent::Rect(Ok(rect(0, 0, 2, 2))),
        OsEvent::Buffer(Ok(2)),
        OsEvent::Copied(Ok(())),
        OsEvent::Pixels(Ok(vec![7; 16])),
    ];
    let stream = capture_as_image(false, None, false, false, responses).expect("capture succeeds");
    assert_eq!(stream.len(), 54 + 16);
    assert_eq!(&stream[54..], &[7; 16]);
}

#[test]
fn hosted_console_with_desktop_clips_from_full_screen() {
    // resolve console (child 5, parent 6), open parent surface, measure the
    // child, create the buffer, open the full-screen surface, clip, read.
    let step = start(false, None, true, false);
    let (state, action) = match step {
        Step::Continue { state, action } => (state, action),
        Step::Done { result } => panic!("start cannot finish at once: {:?}", result),
    };
    assert_eq!(action, OsAction::QueryConsole);

    let step = next(state, OsEvent::Console { window: 5, parent: Some(6) });
    let (state, action) = match step {
        Step::Continue { state, action } => (state, action),
        Step::Done { result } => panic!("unexpected end: {:?}", result),
    };
    assert_eq!(action, OsAction::OpenSurface { window: Some(6), desktop: true });

    let step = next(state, OsEvent::Surface(Ok(1)));
    let (state, action) = match step {
        Step::Continue { state, action } => (state, action),
        Step::Done { result } => panic!("unexpected end: {:?}", result),
    };
    assert_eq!(action, OsAction::Measure { window: Some(5), desktop: true });

    let step = next(state, OsEvent::Rect(Ok(rect(100, 50, 104, 52))));
    let (state, action) = match step {
        Step::Continue { state, action } => (state, action),
        Step::Done { result } => panic!("unexpected end: {:?}", result),
    };
    assert_eq!(action, OsAction::CreateBuffer { surface: 1, width: 4, height: 2 });

    let step = next(state, OsEvent::Buffer(Ok(2)));
    let (state, action) = match step {
        Step::Continue { state, action } => (state, action),
        Step::Done { result } => panic!("unexpected end: {:?}", result),
    };
    assert_eq!(action, OsAction::OpenSurface { window: None, desktop: false });

    let step = next(state, OsEvent::Surface(Ok(3)));
    let (state, action) = match step {
        Step::Continue { state, action } => (state, action),
        Step::Done { result } => panic!("unexpected end: {:?}", result),
    };
    assert_eq!(
        action,
        OsAction::ClipBlit { buffer: 2, source: 3, left: 100, top: 50, width: 4, height: 2 }
    );

    let step = next(state, OsEvent::Copied(Ok(())));
    let (state, action) = match step {
        Step::Continue { state, action } => (state, action),
        Step::Done { result } => panic!("unexpected end: {:?}", result),
    };
    assert_eq!(action, OsAction::ReadPixels { buffer: 2, width: 4, height: 2 });

    let step = next(state, OsEvent::Pixels(Ok(vec![9; 32])));
    match step {
        Step::Done { result } => {
            let stream = result.expect("capture succeeds");
            assert_eq!(stream.len(), 54 + 32);
        }
        Step::Continue { action, .. } => panic!("expected the result, got {:?}", action),
    }
}

#[test]
fn requested_clipping_cuts_window_out_of_full_screen() {
    let responses = vec![
        OsEvent::Window(Ok(9)),
        OsEvent::Surface(Ok(1)),
        OsEvent::Rect(Ok(rect(10, 20, 13, 22))),
        OsEvent::Buffer(Ok(2)),
        OsEvent::Copied(Ok(())),
        OsEvent::Pixels(Ok(vec![1; 24])),
    ];
    let stream =
        capture_as_image(false, Some("Editor"), false, true, responses).expect("capture succeeds");
    assert_eq!(stream.len(), 54 + 24);

    // stepwise: the clipped path opens the full-screen surface, not the window's
    let step = start(false, Some("Editor"), false, true);
    let (state, action) = match step {
        Step::Continue { state, action } => (state, action),
        Step::Done { result } => panic!("start cannot finish at once: {:?}", result),
    };
    assert_eq!(action, OsAction::FindWindow { title: "Editor".to_string() });
    let step = next(state, OsEvent::Window(Ok(9)));
    match step {
        Step::Continue { action, .. } => {
            assert_eq!(action, OsAction::OpenSurface { window: None, desktop: false });
        }
        Step::Done { result } => panic!("unexpected end: {:?}", result),
    }
}

#[test]
fn found_window_takes_direct_path() {
    let step = start(false, Some("Calculator"), true, false);
    let (state, action) = match step {
        Step::Continue { state, action } => (state, action),
        Step::Done { result } => panic!("start cannot finish at once: {:?}", result),
    };
    assert_eq!(action, OsAction::FindWindow { title: "Calculator".to_string() });
    let step = next(state, OsEvent::Window(Ok(42)));
    match step {
        Step::Continue { state, action } => {
            assert_eq!(state, CaptureState::AwaitSurface { window: Some(42), desktop: true });
            assert_eq!(action, OsAction::OpenSurface { window: Some(42), desktop: true });
        }
        Step::Done { result } => panic!("unexpected end: {:?}", result),
    }
}

#[test]
fn zero_area_window_yields_header_only_stream() {
    let responses = vec![
        OsEvent::Window(Ok(4)),
        OsEvent::Surface(Ok(1)),
        OsEvent::Rect(Ok(rect(30, 40, 30, 90))),
        OsEvent::Buffer(Ok(2)),
        OsEvent::Copied(Ok(())),
        OsEvent::Pixels(Ok(vec![])),
    ];
    let stream =
        capture_as_image(false, Some("Empty"), false, false, responses).expect("capture succeeds");
    assert_eq!(stream.len(), 54);
}

#[test]
fn surface_failure_carries_platform_code() {
    let responses = vec![OsEvent::Surface(Err(5))];
    let result = capture_as_image(true, None, false, false, responses);
    assert!(matches!(result, Err(Error::Win32(5))));
}

#[test]
fn negative_rectangle_is_rejected() {
    let responses = vec![
        OsEvent::Surface(Ok(1)),
        OsEvent::Rect(Ok(rect(10, 0, 4, 8))),
    ];
    let result = capture_as_image(true, None, false, false, responses);
    match result {
        Err(Error::Message(m)) => {
            assert_eq!(m, "The measured rectangle does not fit a bitmap file.");
        }
        other => panic!("expected the geometry error, got {:?}", other),
    }
}

#[test]
fn pixel_length_mismatch_is_rejected() {
    let responses = vec![
        OsEvent::Surface(Ok(1)),
        OsEvent::Rect(Ok(rect(0, 0, 2, 2))),
        OsEvent::Buffer(Ok(2)),
        OsEvent::Copied(Ok(())),
        OsEvent::Pixels(Ok(vec![0; 15])),
    ];
    let result = capture_as_image(true, None, false, false, responses);
    match result {
        Err(Error::Message(m)) => {
            assert_eq!(m, "The pixel bytes do not match the measured size.");
        }
        other => panic!("expected the pixel error, got {:?}", other),
    }
}

#[test]
fn exhausted_answers_are_an_error() {
    let result = capture_as_image(true, None, false, false, vec![]);
    match result {
        Err(Error::Message(m)) => {
            assert_eq!(m, "The drawing subsystem stopped answering.");
        }
        other => panic!("expected the exhaustion error, got {:?}", other),
    }
}

#[test]
fn mismatched_answer_kind_is_an_error() {
    let responses = vec![OsEvent::Window(Ok(1))];
    let result = capture_as_image(true, None, false, false, responses);
    match result {
        Err(Error::Message(m)) => {
            assert_eq!(m, "Unexpected answer from the drawing subsystem.");
        }
        other => panic!("expected the protocol error, got {:?}", other),
    }
}

#[test]
fn error_message_constructor_keeps_text() {
    let e = Error::message("a message");
    match e {
        Error::Message(m) => assert_eq!(m, "a message"),
        other => panic!("expected a message error, got {:?}", other),
    }
}
