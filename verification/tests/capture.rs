use magnifier_ball::capture::{CaptureSession, DibFormat, GdiCall, GdiReply};
use magnifier_ball::pixels::bgra_to_rgba;

const SCREEN: isize = 11;
const MEMORY: isize = 22;
const BITMAP: isize = 33;
const PREVIOUS: isize = 44;

struct Desktop {
    screen: isize,
    memory: isize,
    bitmap: isize,
    copied: i32,
    lines: i32,
    bytes: Vec<u8>,
}

fn working() -> Desktop {
    Desktop {
        screen: SCREEN,
        memory: MEMORY,
        bitmap: BITMAP,
        copied: 1,
        lines: 1,
        bytes: vec![10, 20, 30, 0, 40, 50, 60, 7],
    }
}

fn run(desktop: Desktop) -> (Vec<GdiCall>, Option<Vec<u8>>) {
    let mut session = CaptureSession::start(-3, 5, 2, 1).unwrap();
    let mut calls = Vec::new();
    while let Some(call) = session.next_call() {
        calls.push(call);
        session.take_reply(match call {
            GdiCall::AcquireScreen => GdiReply::Handle(desktop.screen),
            GdiCall::CreateMemory { .. } => GdiReply::Handle(desktop.memory),
            GdiCall::CreateBitmap { .. } => GdiReply::Handle(desktop.bitmap),
            GdiCall::Select { .. } => GdiReply::Handle(PREVIOUS),
            GdiCall::Copy { .. } => GdiReply::Copied(desktop.copied),
            GdiCall::Read { bytes, .. } => {
                assert_eq!(bytes, desktop.bytes.len() as u64);
                GdiReply::Read(desktop.lines, desktop.bytes.clone())
            }
            _ => GdiReply::Done,
        });
    }
    (calls, session.into_pixels())
}

fn all_calls() -> Vec<GdiCall> {
    vec![
        GdiCall::AcquireScreen,
        GdiCall::CreateMemory { screen: SCREEN },
        GdiCall::CreateBitmap { screen: SCREEN, width: 2, height: 1 },
        GdiCall::Select { memory: MEMORY, bitmap: BITMAP },
        GdiCall::Copy {
            memory: MEMORY,
            screen: SCREEN,
            x: -3,
            y: 5,
            width: 2,
            height: 1,
            operation: 0x00cc_0020,
        },
        GdiCall::Read {
            memory: MEMORY,
            bitmap: BITMAP,
            first: 0,
            rows: 1,
            bytes: 8,
            format: DibFormat {
                width: 2,
                height: -1,
                planes: 1,
                bit_count: 32,
                compression: 0,
            },
            usage: 0,
        },
        GdiCall::Restore { memory: MEMORY, previous: PREVIOUS },
        GdiCall::DeleteBitmap { bitmap: BITMAP },
        GdiCall::DeleteMemory { memory: MEMORY },
        GdiCall::ReleaseScreen { screen: SCREEN },
    ]
}

#[test]
fn a_capture_gives_opaque_pixels_with_red_first() {
    let (calls, pixels) = run(working());
    assert_eq!(calls, all_calls());
    assert_eq!(pixels.unwrap(), vec![30, 20, 10, 255, 60, 50, 40, 255]);
}

#[test]
fn without_a_screen_nothing_is_done() {
    let (calls, pixels) = run(Desktop { screen: 0, ..working() });
    assert_eq!(calls, vec![GdiCall::AcquireScreen]);
    assert!(pixels.is_none());
}

#[test]
fn without_a_memory_context_the_screen_is_released() {
    let (calls, pixels) = run(Desktop { memory: 0, ..working() });
    assert_eq!(
        calls,
        vec![
            GdiCall::AcquireScreen,
            GdiCall::CreateMemory { screen: SCREEN },
            GdiCall::ReleaseScreen { screen: SCREEN },
        ]
    );
    assert!(pixels.is_none());
}

#[test]
fn without_a_bitmap_both_contexts_are_given_back() {
    let (calls, pixels) = run(Desktop { bitmap: 0, ..working() });
    assert_eq!(
        calls,
        vec![
            GdiCall::AcquireScreen,
            GdiCall::CreateMemory { screen: SCREEN },
            GdiCall::CreateBitmap { screen: SCREEN, width: 2, height: 1 },
            GdiCall::DeleteMemory { memory: MEMORY },
            GdiCall::ReleaseScreen { screen: SCREEN },
        ]
    );
    assert!(pixels.is_none());
}

#[test]
fn a_failed_copy_gives_everything_back_and_no_pixels() {
    let (calls, pixels) = run(Desktop { copied: 0, ..working() });
    assert_eq!(calls, all_calls());
    assert!(pixels.is_none());
}

#[test]
fn a_failed_reading_gives_everything_back_and_no_pixels() {
    let (calls, pixels) = run(Desktop { lines: 0, ..working() });
    assert_eq!(calls, all_calls());
    assert!(pixels.is_none());
}

#[test]
fn an_empty_area_is_not_captured() {
    assert!(CaptureSession::start(0, 0, 0, 5).is_none());
    assert!(CaptureSession::start(0, 0, 5, 0).is_none());
    assert!(CaptureSession::start(0, 0, -1, 5).is_none());
    assert!(CaptureSession::start(0, 0, 5, i32::MIN).is_none());
}

#[test]
fn bytes_beyond_the_last_pixel_stay() {
    let mut bytes = vec![1, 2, 3, 4, 5, 6, 7, 8, 9, 10, 11];
    bgra_to_rgba(&mut bytes);
    assert_eq!(bytes, vec![3, 2, 1, 255, 7, 6, 5, 255, 9, 10, 11]);
    let mut none: Vec<u8> = Vec::new();
    bgra_to_rgba(&mut none);
    assert!(none.is_empty());
}

#[test]
fn converting_twice_restores_the_colours() {
    let mut bytes = vec![1, 2, 3, 255, 5, 6, 7, 255];
    bgra_to_rgba(&mut bytes);
    bgra_to_rgba(&mut bytes);
    assert_eq!(bytes, vec![1, 2, 3, 255, 5, 6, 7, 255]);
}
