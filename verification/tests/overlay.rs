use egui::{Color32, ColorImage};
use magnifier_ball::capture::{GdiCall, GdiReply};
use magnifier_ball::geometry::CircleBounds;
use magnifier_ball::motion::{Position, Screen, Velocity};
use magnifier_ball::overlay::{Event, MagnifierApp, Request, Stage};
use magnifier_ball::units::{PixelScale, SCALE_ONE};

const HWND: isize = 77;
const REGION: isize = 88;

struct World {
    window: isize,
    style: isize,
    affinity: i32,
    region: isize,
    now: u64,
    cursor: (i32, i32, i32),
    button: i16,
    screen_dc: isize,
    fill: [u8; 4],
}

fn quiet(now: u64) -> World {
    World {
        window: HWND,
        style: 0x100,
        affinity: 1,
        region: REGION,
        now,
        cursor: (1, 0, 0),
        button: 0,
        screen_dc: 1,
        fill: [10, 20, 30, 0],
    }
}

fn frame(app: &mut MagnifierApp, world: &World) -> (Vec<Request>, Option<ColorImage>) {
    frame_at(app, world, SCALE_ONE)
}

fn frame_at(
    app: &mut MagnifierApp,
    world: &World,
    fraction: u64,
) -> (Vec<Request>, Option<ColorImage>) {
    let screen = Screen::new(1_920_000_000_000, 1_080_000_000_000);
    let mut asked = Vec::new();
    let mut image = None;
    app.begin_frame(PixelScale { fraction });
    while let Some(request) = app.request() {
        asked.push(request);
        let event = match request {
            Request::FindWindow => Event::Window(world.window),
            Request::ReadStyle { .. } => Event::Style(world.style),
            Request::ExcludeFromCapture { .. } => Event::Affinity(world.affinity),
            Request::CreateRegion { .. } => Event::Region(world.region),
            Request::ReadClock => Event::Clock(world.now, screen),
            Request::ReadCursor => Event::Cursor(world.cursor.0, world.cursor.1, world.cursor.2),
            Request::ReadButton => Event::Button(world.button),
            Request::Gdi(call) => Event::Gdi(match call {
                GdiCall::AcquireScreen => GdiReply::Handle(world.screen_dc),
                GdiCall::CreateMemory { .. } => GdiReply::Handle(2),
                GdiCall::CreateBitmap { .. } => GdiReply::Handle(3),
                GdiCall::Select { .. } => GdiReply::Handle(4),
                GdiCall::Copy { .. } => GdiReply::Copied(1),
                GdiCall::Read { bytes, .. } => {
                    let mut buffer = Vec::new();
                    for at in 0..bytes {
                        buffer.push(world.fill[(at % 4) as usize]);
                    }
                    GdiReply::Read(360, buffer)
                }
                _ => GdiReply::Done,
            }),
            _ => Event::Done,
        };
        if let Some(next) = app.resume(event) {
            assert!(image.is_none());
            assert!(matches!(
                app.request(),
                Some(Request::CreateTexture { .. } | Request::ReplaceTexture)
            ));
            image = Some(next);
        }
    }
    assert!(app.stage == Stage::Idle);
    (asked, image)
}

fn without_capture(asked: &[Request]) -> Vec<Request> {
    let mut rest = Vec::new();
    for request in asked {
        if !matches!(request, Request::Gdi(_)) {
            rest.push(*request);
        }
    }
    rest
}

#[test]
fn a_new_overlay_waits_for_its_first_frame() {
    let app = MagnifierApp::new(123);
    assert_eq!(app.ball.pos, Position { x: 320_000_000_000, y: 240_000_000_000 });
    assert_eq!(app.ball.vel, Velocity { x: 230, y: 175 });
    assert_eq!(app.last_update, 123);
    assert_eq!(app.hwnd, 0);
    assert!(!app.styles_set && !app.excluded_from_capture && !app.region_initialized);
    assert!(!app.has_texture && !app.prev_mouse_down && !app.closing);
    assert!(app.request().is_none());
}

#[test]
fn the_first_frame_sets_the_window_up() {
    let mut app = MagnifierApp::new(0);
    let (asked, image) = frame(&mut app, &quiet(10_000_000));
    let start = CircleBounds { left: 140, top: 60, right: 500, bottom: 420 };
    let moved = CircleBounds { left: 142, top: 62, right: 502, bottom: 422 };
    let pos = Position { x: 322_300_000_000, y: 241_750_000_000 };
    assert_eq!(
        without_capture(&asked),
        vec![
            Request::FindWindow,
            Request::ReadStyle { hwnd: HWND },
            Request::WriteStyle { hwnd: HWND, style: 0x0800_0180 },
            Request::ExcludeFromCapture { hwnd: HWND },
            Request::CreateRegion { bounds: start },
            Request::ApplyRegion { hwnd: HWND, region: REGION },
            Request::ReadClock,
            Request::ReadCursor,
            Request::ReadButton,
            Request::CreateRegion { bounds: moved },
            Request::ApplyRegion { hwnd: HWND, region: REGION },
            Request::CreateTexture { side: 360 },
            Request::Draw { lens: Some(pos) },
            Request::Repaint,
        ]
    );
    assert!(asked.contains(&Request::Gdi(GdiCall::Copy {
        memory: 2,
        screen: 1,
        x: 142,
        y: 62,
        width: 360,
        height: 360,
        operation: 0x00cc_0020,
    })));
    let image = image.unwrap();
    assert_eq!(image.size, [360, 360]);
    assert_eq!(image.pixels.len(), 360 * 360);
    assert!(image.pixels.iter().all(|p| *p == Color32::from_rgb(30, 20, 10)));
    assert!(app.styles_set && app.excluded_from_capture && app.region_initialized);
    assert!(app.has_texture);
    assert_eq!(app.hwnd, HWND);
}

#[test]
fn later_frames_only_follow_the_ball() {
    let mut app = MagnifierApp::new(0);
    frame(&mut app, &quiet(10_000_000));
    let (asked, _) = frame(&mut app, &quiet(20_000_000));
    assert_eq!(
        without_capture(&asked),
        vec![
            Request::ReadClock,
            Request::ReadCursor,
            Request::ReadButton,
            Request::CreateRegion {
                bounds: CircleBounds { left: 145, top: 64, right: 505, bottom: 424 }
            },
            Request::ApplyRegion { hwnd: HWND, region: REGION },
            Request::ReplaceTexture,
            Request::Draw { lens: Some(Position { x: 324_600_000_000, y: 243_500_000_000 }) },
            Request::Repaint,
        ]
    );
}

#[test]
fn a_missing_window_is_looked_for_again() {
    let mut app = MagnifierApp::new(0);
    for now in 1..4u64 {
        let (asked, _) = frame(&mut app, &World { window: 0, screen_dc: 0, ..quiet(now) });
        assert_eq!(
            asked,
            vec![
                Request::FindWindow,
                Request::ReadClock,
                Request::ReadCursor,
                Request::ReadButton,
                Request::Gdi(GdiCall::AcquireScreen),
                Request::Draw { lens: None },
                Request::Repaint,
            ]
        );
    }
    let (asked, _) = frame(&mut app, &quiet(4));
    assert_eq!(asked[0], Request::FindWindow);
    assert_eq!(app.hwnd, HWND);
}

#[test]
fn hiding_from_captures_is_tried_again() {
    let mut app = MagnifierApp::new(0);
    frame(&mut app, &World { affinity: 0, ..quiet(1) });
    assert!(!app.excluded_from_capture && app.styles_set && app.region_initialized);
    let (asked, _) = frame(&mut app, &World { affinity: 5, ..quiet(2) });
    assert_eq!(asked[0], Request::ExcludeFromCapture { hwnd: HWND });
    assert!(app.excluded_from_capture);
    let (asked, _) = frame(&mut app, &quiet(3));
    assert_eq!(asked[0], Request::ReadClock);
}

#[test]
fn a_region_that_was_not_created_is_not_applied() {
    let mut app = MagnifierApp::new(0);
    let (asked, _) = frame(&mut app, &World { region: 0, ..quiet(1) });
    assert!(!asked.iter().any(|r| matches!(r, Request::ApplyRegion { .. })));
    assert!(app.region_initialized);
}

#[test]
fn a_click_on_the_ball_closes_once() {
    let mut app = MagnifierApp::new(0);
    frame(&mut app, &quiet(1));
    let press = World { cursor: (1, 320, 240), button: i16::MIN, ..quiet(7) };
    let (asked, _) = frame(&mut app, &press);
    assert!(asked.contains(&Request::Close { x: 320, y: 240, elapsed: 7 }));
    assert!(app.closing);
    frame(&mut app, &quiet(8));
    let (asked, _) = frame(&mut app, &press);
    assert!(!asked.iter().any(|r| matches!(r, Request::Close { .. })));
    assert!(app.closing);
}

#[test]
fn a_click_beside_the_ball_does_nothing() {
    let mut app = MagnifierApp::new(0);
    let (asked, _) =
        frame(&mut app, &World { cursor: (1, 10, 10), button: i16::MIN, ..quiet(1) });
    assert!(!asked.iter().any(|r| matches!(r, Request::Close { .. })));
    assert!(!app.closing && app.prev_mouse_down);
}

#[test]
fn a_button_held_onto_the_ball_does_not_close() {
    let mut app = MagnifierApp::new(0);
    frame(&mut app, &World { cursor: (1, 10, 10), button: i16::MIN, ..quiet(1) });
    let held = World { cursor: (1, 320, 240), button: i16::MIN, ..quiet(2) };
    frame(&mut app, &held);
    assert!(!app.closing);
    frame(&mut app, &World { cursor: (1, 320, 240), ..quiet(3) });
    assert!(!app.prev_mouse_down);
    frame(&mut app, &held);
    assert!(app.closing);
}

#[test]
fn an_unreadable_cursor_changes_nothing() {
    let mut app = MagnifierApp::new(0);
    frame(&mut app, &World { cursor: (1, 10, 10), button: i16::MIN, ..quiet(1) });
    let (asked, _) =
        frame(&mut app, &World { cursor: (0, 320, 240), button: i16::MIN, ..quiet(2) });
    assert!(!asked.contains(&Request::ReadButton));
    assert!(app.prev_mouse_down && !app.closing);
}

#[test]
fn the_texture_outlives_a_failed_capture() {
    let mut app = MagnifierApp::new(0);
    let (asked, image) = frame(&mut app, &World { screen_dc: 0, ..quiet(0) });
    assert!(image.is_none() && !app.has_texture);
    assert!(asked.contains(&Request::Draw { lens: None }));
    frame(&mut app, &quiet(0));
    assert!(app.has_texture);
    let (asked, image) = frame(&mut app, &World { screen_dc: 0, ..quiet(0) });
    assert!(image.is_none() && app.has_texture);
    assert!(asked.contains(&Request::Draw { lens: Some(app.ball.pos) }));
}

#[test]
fn a_long_pause_moves_the_ball_no_farther_than_the_longest_frame() {
    let mut app = MagnifierApp::new(0);
    frame(&mut app, &quiet(9_000_000_000));
    assert_eq!(app.ball.pos, Position { x: 331_500_000_000, y: 248_750_000_000 });
    assert_eq!(app.last_update, 9_000_000_000);
    frame(&mut app, &quiet(8_000_000_000));
    assert_eq!(app.ball.pos, Position { x: 331_500_000_000, y: 248_750_000_000 });
    assert_eq!(app.last_update, 8_000_000_000);
}

#[test]
fn every_frame_hands_over_what_it_captured() {
    let mut app = MagnifierApp::new(0);
    let (_, image) = frame(&mut app, &World { fill: [1, 2, 3, 4], ..quiet(1) });
    let image = image.unwrap();
    assert_eq!(image.size, [360, 360]);
    assert!(image.pixels.iter().all(|p| *p == Color32::from_rgb(3, 2, 1)));
    // half a pixel per point
    let world = World { fill: [50, 60, 70, 80], ..quiet(2) };
    let (_, image) = frame_at(&mut app, &world, SCALE_ONE / 2);
    let image = image.unwrap();
    assert_eq!(image.size, [180, 180]);
    assert_eq!(image.pixels.len(), 180 * 180);
    assert!(image.pixels.iter().all(|p| *p == Color32::from_rgb(70, 60, 50)));
}

#[test]
fn nothing_is_captured_at_scale_zero() {
    let mut app = MagnifierApp::new(0);
    let (asked, image) = frame_at(&mut app, &quiet(1), 0);
    assert!(image.is_none() && !app.has_texture);
    assert_eq!(asked, without_capture(&asked));
    assert!(asked.contains(&Request::Draw { lens: None }));
}

#[test]
fn a_frame_can_be_run_at_a_large_scale() {
    let mut app = MagnifierApp::new(0);
    let world = World { screen_dc: 0, ..quiet(0) };
    let (asked, _) = frame_at(&mut app, &world, 100 * SCALE_ONE);
    let bounds = CircleBounds { left: 14_000, top: 6_000, right: 50_000, bottom: 42_000 };
    assert!(asked.contains(&Request::CreateRegion { bounds }));
}
