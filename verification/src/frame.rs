//! What holds of the overlay over whole frames and over its whole life.

use vstd::prelude::*;

use crate::capture::{all_go_well, calls_left, calls_made, concluded, reply_to};
use crate::capture::{capture_needs_every_call, captures_release_in_reverse, GdiCall};
use crate::capture::{CaptureSession, CaptureStage, Outcomes};
use crate::geometry::{area_under, lies_under_the_ball, region_of, surrounds_the_ball};
use crate::geometry::{the_capture_lies_under_the_ball, the_region_surrounds_the_ball};
use crate::motion::{frame_span, frames_lose_no_time, moves_and_bounces, Screen};
use crate::motion::{the_ball_moves_and_bounces, BALL_RADIUS};
use crate::overlay::{answered, answers_keep_the_overlay_well_formed};
use crate::overlay::{Event, MagnifierApp, Request, Stage};
use crate::pixels::{conversion_keeps_the_colours, opaque_rgba, rgba_pixels};
use crate::pointer::on_ball;
use crate::units::{is_nearest_pixel, one_pixel_is_nearest, PixelScale};

verus! {

/// The number of requests that a frame may still make.
pub open spec fn requests_left(app: MagnifierApp) -> nat {
    match app.stage {
        Stage::FindWindow => 25,
        Stage::ReadStyle => 24,
        Stage::WriteStyle(_) => 23,
        Stage::ExcludeFromCapture => 22,
        Stage::InstallRegion => 21,
        Stage::ApplyFirstRegion(_) => 20,
        Stage::ReadClock => 19,
        Stage::ReadCursor => 18,
        Stage::ReadButton { .. } => 17,
        Stage::Close { .. } => 16,
        Stage::MoveRegion => 15,
        Stage::ApplyRegion(_) => 14,
        Stage::Capture => if app.capture->0.stage == CaptureStage::Finished {
            4
        } else {
            3 + calls_left(app.capture->0.stage)
        },
        Stage::StoreTexture => 3,
        Stage::Draw => 2,
        Stage::Repaint => 1,
        Stage::Idle => 0,
    }
}

/// A frame comes to its end: each answer brings it closer.
pub proof fn frames_end(app: MagnifierApp, event: Event)
    requires
        app.stage != Stage::Idle,
    ensures
        requests_left(app.after(event)) < requests_left(app),
        requests_left(app) <= 25,
{
}

/// What is reached stays reached: a window once found is kept, its style, its
/// circle and its absence from captures are set up once, the texture is created
/// once, and a window that is closing stays closing.
pub proof fn nothing_is_undone(app: MagnifierApp, event: Event)
    requires
        app.wf(),
        app.stage != Stage::Idle,
        answered(app.pending(), event),
    ensures
        app.hwnd != 0 ==> app.after(event).hwnd == app.hwnd,
        app.styles_set ==> app.after(event).styles_set,
        app.excluded_from_capture ==> app.after(event).excluded_from_capture,
        app.region_initialized ==> app.after(event).region_initialized,
        app.has_texture ==> app.after(event).has_texture,
        app.closing ==> app.after(event).closing,
{
}

/// Whatever is done to a window is done to one that was found, and with a region
/// that was created.
pub proof fn requests_name_real_handles(app: MagnifierApp)
    requires
        app.wf(),
        app.stage != Stage::Idle,
    ensures
        match app.pending() {
            Request::ReadStyle { hwnd } => hwnd != 0,
            Request::WriteStyle { hwnd, .. } => hwnd != 0,
            Request::ExcludeFromCapture { hwnd } => hwnd != 0,
            Request::ApplyRegion { hwnd, region } => hwnd != 0 && region != 0,
            _ => true,
        },
{
}

/// A region that was created goes to the window at once, so none is left over
/// and none is used twice.
pub proof fn regions_go_to_the_window(app: MagnifierApp, event: Event)
    requires
        app.wf(),
        app.stage != Stage::Idle,
        answered(app.pending(), event),
    ensures
        app.after(event).pending() is ApplyRegion <==> (event matches Event::Region(region)
            && region != 0),
        event matches Event::Region(region) ==> (region != 0 ==> app.after(event).pending()
            == (Request::ApplyRegion { hwnd: app.hwnd, region })),
{
}

/// The overlay does not go on as a rectangle: outside the steps that set the
/// window up, a window that was found has been given its circle, or the system
/// could not make one. Nothing is moved, captured or drawn before that.
pub proof fn a_window_has_its_circle(app: MagnifierApp)
    requires
        app.wf(),
        app.hwnd != 0,
        !app.in_setup(),
    ensures
        app.region_initialized,
{
}

/// An image is handed over exactly where the texture is to be filled next.
pub proof fn images_go_into_the_texture(app: MagnifierApp, event: Event)
    requires
        app.wf(),
        app.stage != Stage::Idle,
        answered(app.pending(), event),
    ensures
        app.handed_over(event) is Some <==> app.after(event).stage == Stage::StoreTexture,
{
}

/// The window is asked to close exactly on a fresh press of the button on the
/// ball.
pub proof fn only_a_fresh_press_closes(app: MagnifierApp, event: Event)
    requires
        app.wf(),
        app.stage != Stage::Idle,
        answered(app.pending(), event),
    ensures
        app.after(event).stage is Close <==> (match (app.stage, event) {
            (Stage::ReadButton { x, y }, Event::Button(button)) => app.closes_on(x, y, button),
            _ => false,
        }),
{
}

/// Only a reading of the mouse changes what is known of the button, and while it
/// is known to be held no reading closes the window.
pub proof fn a_held_button_never_closes(app: MagnifierApp, event: Event)
    requires
        app.wf(),
        app.stage != Stage::Idle,
        answered(app.pending(), event),
    ensures
        app.after(event).prev_mouse_down == (match (app.stage, event) {
            (Stage::ReadButton { .. }, Event::Button(button)) => button < 0,
            _ => app.prev_mouse_down,
        }),
        app.prev_mouse_down ==> !(app.after(event).stage is Close),
{
}

/// On a screen that the ball fits into, the ball lies on the screen after every
/// motion.
pub proof fn motion_stays_on_the_screen(app: MagnifierApp, now: u64, screen: Screen)
    requires
        app.wf(),
        app.stage == Stage::ReadClock,
        screen.wf(),
        screen.fits_ball(),
    ensures
        app.after(Event::Clock(now, screen)).ball.inside(screen),
{
}

/// One step of the overlay's life: a new frame, or an answer within one.
pub enum Step {
    Begin(PixelScale),
    Answer(Event),
}

/// The step can happen.
pub open spec fn possible(app: MagnifierApp, step: Step) -> bool {
    match step {
        Step::Begin(_) => app.stage == Stage::Idle,
        Step::Answer(event) => app.stage != Stage::Idle && answered(app.pending(), event),
    }
}

/// The overlay after the step.
pub open spec fn stepped(app: MagnifierApp, step: Step) -> MagnifierApp {
    match step {
        Step::Begin(scale) => app.begun(scale),
        Step::Answer(event) => app.after(event),
    }
}

/// The steps can happen one after the other.
pub open spec fn all_possible(app: MagnifierApp, steps: Seq<Step>) -> bool
    decreases steps.len(),
{
    steps.len() > 0 ==> possible(app, steps[0]) && all_possible(
        stepped(app, steps[0]),
        steps.drop_first(),
    )
}

/// How often the window is asked to close in the course of the steps.
pub open spec fn close_requests(app: MagnifierApp, steps: Seq<Step>) -> nat
    decreases steps.len(),
{
    if steps.len() == 0 {
        0
    } else {
        let next = stepped(app, steps[0]);
        close_requests(next, steps.drop_first()) + if next.stage is Close {
            1nat
        } else {
            0nat
        }
    }
}

/// Every step keeps the overlay well formed.
pub proof fn steps_keep_the_overlay_well_formed(app: MagnifierApp, step: Step)
    requires
        app.wf(),
        possible(app, step),
    ensures
        stepped(app, step).wf(),
{
    match step {
        Step::Begin(_) => {},
        Step::Answer(event) => {
            answers_keep_the_overlay_well_formed(app, event);
        },
    }
}

/// Over its whole life the window is asked to close once at most.
pub proof fn the_window_closes_once(app: MagnifierApp, steps: Seq<Step>)
    requires
        app.wf(),
        all_possible(app, steps),
    ensures
        close_requests(app, steps) <= 1,
        app.closing ==> close_requests(app, steps) == 0,
    decreases steps.len(),
{
    if steps.len() > 0 {
        let next = stepped(app, steps[0]);
        steps_keep_the_overlay_well_formed(app, steps[0]);
        the_window_closes_once(next, steps.drop_first());
    }
}

/// How everything that a frame asks for turns out.
pub struct FrameOutcomes {
    pub window: isize,
    pub style: isize,
    pub affinity: i32,
    pub now: u64,
    pub screen: Screen,
    pub cursor_status: i32,
    pub cursor_x: i32,
    pub cursor_y: i32,
    pub button: i16,
    pub first_region: isize,
    pub region: isize,
    pub gdi: Outcomes,
}

/// The answer to the pending request, where everything turns out as `outcomes` says.
pub open spec fn event_for(app: MagnifierApp, outcomes: FrameOutcomes) -> Event {
    match app.pending() {
        Request::FindWindow => Event::Window(outcomes.window),
        Request::ReadStyle { .. } => Event::Style(outcomes.style),
        Request::ExcludeFromCapture { .. } => Event::Affinity(outcomes.affinity),
        Request::ReadClock => Event::Clock(outcomes.now, outcomes.screen),
        Request::CreateRegion { .. } => Event::Region(
            if app.stage == Stage::InstallRegion {
                outcomes.first_region
            } else {
                outcomes.region
            },
        ),
        Request::ReadCursor => Event::Cursor(
            outcomes.cursor_status,
            outcomes.cursor_x,
            outcomes.cursor_y,
        ),
        Request::ReadButton => Event::Button(outcomes.button),
        Request::Gdi(call) => Event::Gdi(reply_to(call, outcomes.gdi)),
        _ => Event::Done,
    }
}

/// The overlay after one more request.
pub open spec fn carried_on(app: MagnifierApp, outcomes: FrameOutcomes) -> MagnifierApp {
    app.after(event_for(app, outcomes))
}

/// The overlay at the end of the frame.
#[verifier::opaque]
pub open spec fn frame_end(app: MagnifierApp, outcomes: FrameOutcomes) -> MagnifierApp
    decreases requests_left(app),
{
    if app.stage == Stage::Idle {
        app
    } else {
        proof {
            frames_end(app, event_for(app, outcomes));
        }
        frame_end(carried_on(app, outcomes), outcomes)
    }
}

/// The requests that the frame still makes, in order.
#[verifier::opaque]
pub open spec fn frame_requests(app: MagnifierApp, outcomes: FrameOutcomes) -> Seq<Request>
    decreases requests_left(app),
{
    if app.stage == Stage::Idle {
        Seq::empty()
    } else {
        proof {
            frames_end(app, event_for(app, outcomes));
        }
        seq![app.pending()] + frame_requests(carried_on(app, outcomes), outcomes)
    }
}

/// The images that the frame still hands over, in order, each as its side and
/// its pixels.
#[verifier::opaque]
pub open spec fn frame_images(app: MagnifierApp, outcomes: FrameOutcomes) -> Seq<
    (usize, Seq<(u8, u8, u8, u8)>),
>
    decreases requests_left(app),
{
    if app.stage == Stage::Idle {
        Seq::empty()
    } else {
        proof {
            frames_end(app, event_for(app, outcomes));
        }
        let rest = frame_images(carried_on(app, outcomes), outcomes);
        match app.handed_over(event_for(app, outcomes)) {
            Some(image) => seq![image] + rest,
            None => rest,
        }
    }
}

/// The requests of `rest`, after this one if the condition holds.
pub open spec fn asked_if(condition: bool, request: Request, rest: Seq<Request>) -> Seq<Request> {
    if condition {
        seq![request] + rest
    } else {
        rest
    }
}

/// The calls of a capture as requests.
pub open spec fn capture_requests(session: CaptureSession, outcomes: Outcomes) -> Seq<Request> {
    calls_made(session, outcomes).map_values(|call| Request::Gdi(call))
}

/// A frame is its next request and what follows.
proof fn request_by_request(app: MagnifierApp, outcomes: FrameOutcomes)
    ensures
        app.stage == Stage::Idle ==> {
            &&& frame_end(app, outcomes) == app
            &&& frame_requests(app, outcomes) == Seq::<Request>::empty()
            &&& frame_images(app, outcomes) == Seq::<(usize, Seq<(u8, u8, u8, u8)>)>::empty()
        },
        app.stage != Stage::Idle ==> {
            let next = carried_on(app, outcomes);
            &&& frame_end(app, outcomes) == frame_end(next, outcomes)
            &&& frame_requests(app, outcomes) == seq![app.pending()] + frame_requests(
                next,
                outcomes,
            )
            &&& frame_images(app, outcomes) == (match app.handed_over(event_for(app, outcomes)) {
                Some(image) => seq![image] + frame_images(next, outcomes),
                None => frame_images(next, outcomes),
            })
        },
{
    reveal_with_fuel(frame_end, 2);
    reveal_with_fuel(frame_requests, 2);
    reveal_with_fuel(frame_images, 2);
}

/// A frame that has come to drawing draws the lens about the ball, where there
/// is a texture, and asks for the next frame.
proof fn from_drawing(app: MagnifierApp, outcomes: FrameOutcomes)
    requires
        app.stage == Stage::Draw,
    ensures
        frame_end(app, outcomes) == (MagnifierApp { stage: Stage::Idle, ..app }),
        frame_requests(app, outcomes) =~= seq![app.pending(), Request::Repaint],
        frame_images(app, outcomes).len() == 0,
{
    let repaint = MagnifierApp { stage: Stage::Repaint, ..app };
    request_by_request(app, outcomes);
    request_by_request(repaint, outcomes);
    request_by_request(MagnifierApp { stage: Stage::Idle, ..app }, outcomes);
}

/// The overlay when a capture has come to its end.
pub open spec fn capture_ended(app: MagnifierApp, session: CaptureSession) -> MagnifierApp {
    MagnifierApp {
        capture: None,
        stage: if session.outcome() is Some {
            Stage::StoreTexture
        } else {
            Stage::Draw
        },
        ..app
    }
}

/// The images that a capture hands over at its end.
pub open spec fn capture_images(app: MagnifierApp, session: CaptureSession) -> Seq<
    (usize, Seq<(u8, u8, u8, u8)>),
> {
    if session.outcome() is Some {
        seq![(app.captured_area().size as usize, rgba_pixels(session.outcome()->0))]
    } else {
        Seq::empty()
    }
}

/// A capture makes its calls, hands over what it has captured, and goes on to
/// what follows it.
proof fn from_capturing(app: MagnifierApp, outcomes: FrameOutcomes)
    requires
        app.stage == Stage::Capture,
        app.capture is Some,
        app.capture->0.stage != CaptureStage::Finished,
    ensures
        ({
            let session = app.capture->0;
            let next = capture_ended(app, concluded(session, outcomes.gdi));
            &&& frame_end(app, outcomes) == frame_end(next, outcomes)
            &&& frame_requests(app, outcomes) =~= capture_requests(session, outcomes.gdi)
                + frame_requests(next, outcomes)
            &&& frame_images(app, outcomes) =~= capture_images(
                app,
                concluded(session, outcomes.gdi),
            ) + frame_images(next, outcomes)
        }),
    decreases calls_left(app.capture->0.stage),
{
    let session = app.capture->0;
    let later = session.after(reply_to(session.pending(), outcomes.gdi));
    let next = carried_on(app, outcomes);
    request_by_request(app, outcomes);
    assert(concluded(session, outcomes.gdi) == concluded(later, outcomes.gdi));
    assert(calls_made(session, outcomes.gdi) == seq![session.pending()] + calls_made(
        later,
        outcomes.gdi,
    ));
    if later.stage == CaptureStage::Finished {
        assert(next == capture_ended(app, later));
    } else {
        assert(next == MagnifierApp { capture: Some(later), ..app });
        from_capturing(next, outcomes);
        assert(capture_ended(next, concluded(later, outcomes.gdi)) == capture_ended(
            app,
            concluded(later, outcomes.gdi),
        ));
    }
    assert(capture_requests(session, outcomes.gdi) =~= seq![app.pending()] + capture_requests(
        later,
        outcomes.gdi,
    ));
}

/// The frame captures the desktop under the ball, where that is not empty.
pub open spec fn captures(app: MagnifierApp, outcomes: FrameOutcomes) -> bool {
    area_under(app.ball.pos, app.scale).size > 0 && all_go_well(outcomes.gdi)
}

/// The requests from the capture to the end of the frame.
pub open spec fn closing_requests(app: MagnifierApp, outcomes: FrameOutcomes) -> Seq<Request> {
    let area = area_under(app.ball.pos, app.scale);
    let store = if app.has_texture {
        Request::ReplaceTexture
    } else {
        Request::CreateTexture { side: area.size }
    };
    let lens = if app.has_texture || captures(app, outcomes) {
        Some(app.ball.pos)
    } else {
        None
    };
    let rest = asked_if(
        captures(app, outcomes),
        store,
        seq![Request::Draw { lens }, Request::Repaint],
    );
    if area.size > 0 {
        let session = CaptureSession::fresh(area.x, area.y, area.size, area.size);
        capture_requests(session, outcomes.gdi) + rest
    } else {
        rest
    }
}

/// The images from the capture to the end of the frame: the captured pixels,
/// where all went well.
pub open spec fn images_from_capture(app: MagnifierApp, outcomes: FrameOutcomes) -> Seq<
    (usize, Seq<(u8, u8, u8, u8)>),
> {
    if captures(app, outcomes) {
        let pixels = rgba_pixels(opaque_rgba(outcomes.gdi.buffer@));
        seq![(area_under(app.ball.pos, app.scale).size as usize, pixels)]
    } else {
        Seq::empty()
    }
}

/// The overlay at the end of a frame that is about to capture.
pub open spec fn closed_frame(app: MagnifierApp, outcomes: FrameOutcomes) -> MagnifierApp {
    MagnifierApp {
        has_texture: app.has_texture || captures(app, outcomes),
        stage: Stage::Idle,
        ..app
    }
}

/// From the capture on, the frame ends as stated.
proof fn from_capture(app: MagnifierApp, outcomes: FrameOutcomes)
    requires
        app.capture is None,
    ensures
        frame_end(app.to_capture(), outcomes) == closed_frame(app, outcomes),
        frame_requests(app.to_capture(), outcomes) == closing_requests(app, outcomes),
        frame_images(app.to_capture(), outcomes) =~= images_from_capture(app, outcomes),
{
    let area = app.captured_area();
    let start = app.to_capture();
    if area.size > 0 {
        let session = CaptureSession::fresh(area.x, area.y, area.size, area.size);
        capture_needs_every_call(session, outcomes.gdi);
        from_capturing(start, outcomes);
        let next = capture_ended(start, concluded(session, outcomes.gdi));
        if captures(app, outcomes) {
            let drawing = MagnifierApp { has_texture: true, stage: Stage::Draw, ..next };
            request_by_request(next, outcomes);
            assert(carried_on(next, outcomes) == drawing);
            from_drawing(drawing, outcomes);
        } else {
            from_drawing(next, outcomes);
        }
    } else {
        from_drawing(start, outcomes);
    }
}

/// The requests from the moving of the circle to the end of the frame.
pub open spec fn moving_requests(app: MagnifierApp, outcomes: FrameOutcomes) -> Seq<Request> {
    let bounds = region_of(app.ball.pos, app.scale);
    asked_if(
        app.hwnd != 0,
        Request::CreateRegion { bounds },
        asked_if(
            app.hwnd != 0 && outcomes.region != 0,
            Request::ApplyRegion { hwnd: app.hwnd, region: outcomes.region },
            closing_requests(app, outcomes),
        ),
    )
}

/// From the moving of the circle on, the frame ends as stated.
proof fn from_move(app: MagnifierApp, outcomes: FrameOutcomes)
    requires
        app.capture is None,
    ensures
        frame_end(app.to_move(), outcomes) == closed_frame(app, outcomes),
        frame_requests(app.to_move(), outcomes) == moving_requests(app, outcomes),
        frame_images(app.to_move(), outcomes) =~= images_from_capture(app, outcomes),
{
    from_capture(app, outcomes);
    if app.hwnd != 0 {
        let moving = app.to_move();
        request_by_request(moving, outcomes);
        if outcomes.region != 0 {
            let applying = MagnifierApp { stage: Stage::ApplyRegion(outcomes.region), ..app };
            request_by_request(applying, outcomes);
            assert(carried_on(moving, outcomes) == applying);
            assert(carried_on(applying, outcomes) == applying.to_capture());
            assert(applying.to_capture() == app.to_capture());
        } else {
            assert(carried_on(moving, outcomes) == moving.to_capture());
            assert(moving.to_capture() == app.to_capture());
        }
    }
}

/// The overlay once the ball has moved.
pub open spec fn moved_on(app: MagnifierApp, outcomes: FrameOutcomes) -> MagnifierApp {
    MagnifierApp {
        ball: app.ball.advanced(frame_span(app.last_update, outcomes.now), outcomes.screen),
        last_update: outcomes.now,
        ..app
    }
}

/// The mouse closes the window.
pub open spec fn clicked(app: MagnifierApp, outcomes: FrameOutcomes) -> bool {
    &&& !app.closing
    &&& outcomes.cursor_status != 0
    &&& outcomes.button < 0
    &&& !app.prev_mouse_down
    &&& on_ball(app.ball.pos, app.scale, outcomes.cursor_x as int, outcomes.cursor_y as int)
}

/// The overlay once the mouse was read.
pub open spec fn pointed(app: MagnifierApp, outcomes: FrameOutcomes) -> MagnifierApp {
    MagnifierApp {
        closing: app.closing || clicked(app, outcomes),
        prev_mouse_down: if outcomes.cursor_status != 0 {
            outcomes.button < 0
        } else {
            app.prev_mouse_down
        },
        ..app
    }
}

/// The requests from the mouse to the end of the frame.
pub open spec fn pointer_requests(app: MagnifierApp, outcomes: FrameOutcomes) -> Seq<Request> {
    let close = Request::Close {
        x: outcomes.cursor_x,
        y: outcomes.cursor_y,
        elapsed: app.last_update,
    };
    seq![Request::ReadCursor] + asked_if(
        outcomes.cursor_status != 0,
        Request::ReadButton,
        asked_if(clicked(app, outcomes), close, moving_requests(app, outcomes)),
    )
}

/// The requests from the clock to the end of the frame.
pub open spec fn motion_requests(app: MagnifierApp, outcomes: FrameOutcomes) -> Seq<Request> {
    let moved = moved_on(app, outcomes);
    seq![Request::ReadClock] + pointer_requests(moved, outcomes)
}

/// From the mouse on, the frame ends as stated.
proof fn from_pointer(app: MagnifierApp, outcomes: FrameOutcomes)
    requires
        app.capture is None,
        app.stage == Stage::ReadCursor,
    ensures
        frame_end(app, outcomes) == closed_frame(pointed(app, outcomes), outcomes),
        frame_requests(app, outcomes) == pointer_requests(app, outcomes),
        frame_images(app, outcomes) == images_from_capture(app, outcomes),
{
    let (x, y) = (outcomes.cursor_x, outcomes.cursor_y);
    let told = pointed(app, outcomes);
    assert(moving_requests(told, outcomes) == moving_requests(app, outcomes));
    request_by_request(app, outcomes);
    from_move(told, outcomes);
    if outcomes.cursor_status != 0 {
        let reading = MagnifierApp { stage: Stage::ReadButton { x, y }, ..app };
        request_by_request(reading, outcomes);
        assert(carried_on(app, outcomes) == reading);
        if clicked(app, outcomes) {
            let closing = MagnifierApp { stage: Stage::Close { x, y }, ..told };
            request_by_request(closing, outcomes);
            assert(carried_on(reading, outcomes) == closing);
            assert(carried_on(closing, outcomes) == closing.to_move());
            assert(closing.to_move() == told.to_move());
        } else {
            assert(carried_on(reading, outcomes) == told.to_move());
        }
    } else {
        assert(carried_on(app, outcomes) == told.to_move());
    }
}

/// From the clock on, the frame ends as stated.
proof fn from_clock(app: MagnifierApp, outcomes: FrameOutcomes)
    requires
        app.capture is None,
        app.stage == Stage::ReadClock,
    ensures
        frame_end(app, outcomes) == closed_frame(
            pointed(moved_on(app, outcomes), outcomes),
            outcomes,
        ),
        frame_requests(app, outcomes) == motion_requests(app, outcomes),
        frame_images(app, outcomes) == images_from_capture(moved_on(app, outcomes), outcomes),
{
    let moved = moved_on(app, outcomes);
    let reading = MagnifierApp { stage: Stage::ReadCursor, ..moved };
    request_by_request(app, outcomes);
    assert(carried_on(app, outcomes) == reading);
    from_pointer(reading, outcomes);
    assert(clicked(reading, outcomes) == clicked(moved, outcomes));
    assert(moving_requests(reading, outcomes) == moving_requests(moved, outcomes));
}

/// The overlay with everything set up that a window allows.
pub open spec fn set_up(app: MagnifierApp, outcomes: FrameOutcomes) -> MagnifierApp {
    MagnifierApp {
        styles_set: app.styles_set || app.hwnd != 0,
        excluded_from_capture: app.excluded_from_capture || (app.hwnd != 0 && outcomes.affinity
            != 0),
        region_initialized: app.region_initialized || app.hwnd != 0,
        stage: Stage::ReadClock,
        ..app
    }
}

/// The requests that give the window its first circle, before the given others.
pub open spec fn region_requests(
    app: MagnifierApp,
    outcomes: FrameOutcomes,
    rest: Seq<Request>,
) -> Seq<Request> {
    let missing = app.hwnd != 0 && !app.region_initialized;
    asked_if(
        missing,
        Request::CreateRegion { bounds: region_of(app.ball.pos, app.scale) },
        asked_if(
            missing && outcomes.first_region != 0,
            Request::ApplyRegion { hwnd: app.hwnd, region: outcomes.first_region },
            rest,
        ),
    )
}

/// The requests that set the window up, before the given others.
pub open spec fn setup_requests(
    app: MagnifierApp,
    outcomes: FrameOutcomes,
    rest: Seq<Request>,
) -> Seq<Request> {
    let hwnd = app.hwnd;
    let style = outcomes.style | 0x0800_0080isize;
    let missing = hwnd != 0 && !app.styles_set;
    asked_if(
        missing,
        Request::ReadStyle { hwnd },
        asked_if(
            missing,
            Request::WriteStyle { hwnd, style },
            asked_if(
                hwnd != 0 && !app.excluded_from_capture,
                Request::ExcludeFromCapture { hwnd },
                region_requests(app, outcomes, rest),
            ),
        ),
    )
}

/// The overlay with its first circle, where there is a window.
pub open spec fn with_region(app: MagnifierApp) -> MagnifierApp {
    MagnifierApp {
        region_initialized: app.region_initialized || app.hwnd != 0,
        stage: Stage::ReadClock,
        ..app
    }
}

/// The overlay hidden from captures, where that works.
pub open spec fn with_exclusion(app: MagnifierApp, outcomes: FrameOutcomes) -> MagnifierApp {
    MagnifierApp {
        excluded_from_capture: app.excluded_from_capture || (app.hwnd != 0 && outcomes.affinity
            != 0),
        ..app
    }
}

/// The overlay with its style, where there is a window.
pub open spec fn with_styles(app: MagnifierApp) -> MagnifierApp {
    MagnifierApp { styles_set: app.styles_set || app.hwnd != 0, ..app }
}

/// The first circle is installed where it is missing.
proof fn from_region(app: MagnifierApp, outcomes: FrameOutcomes)
    ensures
        frame_end(app.to_region(), outcomes) == frame_end(with_region(app), outcomes),
        frame_images(app.to_region(), outcomes) == frame_images(with_region(app), outcomes),
        frame_requests(app.to_region(), outcomes) == region_requests(
            app,
            outcomes,
            frame_requests(with_region(app), outcomes),
        ),
{
    if app.hwnd != 0 && !app.region_initialized {
        let creating = app.to_region();
        request_by_request(creating, outcomes);
        if outcomes.first_region != 0 {
            let applying = MagnifierApp {
                stage: Stage::ApplyFirstRegion(outcomes.first_region),
                ..app
            };
            request_by_request(applying, outcomes);
            assert(carried_on(creating, outcomes) == applying);
            assert(carried_on(applying, outcomes) == with_region(app));
        } else {
            assert(carried_on(creating, outcomes) == with_region(app));
        }
    } else {
        assert(app.to_region() == with_region(app));
    }
}

/// The window is hidden from captures where it is not hidden yet.
proof fn from_exclusion(app: MagnifierApp, outcomes: FrameOutcomes)
    ensures
        ({
            let next = with_exclusion(app, outcomes).to_region();
            &&& frame_end(app.to_exclusion(), outcomes) == frame_end(next, outcomes)
            &&& frame_images(app.to_exclusion(), outcomes) == frame_images(next, outcomes)
            &&& frame_requests(app.to_exclusion(), outcomes) == asked_if(
                app.hwnd != 0 && !app.excluded_from_capture,
                Request::ExcludeFromCapture { hwnd: app.hwnd },
                frame_requests(next, outcomes),
            )
        }),
{
    let next = with_exclusion(app, outcomes).to_region();
    if app.hwnd != 0 && !app.excluded_from_capture {
        request_by_request(app.to_exclusion(), outcomes);
        assert(carried_on(app.to_exclusion(), outcomes) == next);
    } else {
        assert(with_exclusion(app, outcomes) == app);
    }
}

/// The style is set where it is not set yet.
proof fn from_styles(app: MagnifierApp, outcomes: FrameOutcomes)
    ensures
        ({
            let next = with_styles(app).to_exclusion();
            let missing = app.hwnd != 0 && !app.styles_set;
            let style = outcomes.style | 0x0800_0080isize;
            &&& frame_end(app.to_styles(), outcomes) == frame_end(next, outcomes)
            &&& frame_images(app.to_styles(), outcomes) == frame_images(next, outcomes)
            &&& frame_requests(app.to_styles(), outcomes) == asked_if(
                missing,
                Request::ReadStyle { hwnd: app.hwnd },
                asked_if(
                    missing,
                    Request::WriteStyle { hwnd: app.hwnd, style },
                    frame_requests(next, outcomes),
                ),
            )
        }),
{
    if app.hwnd != 0 && !app.styles_set {
        let reading = app.to_styles();
        let writing = MagnifierApp {
            stage: Stage::WriteStyle(outcomes.style | 0x0800_0080isize),
            ..app
        };
        request_by_request(reading, outcomes);
        request_by_request(writing, outcomes);
        assert(carried_on(reading, outcomes) == writing);
        assert(carried_on(writing, outcomes) == with_styles(app).to_exclusion());
    } else {
        assert(with_styles(app) == app);
        assert(app.to_styles() == app.to_exclusion());
    }
}

/// The window is set up as far as it is not set up yet.
proof fn from_setup(app: MagnifierApp, outcomes: FrameOutcomes)
    ensures
        frame_end(app.to_styles(), outcomes) == frame_end(set_up(app, outcomes), outcomes),
        frame_images(app.to_styles(), outcomes) == frame_images(set_up(app, outcomes), outcomes),
        frame_requests(app.to_styles(), outcomes) == setup_requests(
            app,
            outcomes,
            frame_requests(set_up(app, outcomes), outcomes),
        ),
{
    let styled = with_styles(app);
    let hidden = with_exclusion(styled, outcomes);
    from_styles(app, outcomes);
    from_exclusion(styled, outcomes);
    from_region(hidden, outcomes);
    assert(with_region(hidden) == set_up(app, outcomes));
}

/// The overlay after a whole frame.
pub open spec fn frame_result(
    app: MagnifierApp,
    scale: PixelScale,
    outcomes: FrameOutcomes,
) -> MagnifierApp {
    let hwnd = if app.hwnd == 0 {
        outcomes.window
    } else {
        app.hwnd
    };
    let ball = app.ball.advanced(frame_span(app.last_update, outcomes.now), outcomes.screen);
    let seen = outcomes.cursor_status != 0;
    let (x, y) = (outcomes.cursor_x as int, outcomes.cursor_y as int);
    let pressed = seen && outcomes.button < 0 && !app.prev_mouse_down;
    let clicked = pressed && on_ball(ball.pos, scale, x, y);
    let captured = area_under(ball.pos, scale).size > 0 && all_go_well(outcomes.gdi);
    MagnifierApp {
        ball,
        last_update: outcomes.now,
        has_texture: app.has_texture || captured,
        hwnd,
        styles_set: hwnd != 0,
        excluded_from_capture: hwnd != 0 && (app.excluded_from_capture || outcomes.affinity != 0),
        region_initialized: hwnd != 0,
        prev_mouse_down: if seen {
            outcomes.button < 0
        } else {
            app.prev_mouse_down
        },
        closing: app.closing || clicked,
        scale,
        stage: Stage::Idle,
        capture: None,
    }
}

/// The overlay once its window was looked for, at the scale of the frame.
pub open spec fn looked_up(
    app: MagnifierApp,
    scale: PixelScale,
    outcomes: FrameOutcomes,
) -> MagnifierApp {
    MagnifierApp {
        scale,
        hwnd: if app.hwnd == 0 {
            outcomes.window
        } else {
            app.hwnd
        },
        ..app
    }
}

/// From its start on, the frame ends as stated.
proof fn from_start(app: MagnifierApp, scale: PixelScale, outcomes: FrameOutcomes)
    requires
        app.capture is None,
    ensures
        ({
            let found = looked_up(app, scale, outcomes);
            let moved = moved_on(set_up(found, outcomes), outcomes);
            &&& frame_end(app.begun(scale), outcomes) == closed_frame(
                pointed(moved, outcomes),
                outcomes,
            )
            &&& frame_requests(app.begun(scale), outcomes) == asked_if(
                app.hwnd == 0,
                Request::FindWindow,
                setup_requests(found, outcomes, motion_requests(found, outcomes)),
            )
            &&& frame_images(app.begun(scale), outcomes) == images_from_capture(moved, outcomes)
        }),
{
    let found = looked_up(app, scale, outcomes);
    let ready = set_up(found, outcomes);
    request_by_request(app.begun(scale), outcomes);
    from_setup(found, outcomes);
    from_clock(ready, outcomes);
    assert(motion_requests(ready, outcomes) == motion_requests(found, outcomes));
    assert(found.to_styles() == (if app.hwnd == 0 {
        carried_on(app.begun(scale), outcomes)
    } else {
        app.begun(scale)
    }));
}

/// A whole frame: what it asks for, in order, and what it leaves behind. A
/// missing window is looked up, a found one is set up as far as that is still
/// missing, the ball moves, a click on it closes the window, the circle follows
/// the ball, the desktop under the ball is captured, and the lens is drawn about
/// the ball as soon as there is a texture.
pub proof fn a_frame_as_a_whole(app: MagnifierApp, scale: PixelScale, outcomes: FrameOutcomes)
    requires
        app.wf(),
        app.stage == Stage::Idle,
    ensures
        frame_end(app.begun(scale), outcomes) == frame_result(app, scale, outcomes),
        ({
            let found = looked_up(app, scale, outcomes);
            frame_requests(app.begun(scale), outcomes) == asked_if(
                app.hwnd == 0,
                Request::FindWindow,
                setup_requests(found, outcomes, motion_requests(found, outcomes)),
            )
        }),
{
    from_start(app, scale, outcomes);
}

/// A frame hands over one image where the square under the moved ball is not
/// empty and every call of the capture goes well: it is as wide and high as the
/// square, and its pixels are the captured ones, opaque and red first. Otherwise
/// it hands over none.
pub proof fn a_frame_hands_over_what_it_captured(
    app: MagnifierApp,
    scale: PixelScale,
    outcomes: FrameOutcomes,
)
    requires
        app.wf(),
        app.stage == Stage::Idle,
    ensures
        ({
            let ball = app.ball.advanced(
                frame_span(app.last_update, outcomes.now),
                outcomes.screen,
            );
            let side = area_under(ball.pos, scale).size;
            let pixels = rgba_pixels(opaque_rgba(outcomes.gdi.buffer@));
            frame_images(app.begun(scale), outcomes) =~= if side > 0 && all_go_well(outcomes.gdi) {
                seq![(side as usize, pixels)]
            } else {
                Seq::empty()
            }
        }),
{
    from_start(app, scale, outcomes);
}

/// What a request asks for is where the ball is: the circle surrounds the ball,
/// the captured square lies under it and is copied as it is, whole and top row
/// first, the texture is as large as the square, and the lens is drawn about the
/// ball, once there is a texture.
pub proof fn requests_follow_the_ball(app: MagnifierApp)
    requires
        app.wf(),
        app.stage != Stage::Idle,
    ensures
        match app.pending() {
            Request::CreateRegion { bounds } => surrounds_the_ball(bounds, app.ball.pos, app.scale),
            Request::Gdi(GdiCall::CreateBitmap { width, height, .. }) => {
                &&& is_nearest_pixel(width as int, 2 * BALL_RADIUS, app.scale)
                &&& height == width
            },
            Request::Gdi(GdiCall::Copy { x, y, width, height, operation, .. }) => {
                &&& lies_under_the_ball(x as int, y as int, width as int, app.ball.pos, app.scale)
                &&& height == width
                &&& operation == 0x00cc_0020
            },
            Request::Gdi(GdiCall::Read { first, rows, format, usage, .. }) => {
                &&& is_nearest_pixel(rows as int, 2 * BALL_RADIUS, app.scale)
                &&& format.width == rows && format.height == -rows
                &&& format.planes == 1 && format.bit_count == 32 && format.compression == 0
                &&& first == 0 && usage == 0
            },
            Request::CreateTexture { side } => {
                &&& is_nearest_pixel(side as int, 2 * BALL_RADIUS, app.scale)
                &&& !app.has_texture
            },
            Request::ReplaceTexture => app.has_texture,
            Request::Draw { lens } => {
                &&& lens is Some <==> app.has_texture
                &&& lens is Some ==> lens == Some(app.ball.pos)
            },
            Request::Close { elapsed, .. } => elapsed == app.last_update,
            _ => true,
        },
{
    the_region_surrounds_the_ball(app.ball.pos, app.scale);
    the_capture_lies_under_the_ball(app.ball.pos, app.scale);
}

/// A new frame changes nothing but the scale.
pub proof fn a_new_frame_changes_only_the_scale(app: MagnifierApp, scale: PixelScale)
    ensures
        app.begun(scale).stage != Stage::Idle,
        app.begun(scale) == (MagnifierApp { scale, stage: app.begun(scale).stage, ..app }),
{
}

/// An answer changes what it reports and nothing else: the window that was found,
/// the style that was set, the hiding that worked, the circle that was made, the
/// ball with the clock, the button, and the texture.
pub proof fn answers_change_what_they_report(app: MagnifierApp, event: Event)
    requires
        app.wf(),
        app.stage != Stage::Idle,
        answered(app.pending(), event),
    ensures
        ({
            let next = app.after(event);
            &&& next.scale == app.scale
            &&& next.hwnd == (match event {
                Event::Window(hwnd) => hwnd,
                _ => app.hwnd,
            })
            &&& next.styles_set <==> app.styles_set || app.pending() is WriteStyle
            &&& next.excluded_from_capture <==> (match event {
                Event::Affinity(status) => status != 0,
                _ => app.excluded_from_capture,
            })
            &&& next.region_initialized <==> app.region_initialized || app.stage
                is ApplyFirstRegion || (app.stage == Stage::InstallRegion && event
                == Event::Region(0))
            &&& next.has_texture <==> app.has_texture || app.pending() is CreateTexture
                || app.pending() is ReplaceTexture
            &&& next.prev_mouse_down <==> (match event {
                Event::Button(button) => button < 0,
                _ => app.prev_mouse_down,
            })
            &&& next.closing <==> app.closing || (match (app.stage, event) {
                (Stage::ReadButton { x, y }, Event::Button(button)) => {
                    &&& button < 0
                    &&& !app.prev_mouse_down
                    &&& on_ball(app.ball.pos, app.scale, x as int, y as int)
                },
                _ => false,
            })
            &&& match event {
                Event::Clock(now, _) => next.last_update == now,
                _ => next.last_update == app.last_update && next.ball == app.ball,
            }
        }),
{
}

/// A reading of the clock moves the ball along both axes for the time since the
/// last one, or for the longest frame where more has passed.
pub proof fn the_clock_moves_the_ball(app: MagnifierApp, now: u64, screen: Screen)
    requires
        app.wf(),
        app.stage == Stage::ReadClock,
        screen.wf(),
    ensures
        ({
            let ball = app.after(Event::Clock(now, screen)).ball;
            let span = if now <= app.last_update {
                0
            } else if now - app.last_update <= 50_000_000 {
                now - app.last_update
            } else {
                50_000_000
            };
            &&& moves_and_bounces(
                app.ball.pos.x as int,
                app.ball.vel.x as int,
                span,
                screen.width as int,
                ball.pos.x as int,
                ball.vel.x as int,
            )
            &&& moves_and_bounces(
                app.ball.pos.y as int,
                app.ball.vel.y as int,
                span,
                screen.height as int,
                ball.pos.y as int,
                ball.vel.y as int,
            )
        }),
{
    frames_lose_no_time(app.last_update, now);
    the_ball_moves_and_bounces(app.ball, frame_span(app.last_update, now), screen);
}

/// The cursor that was read is the one that is tested and reported: the window is
/// asked to close at the pixel (`x`, `y`) exactly where the cursor was read there,
/// the button is freshly pressed, and the pixel is on the ball.
pub proof fn the_cursor_is_tested_where_it_is(
    app: MagnifierApp,
    status: i32,
    x: i32,
    y: i32,
    button: i16,
)
    requires
        app.wf(),
        app.stage == Stage::ReadCursor,
    ensures
        ({
            let read = app.after(Event::Cursor(status, x, y));
            let next = read.after(Event::Button(button));
            &&& read.pending() == Request::ReadButton <==> status != 0
            &&& status != 0 ==> (next.pending() is Close <==> {
                &&& !app.closing
                &&& button < 0
                &&& !app.prev_mouse_down
                &&& on_ball(app.ball.pos, app.scale, x as int, y as int)
            })
            &&& status != 0 && next.pending() is Close ==> next.pending() == (Request::Close {
                x,
                y,
                elapsed: app.last_update,
            })
        }),
{
}

/// The request is one that a frame may make where the ball ends up at `pos`: what
/// it copies, stores and draws is there.
pub open spec fn fits_the_moved_ball(
    request: Request,
    pos: crate::motion::Position,
    scale: PixelScale,
) -> bool {
    match request {
        Request::Gdi(GdiCall::CreateBitmap { width, height, .. }) => {
            &&& is_nearest_pixel(width as int, 2 * BALL_RADIUS, scale)
            &&& height == width
        },
        Request::Gdi(GdiCall::Copy { x, y, width, height, operation, .. }) => {
            &&& lies_under_the_ball(x as int, y as int, width as int, pos, scale)
            &&& height == width
            &&& operation == 0x00cc_0020
        },
        Request::CreateTexture { side } => is_nearest_pixel(side as int, 2 * BALL_RADIUS, scale),
        Request::Draw { lens } => lens is Some ==> lens == Some(pos),
        _ => true,
    }
}

/// Every request fits the moved ball.
pub open spec fn all_fit_the_moved_ball(
    requests: Seq<Request>,
    pos: crate::motion::Position,
    scale: PixelScale,
) -> bool {
    forall|i: int|
        0 <= i < requests.len() ==> fits_the_moved_ball(#[trigger] requests[i], pos, scale)
}

/// The desktop is copied by one of the requests.
pub open spec fn one_copies(requests: Seq<Request>) -> bool {
    exists|i: int|
        0 <= i < requests.len() && (#[trigger] requests[i] matches Request::Gdi(
            GdiCall::Copy { .. },
        ))
}

/// The requests end in `rest`.
pub open spec fn ends_in(requests: Seq<Request>, rest: Seq<Request>) -> bool {
    &&& rest.len() <= requests.len()
    &&& forall|i: int|
        0 <= i < rest.len() ==> requests[requests.len() - rest.len() + i] == #[trigger] rest[i]
}

/// What ends in something that ends in `rest` ends in `rest`.
proof fn ends_are_kept(requests: Seq<Request>, later: Seq<Request>, rest: Seq<Request>)
    requires
        ends_in(requests, later),
        ends_in(later, rest),
    ensures
        ends_in(requests, rest),
{
    assert forall|i: int| 0 <= i < rest.len() implies requests[requests.len() - rest.len() + i]
        == #[trigger] rest[i] by {
        let at = later.len() - rest.len() + i;
        assert(later[at] == rest[i]);
        assert(requests[requests.len() - later.len() + at] == later[at]);
    }
}

/// A request put before others leaves them at the end.
proof fn the_rest_comes_last(
    condition: bool,
    request: Request,
    rest: Seq<Request>,
    end: Seq<Request>,
)
    requires
        ends_in(rest, end),
    ensures
        ends_in(asked_if(condition, request, rest), end),
{
    let requests = asked_if(condition, request, rest);
    assert(ends_in(requests, rest)) by {
        assert forall|i: int| 0 <= i < rest.len() implies requests[requests.len() - rest.len() + i]
            == #[trigger] rest[i] by {}
    }
    ends_are_kept(requests, rest, end);
}

/// A frame ends with the moving of the circle and what follows it.
proof fn frames_end_with_the_move(app: MagnifierApp, scale: PixelScale, outcomes: FrameOutcomes)
    requires
        app.capture is None,
    ensures
        ({
            let moved = moved_on(looked_up(app, scale, outcomes), outcomes);
            ends_in(frame_requests(app.begun(scale), outcomes), moving_requests(moved, outcomes))
        }),
{
    let found = looked_up(app, scale, outcomes);
    let moved = moved_on(found, outcomes);
    let hwnd = found.hwnd;
    let end = moving_requests(moved, outcomes);
    from_start(app, scale, outcomes);
    let close = Request::Close {
        x: outcomes.cursor_x,
        y: outcomes.cursor_y,
        elapsed: moved.last_update,
    };
    the_rest_comes_last(clicked(moved, outcomes), close, end, end);
    let asked = asked_if(clicked(moved, outcomes), close, end);
    let seen = outcomes.cursor_status != 0;
    the_rest_comes_last(seen, Request::ReadButton, asked, end);
    let pressed = asked_if(seen, Request::ReadButton, asked);
    the_rest_comes_last(true, Request::ReadCursor, pressed, end);
    the_rest_comes_last(true, Request::ReadClock, pointer_requests(moved, outcomes), end);
    let motion = motion_requests(found, outcomes);
    let missing = hwnd != 0 && !found.region_initialized;
    let given = missing && outcomes.first_region != 0;
    let apply = Request::ApplyRegion { hwnd, region: outcomes.first_region };
    the_rest_comes_last(given, apply, motion, end);
    let create = Request::CreateRegion { bounds: region_of(found.ball.pos, scale) };
    the_rest_comes_last(missing, create, asked_if(given, apply, motion), end);
    let shaped = region_requests(found, outcomes, motion);
    let visible = hwnd != 0 && !found.excluded_from_capture;
    let exclude = Request::ExcludeFromCapture { hwnd };
    the_rest_comes_last(visible, exclude, shaped, end);
    let hidden = asked_if(visible, exclude, shaped);
    let plain = hwnd != 0 && !found.styles_set;
    let write = Request::WriteStyle { hwnd, style: outcomes.style | 0x0800_0080isize };
    the_rest_comes_last(plain, write, hidden, end);
    let styled = asked_if(plain, write, hidden);
    the_rest_comes_last(plain, Request::ReadStyle { hwnd }, styled, end);
    let ready = setup_requests(found, outcomes, motion);
    the_rest_comes_last(app.hwnd == 0, Request::FindWindow, ready, end);
}

/// The requests end by drawing the given lens and asking for the next frame.
pub open spec fn draws_and_repaints(
    requests: Seq<Request>,
    lens: Option<crate::motion::Position>,
) -> bool {
    &&& requests.len() >= 2
    &&& requests[requests.len() - 2] == (Request::Draw { lens })
    &&& requests[requests.len() - 1] == Request::Repaint
}

/// What comes before the drawing leaves it at the end.
proof fn the_drawing_comes_last(app: MagnifierApp, outcomes: FrameOutcomes)
    ensures
        ({
            let drawn = app.has_texture || captures(app, outcomes);
            draws_and_repaints(
                moving_requests(app, outcomes),
                if drawn {
                    Some(app.ball.pos)
                } else {
                    None
                },
            )
        }),
{
    let closing = closing_requests(app, outcomes);
    let given = app.hwnd != 0 && outcomes.region != 0;
    let apply = Request::ApplyRegion { hwnd: app.hwnd, region: outcomes.region };
    let create = Request::CreateRegion { bounds: region_of(app.ball.pos, app.scale) };
    the_rest_comes_last(given, apply, closing, closing);
    the_rest_comes_last(app.hwnd != 0, create, asked_if(given, apply, closing), closing);
    let moving = moving_requests(app, outcomes);
    assert(moving[moving.len() - 2] == closing[closing.len() - 2]);
    assert(moving[moving.len() - 1] == closing[closing.len() - 1]);
}

/// Every frame ends by drawing, about the ball where it is now and as soon as
/// there is a texture, and by asking for the next frame.
pub proof fn every_frame_draws_and_asks_for_the_next(
    app: MagnifierApp,
    scale: PixelScale,
    outcomes: FrameOutcomes,
)
    requires
        app.wf(),
        app.stage == Stage::Idle,
    ensures
        ({
            let requests = frame_requests(app.begun(scale), outcomes);
            let end = frame_end(app.begun(scale), outcomes);
            draws_and_repaints(
                requests,
                if end.has_texture {
                    Some(end.ball.pos)
                } else {
                    None
                },
            )
        }),
{
    let moved = moved_on(looked_up(app, scale, outcomes), outcomes);
    let moving = moving_requests(moved, outcomes);
    from_start(app, scale, outcomes);
    frames_end_with_the_move(app, scale, outcomes);
    the_drawing_comes_last(moved, outcomes);
    let requests = frame_requests(app.begun(scale), outcomes);
    assert(requests[requests.len() - 2] == moving[moving.len() - 2]);
    assert(requests[requests.len() - 1] == moving[moving.len() - 1]);
}

/// In every frame the circle follows the ball: where there is a window, a circle
/// about the ball where it is now is made, and given to the window at once where
/// that worked.
pub proof fn the_circle_follows_the_ball(
    app: MagnifierApp,
    scale: PixelScale,
    outcomes: FrameOutcomes,
)
    requires
        app.wf(),
        app.stage == Stage::Idle,
    ensures
        ({
            let requests = frame_requests(app.begun(scale), outcomes);
            let end = frame_end(app.begun(scale), outcomes);
            end.hwnd != 0 ==> exists|i: int|
                {
                    &&& 0 <= i < requests.len() - 1
                    &&& #[trigger] requests[i] is CreateRegion
                    &&& surrounds_the_ball(requests[i]->bounds, end.ball.pos, scale)
                    &&& outcomes.region != 0 ==> requests[i + 1] == (Request::ApplyRegion {
                        hwnd: end.hwnd,
                        region: outcomes.region,
                    })
                }
        }),
{
    let moved = moved_on(looked_up(app, scale, outcomes), outcomes);
    let moving = moving_requests(moved, outcomes);
    from_start(app, scale, outcomes);
    frames_end_with_the_move(app, scale, outcomes);
    the_region_surrounds_the_ball(moved.ball.pos, scale);
    let requests = frame_requests(app.begun(scale), outcomes);
    let at = requests.len() - moving.len();
    if moved.hwnd != 0 {
        assert(moving.len() >= 3);
        assert(requests[at + 0] == moving[0]);
        assert(requests[at + 1] == moving[1]);
        assert(requests[at] is CreateRegion);
    }
}

/// A request put before others that fit, fits with them.
proof fn one_more_fits(
    condition: bool,
    request: Request,
    rest: Seq<Request>,
    pos: crate::motion::Position,
    scale: PixelScale,
)
    requires
        all_fit_the_moved_ball(rest, pos, scale),
        condition ==> fits_the_moved_ball(request, pos, scale),
    ensures
        all_fit_the_moved_ball(asked_if(condition, request, rest), pos, scale),
        all_fit_the_moved_ball(seq![request] + rest, pos, scale) || !condition,
        one_copies(rest) ==> one_copies(asked_if(condition, request, rest)),
{
    let requests = seq![request] + rest;
    assert forall|i: int| 0 <= i < requests.len() && condition implies fits_the_moved_ball(
        #[trigger] requests[i],
        pos,
        scale,
    ) by {
        if i > 0 {
            assert(requests[i] == rest[i - 1]);
        }
    }
    if one_copies(rest) {
        let i = choose|i: int|
            0 <= i < rest.len() && (#[trigger] rest[i] matches Request::Gdi(GdiCall::Copy { .. }));
        assert(requests[i + 1] == rest[i]);
    }
}

/// The calls of a capture fit the ball under which they capture.
proof fn closing_requests_fit(app: MagnifierApp, outcomes: FrameOutcomes)
    ensures
        all_fit_the_moved_ball(closing_requests(app, outcomes), app.ball.pos, app.scale),
        area_under(app.ball.pos, app.scale).size > 0 && outcomes.gdi.screen != 0
            && outcomes.gdi.memory != 0 && outcomes.gdi.bitmap != 0 ==> one_copies(
            closing_requests(app, outcomes),
        ),
{
    let area = area_under(app.ball.pos, app.scale);
    the_capture_lies_under_the_ball(app.ball.pos, app.scale);
    if area.size > 0 {
        let session = CaptureSession::fresh(area.x, area.y, area.size, area.size);
        captures_release_in_reverse(session, outcomes.gdi);
        let calls = calls_made(session, outcomes.gdi);
        let requests = closing_requests(app, outcomes);
        assert forall|i: int| 0 <= i < calls.len() implies requests[i] == Request::Gdi(
            #[trigger] calls[i],
        ) by {}
        if outcomes.gdi.screen != 0 && outcomes.gdi.memory != 0 && outcomes.gdi.bitmap != 0 {
            assert(calls[4] is Copy);
            assert(requests[4] == Request::Gdi(calls[4]));
        }
    }
}

/// What comes before the capture fits the ball too.
proof fn motion_requests_fit(app: MagnifierApp, outcomes: FrameOutcomes)
    ensures
        ({
            let moved = moved_on(app, outcomes);
            let requests = motion_requests(app, outcomes);
            &&& all_fit_the_moved_ball(requests, moved.ball.pos, moved.scale)
            &&& one_copies(closing_requests(moved, outcomes)) ==> one_copies(requests)
        }),
{
    let moved = moved_on(app, outcomes);
    let (pos, scale) = (moved.ball.pos, moved.scale);
    let hwnd = moved.hwnd;
    let closing = closing_requests(moved, outcomes);
    closing_requests_fit(moved, outcomes);
    let apply = Request::ApplyRegion { hwnd, region: outcomes.region };
    one_more_fits(hwnd != 0 && outcomes.region != 0, apply, closing, pos, scale);
    let applying = asked_if(hwnd != 0 && outcomes.region != 0, apply, closing);
    let create = Request::CreateRegion { bounds: region_of(pos, scale) };
    one_more_fits(hwnd != 0, create, applying, pos, scale);
    let moving = moving_requests(moved, outcomes);
    let close = Request::Close {
        x: outcomes.cursor_x,
        y: outcomes.cursor_y,
        elapsed: moved.last_update,
    };
    one_more_fits(clicked(moved, outcomes), close, moving, pos, scale);
    let asked = asked_if(clicked(moved, outcomes), close, moving);
    let seen = outcomes.cursor_status != 0;
    one_more_fits(seen, Request::ReadButton, asked, pos, scale);
    let pressed = asked_if(seen, Request::ReadButton, asked);
    one_more_fits(true, Request::ReadCursor, pressed, pos, scale);
    one_more_fits(true, Request::ReadClock, pointer_requests(moved, outcomes), pos, scale);
}

/// In every frame the desktop is copied from under the ball, at the scale of the
/// frame and where the ball is after its motion; the texture has that size, and
/// the lens is drawn there. It is copied whenever the square is not empty and
/// what the copying needs could be acquired.
pub proof fn a_frame_copies_what_lies_under_the_ball(
    app: MagnifierApp,
    scale: PixelScale,
    outcomes: FrameOutcomes,
)
    requires
        app.wf(),
        app.stage == Stage::Idle,
    ensures
        ({
            let requests = frame_requests(app.begun(scale), outcomes);
            let pos = frame_end(app.begun(scale), outcomes).ball.pos;
            &&& all_fit_the_moved_ball(requests, pos, scale)
            &&& !is_nearest_pixel(0, 2 * BALL_RADIUS, scale) && outcomes.gdi.screen != 0
                && outcomes.gdi.memory != 0 && outcomes.gdi.bitmap != 0 ==> one_copies(requests)
        }),
{
    let found = looked_up(app, scale, outcomes);
    let moved = moved_on(found, outcomes);
    let (pos, hwnd) = (moved.ball.pos, found.hwnd);
    from_start(app, scale, outcomes);
    closing_requests_fit(moved, outcomes);
    motion_requests_fit(found, outcomes);
    the_square_is_not_inverted(pos, scale);

    let motion = motion_requests(found, outcomes);
    let missing = hwnd != 0 && !found.region_initialized;
    let apply = Request::ApplyRegion { hwnd, region: outcomes.first_region };
    let create = Request::CreateRegion { bounds: region_of(found.ball.pos, scale) };
    let given = missing && outcomes.first_region != 0;
    one_more_fits(given, apply, motion, pos, scale);
    one_more_fits(missing, create, asked_if(given, apply, motion), pos, scale);
    let shaped = region_requests(found, outcomes, motion);
    let visible = hwnd != 0 && !found.excluded_from_capture;
    let exclude = Request::ExcludeFromCapture { hwnd };
    one_more_fits(visible, exclude, shaped, pos, scale);
    let hidden = asked_if(visible, exclude, shaped);
    let plain = hwnd != 0 && !found.styles_set;
    let write = Request::WriteStyle { hwnd, style: outcomes.style | 0x0800_0080isize };
    one_more_fits(plain, write, hidden, pos, scale);
    let styled = asked_if(plain, write, hidden);
    one_more_fits(plain, Request::ReadStyle { hwnd }, styled, pos, scale);
    let ready = setup_requests(found, outcomes, motion);
    one_more_fits(app.hwnd == 0, Request::FindWindow, ready, pos, scale);
}

/// The size of the square is never below zero, and zero only where zero is the
/// pixel nearest to the diameter.
proof fn the_square_is_not_inverted(pos: crate::motion::Position, scale: PixelScale)
    ensures
        area_under(pos, scale).size >= 0,
        area_under(pos, scale).size == 0 <==> is_nearest_pixel(0, 2 * BALL_RADIUS, scale),
{
    let size = area_under(pos, scale).size as int;
    let f = scale.fraction as int;
    the_capture_lies_under_the_ball(pos, scale);
    assert(2 * BALL_RADIUS * f >= 0) by (nonlinear_arith)
        requires
            f >= 0,
            BALL_RADIUS >= 0,
    ;
    if is_nearest_pixel(0, 2 * BALL_RADIUS, scale) {
        one_pixel_is_nearest(0, size, 2 * BALL_RADIUS, scale);
    }
}

/// The image that a frame hands over is as wide as the square under the ball and
/// shows, pixel by pixel, the colours that the desktop was read with.
pub proof fn the_lens_shows_the_desktop(
    app: MagnifierApp,
    scale: PixelScale,
    outcomes: FrameOutcomes,
)
    requires
        app.wf(),
        app.stage == Stage::Idle,
    ensures
        ({
            let images = frame_images(app.begun(scale), outcomes);
            let gdi = outcomes.gdi;
            let bytes = gdi.buffer@;
            &&& images.len() <= 1
            &&& images.len() == 1 <==> gdi.screen != 0 && gdi.memory != 0 && gdi.bitmap != 0
                && gdi.copied != 0 && gdi.lines != 0 && !is_nearest_pixel(0, 2 * BALL_RADIUS, scale)
            &&& images.len() == 1 ==> {
                &&& is_nearest_pixel(images[0].0 as int, 2 * BALL_RADIUS, scale)
                &&& images[0].1.len() == bytes.len() / 4
                &&& forall|i: int|
                    0 <= i < bytes.len() / 4 ==> #[trigger] images[0].1[i] == (
                        bytes[4 * i + 2],
                        bytes[4 * i + 1],
                        bytes[4 * i],
                        255u8,
                    )
            }
        }),
{
    a_frame_hands_over_what_it_captured(app, scale, outcomes);
    let ball = app.ball.advanced(frame_span(app.last_update, outcomes.now), outcomes.screen);
    the_capture_lies_under_the_ball(ball.pos, scale);
    the_square_is_not_inverted(ball.pos, scale);
    let bytes = outcomes.gdi.buffer@;
    assert forall|i: int| 0 <= i < bytes.len() / 4 implies #[trigger] rgba_pixels(
        opaque_rgba(bytes),
    )[i] == (bytes[4 * i + 2], bytes[4 * i + 1], bytes[4 * i], 255u8) by {
        conversion_keeps_the_colours(bytes, i);
    }
}

/// What a frame leaves behind, in terms of what was there and what was reported:
/// the ball has moved and bounced for the time that passed, a window is kept or
/// the reported one taken, the set-up is done as far as it can be, the button is
/// as it was last read, a fresh press on the moved ball is a request to close, and
/// there is a texture if there was one or if the capture went well.
pub proof fn what_a_frame_leaves_behind(
    app: MagnifierApp,
    scale: PixelScale,
    outcomes: FrameOutcomes,
)
    requires
        app.wf(),
        app.stage == Stage::Idle,
        outcomes.screen.wf(),
    ensures
        ({
            let end = frame_end(app.begun(scale), outcomes);
            let gdi = outcomes.gdi;
            let (last, now) = (app.last_update, outcomes.now);
            let span = if now <= last {
                0
            } else if now - last <= 50_000_000 {
                now - last
            } else {
                50_000_000
            };
            let seen = outcomes.cursor_status != 0;
            let (x, y) = (outcomes.cursor_x as int, outcomes.cursor_y as int);
            &&& end.stage == Stage::Idle && end.scale == scale && end.last_update == now
            &&& moves_and_bounces(
                app.ball.pos.x as int,
                app.ball.vel.x as int,
                span,
                outcomes.screen.width as int,
                end.ball.pos.x as int,
                end.ball.vel.x as int,
            )
            &&& moves_and_bounces(
                app.ball.pos.y as int,
                app.ball.vel.y as int,
                span,
                outcomes.screen.height as int,
                end.ball.pos.y as int,
                end.ball.vel.y as int,
            )
            &&& app.hwnd != 0 ==> end.hwnd == app.hwnd
            &&& app.hwnd == 0 ==> end.hwnd == outcomes.window
            &&& end.styles_set <==> end.hwnd != 0
            &&& end.region_initialized <==> end.hwnd != 0
            &&& end.excluded_from_capture <==> end.hwnd != 0 && (app.excluded_from_capture
                || outcomes.affinity != 0)
            &&& seen ==> (end.prev_mouse_down <==> outcomes.button < 0)
            &&& !seen ==> end.prev_mouse_down == app.prev_mouse_down
            &&& end.closing <==> app.closing || (seen && outcomes.button < 0 && !app.prev_mouse_down
                && on_ball(end.ball.pos, scale, x, y))
            &&& end.has_texture <==> app.has_texture || (gdi.screen != 0 && gdi.memory != 0
                && gdi.bitmap != 0 && gdi.copied != 0 && gdi.lines != 0 && !is_nearest_pixel(
                0,
                2 * BALL_RADIUS,
                scale,
            ))
        }),
{
    a_frame_as_a_whole(app, scale, outcomes);
    let span = frame_span(app.last_update, outcomes.now);
    frames_lose_no_time(app.last_update, outcomes.now);
    the_ball_moves_and_bounces(app.ball, span, outcomes.screen);
    the_square_is_not_inverted(app.ball.advanced(span, outcomes.screen).pos, scale);
}

/// The window is given the style that it has, and in addition the two bits that
/// keep it out of the taskbar and the focus; every other bit stays.
pub proof fn the_style_gains_two_bits(app: MagnifierApp, current: isize, bit: isize)
    requires
        app.wf(),
        app.stage == Stage::ReadStyle,
    ensures
        ({
            let next = app.after(Event::Style(current)).pending();
            &&& next is WriteStyle
            &&& next->WriteStyle_hwnd == app.hwnd
            &&& next->style & 0x80isize == 0x80isize
            &&& next->style & 0x0800_0000isize == 0x0800_0000isize
            &&& bit & 0x0800_0080isize == 0 ==> next->style & bit == current & bit
        }),
{
    crate::window::overlay_style_adds_two_bits(current, bit);
}

/// A new overlay waits for its first frame, with the ball at (320, 240) points and
/// a speed of 230 and 175 points per second, and its time starts when it was made.
pub proof fn a_new_overlay_starts_when_it_was_made(created: u64)
    ensures
        ({
            let app = MagnifierApp::created_at(created);
            &&& app.wf()
            &&& app.stage == Stage::Idle
            &&& app.last_update == created
            &&& app.ball.pos.x == 320_000_000_000 && app.ball.pos.y == 240_000_000_000
            &&& app.ball.vel.x == 230 && app.ball.vel.y == 175
            &&& app.hwnd == 0
            &&& !app.has_texture && !app.closing && !app.prev_mouse_down
        }),
{
}

} // verus!
