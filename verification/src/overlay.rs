//! The overlay: what happens in a frame, request by request.
//!
//! In every frame the overlay names, one after the other, the things that have
//! to be done to the window, the screen and the mouse, and is told how they
//! went. It does none of them itself.

use vstd::prelude::*;

use crate::capture::{answers, session_knows_what_it_holds};
use crate::capture::{CaptureSession, CaptureStage, GdiCall, GdiReply};
use crate::geometry::{area_under, ball_region, capture_area, region_of};
use crate::geometry::CircleBounds;
use crate::motion::{frame_span, frame_time, magnitude, motion_keeps_the_limits, speed_is_kept};
use crate::motion::{Ball, Position, Screen, Velocity};
use crate::pixels::{converted_capture_is_opaque, image_from_rgba, image_pixels, image_size};
use crate::pixels::rgba_pixels;
use crate::pointer::{button_down, hits_ball, on_ball};
use crate::units::{PixelScale, SCALE_ONE};
use crate::window::overlay_style;

verus! {

/// Where a frame stands: the request whose answer is awaited, or between two
/// frames.
#[derive(Clone, Copy, PartialEq, Eq, Structural, Debug)]
pub enum Stage {
    Idle,
    FindWindow,
    ReadStyle,
    WriteStyle(isize),
    ExcludeFromCapture,
    InstallRegion,
    ApplyFirstRegion(isize),
    ReadClock,
    ReadCursor,
    ReadButton { x: i32, y: i32 },
    Close { x: i32, y: i32 },
    MoveRegion,
    ApplyRegion(isize),
    Capture,
    StoreTexture,
    Draw,
    Repaint,
}

/// Something to be done.
#[derive(Clone, Copy, PartialEq, Eq, Structural, Debug)]
pub enum Request {
    /// Look the overlay window up by its title.
    FindWindow,
    /// Read the extended style of the window.
    ReadStyle { hwnd: isize },
    /// Set the extended style of the window.
    WriteStyle { hwnd: isize, style: isize },
    /// Hide the window from screen captures.
    ExcludeFromCapture { hwnd: isize },
    /// Create a region of the shape of a circle.
    CreateRegion { bounds: CircleBounds },
    /// Hand the region over to the window, which shows that part of itself from
    /// now on and owns the region.
    ApplyRegion { hwnd: isize, region: isize },
    /// Read the clock and the size of the screen.
    ReadClock,
    /// Read the position of the cursor.
    ReadCursor,
    /// Read the state of the left button.
    ReadButton,
    /// Close the window: the ball was clicked at the pixel (`x`, `y`).
    Close { x: i32, y: i32, elapsed: u64 },
    /// Make a call of the capture.
    Gdi(GdiCall),
    /// Create the texture of the lens, `side` pixels wide and high.
    CreateTexture { side: i32 },
    /// Replace the image of the texture.
    ReplaceTexture,
    /// Draw the lens about its centre; nothing while there is no texture.
    Draw { lens: Option<Position> },
    /// Ask for the next frame.
    Repaint,
}

/// The answer to a request.
pub enum Event {
    /// The window handle; zero where there is none.
    Window(isize),
    /// The extended style.
    Style(isize),
    /// Whether the window is hidden from captures; zero where that failed.
    Affinity(i32),
    /// Nanoseconds since the start, and the screen.
    Clock(u64, Screen),
    /// A region handle; zero where there is none.
    Region(isize),
    /// Whether the cursor could be read, zero where that failed, and its
    /// position in physical pixels.
    Cursor(i32, i32, i32),
    /// The state word of the left button.
    Button(i16),
    /// How a call of the capture went.
    Gdi(GdiReply),
    /// It is done.
    Done,
}

/// The event has the form that belongs to the request.
pub open spec fn answered(request: Request, event: Event) -> bool {
    match request {
        Request::FindWindow => event is Window,
        Request::ReadStyle { .. } => event is Style,
        Request::ExcludeFromCapture { .. } => event is Affinity,
        Request::ReadClock => event matches Event::Clock(_, screen) && screen.wf(),
        Request::CreateRegion { .. } => event is Region,
        Request::ReadCursor => event is Cursor,
        Request::ReadButton => event is Button,
        Request::Gdi(call) => event matches Event::Gdi(reply) && answers(call, reply),
        _ => event is Done,
    }
}

/// The overlay with its ball.
pub struct MagnifierApp {
    pub ball: Ball,
    pub last_update: u64,
    pub has_texture: bool,
    pub hwnd: isize,
    pub styles_set: bool,
    pub excluded_from_capture: bool,
    pub region_initialized: bool,
    pub prev_mouse_down: bool,
    pub closing: bool,
    pub scale: PixelScale,
    pub stage: Stage,
    pub capture: Option<CaptureSession>,
}

/// The ball at its launch.
pub open spec fn launched() -> Ball {
    Ball {
        pos: Position { x: 320_000_000_000, y: 240_000_000_000 },
        vel: Velocity { x: 230, y: 175 },
    }
}

impl MagnifierApp {
    /// The window is being set up.
    pub open spec fn in_setup(self) -> bool {
        match self.stage {
            Stage::ReadStyle => true,
            Stage::WriteStyle(_) => true,
            Stage::ExcludeFromCapture => true,
            Stage::InstallRegion => true,
            Stage::ApplyFirstRegion(_) => true,
            _ => false,
        }
    }

    /// The square under the ball.
    pub open spec fn captured_area(self) -> crate::geometry::CaptureArea {
        area_under(self.ball.pos, self.scale)
    }

    /// The ball has its launching speed, every step of the set-up is pending only
    /// while it is needed and possible, and a capture is under way exactly in its
    /// own stage, over the square under the ball.
    pub open spec fn wf(self) -> bool {
        &&& self.ball.wf()
        &&& magnitude(self.ball.vel.x as int) == launched().vel.x
        &&& magnitude(self.ball.vel.y as int) == launched().vel.y
        // What was done to the window was done to a window.
        &&& self.styles_set || self.excluded_from_capture || self.region_initialized ==> self.hwnd
            != 0
        // A window that is found is cut down to the circle before anything else
        // happens in the frame.
        &&& self.hwnd != 0 && !self.region_initialized ==> self.in_setup()
        &&& self.stage == Stage::FindWindow ==> self.hwnd == 0
        &&& self.in_setup() ==> self.hwnd != 0
        &&& self.stage == Stage::ReadStyle || self.stage is WriteStyle ==> !self.styles_set
        &&& self.stage == Stage::ExcludeFromCapture ==> !self.excluded_from_capture
        &&& self.stage == Stage::InstallRegion || self.stage is ApplyFirstRegion
            ==> !self.region_initialized
        &&& self.stage == Stage::MoveRegion || self.stage is ApplyRegion ==> self.hwnd != 0
        // A window is never given a region that does not exist.
        &&& self.stage != Stage::ApplyFirstRegion(0)
        &&& self.stage != Stage::ApplyRegion(0)
        &&& self.stage is Close ==> self.closing
        &&& self.stage == Stage::Capture <==> self.capture is Some
        &&& self.capture matches Some(session) ==> {
            &&& session.wf()
            &&& session.stage != CaptureStage::Finished
            &&& session.x == self.captured_area().x
            &&& session.y == self.captured_area().y
            &&& session.width == self.captured_area().size
            &&& session.height == self.captured_area().size
        }
    }

    /// The request whose answer is awaited.
    pub open spec fn pending(self) -> Request
        recommends
            self.stage != Stage::Idle,
    {
        match self.stage {
            Stage::FindWindow => Request::FindWindow,
            Stage::ReadStyle => Request::ReadStyle { hwnd: self.hwnd },
            Stage::WriteStyle(style) => Request::WriteStyle { hwnd: self.hwnd, style },
            Stage::ExcludeFromCapture => Request::ExcludeFromCapture { hwnd: self.hwnd },
            Stage::InstallRegion => Request::CreateRegion {
                bounds: region_of(self.ball.pos, self.scale),
            },
            Stage::ApplyFirstRegion(region) => Request::ApplyRegion { hwnd: self.hwnd, region },
            Stage::ReadClock => Request::ReadClock,
            Stage::ReadCursor => Request::ReadCursor,
            Stage::ReadButton { .. } => Request::ReadButton,
            Stage::Close { x, y } => Request::Close { x, y, elapsed: self.last_update },
            Stage::MoveRegion => Request::CreateRegion {
                bounds: region_of(self.ball.pos, self.scale),
            },
            Stage::ApplyRegion(region) => Request::ApplyRegion { hwnd: self.hwnd, region },
            Stage::Capture => Request::Gdi(self.capture->0.pending()),
            Stage::StoreTexture => if self.has_texture {
                Request::ReplaceTexture
            } else {
                Request::CreateTexture { side: self.captured_area().size }
            },
            Stage::Draw => Request::Draw {
                lens: if self.has_texture {
                    Some(self.ball.pos)
                } else {
                    None
                },
            },
            _ => Request::Repaint,
        }
    }

    /// Goes on to the style bits, where a window is still without them.
    pub open spec fn to_styles(self) -> MagnifierApp {
        if self.hwnd != 0 && !self.styles_set {
            MagnifierApp { stage: Stage::ReadStyle, ..self }
        } else {
            self.to_exclusion()
        }
    }

    /// Goes on to hide the window from captures, where it is still visible to
    /// them.
    pub open spec fn to_exclusion(self) -> MagnifierApp {
        if self.hwnd != 0 && !self.excluded_from_capture {
            MagnifierApp { stage: Stage::ExcludeFromCapture, ..self }
        } else {
            self.to_region()
        }
    }

    /// Goes on to the first circle, where a window is still a rectangle.
    pub open spec fn to_region(self) -> MagnifierApp {
        if self.hwnd != 0 && !self.region_initialized {
            MagnifierApp { stage: Stage::InstallRegion, ..self }
        } else {
            MagnifierApp { stage: Stage::ReadClock, ..self }
        }
    }

    /// Goes on to move the circle, where there is a window.
    pub open spec fn to_move(self) -> MagnifierApp {
        if self.hwnd != 0 {
            MagnifierApp { stage: Stage::MoveRegion, ..self }
        } else {
            self.to_capture()
        }
    }

    /// Goes on to capture the desktop under the ball, where that is not empty.
    pub open spec fn to_capture(self) -> MagnifierApp {
        let area = self.captured_area();
        if area.size > 0 {
            MagnifierApp {
                stage: Stage::Capture,
                capture: Some(CaptureSession::fresh(area.x, area.y, area.size, area.size)),
                ..self
            }
        } else {
            MagnifierApp { stage: Stage::Draw, ..self }
        }
    }

    /// A fresh press of the button on the ball, while the window is not closing
    /// already.
    pub open spec fn closes_on(self, x: i32, y: i32, button: i16) -> bool {
        &&& !self.closing
        &&& button < 0
        &&& !self.prev_mouse_down
        &&& on_ball(self.ball.pos, self.scale, x as int, y as int)
    }

    /// The overlay at the start of a frame.
    pub open spec fn begun(self, scale: PixelScale) -> MagnifierApp {
        if self.hwnd == 0 {
            MagnifierApp { scale, stage: Stage::FindWindow, ..self }
        } else {
            (MagnifierApp { scale, ..self }).to_styles()
        }
    }

    /// The overlay after the answer to the pending request.
    pub open spec fn after(self, event: Event) -> MagnifierApp {
        match (self.stage, event) {
            (Stage::FindWindow, Event::Window(hwnd)) => (MagnifierApp {
                hwnd,
                ..self
            }).to_styles(),
            (Stage::ReadStyle, Event::Style(current)) => MagnifierApp {
                stage: Stage::WriteStyle(current | 0x0800_0080isize),
                ..self
            },
            (Stage::WriteStyle(_), _) => (MagnifierApp {
                styles_set: true,
                ..self
            }).to_exclusion(),
            (Stage::ExcludeFromCapture, Event::Affinity(status)) => (MagnifierApp {
                excluded_from_capture: status != 0,
                ..self
            }).to_region(),
            (Stage::InstallRegion, Event::Region(region)) => if region == 0 {
                MagnifierApp { region_initialized: true, stage: Stage::ReadClock, ..self }
            } else {
                MagnifierApp { stage: Stage::ApplyFirstRegion(region), ..self }
            },
            (Stage::ApplyFirstRegion(_), _) => MagnifierApp {
                region_initialized: true,
                stage: Stage::ReadClock,
                ..self
            },
            (Stage::ReadClock, Event::Clock(now, screen)) => MagnifierApp {
                ball: self.ball.advanced(frame_span(self.last_update, now), screen),
                last_update: now,
                stage: Stage::ReadCursor,
                ..self
            },
            (Stage::ReadCursor, Event::Cursor(status, x, y)) => if status != 0 {
                MagnifierApp { stage: Stage::ReadButton { x, y }, ..self }
            } else {
                self.to_move()
            },
            (Stage::ReadButton { x, y }, Event::Button(button)) => if self.closes_on(x, y, button) {
                MagnifierApp {
                    closing: true,
                    prev_mouse_down: true,
                    stage: Stage::Close { x, y },
                    ..self
                }
            } else {
                (MagnifierApp { prev_mouse_down: button < 0, ..self }).to_move()
            },
            (Stage::Close { .. }, _) => self.to_move(),
            (Stage::MoveRegion, Event::Region(region)) => if region == 0 {
                self.to_capture()
            } else {
                MagnifierApp { stage: Stage::ApplyRegion(region), ..self }
            },
            (Stage::ApplyRegion(_), _) => self.to_capture(),
            (Stage::Capture, Event::Gdi(reply)) => {
                let session = self.capture->0.after(reply);
                if session.stage != CaptureStage::Finished {
                    MagnifierApp { capture: Some(session), ..self }
                } else if session.outcome() is Some {
                    MagnifierApp { capture: None, stage: Stage::StoreTexture, ..self }
                } else {
                    MagnifierApp { capture: None, stage: Stage::Draw, ..self }
                }
            },
            (Stage::StoreTexture, _) => MagnifierApp {
                has_texture: true,
                stage: Stage::Draw,
                ..self
            },
            (Stage::Draw, _) => MagnifierApp { stage: Stage::Repaint, ..self },
            _ => MagnifierApp { stage: Stage::Idle, ..self },
        }
    }

    /// The image that the answer completes, as its side and its pixels: an
    /// answer that ends a capture in which all went well completes the image of
    /// the captured square, and no other does.
    pub open spec fn handed_over(self, event: Event) -> Option<(usize, Seq<(u8, u8, u8, u8)>)> {
        match (self.stage, event) {
            (Stage::Capture, Event::Gdi(reply)) => {
                let session = self.capture->0.after(reply);
                if session.stage == CaptureStage::Finished && session.outcome() is Some {
                    Some((self.captured_area().size as usize, rgba_pixels(session.outcome()->0)))
                } else {
                    None
                }
            },
            _ => None,
        }
    }

    /// The overlay as it is made at the time `created`.
    pub open spec fn created_at(created: u64) -> MagnifierApp {
        MagnifierApp {
            ball: launched(),
            last_update: created,
            has_texture: false,
            hwnd: 0,
            styles_set: false,
            excluded_from_capture: false,
            region_initialized: false,
            prev_mouse_down: false,
            closing: false,
            scale: PixelScale { fraction: SCALE_ONE },
            stage: Stage::Idle,
            capture: None,
        }
    }

    /// The overlay before its first frame, made at the time `created`.
    pub fn new(created: u64) -> (app: MagnifierApp)
        ensures
            app == MagnifierApp::created_at(created),
            app == (MagnifierApp {
                ball: launched(),
                last_update: created,
                has_texture: false,
                hwnd: 0,
                styles_set: false,
                excluded_from_capture: false,
                region_initialized: false,
                prev_mouse_down: false,
                closing: false,
                scale: PixelScale { fraction: SCALE_ONE },
                stage: Stage::Idle,
                capture: None,
            }),
            app.wf(),
    {
        MagnifierApp {
            ball: Ball {
                pos: Position { x: 320_000_000_000, y: 240_000_000_000 },
                vel: Velocity { x: 230, y: 175 },
            },
            last_update: created,
            has_texture: false,
            hwnd: 0,
            styles_set: false,
            excluded_from_capture: false,
            region_initialized: false,
            prev_mouse_down: false,
            closing: false,
            scale: PixelScale { fraction: SCALE_ONE },
            stage: Stage::Idle,
            capture: None,
        }
    }

    /// The request to carry out next; none between two frames.
    pub fn request(&self) -> (request: Option<Request>)
        requires
            self.wf(),
        ensures
            request == (if self.stage == Stage::Idle {
                None
            } else {
                Some(self.pending())
            }),
    {
        match self.stage {
            Stage::Idle => None,
            Stage::FindWindow => Some(Request::FindWindow),
            Stage::ReadStyle => Some(Request::ReadStyle { hwnd: self.hwnd }),
            Stage::WriteStyle(style) => Some(Request::WriteStyle { hwnd: self.hwnd, style }),
            Stage::ExcludeFromCapture => Some(Request::ExcludeFromCapture { hwnd: self.hwnd }),
            Stage::InstallRegion => Some(
                Request::CreateRegion { bounds: ball_region(&self.ball, self.scale) },
            ),
            Stage::ApplyFirstRegion(region) => Some(
                Request::ApplyRegion { hwnd: self.hwnd, region },
            ),
            Stage::ReadClock => Some(Request::ReadClock),
            Stage::ReadCursor => Some(Request::ReadCursor),
            Stage::ReadButton { .. } => Some(Request::ReadButton),
            Stage::Close { x, y } => Some(Request::Close { x, y, elapsed: self.last_update }),
            Stage::MoveRegion => Some(
                Request::CreateRegion { bounds: ball_region(&self.ball, self.scale) },
            ),
            Stage::ApplyRegion(region) => Some(Request::ApplyRegion { hwnd: self.hwnd, region }),
            Stage::Capture => match &self.capture {
                Some(session) => match session.next_call() {
                    Some(call) => Some(Request::Gdi(call)),
                    None => None,
                },
                None => None,
            },
            Stage::StoreTexture => if self.has_texture {
                Some(Request::ReplaceTexture)
            } else {
                Some(
                    Request::CreateTexture { side: capture_area(&self.ball, self.scale).size },
                )
            },
            Stage::Draw => Some(
                Request::Draw {
                    lens: if self.has_texture {
                        Some(self.ball.pos)
                    } else {
                        None
                    },
                },
            ),
            Stage::Repaint => Some(Request::Repaint),
        }
    }

    fn go_to_styles(&mut self)
        ensures
            *final(self) == old(self).to_styles(),
    {
        if self.hwnd != 0 && !self.styles_set {
            self.stage = Stage::ReadStyle;
        } else {
            self.go_to_exclusion();
        }
    }

    fn go_to_exclusion(&mut self)
        ensures
            *final(self) == old(self).to_exclusion(),
    {
        if self.hwnd != 0 && !self.excluded_from_capture {
            self.stage = Stage::ExcludeFromCapture;
        } else {
            self.go_to_region();
        }
    }

    fn go_to_region(&mut self)
        ensures
            *final(self) == old(self).to_region(),
    {
        if self.hwnd != 0 && !self.region_initialized {
            self.stage = Stage::InstallRegion;
        } else {
            self.stage = Stage::ReadClock;
        }
    }

    fn go_to_move(&mut self)
        requires
            old(self).ball.wf(),
        ensures
            *final(self) == old(self).to_move(),
    {
        if self.hwnd != 0 {
            self.stage = Stage::MoveRegion;
        } else {
            self.go_to_capture();
        }
    }

    fn go_to_capture(&mut self)
        requires
            old(self).ball.wf(),
        ensures
            *final(self) == old(self).to_capture(),
    {
        let area: crate::geometry::CaptureArea = capture_area(&self.ball, self.scale);
        match CaptureSession::start(area.x, area.y, area.size, area.size) {
            Some(session) => {
                self.capture = Some(session);
                self.stage = Stage::Capture;
            },
            None => {
                self.stage = Stage::Draw;
            },
        }
    }

    /// Starts a frame at the given scale.
    pub fn begin_frame(&mut self, scale: PixelScale)
        requires
            old(self).wf(),
            old(self).stage == Stage::Idle,
        ensures
            *final(self) == old(self).begun(scale),
            final(self).wf(),
    {
        self.scale = scale;
        if self.hwnd == 0 {
            self.stage = Stage::FindWindow;
        } else {
            self.go_to_styles();
        }
    }

    /// Takes the answer to the pending request. Where it completes a capture,
    /// the result is the image that the texture of the lens has to show.
    pub fn resume(&mut self, event: Event) -> (image: Option<egui::ColorImage>)
        requires
            old(self).wf(),
            old(self).stage != Stage::Idle,
            answered(old(self).pending(), event),
        ensures
            *final(self) == old(self).after(event),
            final(self).wf(),
            image is Some <==> old(self).handed_over(event) is Some,
            image matches Some(image) ==> {
                let (side, pixels) = old(self).handed_over(event)->0;
                &&& image_size(image) == (side, side)
                &&& image_pixels(image) == pixels
            },
    {
        let mut image: Option<egui::ColorImage> = None;
        proof {
            answers_keep_the_overlay_well_formed(*self, event);
        }
        match (self.stage, event) {
            (Stage::FindWindow, Event::Window(hwnd)) => {
                self.hwnd = hwnd;
                self.go_to_styles();
            },
            (Stage::ReadStyle, Event::Style(current)) => {
                self.stage = Stage::WriteStyle(overlay_style(current));
            },
            (Stage::WriteStyle(_), _) => {
                self.styles_set = true;
                self.go_to_exclusion();
            },
            (Stage::ExcludeFromCapture, Event::Affinity(status)) => {
                self.excluded_from_capture = status != 0;
                self.go_to_region();
            },
            (Stage::InstallRegion, Event::Region(region)) => {
                if region == 0 {
                    self.region_initialized = true;
                    self.stage = Stage::ReadClock;
                } else {
                    self.stage = Stage::ApplyFirstRegion(region);
                }
            },
            (Stage::ApplyFirstRegion(_), _) => {
                self.region_initialized = true;
                self.stage = Stage::ReadClock;
            },
            (Stage::ReadClock, Event::Clock(now, screen)) => {
                let span: u64 = frame_time(self.last_update, now);
                self.ball.advance(span, screen);
                self.last_update = now;
                self.stage = Stage::ReadCursor;
            },
            (Stage::ReadCursor, Event::Cursor(status, x, y)) => {
                if status != 0 {
                    self.stage = Stage::ReadButton { x, y };
                } else {
                    self.go_to_move();
                }
            },
            (Stage::ReadButton { x, y }, Event::Button(button)) => {
                let down: bool = button_down(button);
                let hit: bool = hits_ball(&self.ball, self.scale, x, y);
                if !self.closing && down && !self.prev_mouse_down && hit {
                    self.closing = true;
                    self.prev_mouse_down = down;
                    self.stage = Stage::Close { x, y };
                } else {
                    self.prev_mouse_down = down;
                    self.go_to_move();
                }
            },
            (Stage::Close { .. }, _) => {
                self.go_to_move();
            },
            (Stage::MoveRegion, Event::Region(region)) => {
                if region == 0 {
                    self.go_to_capture();
                } else {
                    self.stage = Stage::ApplyRegion(region);
                }
            },
            (Stage::ApplyRegion(_), _) => {
                self.go_to_capture();
            },
            (Stage::Capture, Event::Gdi(reply)) => {
                image = self.resume_capture(reply);
            },
            (Stage::StoreTexture, _) => {
                self.has_texture = true;
                self.stage = Stage::Draw;
            },
            (Stage::Draw, _) => {
                self.stage = Stage::Repaint;
            },
            _ => {
                self.stage = Stage::Idle;
            },
        }
        image
    }

    fn resume_capture(&mut self, reply: GdiReply) -> (image: Option<egui::ColorImage>)
        requires
            old(self).wf(),
            old(self).stage == Stage::Capture,
            answers(old(self).capture->0.pending(), reply),
        ensures
            *final(self) == old(self).after(Event::Gdi(reply)),
            final(self).wf(),
            image is Some <==> old(self).handed_over(Event::Gdi(reply)) is Some,
            image matches Some(image) ==> {
                let (side, pixels) = old(self).handed_over(Event::Gdi(reply))->0;
                &&& image_size(image) == (side, side)
                &&& image_pixels(image) == pixels
            },
    {
        match self.capture.take() {
            Some(session) => {
                let mut session: CaptureSession = session;
                let side: usize = session.width as usize;
                session.take_reply(reply);
                match session.next_call() {
                    Some(_) => {
                        self.capture = Some(session);
                        None
                    },
                    None => {
                        match session.into_pixels() {
                            Some(pixels) => {
                                proof {
                                    converted_capture_is_opaque(session.buffer->0@);
                                }
                                self.stage = Stage::StoreTexture;
                                Some(image_from_rgba(side, &pixels))
                            },
                            None => {
                                self.stage = Stage::Draw;
                                None
                            },
                        }
                    },
                }
            },
            None => None,
        }
    }
}

/// Every answer keeps the overlay well formed.
pub proof fn answers_keep_the_overlay_well_formed(app: MagnifierApp, event: Event)
    requires
        app.wf(),
        app.stage != Stage::Idle,
        answered(app.pending(), event),
    ensures
        app.after(event).wf(),
{
    match (app.stage, event) {
        (Stage::ReadClock, Event::Clock(now, screen)) => {
            let span = frame_span(app.last_update, now);
            speed_is_kept(app.ball, span, screen);
            motion_keeps_the_limits(app.ball, span, screen);
        },
        (Stage::Capture, Event::Gdi(reply)) => {
            session_knows_what_it_holds(app.capture->0, reply);
        },
        _ => {},
    }
}

} // verus!
