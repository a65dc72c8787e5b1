//! How the ball moves: straight on between the edges of the screen, and back
//! into the screen from each edge that it reaches.

use vstd::prelude::*;

verus! {

/// The radius of the ball in logical points.
pub const BALL_RADIUS_POINTS: u32 = 180;

/// The radius of the ball in nanopoints.
pub const BALL_RADIUS: i64 = 180_000_000_000;

/// The longest stretch of motion in one frame, in nanoseconds.
pub const MAX_FRAME: u64 = 50_000_000;

/// A position in nanopoints from the top left corner of the screen.
#[derive(Clone, Copy, PartialEq, Eq, Structural, Debug)]
pub struct Position {
    pub x: i64,
    pub y: i64,
}

/// A velocity in points per second.
#[derive(Clone, Copy, PartialEq, Eq, Structural, Debug)]
pub struct Velocity {
    pub x: i64,
    pub y: i64,
}

/// The size of the screen in nanopoints.
#[derive(Clone, Copy, PartialEq, Eq, Structural, Debug)]
pub struct Screen {
    pub width: i64,
    pub height: i64,
}

impl Screen {
    /// A ball that touches the right and the bottom edge lies within the range of
    /// positions.
    pub open spec fn wf(self) -> bool {
        &&& i64::MIN + 2 * BALL_RADIUS <= self.width
        &&& i64::MIN + 2 * BALL_RADIUS <= self.height
    }

    /// The ball fits into the screen.
    pub open spec fn fits_ball(self) -> bool {
        &&& 2 * BALL_RADIUS <= self.width
        &&& 2 * BALL_RADIUS <= self.height
    }

    /// The screen that is made from two edges.
    pub open spec fn made_from(width: i64, height: i64) -> Screen {
        let least = (i64::MIN + 2 * BALL_RADIUS) as i64;
        Screen {
            width: if width < least {
                least
            } else {
                width
            },
            height: if height < least {
                least
            } else {
                height
            },
        }
    }

    /// The screen with these edges. An edge so far below zero that a ball at it
    /// would leave the range of positions is moved to the end of the range.
    pub fn new(width: i64, height: i64) -> (screen: Screen)
        ensures
            screen == Screen::made_from(width, height),
            screen.wf(),
            screen.width == (if width < i64::MIN + 2 * BALL_RADIUS {
                i64::MIN + 2 * BALL_RADIUS
            } else {
                width as int
            }),
            screen.height == (if height < i64::MIN + 2 * BALL_RADIUS {
                i64::MIN + 2 * BALL_RADIUS
            } else {
                height as int
            }),
    {
        let least: i64 = i64::MIN + 2 * BALL_RADIUS;
        Screen {
            width: if width < least {
                least
            } else {
                width
            },
            height: if height < least {
                least
            } else {
                height
            },
        }
    }
}

/// The nanoseconds of motion between two readings of the clock: what lies
/// between them, but no more than `MAX_FRAME`, and none if the clock stepped
/// back.
pub open spec fn frame_span(last: u64, now: u64) -> u64 {
    if now <= last {
        0
    } else if now - last > MAX_FRAME {
        MAX_FRAME
    } else {
        (now - last) as u64
    }
}

/// The nanoseconds of motion between two readings of the clock.
pub fn frame_time(last: u64, now: u64) -> (span: u64)
    ensures
        span == frame_span(last, now),
{
    if now <= last {
        0
    } else if now - last > MAX_FRAME {
        MAX_FRAME
    } else {
        now - last
    }
}

/// The size of a number without its sign.
pub open spec fn magnitude(value: int) -> int {
    if value < 0 {
        -value
    } else {
        value
    }
}

/// Position and velocity along one axis after the walls have acted. The far
/// wall has the last word: where the ball reaches it, or where the screen is
/// too narrow for the ball, the ball touches it and moves back.
pub open spec fn reflected(pos: int, vel: int, extent: int) -> (int, int) {
    if extent < 2 * BALL_RADIUS || pos + BALL_RADIUS > extent {
        (extent - BALL_RADIUS, -magnitude(vel))
    } else if pos < BALL_RADIUS {
        (BALL_RADIUS as int, magnitude(vel))
    } else {
        (pos, vel)
    }
}

/// Position and velocity along one axis after `span` nanoseconds.
pub open spec fn moved(pos: int, vel: int, span: int, extent: int) -> (int, int) {
    reflected(pos + vel * span, vel, extent)
}

fn reflect(pos: i128, vel: i64, extent: i64) -> (after: (i64, i64))
    requires
        vel != i64::MIN,
        i64::MIN + 2 * BALL_RADIUS <= extent,
    ensures
        (after.0 as int, after.1 as int) == reflected(pos as int, vel as int, extent as int),
{
    let near: i128 = BALL_RADIUS as i128;
    let far: i128 = (extent - BALL_RADIUS) as i128;
    let mut p: i128 = pos;
    let mut v: i64 = vel;
    if p < near {
        p = near;
        if v < 0 {
            v = -v;
        }
    }
    if p > far {
        p = far;
        if v > 0 {
            v = -v;
        }
    }
    (p as i64, v)
}

/// The ball.
#[derive(Clone, Copy, PartialEq, Eq, Structural, Debug)]
pub struct Ball {
    pub pos: Position,
    pub vel: Velocity,
}

impl Ball {
    /// The left and the top edge of the ball are positions, and the velocity can
    /// be turned round.
    pub open spec fn wf(self) -> bool {
        &&& i64::MIN + BALL_RADIUS <= self.pos.x
        &&& i64::MIN + BALL_RADIUS <= self.pos.y
        &&& self.vel.x != i64::MIN
        &&& self.vel.y != i64::MIN
    }

    /// The whole ball lies on the screen.
    pub open spec fn inside(self, screen: Screen) -> bool {
        &&& BALL_RADIUS <= self.pos.x <= screen.width - BALL_RADIUS
        &&& BALL_RADIUS <= self.pos.y <= screen.height - BALL_RADIUS
    }

    /// The ball after `span` nanoseconds on `screen`.
    pub open spec fn advanced(self, span: u64, screen: Screen) -> Ball {
        let (x, vx) = moved(self.pos.x as int, self.vel.x as int, span as int, screen.width as int);
        let (y, vy) = moved(
            self.pos.y as int,
            self.vel.y as int,
            span as int,
            screen.height as int,
        );
        Ball {
            pos: Position { x: x as i64, y: y as i64 },
            vel: Velocity { x: vx as i64, y: vy as i64 },
        }
    }

    /// Moves the ball for `span` nanoseconds on `screen`.
    pub fn advance(&mut self, span: u64, screen: Screen)
        requires
            old(self).wf(),
            screen.wf(),
        ensures
            *final(self) == old(self).advanced(span, screen),
            final(self).wf(),
            screen.fits_ball() ==> final(self).inside(screen),
    {
        let step: i128 = span as i128;
        let (vx, vy): (i128, i128) = (self.vel.x as i128, self.vel.y as i128);
        let ghost bound: int = 0x7fff_ffff_ffff_ffffint * 0xffff_ffff_ffff_ffff;
        assert(-bound <= vx * step <= bound && -bound <= vy * step <= bound) by (nonlinear_arith)
            requires
                -0x7fff_ffff_ffff_ffff <= vx <= 0x7fff_ffff_ffff_ffff,
                -0x7fff_ffff_ffff_ffff <= vy <= 0x7fff_ffff_ffff_ffff,
                0 <= step <= 0xffff_ffff_ffff_ffff,
                bound == 0x7fff_ffff_ffff_ffff * 0xffff_ffff_ffff_ffff,
        ;
        let (x, vel_x): (i64, i64) = reflect(
            self.pos.x as i128 + vx * step,
            self.vel.x,
            screen.width,
        );
        let (y, vel_y): (i64, i64) = reflect(
            self.pos.y as i128 + vy * step,
            self.vel.y,
            screen.height,
        );
        self.pos = Position { x, y };
        self.vel = Velocity { x: vel_x, y: vel_y };
    }
}

/// The ball never changes its speed, only its direction.
pub proof fn speed_is_kept(ball: Ball, span: u64, screen: Screen)
    requires
        ball.wf(),
        screen.wf(),
    ensures
        magnitude(ball.advanced(span, screen).vel.x as int) == magnitude(ball.vel.x as int),
        magnitude(ball.advanced(span, screen).vel.y as int) == magnitude(ball.vel.y as int),
{
}

/// Motion keeps the ball within its limits, and on a screen that
/// it fits into the whole ball lies on the screen afterwards.
pub proof fn motion_keeps_the_limits(ball: Ball, span: u64, screen: Screen)
    requires
        ball.wf(),
        screen.wf(),
    ensures
        ball.advanced(span, screen).wf(),
        screen.fits_ball() ==> ball.advanced(span, screen).inside(screen),
{
}

/// A ball that touches a wall moves away from it afterwards.
pub proof fn walls_send_the_ball_back(pos: int, vel: int, span: int, extent: int)
    requires
        2 * BALL_RADIUS <= extent,
    ensures
        ({
            let (after, speed) = moved(pos, vel, span, extent);
            &&& pos + vel * span < BALL_RADIUS ==> after == BALL_RADIUS && speed >= 0
            &&& pos + vel * span > extent - BALL_RADIUS ==> after == extent - BALL_RADIUS && speed
                <= 0
        }),
{
}

/// Away from the walls the motion does not depend on how it is cut into
/// frames: two spans in a row take the ball where their sum takes it.
pub proof fn frames_add_up(pos: int, vel: int, first: int, second: int, extent: int)
    requires
        moved(pos, vel, first, extent) == (pos + vel * first, vel),
    ensures
        ({
            let (after, speed) = moved(pos, vel, first, extent);
            moved(after, speed, second, extent) == moved(pos, vel, first + second, extent)
        }),
{
    assert(vel * (first + second) == vel * first + vel * second) by (nonlinear_arith);
}

/// A ball that lies on the screen stays where it is when no time passes.
pub proof fn no_time_no_motion(ball: Ball, screen: Screen)
    requires
        ball.inside(screen),
        screen.wf(),
    ensures
        ball.advanced(0, screen) == ball,
{
    assert(ball.vel.x * 0 == 0 && ball.vel.y * 0 == 0);
}

/// On a screen too narrow for the ball, the ball rests against the far wall.
pub proof fn narrow_screens_pin_the_ball(pos: int, vel: int, span: int, extent: int)
    requires
        extent < 2 * BALL_RADIUS,
    ensures
        moved(pos, vel, span, extent) == (extent - BALL_RADIUS, -magnitude(vel)),
{
}

/// No time is lost between two readings of the clock: up to the longest frame the
/// span leads exactly from the one to the other, a longer pause counts as the
/// longest frame, and a clock that did not move on counts as none.
pub proof fn frames_lose_no_time(last: u64, now: u64)
    ensures
        MAX_FRAME == 50_000_000,
        last <= now && now - last <= 50_000_000 ==> last + frame_span(last, now) == now,
        now >= last + 50_000_000 ==> frame_span(last, now) == 50_000_000,
        now <= last ==> frame_span(last, now) == 0,
{
}

/// A reading of the clock in between changes nothing of the time that passes.
pub proof fn frame_times_add_up(first: u64, between: u64, second: u64)
    requires
        first <= between <= second,
        second - first <= MAX_FRAME,
    ensures
        frame_span(first, between) + frame_span(between, second) == frame_span(first, second),
{
}

/// Motion along one axis, by where it leads: straight on where that keeps the
/// ball between the walls, and otherwise to the wall that it would have crossed,
/// with the same speed and away from the wall. Where both walls are too close
/// together for the ball, the far one counts.
pub open spec fn moves_and_bounces(
    from: int,
    vel: int,
    span: int,
    extent: int,
    to: int,
    speed: int,
) -> bool {
    let goal = from + vel * span;
    &&& BALL_RADIUS <= goal <= extent - BALL_RADIUS ==> to == goal && speed == vel
    &&& goal < BALL_RADIUS && 2 * BALL_RADIUS <= extent ==> {
        &&& to == BALL_RADIUS
        &&& speed == vel || speed == -vel
        &&& speed >= 0
    }
    &&& goal > extent - BALL_RADIUS || extent < 2 * BALL_RADIUS ==> {
        &&& to == extent - BALL_RADIUS
        &&& speed == vel || speed == -vel
        &&& speed <= 0
    }
}

/// The ball moves and bounces along both axes, along each as that axis alone
/// says.
pub proof fn the_ball_moves_and_bounces(ball: Ball, span: u64, screen: Screen)
    requires
        ball.wf(),
        screen.wf(),
    ensures
        ({
            let after = ball.advanced(span, screen);
            &&& moves_and_bounces(
                ball.pos.x as int,
                ball.vel.x as int,
                span as int,
                screen.width as int,
                after.pos.x as int,
                after.vel.x as int,
            )
            &&& moves_and_bounces(
                ball.pos.y as int,
                ball.vel.y as int,
                span as int,
                screen.height as int,
                after.pos.y as int,
                after.vel.y as int,
            )
        }),
{
}

/// The axes do not know of each other: what happens along one is the same
/// whatever position, velocity and screen are along the other.
pub proof fn the_axes_are_independent(
    ball: Ball,
    other: Ball,
    span: u64,
    screen: Screen,
    other_screen: Screen,
)
    ensures
        ({
            let (after, other_after) = (
                ball.advanced(span, screen),
                other.advanced(span, other_screen),
            );
            &&& ball.pos.x == other.pos.x && ball.vel.x == other.vel.x && screen.width
                == other_screen.width ==> after.pos.x == other_after.pos.x && after.vel.x
                == other_after.vel.x
            &&& ball.pos.y == other.pos.y && ball.vel.y == other.vel.y && screen.height
                == other_screen.height ==> after.pos.y == other_after.pos.y && after.vel.y
                == other_after.vel.y
            // Nor do they differ from each other.
            &&& ball.pos.x == other.pos.y && ball.vel.x == other.vel.y && screen.width
                == other_screen.height ==> after.pos.x == other_after.pos.y && after.vel.x
                == other_after.vel.y
        }),
{
}

/// Between the walls two frames in a row take the ball where one frame of their
/// length takes it.
pub proof fn frames_of_the_ball_add_up(ball: Ball, first: u64, second: u64, screen: Screen)
    requires
        ball.wf(),
        screen.wf(),
        first + second <= u64::MAX,
        BALL_RADIUS <= ball.pos.x + ball.vel.x * first <= screen.width - BALL_RADIUS,
        BALL_RADIUS <= ball.pos.y + ball.vel.y * first <= screen.height - BALL_RADIUS,
    ensures
        ball.advanced(first, screen).advanced(second, screen) == ball.advanced(
            (first + second) as u64,
            screen,
        ),
{
    frames_add_up(
        ball.pos.x as int,
        ball.vel.x as int,
        first as int,
        second as int,
        screen.width as int,
    );
    frames_add_up(
        ball.pos.y as int,
        ball.vel.y as int,
        first as int,
        second as int,
        screen.height as int,
    );
}

/// A screen has the edges that it is made from, as far as they are in range, and
/// those in range are all that a screen can have.
pub proof fn a_screen_has_its_edges(width: i64, height: i64)
    ensures
        Screen::made_from(width, height).wf(),
        width >= i64::MIN + 2 * BALL_RADIUS ==> Screen::made_from(width, height).width == width,
        height >= i64::MIN + 2 * BALL_RADIUS ==> Screen::made_from(width, height).height == height,
{
}

} // verus!
