//! Capturing a part of the desktop, call by call.
//!
//! A session names the next call to make and is told how it went. It makes no
//! call itself. Handles are plain numbers, and zero is no handle.

use vstd::prelude::*;

use crate::pixels::{bgra_to_rgba, opaque_rgba};

verus! {

/// The layout in which the pixels of a bitmap are read: a negative height says
/// that the top row comes first, and a compression of zero that there is none.
#[derive(Clone, Copy, PartialEq, Eq, Structural, Debug)]
pub struct DibFormat {
    pub width: i32,
    pub height: i32,
    pub planes: u16,
    pub bit_count: u16,
    pub compression: u32,
}

/// A call to make.
#[derive(Clone, Copy, PartialEq, Eq, Structural, Debug)]
pub enum GdiCall {
    /// Get the device context of the screen.
    AcquireScreen,
    /// Create a memory device context that is compatible with the screen.
    CreateMemory { screen: isize },
    /// Create a bitmap that is compatible with the screen.
    CreateBitmap { screen: isize, width: i32, height: i32 },
    /// Select the bitmap into the memory context; the reply is the object that
    /// was selected before.
    Select { memory: isize, bitmap: isize },
    /// Copy the screen from (`x`, `y`) on to the origin of the memory context, by
    /// the given raster operation.
    Copy {
        memory: isize,
        screen: isize,
        x: i32,
        y: i32,
        width: i32,
        height: i32,
        operation: u32,
    },
    /// Read `rows` rows of pixels, from the row `first` on, into a buffer of
    /// `bytes` bytes; `usage` says how colours are written.
    Read {
        memory: isize,
        bitmap: isize,
        first: u32,
        rows: u32,
        bytes: u64,
        format: DibFormat,
        usage: u32,
    },
    /// Select the earlier object back.
    Restore { memory: isize, previous: isize },
    /// Delete the bitmap.
    DeleteBitmap { bitmap: isize },
    /// Delete the memory context.
    DeleteMemory { memory: isize },
    /// Release the context of the screen.
    ReleaseScreen { screen: isize },
}

/// How a call went.
pub enum GdiReply {
    /// The handle that the call returned; zero where it failed.
    Handle(isize),
    /// The status of the copy; zero where it failed.
    Copied(i32),
    /// The number of rows read, zero where it failed, and the buffer.
    Read(i32, Vec<u8>),
    /// The call is done.
    Done,
}

/// Where a session stands: the call that it waits for, or the end.
#[derive(Clone, Copy, PartialEq, Eq, Structural, Debug)]
pub enum CaptureStage {
    AcquireScreen,
    CreateMemory,
    CreateBitmap,
    Select,
    Copy,
    Read,
    Restore,
    DeleteBitmap,
    DeleteMemory,
    ReleaseScreen,
    Finished,
}

/// A capture under way.
pub struct CaptureSession {
    pub x: i32,
    pub y: i32,
    pub width: i32,
    pub height: i32,
    pub stage: CaptureStage,
    pub screen: isize,
    pub memory: isize,
    pub bitmap: isize,
    pub previous: isize,
    pub copied: i32,
    pub lines: i32,
    pub buffer: Option<Vec<u8>>,
}

/// The reply has the form that belongs to the call.
pub open spec fn answers(call: GdiCall, reply: GdiReply) -> bool {
    match call {
        GdiCall::AcquireScreen => reply is Handle,
        GdiCall::CreateMemory { .. } => reply is Handle,
        GdiCall::CreateBitmap { .. } => reply is Handle,
        GdiCall::Select { .. } => reply is Handle,
        GdiCall::Copy { .. } => reply is Copied,
        GdiCall::Read { bytes, .. } => reply matches GdiReply::Read(_, buffer) && buffer@.len()
            == bytes,
        _ => reply is Done,
    }
}

impl CaptureSession {
    /// The session holds the context of the screen.
    pub open spec fn holds_screen(self) -> bool {
        self.stage != CaptureStage::AcquireScreen && self.stage != CaptureStage::Finished
    }

    /// The session holds a memory context.
    pub open spec fn holds_memory(self) -> bool {
        &&& self.holds_screen()
        &&& self.stage != CaptureStage::CreateMemory
        &&& self.stage != CaptureStage::ReleaseScreen
    }

    /// The session holds a bitmap.
    pub open spec fn holds_bitmap(self) -> bool {
        &&& self.holds_memory()
        &&& self.stage != CaptureStage::CreateBitmap
        &&& self.stage != CaptureStage::DeleteMemory
    }

    /// The bitmap is selected into the memory context.
    pub open spec fn holds_selection(self) -> bool {
        &&& self.holds_bitmap()
        &&& self.stage != CaptureStage::Select
        &&& self.stage != CaptureStage::DeleteBitmap
    }

    /// The captured area is not empty, what the session holds are handles, and
    /// rows that were read are in a buffer that fits the area.
    pub open spec fn wf(self) -> bool {
        &&& self.width > 0
        &&& self.height > 0
        &&& self.holds_screen() ==> self.screen != 0
        &&& self.holds_memory() ==> self.memory != 0
        &&& self.holds_bitmap() ==> self.bitmap != 0
        &&& self.lines != 0 ==> {
            &&& self.buffer is Some
            &&& self.buffer->0@.len() == self.width * self.height * 4
        }
    }

    /// The session for an area before its first call.
    pub open spec fn fresh(x: i32, y: i32, width: i32, height: i32) -> CaptureSession {
        CaptureSession {
            x,
            y,
            width,
            height,
            stage: CaptureStage::AcquireScreen,
            screen: 0,
            memory: 0,
            bitmap: 0,
            previous: 0,
            copied: 0,
            lines: 0,
            buffer: None,
        }
    }

    /// The session has made no call yet.
    pub open spec fn is_fresh(self) -> bool {
        self == CaptureSession::fresh(self.x, self.y, self.width, self.height)
    }

    /// The call that the session waits for.
    pub open spec fn pending(self) -> GdiCall
        recommends
            self.stage != CaptureStage::Finished,
    {
        match self.stage {
            CaptureStage::AcquireScreen => GdiCall::AcquireScreen,
            CaptureStage::CreateMemory => GdiCall::CreateMemory { screen: self.screen },
            CaptureStage::CreateBitmap => GdiCall::CreateBitmap {
                screen: self.screen,
                width: self.width,
                height: self.height,
            },
            CaptureStage::Select => GdiCall::Select { memory: self.memory, bitmap: self.bitmap },
            CaptureStage::Copy => GdiCall::Copy {
                memory: self.memory,
                screen: self.screen,
                x: self.x,
                y: self.y,
                width: self.width,
                height: self.height,
                operation: 0x00cc_0020,
            },
            CaptureStage::Read => GdiCall::Read {
                memory: self.memory,
                bitmap: self.bitmap,
                first: 0,
                rows: self.height as u32,
                bytes: (self.width * self.height * 4) as u64,
                format: DibFormat {
                    width: self.width,
                    height: (-self.height) as i32,
                    planes: 1,
                    bit_count: 32,
                    compression: 0,
                },
                usage: 0,
            },
            CaptureStage::Restore => GdiCall::Restore {
                memory: self.memory,
                previous: self.previous,
            },
            CaptureStage::DeleteBitmap => GdiCall::DeleteBitmap { bitmap: self.bitmap },
            CaptureStage::DeleteMemory => GdiCall::DeleteMemory { memory: self.memory },
            _ => GdiCall::ReleaseScreen { screen: self.screen },
        }
    }

    /// The session after a reply. A call that gives no handle ends the
    /// acquisition, and what was acquired before it is given back in reverse
    /// order; so is everything after the pixels were read.
    pub open spec fn after(self, reply: GdiReply) -> CaptureSession {
        match (self.stage, reply) {
            (CaptureStage::AcquireScreen, GdiReply::Handle(screen)) => CaptureSession {
                screen,
                stage: if screen == 0 {
                    CaptureStage::Finished
                } else {
                    CaptureStage::CreateMemory
                },
                ..self
            },
            (CaptureStage::CreateMemory, GdiReply::Handle(memory)) => CaptureSession {
                memory,
                stage: if memory == 0 {
                    CaptureStage::ReleaseScreen
                } else {
                    CaptureStage::CreateBitmap
                },
                ..self
            },
            (CaptureStage::CreateBitmap, GdiReply::Handle(bitmap)) => CaptureSession {
                bitmap,
                stage: if bitmap == 0 {
                    CaptureStage::DeleteMemory
                } else {
                    CaptureStage::Select
                },
                ..self
            },
            (CaptureStage::Select, GdiReply::Handle(previous)) => CaptureSession {
                previous,
                stage: CaptureStage::Copy,
                ..self
            },
            (CaptureStage::Copy, GdiReply::Copied(copied)) => CaptureSession {
                copied,
                stage: CaptureStage::Read,
                ..self
            },
            (CaptureStage::Read, GdiReply::Read(lines, buffer)) => CaptureSession {
                lines,
                buffer: Some(buffer),
                stage: CaptureStage::Restore,
                ..self
            },
            (CaptureStage::Restore, _) => CaptureSession {
                stage: CaptureStage::DeleteBitmap,
                ..self
            },
            (CaptureStage::DeleteBitmap, _) => CaptureSession {
                stage: CaptureStage::DeleteMemory,
                ..self
            },
            (CaptureStage::DeleteMemory, _) => CaptureSession {
                stage: CaptureStage::ReleaseScreen,
                ..self
            },
            _ => CaptureSession { stage: CaptureStage::Finished, ..self },
        }
    }

    /// What a finished session has captured: nothing unless the copy and the
    /// reading both went well.
    pub open spec fn outcome(self) -> Option<Seq<u8>> {
        if self.copied == 0 || self.lines == 0 {
            None
        } else {
            Some(opaque_rgba(self.buffer->0@))
        }
    }

    /// A session for the given area; there is none for an empty one.
    pub fn start(x: i32, y: i32, width: i32, height: i32) -> (session: Option<CaptureSession>)
        ensures
            session == (if width > 0 && height > 0 {
                Some(CaptureSession::fresh(x, y, width, height))
            } else {
                None
            }),
            session matches Some(s) ==> s.wf(),
    {
        if width <= 0 || height <= 0 {
            return None;
        }
        Some(
            CaptureSession {
                x,
                y,
                width,
                height,
                stage: CaptureStage::AcquireScreen,
                screen: 0,
                memory: 0,
                bitmap: 0,
                previous: 0,
                copied: 0,
                lines: 0,
                buffer: None,
            },
        )
    }

    /// The call to make next; none when the session has finished.
    pub fn next_call(&self) -> (call: Option<GdiCall>)
        requires
            self.wf(),
        ensures
            call == (if self.stage == CaptureStage::Finished {
                None
            } else {
                Some(self.pending())
            }),
    {
        match self.stage {
            CaptureStage::AcquireScreen => Some(GdiCall::AcquireScreen),
            CaptureStage::CreateMemory => Some(GdiCall::CreateMemory { screen: self.screen }),
            CaptureStage::CreateBitmap => Some(
                GdiCall::CreateBitmap {
                    screen: self.screen,
                    width: self.width,
                    height: self.height,
                },
            ),
            CaptureStage::Select => Some(
                GdiCall::Select { memory: self.memory, bitmap: self.bitmap },
            ),
            CaptureStage::Copy => Some(
                GdiCall::Copy {
                    memory: self.memory,
                    screen: self.screen,
                    x: self.x,
                    y: self.y,
                    width: self.width,
                    height: self.height,
                    operation: source_copy(),
                },
            ),
            CaptureStage::Read => {
                let bytes: u64 = byte_count(self.width, self.height);
                Some(
                    GdiCall::Read {
                        memory: self.memory,
                        bitmap: self.bitmap,
                        first: 0,
                        rows: self.height as u32,
                        bytes,
                        format: DibFormat {
                            width: self.width,
                            height: -self.height,
                            planes: 1,
                            bit_count: 32,
                            compression: uncompressed(),
                        },
                        usage: direct_colours(),
                    },
                )
            },
            CaptureStage::Restore => Some(
                GdiCall::Restore { memory: self.memory, previous: self.previous },
            ),
            CaptureStage::DeleteBitmap => Some(GdiCall::DeleteBitmap { bitmap: self.bitmap }),
            CaptureStage::DeleteMemory => Some(GdiCall::DeleteMemory { memory: self.memory }),
            CaptureStage::ReleaseScreen => Some(GdiCall::ReleaseScreen { screen: self.screen }),
            CaptureStage::Finished => None,
        }
    }

    /// Takes the reply to the pending call.
    pub fn take_reply(&mut self, reply: GdiReply)
        requires
            old(self).wf(),
            old(self).stage != CaptureStage::Finished,
            answers(old(self).pending(), reply),
        ensures
            *final(self) == old(self).after(reply),
            final(self).wf(),
    {
        proof {
            bytes_can_be_counted(self.width, self.height);
        }
        match (self.stage, reply) {
            (CaptureStage::AcquireScreen, GdiReply::Handle(screen)) => {
                self.screen = screen;
                self.stage = if screen == 0 {
                    CaptureStage::Finished
                } else {
                    CaptureStage::CreateMemory
                };
            },
            (CaptureStage::CreateMemory, GdiReply::Handle(memory)) => {
                self.memory = memory;
                self.stage = if memory == 0 {
                    CaptureStage::ReleaseScreen
                } else {
                    CaptureStage::CreateBitmap
                };
            },
            (CaptureStage::CreateBitmap, GdiReply::Handle(bitmap)) => {
                self.bitmap = bitmap;
                self.stage = if bitmap == 0 {
                    CaptureStage::DeleteMemory
                } else {
                    CaptureStage::Select
                };
            },
            (CaptureStage::Select, GdiReply::Handle(previous)) => {
                self.previous = previous;
                self.stage = CaptureStage::Copy;
            },
            (CaptureStage::Copy, GdiReply::Copied(copied)) => {
                self.copied = copied;
                self.stage = CaptureStage::Read;
            },
            (CaptureStage::Read, GdiReply::Read(lines, buffer)) => {
                self.lines = lines;
                self.buffer = Some(buffer);
                self.stage = CaptureStage::Restore;
            },
            (CaptureStage::Restore, _) => {
                self.stage = CaptureStage::DeleteBitmap;
            },
            (CaptureStage::DeleteBitmap, _) => {
                self.stage = CaptureStage::DeleteMemory;
            },
            (CaptureStage::DeleteMemory, _) => {
                self.stage = CaptureStage::ReleaseScreen;
            },
            _ => {
                self.stage = CaptureStage::Finished;
            },
        }
    }

    /// The captured pixels as opaque bytes with red first, where the capture
    /// went well.
    pub fn into_pixels(self) -> (pixels: Option<Vec<u8>>)
        requires
            self.wf(),
            self.stage == CaptureStage::Finished,
        ensures
            pixels is Some <==> self.outcome() is Some,
            pixels matches Some(p) ==> p@ == self.outcome()->0 && p@.len() == self.width
                * self.height * 4,
    {
        if self.copied == 0 || self.lines == 0 {
            return None;
        }
        match self.buffer {
            Some(pixels) => {
                let mut pixels: Vec<u8> = pixels;
                bgra_to_rgba(&mut pixels);
                Some(pixels)
            },
            None => None,
        }
    }
}

/// Reads `windows_sys`'s `SRCCOPY`, the raster operation that copies the source
/// as it is.
#[verifier::external_body]
fn source_copy() -> (operation: u32)
    ensures
        operation == 0x00cc_0020,
{
    windows_sys::Win32::Graphics::Gdi::SRCCOPY
}

/// Reads `windows_sys`'s `BI_RGB`, which says that a bitmap is not compressed.
#[verifier::external_body]
fn uncompressed() -> (compression: u32)
    ensures
        compression == 0,
{
    windows_sys::Win32::Graphics::Gdi::BI_RGB
}

/// Reads `windows_sys`'s `DIB_RGB_COLORS`, which says that pixels hold colours
/// and not places in a palette.
#[verifier::external_body]
fn direct_colours() -> (usage: u32)
    ensures
        usage == 0,
{
    windows_sys::Win32::Graphics::Gdi::DIB_RGB_COLORS
}

/// The bytes of any area can be counted, at four bytes a pixel.
proof fn bytes_can_be_counted(width: i32, height: i32)
    requires
        width > 0,
        height > 0,
    ensures
        0 < width * height * 4 <= u64::MAX,
{
    assert(0 < width * height <= 0x7fff_ffff * 0x7fff_ffff) by (nonlinear_arith)
        requires
            0 < width <= 0x7fff_ffff,
            0 < height <= 0x7fff_ffff,
    ;
}

/// The bytes of an area at four bytes a pixel.
fn byte_count(width: i32, height: i32) -> (bytes: u64)
    requires
        width > 0,
        height > 0,
    ensures
        bytes == width * height * 4,
{
    proof {
        bytes_can_be_counted(width, height);
    }
    width as u64 * height as u64 * 4
}

/// Something that a capture acquires and has to give back.
pub enum Resource {
    Screen(isize),
    Memory(isize),
    Bitmap(isize),
    /// The place of the earlier object in a memory context.
    Selection(isize, isize),
}

/// What the session holds.
pub open spec fn holdings(session: CaptureSession) -> Set<Resource> {
    Set::new(
        |resource: Resource|
            match resource {
                Resource::Screen(screen) => session.holds_screen() && screen == session.screen,
                Resource::Memory(memory) => session.holds_memory() && memory == session.memory,
                Resource::Bitmap(bitmap) => session.holds_bitmap() && bitmap == session.bitmap,
                Resource::Selection(memory, previous) => session.holds_selection() && memory
                    == session.memory && previous == session.previous,
            },
    )
}

/// A call touches only what is held, a bitmap is not deleted while it is
/// selected, and a memory context not while something is selected into it.
pub open spec fn allowed(held: Set<Resource>, call: GdiCall) -> bool {
    match call {
        GdiCall::AcquireScreen => true,
        GdiCall::CreateMemory { screen } => held.contains(Resource::Screen(screen)),
        GdiCall::CreateBitmap { screen, .. } => held.contains(Resource::Screen(screen)),
        GdiCall::Select { memory, bitmap } => {
            &&& held.contains(Resource::Memory(memory))
            &&& held.contains(Resource::Bitmap(bitmap))
        },
        GdiCall::Copy { memory, screen, .. } => {
            &&& held.contains(Resource::Memory(memory))
            &&& held.contains(Resource::Screen(screen))
        },
        GdiCall::Read { memory, bitmap, .. } => {
            &&& held.contains(Resource::Memory(memory))
            &&& held.contains(Resource::Bitmap(bitmap))
        },
        GdiCall::Restore { memory, previous } => held.contains(
            Resource::Selection(memory, previous),
        ),
        GdiCall::DeleteBitmap { bitmap } => {
            &&& held.contains(Resource::Bitmap(bitmap))
            &&& forall|m: isize, p: isize| !#[trigger] held.contains(Resource::Selection(m, p))
        },
        GdiCall::DeleteMemory { memory } => {
            &&& held.contains(Resource::Memory(memory))
            &&& forall|p: isize| !#[trigger] held.contains(Resource::Selection(memory, p))
        },
        GdiCall::ReleaseScreen { screen } => held.contains(Resource::Screen(screen)),
    }
}

/// What is held after a call went as the reply says.
pub open spec fn held_after(held: Set<Resource>, call: GdiCall, reply: GdiReply) -> Set<Resource> {
    match (call, reply) {
        (GdiCall::AcquireScreen, GdiReply::Handle(screen)) => if screen == 0 {
            held
        } else {
            held.insert(Resource::Screen(screen))
        },
        (GdiCall::CreateMemory { .. }, GdiReply::Handle(memory)) => if memory == 0 {
            held
        } else {
            held.insert(Resource::Memory(memory))
        },
        (GdiCall::CreateBitmap { .. }, GdiReply::Handle(bitmap)) => if bitmap == 0 {
            held
        } else {
            held.insert(Resource::Bitmap(bitmap))
        },
        (GdiCall::Select { memory, .. }, GdiReply::Handle(previous)) => held.insert(
            Resource::Selection(memory, previous),
        ),
        (GdiCall::Restore { memory, previous }, _) => held.remove(
            Resource::Selection(memory, previous),
        ),
        (GdiCall::DeleteBitmap { bitmap }, _) => held.remove(Resource::Bitmap(bitmap)),
        (GdiCall::DeleteMemory { memory }, _) => held.remove(Resource::Memory(memory)),
        (GdiCall::ReleaseScreen { screen }, _) => held.remove(Resource::Screen(screen)),
        _ => held,
    }
}

/// A session only asks for calls that its holdings allow, never with a null
/// handle, and its holdings change as the call changes them.
pub proof fn session_knows_what_it_holds(session: CaptureSession, reply: GdiReply)
    requires
        session.wf(),
        session.stage != CaptureStage::Finished,
        answers(session.pending(), reply),
    ensures
        allowed(holdings(session), session.pending()),
        holdings(session.after(reply)) =~= held_after(
            holdings(session),
            session.pending(),
            reply,
        ),
        !holdings(session).contains(Resource::Screen(0)),
        !holdings(session).contains(Resource::Memory(0)),
        !holdings(session).contains(Resource::Bitmap(0)),
        session.after(reply).wf(),
{
    bytes_can_be_counted(session.width, session.height);
}

/// The replies fit the calls, one by one, until they end or the session does.
pub open spec fn fits(session: CaptureSession, replies: Seq<GdiReply>) -> bool
    decreases replies.len(),
{
    if replies.len() == 0 {
        true
    } else {
        &&& session.stage != CaptureStage::Finished
        &&& answers(session.pending(), replies[0])
        &&& fits(session.after(replies[0]), replies.drop_first())
    }
}

/// The session after a list of replies.
pub open spec fn after_all(session: CaptureSession, replies: Seq<GdiReply>) -> CaptureSession
    decreases replies.len(),
{
    if replies.len() == 0 {
        session
    } else {
        after_all(session.after(replies[0]), replies.drop_first())
    }
}

/// What is held after all calls to which the replies belong.
pub open spec fn held_after_all(
    held: Set<Resource>,
    session: CaptureSession,
    replies: Seq<GdiReply>,
) -> Set<Resource>
    decreases replies.len(),
{
    if replies.len() == 0 {
        held
    } else {
        held_after_all(
            held_after(held, session.pending(), replies[0]),
            session.after(replies[0]),
            replies.drop_first(),
        )
    }
}

/// However the calls of a session go, the session's holdings are what the calls
/// made so far have left behind.
proof fn books_are_right(session: CaptureSession, replies: Seq<GdiReply>)
    requires
        session.wf(),
        fits(session, replies),
    ensures
        after_all(session, replies).wf(),
        held_after_all(holdings(session), session, replies) == holdings(
            after_all(session, replies),
        ),
    decreases replies.len(),
{
    if replies.len() > 0 {
        session_knows_what_it_holds(session, replies[0]);
        books_are_right(session.after(replies[0]), replies.drop_first());
    }
}

/// A capture leaks nothing: however its calls go, once it has finished,
/// everything that they acquired has been given back.
pub proof fn captures_leak_nothing(session: CaptureSession, replies: Seq<GdiReply>)
    requires
        session.wf(),
        session.is_fresh(),
        fits(session, replies),
        after_all(session, replies).stage == CaptureStage::Finished,
    ensures
        held_after_all(Set::empty(), session, replies) =~= Set::empty(),
{
    assert(holdings(session) =~= Set::empty());
    books_are_right(session, replies);
}

/// The number of calls that a session may still need.
pub open spec fn calls_left(stage: CaptureStage) -> nat {
    match stage {
        CaptureStage::AcquireScreen => 10,
        CaptureStage::CreateMemory => 9,
        CaptureStage::CreateBitmap => 8,
        CaptureStage::Select => 7,
        CaptureStage::Copy => 6,
        CaptureStage::Read => 5,
        CaptureStage::Restore => 4,
        CaptureStage::DeleteBitmap => 3,
        CaptureStage::DeleteMemory => 2,
        CaptureStage::ReleaseScreen => 1,
        CaptureStage::Finished => 0,
    }
}

/// How each call of a capture goes.
pub struct Outcomes {
    pub screen: isize,
    pub memory: isize,
    pub bitmap: isize,
    pub previous: isize,
    pub copied: i32,
    pub lines: i32,
    pub buffer: Vec<u8>,
}

/// The reply to a call, where the calls go as `outcomes` says.
pub open spec fn reply_to(call: GdiCall, outcomes: Outcomes) -> GdiReply {
    match call {
        GdiCall::AcquireScreen => GdiReply::Handle(outcomes.screen),
        GdiCall::CreateMemory { .. } => GdiReply::Handle(outcomes.memory),
        GdiCall::CreateBitmap { .. } => GdiReply::Handle(outcomes.bitmap),
        GdiCall::Select { .. } => GdiReply::Handle(outcomes.previous),
        GdiCall::Copy { .. } => GdiReply::Copied(outcomes.copied),
        GdiCall::Read { .. } => GdiReply::Read(outcomes.lines, outcomes.buffer),
        _ => GdiReply::Done,
    }
}

/// The session at its end, where the calls go as `outcomes` says.
pub open spec fn concluded(session: CaptureSession, outcomes: Outcomes) -> CaptureSession
    decreases calls_left(session.stage),
{
    if session.stage == CaptureStage::Finished {
        session
    } else {
        concluded(session.after(reply_to(session.pending(), outcomes)), outcomes)
    }
}

/// The calls that a session still makes, where they go as `outcomes` says.
pub open spec fn calls_made(session: CaptureSession, outcomes: Outcomes) -> Seq<GdiCall>
    decreases calls_left(session.stage),
{
    if session.stage == CaptureStage::Finished {
        Seq::empty()
    } else {
        seq![session.pending()] + calls_made(
            session.after(reply_to(session.pending(), outcomes)),
            outcomes,
        )
    }
}

/// Every call that can fail goes well.
pub open spec fn all_go_well(outcomes: Outcomes) -> bool {
    &&& outcomes.screen != 0
    &&& outcomes.memory != 0
    &&& outcomes.bitmap != 0
    &&& outcomes.copied != 0
    &&& outcomes.lines != 0
}

/// A capture finishes, and it gives pixels exactly when each of its calls that
/// can fail went well: then they are the buffer's, opaque and red first.
pub proof fn capture_needs_every_call(session: CaptureSession, outcomes: Outcomes)
    requires
        session.wf(),
        session.is_fresh(),
    ensures
        concluded(session, outcomes).stage == CaptureStage::Finished,
        concluded(session, outcomes).outcome() == (if all_go_well(outcomes) {
            Some(opaque_rgba(outcomes.buffer@))
        } else {
            None
        }),
{
    reveal_with_fuel(concluded, 11);
}

/// The calls of a capture in order: acquire until one fails, copy and read, and
/// give back in reverse what was acquired.
pub proof fn captures_release_in_reverse(session: CaptureSession, outcomes: Outcomes)
    requires
        session.wf(),
        session.is_fresh(),
    ensures
        ({
            let (screen, memory) = (outcomes.screen, outcomes.memory);
            let (bitmap, previous) = (outcomes.bitmap, outcomes.previous);
            let (x, y, width, height) = (session.x, session.y, session.width, session.height);
            let create_memory = GdiCall::CreateMemory { screen };
            let create_bitmap = GdiCall::CreateBitmap { screen, width, height };
            let delete_memory = GdiCall::DeleteMemory { memory };
            let release_screen = GdiCall::ReleaseScreen { screen };
            calls_made(session, outcomes) =~= if screen == 0 {
                seq![GdiCall::AcquireScreen]
            } else if memory == 0 {
                seq![GdiCall::AcquireScreen, create_memory, release_screen]
            } else if bitmap == 0 {
                seq![
                    GdiCall::AcquireScreen,
                    create_memory,
                    create_bitmap,
                    delete_memory,
                    release_screen,
                ]
            } else {
                seq![
                    GdiCall::AcquireScreen,
                    create_memory,
                    create_bitmap,
                    GdiCall::Select { memory, bitmap },
                    GdiCall::Copy {
                        memory,
                        screen,
                        x,
                        y,
                        width,
                        height,
                        operation: 0x00cc_0020,
                    },
                    GdiCall::Read {
                        memory,
                        bitmap,
                        first: 0,
                        rows: height as u32,
                        bytes: (width * height * 4) as u64,
                        format: DibFormat {
                            width,
                            height: (-height) as i32,
                            planes: 1,
                            bit_count: 32,
                            compression: 0,
                        },
                        usage: 0,
                    },
                    GdiCall::Restore { memory, previous },
                    GdiCall::DeleteBitmap { bitmap },
                    delete_memory,
                    release_screen,
                ]
            }
        }),
{
    reveal_with_fuel(calls_made, 11);
}

/// A new session is of the area that it was started for and has acquired and
/// captured nothing.
pub proof fn a_new_session_is_of_its_area(x: i32, y: i32, width: i32, height: i32)
    ensures
        ({
            let session = CaptureSession::fresh(x, y, width, height);
            &&& session.x == x
            &&& session.y == y
            &&& session.width == width
            &&& session.height == height
            &&& session.pending() == GdiCall::AcquireScreen
            &&& session.outcome() is None
        }),
{
}

/// What is captured depends on the five calls that can fail, and on nothing else:
/// if the three handles, the copy and the reading all came out other than zero,
/// the result is the buffer's pixels, and otherwise there is none.
pub proof fn five_calls_decide_a_capture(session: CaptureSession, outcomes: Outcomes)
    requires
        session.wf(),
        session.is_fresh(),
    ensures
        ({
            let end = concluded(session, outcomes);
            &&& end.outcome() is Some <==> outcomes.screen != 0 && outcomes.memory != 0
                && outcomes.bitmap != 0 && outcomes.copied != 0 && outcomes.lines != 0
            &&& end.outcome() is Some ==> end.outcome()->0.len() == outcomes.buffer@.len()
            &&& end.outcome() is Some ==> forall|i: int|
                0 <= i < outcomes.buffer@.len() / 4 ==> {
                    &&& end.outcome()->0[4 * i] == outcomes.buffer@[4 * i + 2]
                    &&& end.outcome()->0[4 * i + 1] == outcomes.buffer@[4 * i + 1]
                    &&& end.outcome()->0[4 * i + 2] == outcomes.buffer@[4 * i]
                    &&& #[trigger] end.outcome()->0[4 * i + 3] == 255
                }
        }),
{
    capture_needs_every_call(session, outcomes);
}

} // verus!
