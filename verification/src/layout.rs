//! The shared-layout value types: the structure both parties agree on,
//! the cursor and configuration records it carries, and their invariants.
use vstd::prelude::*;

verus! {

/// The 8-byte sentinel that anchors the shared structure: a liveness flag
/// reasserted by the guest each tick and the signature the host scans for.
pub const MARKER: [u8; 8] = [0x0D, 0x0E, 0x0A, 0x0D, 0x0B, 0x0A, 0x0B, 0x0E];

/// Ceiling on the frame width the host will allocate a pixel buffer for.
pub const MAX_FRAME_WIDTH: u64 = 15360;

/// Ceiling on the frame height the host will allocate a pixel buffer for.
pub const MAX_FRAME_HEIGHT: u64 = 8640;

/// Cursor state, fully overwritten by the guest each tick; no partial updates.
#[derive(Clone, Copy, Debug, PartialEq, Eq, Structural)]
pub struct Cursor {
    pub is_visible: i32,
    pub cursor_id: u32,
    pub x: i32,
    pub y: i32,
}

impl Cursor {
    pub fn new() -> (c: Cursor)
        ensures
            c == (Cursor { is_visible: 0, cursor_id: 0, x: 0, y: 0 }),
    {
        Cursor { is_visible: 0, cursor_id: 0, x: 0, y: 0 }
    }
}

impl Default for Cursor {
    fn default() -> (c: Cursor)
        ensures
            c == (Cursor { is_visible: 0, cursor_id: 0, x: 0, y: 0 }),
    {
        Cursor::new()
    }
}

/// Which kind of target a capture backend is pointed at.
#[derive(Clone, Copy, Debug, PartialEq, Eq, Structural)]
pub enum CaptureTargetType {
    Desktop,
    Window,
}

/// A potential capture target, named so the consumer can select it.
#[derive(Clone, Debug, PartialEq, Eq)]
pub struct CaptureTarget {
    pub ty: u8,
    pub name: String,
}

/// Capture-mode toggles. The one part of the shared structure whose
/// authoritative writer is the host (consumer), not the guest.
#[derive(Clone, Copy, Debug, PartialEq, Eq, Structural)]
pub struct CaptureConfig {
    /// allow GDI screen-scrape capture
    pub gdi: bool,
    /// allow DXGI desktop-duplication capture
    pub dxgi: bool,
    /// allow OBS game capture of a fullscreen window
    pub obs: bool,
}

impl Default for CaptureConfig {
    fn default() -> (c: CaptureConfig)
        ensures
            c == (CaptureConfig { gdi: true, dxgi: true, obs: false }),
    {
        CaptureConfig { gdi: true, dxgi: true, obs: false }
    }
}

/// Byte order of the pixel payload; different capture backends produce
/// different channel orders.
#[derive(Clone, Copy, Debug, PartialEq, Eq, Structural)]
pub enum TextureMode {
    RGBA,
    BGRA,
}

impl TextureMode {
    /// The byte that tags this mode in the shared structure.
    pub open spec fn spec_as_u8(&self) -> u8 {
        match self {
            TextureMode::RGBA => 0,
            TextureMode::BGRA => 1,
        }
    }

    pub fn as_u8(&self) -> (b: u8)
        ensures
            b == self.spec_as_u8(),
    {
        match self {
            TextureMode::RGBA => 0,
            TextureMode::BGRA => 1,
        }
    }

    /// Reads a mode tag back; unknown tags are rejected.
    pub fn from_u8(b: u8) -> (m: Option<TextureMode>)
        ensures
            b == 0 ==> m == Some(TextureMode::RGBA),
            b == 1 ==> m == Some(TextureMode::BGRA),
            b > 1 ==> m is None,
    {
        if b == 0 {
            Some(TextureMode::RGBA)
        } else if b == 1 {
            Some(TextureMode::BGRA)
        } else {
            None
        }
    }
}

/// The guest's side of the shared structure: it owns the pixel payload as a
/// resizable byte buffer. Created once at process start and mutated in place;
/// its address, once published, must stay discoverable.
#[derive(Debug, PartialEq, Eq)]
pub struct GlobalBufferGuest {
    pub marker: [u8; 8],
    pub width: u64,
    pub height: u64,
    pub config: CaptureConfig,
    pub frame_counter: u32,
    pub frame_read_counter: u32,
    pub frame_texmode: u8,
    pub frame_buffer: Vec<u8>,
    pub cursor: Cursor,
    pub screen_index: u64,
}

impl GlobalBufferGuest {
    /// The structure is well formed when the sentinel is in place, the payload
    /// length matches the advertised dimensions, and the consumer is never
    /// ahead of the producer.
    pub open spec fn wf(&self) -> bool {
        &&& self.marker@ == MARKER@
        &&& self.frame_buffer@.len() == self.width * self.height * 4
        &&& self.frame_read_counter <= self.frame_counter
    }

    pub fn new(resolution: (u64, u64), screen_index: u64) -> (g: GlobalBufferGuest)
        requires
            resolution.0 <= MAX_FRAME_WIDTH,
            resolution.1 <= MAX_FRAME_HEIGHT,
        ensures
            g.wf(),
            g.marker@ == MARKER@,
            g.width == resolution.0,
            g.height == resolution.1,
            g.config == (CaptureConfig { gdi: true, dxgi: true, obs: false }),
            g.frame_counter == 0,
            g.frame_read_counter == 0,
            g.frame_texmode == TextureMode::BGRA.spec_as_u8(),
            g.frame_buffer@ == Seq::<u8>::new((resolution.0 * resolution.1 * 4) as nat, |i: int| 0u8),
            g.cursor == (Cursor { is_visible: 0, cursor_id: 0, x: 0, y: 0 }),
            g.screen_index == screen_index,
    {
        proof {
            assert(resolution.0 * resolution.1 * 4 <= MAX_FRAME_WIDTH * MAX_FRAME_HEIGHT * 4) by (nonlinear_arith)
                requires
                    resolution.0 <= MAX_FRAME_WIDTH,
                    resolution.1 <= MAX_FRAME_HEIGHT,
            ;
        }
        let len: usize = (resolution.0 as usize) * (resolution.1 as usize) * 4;
        let buf: Vec<u8> = vec![0u8; len];
        proof {
            assert(buf@ =~= Seq::<u8>::new((resolution.0 * resolution.1 * 4) as nat, |i: int| 0u8));
        }
        GlobalBufferGuest {
            marker: MARKER,
            width: resolution.0,
            height: resolution.1,
            config: CaptureConfig { gdi: true, dxgi: true, obs: false },
            frame_counter: 0,
            frame_read_counter: 0,
            frame_texmode: TextureMode::BGRA.as_u8(),
            frame_buffer: buf,
            cursor: Cursor::new(),
            screen_index,
        }
    }
}

/// The host's local mirror of the shared structure. The payload field is
/// reinterpreted as a raw guest-address-space pointer (plus layout padding):
/// it must never be dereferenced locally, only handed back to the memory
/// provider as a remote address.
#[derive(Clone, Copy, Debug, PartialEq, Eq)]
pub struct GlobalBufferHost {
    pub marker: [u8; 8],
    pub width: u64,
    pub height: u64,
    pub config: CaptureConfig,
    pub frame_counter: u32,
    pub frame_read_counter: u32,
    pub frame_texmode: u8,
    pub frame_buffer: u64,
    pub frame_buffer_pad: [u8; 32],
    pub cursor: Cursor,
    pub screen_index: u64,
}

impl GlobalBufferHost {
    pub fn new(resolution: (u64, u64), screen_index: u64) -> (g: GlobalBufferHost)
        ensures
            g.marker@ == MARKER@,
            g.width == resolution.0,
            g.height == resolution.1,
            g.config == (CaptureConfig { gdi: true, dxgi: true, obs: false }),
            g.frame_counter == 0,
            g.frame_read_counter == 0,
            g.frame_texmode == TextureMode::BGRA.spec_as_u8(),
            g.frame_buffer == 0,
            g.frame_buffer_pad@ == Seq::<u8>::new(32, |i: int| 0u8),
            g.cursor == (Cursor { is_visible: 0, cursor_id: 0, x: 0, y: 0 }),
            g.screen_index == screen_index,
    {
        let g = GlobalBufferHost {
            marker: MARKER,
            width: resolution.0,
            height: resolution.1,
            config: CaptureConfig { gdi: true, dxgi: true, obs: false },
            frame_counter: 0,
            frame_read_counter: 0,
            frame_texmode: TextureMode::BGRA.as_u8(),
            frame_buffer: 0,
            frame_buffer_pad: [0u8; 32],
            cursor: Cursor::new(),
            screen_index,
        };
        proof {
            assert(g.frame_buffer_pad@ =~= Seq::<u8>::new(32, |i: int| 0u8));
        }
        g
    }
}

/// A BGRA pixel as a desktop-duplication backend hands it out.
#[derive(Clone, Copy, Debug, PartialEq, Eq, Structural)]
pub struct BGRA8 {
    pub b: u8,
    pub g: u8,
    pub r: u8,
    pub a: u8,
}

/// A self-contained frame buffer for a single-backend producer: sentinel,
/// geometry, a frame counter and the pixels themselves.
#[derive(Debug, PartialEq, Eq)]
pub struct GlobalFrameBuffer {
    pub marker: [u8; 8],
    pub resolution: (u64, u64),
    pub frame_counter: u32,
    pub frame_buffer: Vec<BGRA8>,
    pub cursor: Cursor,
}

} // verus!
