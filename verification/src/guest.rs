//! Guest-side publisher: owns the one shared structure instance and decides,
//! tick by tick, whether to publish the frame the capture backend produced.
//!
//! Flow control is cooperative: the guest publishes a new frame only when the
//! host has acknowledged the previous one (`frame_read_counter` caught up with
//! `frame_counter`), and it refreshes the sentinel and metadata every tick
//! regardless, so a quiescent structure is never mistaken for garbage.
use vstd::prelude::*;
use crate::layout::{CaptureConfig, Cursor, GlobalBufferGuest, TextureMode, MARKER, MAX_FRAME_HEIGHT,
    MAX_FRAME_WIDTH};

verus! {

/// Which capture backend the guest is currently publishing from.
#[derive(Debug)]
pub enum CaptureMode {
    DXGI,
    OBS(String),
}

/// Mode equality over the window name's characters.
pub open spec fn mode_eq(a: CaptureMode, b: CaptureMode) -> bool {
    match (a, b) {
        (CaptureMode::DXGI, CaptureMode::DXGI) => true,
        (CaptureMode::OBS(x), CaptureMode::OBS(y)) => x@ == y@,
        _ => false,
    }
}

impl PartialEq for CaptureMode {
    fn eq(&self, other: &CaptureMode) -> (r: bool) {
        match (self, other) {
            (CaptureMode::DXGI, CaptureMode::DXGI) => true,
            (CaptureMode::OBS(x), CaptureMode::OBS(y)) => *x == *y,
            _ => false,
        }
    }
}

impl vstd::std_specs::cmp::PartialEqSpecImpl for CaptureMode {
    open spec fn obeys_eq_spec() -> bool {
        true
    }

    open spec fn eq_spec(&self, other: &CaptureMode) -> bool {
        mode_eq(*self, *other)
    }
}

/// Re-evaluates which capture backend should be active, from the flags the
/// host wrote and from whether a fullscreen window is in the foreground.
/// Returns the mode to switch to, or nothing when the current mode stands.
pub fn decide_capture_mode(
    config: &CaptureConfig,
    fullscreen_window: Option<String>,
    current: &CaptureMode,
) -> (r: Option<CaptureMode>)
    ensures
        match r {
            Some(m) => {
                &&& !mode_eq(*current, m)
                &&& match fullscreen_window {
                    Some(w) => {
                        if config.obs {
                            mode_eq(m, CaptureMode::OBS(w))
                        } else {
                            config.dxgi && m is DXGI
                        }
                    },
                    None => config.dxgi && m is DXGI,
                }
            },
            None => {
                &&& match fullscreen_window {
                    Some(w) => {
                        if config.obs {
                            mode_eq(*current, CaptureMode::OBS(w))
                        } else {
                            !config.dxgi || current is DXGI
                        }
                    },
                    None => !config.dxgi || current is DXGI,
                }
            },
        },
{
    if config.obs {
        match fullscreen_window {
            Some(window_name) => {
                let wanted = CaptureMode::OBS(window_name);
                if *current != wanted {
                    Some(wanted)
                } else {
                    None
                }
            },
            None => {
                if config.dxgi && *current != CaptureMode::DXGI {
                    Some(CaptureMode::DXGI)
                } else {
                    None
                }
            },
        }
    } else {
        if config.dxgi && *current != CaptureMode::DXGI {
            Some(CaptureMode::DXGI)
        } else {
            None
        }
    }
}

/// One captured frame, borrowed from whichever backend produced it, with its
/// resolution; the backend determines the channel order of the bytes.
pub enum Frame<'a> {
    DXGI((&'a [u8], (usize, usize))),
    OBS((&'a [u8], (usize, usize))),
}

impl<'a> Frame<'a> {
    /// The frame's pixel bytes.
    pub open spec fn spec_buffer(&self) -> Seq<u8> {
        match self {
            Frame::DXGI((b, _)) => b@,
            Frame::OBS((b, _)) => b@,
        }
    }

    /// The frame's resolution in pixels.
    pub open spec fn spec_resolution(&self) -> (usize, usize) {
        match self {
            Frame::DXGI((_, r)) => *r,
            Frame::OBS((_, r)) => *r,
        }
    }

    /// The channel order the producing backend uses.
    pub open spec fn spec_texture_mode(&self) -> TextureMode {
        match self {
            Frame::DXGI(_) => TextureMode::BGRA,
            Frame::OBS(_) => TextureMode::RGBA,
        }
    }

    pub fn resolution(&self) -> (r: (usize, usize))
        ensures
            r == self.spec_resolution(),
    {
        match self {
            Frame::DXGI((_, resolution)) => *resolution,
            Frame::OBS((_, resolution)) => *resolution,
        }
    }

    pub fn buffer_len(&self) -> (n: usize)
        ensures
            n == self.spec_buffer().len(),
    {
        match self {
            Frame::DXGI((buffer, _)) => buffer.len(),
            Frame::OBS((buffer, _)) => buffer.len(),
        }
    }

    pub fn texture_mode(&self) -> (m: TextureMode)
        ensures
            m == self.spec_texture_mode(),
    {
        match self {
            Frame::DXGI(_) => TextureMode::BGRA,
            Frame::OBS(_) => TextureMode::RGBA,
        }
    }

    /// Copies the frame's bytes into a payload buffer of the same length.
    pub fn copy_frame(&self, to: &mut Vec<u8>)
        requires
            old(to)@.len() == self.spec_buffer().len(),
        ensures
            final(to)@ == self.spec_buffer(),
    {
        match self {
            Frame::DXGI((buffer, _)) => {
                to.clear();
                to.extend_from_slice(buffer);
            },
            Frame::OBS((buffer, _)) => {
                to.clear();
                to.extend_from_slice(buffer);
            },
        }
    }
}

/// The guest publisher: the one shared structure instance, the producer-owned
/// frame counter, and the resolution last taken from the capture backend.
pub struct GuestPublisher {
    pub buffer: GlobalBufferGuest,
    pub frame_counter: u32,
    pub resolution: (u64, u64),
}

impl GuestPublisher {
    /// The publisher is well formed when the structure's own invariants hold,
    /// the structure's counter is the producer's counter, and the advertised
    /// dimensions are the ones last adopted.
    pub open spec fn wf(&self) -> bool {
        &&& self.buffer.wf()
        &&& self.buffer.frame_counter == self.frame_counter
        &&& self.buffer.width == self.resolution.0
        &&& self.buffer.height == self.resolution.1
    }

    /// Creates the publisher at process start, sized for the first observed
    /// resolution. The structure is created exactly once and mutated in place
    /// from then on, so its address stays discoverable.
    pub fn new(resolution: (u64, u64), screen_index: u64) -> (p: GuestPublisher)
        requires
            resolution.0 <= MAX_FRAME_WIDTH,
            resolution.1 <= MAX_FRAME_HEIGHT,
        ensures
            p.wf(),
            p.frame_counter == 0,
            p.resolution == resolution,
            p.buffer.frame_read_counter == 0,
            p.buffer.width == resolution.0,
            p.buffer.height == resolution.1,
            p.buffer.screen_index == screen_index,
    {
        GuestPublisher {
            buffer: GlobalBufferGuest::new(resolution, screen_index),
            frame_counter: 0,
            resolution,
        }
    }

    /// Whether this tick would publish: the previous frame has been fully
    /// drained by the consumer.
    pub open spec fn spec_update_frame(&self) -> bool {
        self.buffer.frame_read_counter == self.buffer.frame_counter
    }

    /// One tick of the publisher loop. `frame` is what the capture backend
    /// produced this tick (nothing on a transient capture failure), `cursor`
    /// the cursor state read this tick (nothing when it could not be read).
    ///
    /// When a frame arrived and the previous one has been drained, the payload
    /// is (re)sized and overwritten and the frame counter advances — the
    /// counter bump is the last write, since it is the field the consumer
    /// polls to know the rest is safe to read. Otherwise the tick only
    /// refreshes the sentinel, dimensions and cursor, so the structure never
    /// appears dead; under backpressure the counter must not advance.
    pub fn tick(&mut self, frame: Option<Frame>, cursor: Option<Cursor>)
        requires
            frame is Some && old(self).spec_update_frame() ==> old(self).frame_counter
                < u32::MAX,
            match frame {
                Some(f) => f.spec_buffer().len() == f.spec_resolution().0 * f.spec_resolution().1
                    * 4,
                None => true,
            },
        ensures
            ({
                let published = frame is Some && old(self).spec_update_frame();
                let c_after = if cursor is Some { cursor.unwrap() } else { old(self).buffer.cursor };
                &&& final(self).buffer.marker@ == MARKER@
                &&& final(self).buffer.cursor == c_after
                &&& final(self).buffer.frame_read_counter == old(self).buffer.frame_read_counter
                &&& final(self).buffer.config == old(self).buffer.config
                &&& final(self).buffer.screen_index == old(self).buffer.screen_index
                &&& final(self).buffer.frame_counter == final(self).frame_counter
                &&& final(self).buffer.width == final(self).resolution.0
                &&& final(self).buffer.height == final(self).resolution.1
                &&& if published {
                    let f = frame.unwrap();
                    &&& final(self).frame_counter == old(self).frame_counter + 1
                    &&& final(self).resolution == (
                        if old(self).buffer.frame_buffer@.len() != f.spec_buffer().len() {
                            ((f.spec_resolution().0 as u64, f.spec_resolution().1 as u64))
                        } else {
                            old(self).resolution
                        }
                    )
                    &&& final(self).buffer.frame_buffer@ == f.spec_buffer()
                    &&& final(self).buffer.frame_texmode == f.spec_texture_mode().spec_as_u8()
                } else {
                    &&& final(self).frame_counter == old(self).frame_counter
                    &&& final(self).resolution == old(self).resolution
                    &&& final(self).buffer.frame_buffer@ == old(self).buffer.frame_buffer@
                    &&& final(self).buffer.frame_texmode == old(self).buffer.frame_texmode
                }
            }),
            old(self).wf() ==> final(self).wf(),
    {
        let update_frame = self.buffer.frame_read_counter == self.buffer.frame_counter;
        match frame {
            Some(f) if update_frame => {
                self.frame_counter = self.frame_counter + 1;
                let frame_resolution = f.resolution();
                let frame_buffer_len = f.buffer_len();
                self.buffer.marker = MARKER;
                if self.buffer.frame_buffer.len() != frame_buffer_len {
                    self.resolution = (
                        frame_resolution.0 as u64,
                        frame_resolution.1 as u64,
                    );
                    self.buffer.frame_buffer = vec![0u8; frame_buffer_len];
                }
                self.buffer.width = self.resolution.0;
                self.buffer.height = self.resolution.1;
                self.buffer.frame_texmode = f.texture_mode().as_u8();
                f.copy_frame(&mut self.buffer.frame_buffer);
                match cursor {
                    Some(c) => {
                        self.buffer.cursor = c;
                    },
                    None => {},
                }
                self.buffer.frame_counter = self.frame_counter;
            },
            _ => {
                self.buffer.marker = MARKER;
                self.buffer.width = self.resolution.0;
                self.buffer.height = self.resolution.1;
                match cursor {
                    Some(c) => {
                        self.buffer.cursor = c;
                    },
                    None => {},
                }
                self.buffer.frame_counter = self.frame_counter;
            },
        }
    }

    /// Applies the effect of the host's acknowledgment write: the host sets
    /// the read counter to a frame counter value it previously read out of
    /// this very structure — and the counter only grows — so the acknowledged
    /// value can never be ahead of the producer. The host owns the
    /// configuration flags and rewrites them with the same write.
    pub fn apply_host_ack(&mut self, frame_read_counter: u32, config: CaptureConfig)
        requires
            frame_read_counter <= old(self).buffer.frame_counter,
        ensures
            final(self).buffer.frame_read_counter == frame_read_counter,
            final(self).buffer.config == config,
            final(self).buffer.marker == old(self).buffer.marker,
            final(self).buffer.width == old(self).buffer.width,
            final(self).buffer.height == old(self).buffer.height,
            final(self).buffer.frame_counter == old(self).buffer.frame_counter,
            final(self).buffer.frame_texmode == old(self).buffer.frame_texmode,
            final(self).buffer.frame_buffer@ == old(self).buffer.frame_buffer@,
            final(self).buffer.cursor == old(self).buffer.cursor,
            final(self).buffer.screen_index == old(self).buffer.screen_index,
            final(self).frame_counter == old(self).frame_counter,
            final(self).resolution == old(self).resolution,
            old(self).wf() ==> final(self).wf(),
    {
        self.buffer.frame_read_counter = frame_read_counter;
        self.buffer.config = config;
    }
}

} // verus!
