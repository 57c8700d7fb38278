//! Host-side poller: discovers the shared structure in a guest module image
//! and consumes frames from it by polling the counter pair.
//!
//! Every interaction with guest memory happens outside this crate, through
//! the raw memory provider; this module makes all the decisions. One update
//! is split around the two remote reads it needs: first the structure itself
//! is read and decoded (to learn whether a new frame exists and where its
//! payload lives), then the payload is fetched at the advertised address, and
//! finally the acknowledgment image is written back.
//!
//! The structure is single-buffered: if the guest starts writing a new frame
//! between the host's two reads, the payload read can observe bytes of the
//! old frame, or a torn mix, under metadata of the new one. The design
//! accepts this risk; ordering the guest's counter bump last keeps the window
//! narrow but does not close it.
use vstd::prelude::*;
use crate::layout::{CaptureConfig, GlobalBufferHost, MAX_FRAME_HEIGHT, MAX_FRAME_WIDTH};
use crate::scanner::{pat_matches_at, resolution_pattern, scan, spec_resolution_pattern};

verus! {

/// Width the host's local pixel buffer is pre-allocated for.
pub const DEFAULT_FRAME_WIDTH: u64 = 1920;

/// Height the host's local pixel buffer is pre-allocated for.
pub const DEFAULT_FRAME_HEIGHT: u64 = 1080;

/// The poller's error taxonomy.
#[derive(Clone, Copy, Debug, PartialEq, Eq, Structural)]
pub enum CaptureError {
    /// Discovery failed: no candidate module image contained the signature.
    NotFound,
    /// The frame counter has not moved: a normal "nothing to do" signal, not
    /// a hard error.
    Stale,
    /// The metadata read out of guest memory failed; the process is likely
    /// gone and the owner should discard this poller and rediscover.
    ReadFailed,
}

/// The host's local mirror of the shared structure plus the pixel buffer the
/// payload is fetched into.
pub struct CaptureData {
    pub global_buffer: GlobalBufferHost,
    pub frame_buffer: Vec<u8>,
}

impl Default for CaptureData {
    /// Pre-allocates the pixel buffer for a common resolution.
    fn default() -> (d: CaptureData)
        ensures
            d.global_buffer.width == DEFAULT_FRAME_WIDTH,
            d.global_buffer.height == DEFAULT_FRAME_HEIGHT,
            d.global_buffer.frame_counter == 0,
            d.global_buffer.frame_read_counter == 0,
            d.global_buffer.frame_buffer == 0,
            d.global_buffer.screen_index == 0,
            d.global_buffer.config == (CaptureConfig { gdi: true, dxgi: true, obs: false }),
            d.frame_buffer@ == Seq::<u8>::new(
                (DEFAULT_FRAME_WIDTH * DEFAULT_FRAME_HEIGHT * 4) as nat,
                |i: int| 0u8,
            ),
    {
        let len: usize = (DEFAULT_FRAME_WIDTH as usize) * (DEFAULT_FRAME_HEIGHT as usize) * 4;
        let d = CaptureData {
            global_buffer: GlobalBufferHost::new((DEFAULT_FRAME_WIDTH, DEFAULT_FRAME_HEIGHT), 0),
            frame_buffer: vec![0u8; len],
        };
        proof {
            assert(d.frame_buffer@ =~= Seq::<u8>::new(
                (DEFAULT_FRAME_WIDTH * DEFAULT_FRAME_HEIGHT * 4) as nat,
                |i: int| 0u8,
            ));
        }
        d
    }
}

/// What the poller needs read out of guest memory next: `len` payload bytes
/// at guest-space address `addr`.
#[derive(Clone, Copy, Debug, PartialEq, Eq, Structural)]
pub struct PayloadRequest {
    pub addr: u64,
    pub len: usize,
}

/// One discovered guest publisher: where its shared structure lives and what
/// the host has consumed from it so far.
#[derive(Clone, Copy, Debug, PartialEq, Eq, Structural)]
pub struct CaptureProcess {
    /// Virtual address of the shared structure in the guest's address space.
    pub marker_addr: u64,
    /// Dimensions the local pixel buffer was last allocated for.
    pub frame_width: u32,
    pub frame_height: u32,
    /// The last frame counter value fully consumed.
    pub frame_counter: u32,
}

/// Whether the advertised dimensions are within the sane ceiling the host is
/// willing to allocate for.
pub open spec fn dims_in_bounds(m: GlobalBufferHost) -> bool {
    m.width <= MAX_FRAME_WIDTH && m.height <= MAX_FRAME_HEIGHT
}

impl CaptureProcess {
    /// Whether the advertised dimensions differ from what the local pixel
    /// buffer was allocated for.
    pub open spec fn dims_changed(&self, m: GlobalBufferHost) -> bool {
        self.frame_width != m.width || self.frame_height != m.height
    }

    /// Whether the local pixel buffer's length describes the cached
    /// dimensions. Holds from the first reallocation on.
    pub open spec fn buffer_consistent(&self, data: CaptureData) -> bool {
        data.frame_buffer@.len() == self.frame_width * self.frame_height * 4
    }

    /// Adopts a guest whose module image contains the discovery signature:
    /// the matched file offset, converted with the module's load base, is the
    /// live virtual address of the shared structure. Fails with a not-found
    /// condition when the image has no match; the caller moves to the next
    /// candidate or retries later.
    pub fn new(module_base: u64, module_buf: &[u8]) -> (r: Result<CaptureProcess, CaptureError>)
        requires
            module_base + module_buf@.len() <= u64::MAX,
        ensures
            match r {
                Ok(p) => {
                    &&& p.marker_addr >= module_base
                    &&& pat_matches_at(
                        module_buf@,
                        spec_resolution_pattern(),
                        p.marker_addr - module_base,
                    )
                    &&& forall|k: int|
                        0 <= k < p.marker_addr - module_base ==> !pat_matches_at(
                            module_buf@,
                            spec_resolution_pattern(),
                            k,
                        )
                    &&& p.frame_width == 0
                    &&& p.frame_height == 0
                    &&& p.frame_counter == 0
                },
                Err(e) => {
                    &&& e == CaptureError::NotFound
                    &&& forall|k: int|
                        !pat_matches_at(module_buf@, spec_resolution_pattern(), k)
                },
            },
    {
        let pattern = resolution_pattern();
        match scan(module_buf, &pattern) {
            Some(offset) => Ok(
                CaptureProcess {
                    marker_addr: module_base + (offset as u64),
                    frame_width: 0,
                    frame_height: 0,
                    frame_counter: 0,
                },
            ),
            None => Err(CaptureError::NotFound),
        }
    }

    /// First half of one update, given the decoded result of the metadata
    /// read (nothing when that read failed — a fatal condition for this
    /// poller). A stale counter is reported as such and changes nothing else;
    /// a fresh counter reallocates the local pixel buffer if the advertised
    /// dimensions changed and are within bounds, and asks the caller to fetch
    /// the payload at the advertised guest address.
    pub fn update_begin(
        &mut self,
        data: &mut CaptureData,
        metadata: Option<GlobalBufferHost>,
    ) -> (r: Result<PayloadRequest, CaptureError>)
        ensures
            metadata is None ==> {
                &&& r == Err::<PayloadRequest, CaptureError>(CaptureError::ReadFailed)
                &&& *final(self) == *old(self)
                &&& final(data).global_buffer == old(data).global_buffer
                &&& final(data).frame_buffer@ == old(data).frame_buffer@
            },
            metadata matches Some(m) ==> {
                &&& final(data).global_buffer == m
                &&& final(self).marker_addr == old(self).marker_addr
                &&& final(self).frame_counter == old(self).frame_counter
                &&& if m.frame_counter == old(self).frame_counter {
                    &&& r == Err::<PayloadRequest, CaptureError>(CaptureError::Stale)
                    &&& *final(self) == *old(self)
                    &&& final(data).frame_buffer@ == old(data).frame_buffer@
                } else {
                    &&& if old(self).dims_changed(m) && dims_in_bounds(m) {
                        &&& final(data).frame_buffer@ == Seq::<u8>::new(
                            (m.width * m.height * 4) as nat,
                            |i: int| 0u8,
                        )
                        &&& final(self).frame_width == m.width
                        &&& final(self).frame_height == m.height
                    } else {
                        &&& final(data).frame_buffer@ == old(data).frame_buffer@
                        &&& final(self).frame_width == old(self).frame_width
                        &&& final(self).frame_height == old(self).frame_height
                    }
                    &&& r == Ok::<PayloadRequest, CaptureError>(
                        PayloadRequest {
                            addr: m.frame_buffer,
                            len: final(data).frame_buffer@.len() as usize,
                        },
                    )
                }
                // For every in-bounds resolution the guest advertises, the
                // local pixel buffer ends the update sized exactly
                // width * height * 4, provided it already described the
                // cached dimensions or the dimensions changed.
                &&& ((m.frame_counter != old(self).frame_counter
                    && dims_in_bounds(m)
                    && (old(self).dims_changed(m) || old(self).buffer_consistent(*old(data))))
                    ==> final(data).frame_buffer@.len() == m.width * m.height * 4)
            },
    {
        match metadata {
            None => Err(CaptureError::ReadFailed),
            Some(m) => {
                data.global_buffer = m;
                let frame_counter = m.frame_counter;
                if frame_counter == self.frame_counter {
                    // no new update yet
                    return Err(CaptureError::Stale);
                }
                if (self.frame_width as u64) != m.width || (self.frame_height as u64) != m.height {
                    if m.width <= MAX_FRAME_WIDTH && m.height <= MAX_FRAME_HEIGHT {
                        proof {
                            assert(m.width * m.height * 4 <= MAX_FRAME_WIDTH * MAX_FRAME_HEIGHT
                                * 4) by (nonlinear_arith)
                                requires
                                    m.width <= MAX_FRAME_WIDTH,
                                    m.height <= MAX_FRAME_HEIGHT,
                            ;
                        }
                        let len: usize = (m.width as usize) * (m.height as usize) * 4;
                        data.frame_buffer = vec![0u8; len];
                        self.frame_width = m.width as u32;
                        self.frame_height = m.height as u32;
                        proof {
                            assert(data.frame_buffer@ =~= Seq::<u8>::new(
                                (m.width * m.height * 4) as nat,
                                |i: int| 0u8,
                            ));
                        }
                    }
                }
                Ok(PayloadRequest { addr: m.frame_buffer, len: data.frame_buffer.len() })
            },
        }
    }

    /// Second half of one update: takes whatever the payload read returned
    /// (nothing, or bytes of the wrong length, when it failed — best effort,
    /// the stale pixels simply stay), stamps the consumer's configuration and
    /// the acknowledgment into the mirror, and returns the mirror image the
    /// caller must write back to guest memory. That single remote write both
    /// applies configuration changes and signals consumption; if it is
    /// dropped, the guest withholds the next frame until an ack lands.
    pub fn update_finish(
        &mut self,
        data: &mut CaptureData,
        capture_config: &CaptureConfig,
        payload: Option<Vec<u8>>,
    ) -> (ack: GlobalBufferHost)
        ensures
            final(data).frame_buffer@ == (if payload matches Some(p)
                && p@.len() == old(data).frame_buffer@.len() {
                payload.unwrap()@
            } else {
                old(data).frame_buffer@
            }),
            final(data).global_buffer == (GlobalBufferHost {
                config: *capture_config,
                frame_read_counter: old(data).global_buffer.frame_counter,
                ..old(data).global_buffer
            }),
            ack == final(data).global_buffer,
            final(self).frame_counter == old(data).global_buffer.frame_counter,
            final(self).marker_addr == old(self).marker_addr,
            final(self).frame_width == old(self).frame_width,
            final(self).frame_height == old(self).frame_height,
    {
        match payload {
            Some(p) => {
                if p.len() == data.frame_buffer.len() {
                    data.frame_buffer = p;
                }
            },
            None => {},
        }
        data.global_buffer.config = *capture_config;
        data.global_buffer.frame_read_counter = data.global_buffer.frame_counter;
        self.frame_counter = data.global_buffer.frame_counter;
        data.global_buffer
    }
}

} // verus!
