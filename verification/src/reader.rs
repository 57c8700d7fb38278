//! Capture reader: wraps the poller state with the consumer-facing surface —
//! discovery-or-poll stepping, configuration flags, and checked decoding of
//! the latest frame into pixels.
//!
//! Scheduling (polling inline once per consumer frame, or continuously from a
//! background worker) happens outside this crate; both drivers advance the
//! same deterministic step function, so identical scripts of poll outcomes
//! yield identical images and cursors whichever driver runs them.
use vstd::prelude::*;
use crate::host::{dims_in_bounds, CaptureData, CaptureProcess};
use crate::layout::{CaptureConfig, Cursor, GlobalBufferHost, TextureMode, MAX_FRAME_HEIGHT,
    MAX_FRAME_WIDTH};

verus! {

/// A decoded pixel in red-green-blue-alpha order.
#[derive(Clone, Copy, Debug, PartialEq, Eq, Structural)]
pub struct Rgba8 {
    pub r: u8,
    pub g: u8,
    pub b: u8,
    pub a: u8,
}

/// A decoded image: dimensions, the channel order the payload arrived in,
/// and the pixels normalised to red-green-blue-alpha order.
#[derive(Debug, PartialEq, Eq)]
pub struct ImageData {
    pub width: u64,
    pub height: u64,
    pub texture_mode: TextureMode,
    pub pixels: Vec<Rgba8>,
}

/// Pixel `i` of a payload, normalised to red-green-blue-alpha order from the
/// advertised channel order.
pub open spec fn spec_pixel_at(bytes: Seq<u8>, mode: TextureMode, i: int) -> Rgba8 {
    match mode {
        TextureMode::RGBA => Rgba8 {
            r: bytes[4 * i],
            g: bytes[4 * i + 1],
            b: bytes[4 * i + 2],
            a: bytes[4 * i + 3],
        },
        TextureMode::BGRA => Rgba8 {
            r: bytes[4 * i + 2],
            g: bytes[4 * i + 1],
            b: bytes[4 * i],
            a: bytes[4 * i + 3],
        },
    }
}

/// Turns a raw payload into pixels, applying the advertised texture mode.
/// A checked conversion instead of a reinterpretation: it fails loudly when
/// the buffer length does not describe the dimensions, when the mode tag is
/// unknown, or when the dimensions are out of the sane ceiling.
pub fn decode_image(buffer: &Vec<u8>, width: u64, height: u64, texmode: u8) -> (r: Option<
    ImageData,
>)
    ensures
        match r {
            Some(img) => {
                &&& texmode <= 1
                &&& width <= MAX_FRAME_WIDTH
                &&& height <= MAX_FRAME_HEIGHT
                &&& buffer@.len() == width * height * 4
                &&& img.width == width
                &&& img.height == height
                &&& img.texture_mode.spec_as_u8() == texmode
                &&& img.pixels@.len() == width * height
                &&& forall|i: int|
                    0 <= i < img.pixels@.len() ==> img.pixels@[i] == spec_pixel_at(
                        buffer@,
                        img.texture_mode,
                        i,
                    )
            },
            None => texmode > 1 || width > MAX_FRAME_WIDTH || height > MAX_FRAME_HEIGHT
                || buffer@.len() != width * height * 4,
        },
{
    let mode = match TextureMode::from_u8(texmode) {
        Some(mode) => mode,
        None => {
            return None;
        },
    };
    if width > MAX_FRAME_WIDTH || height > MAX_FRAME_HEIGHT {
        return None;
    }
    proof {
        assert(width * height * 4 <= MAX_FRAME_WIDTH * MAX_FRAME_HEIGHT * 4) by (nonlinear_arith)
            requires
                width <= MAX_FRAME_WIDTH,
                height <= MAX_FRAME_HEIGHT,
        ;
    }
    let num_pixels: usize = (width as usize) * (height as usize);
    if buffer.len() != num_pixels * 4 {
        return None;
    }
    let mut pixels: Vec<Rgba8> = Vec::new();
    let mut i: usize = 0;
    while i < num_pixels
        invariant
            i <= num_pixels,
            num_pixels == width * height,
            num_pixels * 4 <= usize::MAX,
            buffer@.len() == num_pixels * 4,
            pixels@.len() == i,
            forall|j: int| 0 <= j < i ==> pixels@[j] == spec_pixel_at(buffer@, mode, j),
        decreases num_pixels - i,
    {
        let base = i * 4;
        let px = match mode {
            TextureMode::RGBA => Rgba8 {
                r: buffer[base],
                g: buffer[base + 1],
                b: buffer[base + 2],
                a: buffer[base + 3],
            },
            TextureMode::BGRA => Rgba8 {
                r: buffer[base + 2],
                g: buffer[base + 1],
                b: buffer[base],
                a: buffer[base + 3],
            },
        };
        pixels.push(px);
        i = i + 1;
    }
    Some(ImageData { width, height, texture_mode: mode, pixels })
}

/// One observation the driving loop hands the reader: the outcome of a
/// discovery attempt (made only while no guest is held), a failed liveness
/// check, or the results of one poll of a live guest — the decoded metadata
/// read, if it succeeded, and whatever the payload read at the advertised
/// address returned.
pub enum PollEvent {
    Discovery(Option<CaptureProcess>),
    Dead,
    Alive { metadata: Option<GlobalBufferHost>, payload: Option<Vec<u8>> },
}

/// The ghost image of one observation.
pub ghost enum PollEventGhost {
    Discovery(Option<CaptureProcess>),
    Dead,
    Alive { metadata: Option<GlobalBufferHost>, payload: Option<Seq<u8>> },
}

impl View for PollEvent {
    type V = PollEventGhost;

    open spec fn view(&self) -> PollEventGhost {
        match self {
            PollEvent::Discovery(found) => PollEventGhost::Discovery(*found),
            PollEvent::Dead => PollEventGhost::Dead,
            PollEvent::Alive { metadata, payload } => PollEventGhost::Alive {
                metadata: *metadata,
                payload: match payload {
                    Some(p) => Some(p@),
                    None => None,
                },
            },
        }
    }
}

/// The ghost image of the reader's whole state.
pub ghost struct ReaderView {
    pub process: Option<CaptureProcess>,
    pub config: CaptureConfig,
    pub global_buffer: GlobalBufferHost,
    pub frame_buffer: Seq<u8>,
}

/// The reader: an optional discovered poller, the configuration the consumer
/// wants applied to the guest, and the local mirror the poller fills.
pub struct CaptureReaderCore {
    pub process: Option<CaptureProcess>,
    pub capture_config: CaptureConfig,
    pub capture_data: CaptureData,
}

impl View for CaptureReaderCore {
    type V = ReaderView;

    open spec fn view(&self) -> ReaderView {
        ReaderView {
            process: self.process,
            config: self.capture_config,
            global_buffer: self.capture_data.global_buffer,
            frame_buffer: self.capture_data.frame_buffer@,
        }
    }
}

/// The state after one poll of a live guest, as the poller's two halves
/// leave it: a failed metadata read changes nothing; a stale counter only
/// rewrites the mirror with what was read; a fresh counter resizes the local
/// pixel buffer if needed, adopts the payload when its length fits, and
/// stamps configuration and acknowledgment into the mirror.
pub open spec fn spec_alive_step(
    v: ReaderView,
    p: CaptureProcess,
    metadata: Option<GlobalBufferHost>,
    payload: Option<Seq<u8>>,
) -> ReaderView {
    match metadata {
        None => v,
        Some(m) => {
            if m.frame_counter == p.frame_counter {
                ReaderView { global_buffer: m, ..v }
            } else {
                let (p2, fb2) = if p.dims_changed(m) && dims_in_bounds(m) {
                    (
                        CaptureProcess {
                            frame_width: m.width as u32,
                            frame_height: m.height as u32,
                            ..p
                        },
                        Seq::<u8>::new((m.width * m.height * 4) as nat, |i: int| 0u8),
                    )
                } else {
                    (p, v.frame_buffer)
                };
                let fb3 = if payload matches Some(pl) && pl.len() == fb2.len() {
                    payload.unwrap()
                } else {
                    fb2
                };
                ReaderView {
                    process: Some(CaptureProcess { frame_counter: m.frame_counter, ..p2 }),
                    config: v.config,
                    global_buffer: GlobalBufferHost {
                        config: v.config,
                        frame_read_counter: m.frame_counter,
                        ..m
                    },
                    frame_buffer: fb3,
                }
            }
        },
    }
}

/// The reader's state after one observation: install a discovered guest when
/// none is held, drop the poller when the guest died, or run one poll.
pub open spec fn spec_tick(v: ReaderView, e: PollEventGhost) -> ReaderView {
    match e {
        PollEventGhost::Discovery(found) => {
            if v.process is None {
                match found {
                    Some(p) => ReaderView { process: Some(p), ..v },
                    None => v,
                }
            } else {
                v
            }
        },
        PollEventGhost::Dead => ReaderView { process: None, ..v },
        PollEventGhost::Alive { metadata, payload } => {
            match v.process {
                Some(p) => spec_alive_step(v, p, metadata, payload),
                None => v,
            }
        },
    }
}

/// The reader's state after a whole script of observations, first to last.
pub open spec fn spec_run(v: ReaderView, events: Seq<PollEventGhost>) -> ReaderView
    decreases events.len(),
{
    if events.len() == 0 {
        v
    } else {
        spec_run(spec_tick(v, events[0]), events.drop_first())
    }
}

impl CaptureReaderCore {
    /// A reader that has not discovered a guest yet: default configuration
    /// and a pre-allocated mirror.
    pub fn new() -> (c: CaptureReaderCore)
        ensures
            c.process is None,
            c.capture_config == (CaptureConfig { gdi: true, dxgi: true, obs: false }),
            c.capture_data.global_buffer.frame_counter == 0,
            c.capture_data.global_buffer.frame_read_counter == 0,
            c.capture_data.global_buffer.width == crate::host::DEFAULT_FRAME_WIDTH,
            c.capture_data.global_buffer.height == crate::host::DEFAULT_FRAME_HEIGHT,
            c.capture_data.frame_buffer@ == Seq::<u8>::new(
                (crate::host::DEFAULT_FRAME_WIDTH * crate::host::DEFAULT_FRAME_HEIGHT * 4) as nat,
                |i: int| 0u8,
            ),
    {
        CaptureReaderCore {
            process: None,
            capture_config: CaptureConfig { gdi: true, dxgi: true, obs: false },
            capture_data: CaptureData::default(),
        }
    }

    /// Whether obs capture is currently requested of the guest.
    pub fn obs_capture(&self) -> (r: bool)
        ensures
            r == self.capture_config.obs,
    {
        self.capture_config.obs
    }

    /// Requests or withdraws obs capture; the flag reaches the guest with the
    /// next acknowledgment write.
    pub fn set_obs_capture(&mut self, obs: bool)
        ensures
            final(self).capture_config == (CaptureConfig { obs, ..old(self).capture_config }),
            final(self).process == old(self).process,
            final(self).capture_data.global_buffer == old(self).capture_data.global_buffer,
            final(self).capture_data.frame_buffer@ == old(self).capture_data.frame_buffer@,
    {
        self.capture_config.obs = obs;
    }

    /// The frame counter of the last consumed frame, as mirrored locally.
    pub fn frame_counter(&self) -> (r: u32)
        ensures
            r == self.capture_data.global_buffer.frame_counter,
    {
        self.capture_data.global_buffer.frame_counter
    }

    /// A copy of the cursor state of the last consumed frame.
    pub fn cursor_data(&self) -> (c: Cursor)
        ensures
            c == self.capture_data.global_buffer.cursor,
    {
        self.capture_data.global_buffer.cursor
    }

    /// The latest frame decoded into pixels, or nothing while the mirror does
    /// not yet describe a consistent image.
    pub fn image_data(&self) -> (r: Option<ImageData>)
        ensures
            match r {
                Some(img) => {
                    &&& img.width == self.capture_data.global_buffer.width
                    &&& img.height == self.capture_data.global_buffer.height
                    &&& img.texture_mode.spec_as_u8()
                        == self.capture_data.global_buffer.frame_texmode
                    &&& img.pixels@.len() == img.width * img.height
                    &&& self.capture_data.frame_buffer@.len() == img.width * img.height * 4
                    &&& forall|i: int|
                        0 <= i < img.pixels@.len() ==> img.pixels@[i] == spec_pixel_at(
                            self.capture_data.frame_buffer@,
                            img.texture_mode,
                            i,
                        )
                },
                None => self.capture_data.global_buffer.frame_texmode > 1
                    || self.capture_data.global_buffer.width > MAX_FRAME_WIDTH
                    || self.capture_data.global_buffer.height > MAX_FRAME_HEIGHT
                    || self.capture_data.frame_buffer@.len() != self.capture_data.global_buffer.width
                    * self.capture_data.global_buffer.height * 4,
            },
    {
        decode_image(
            &self.capture_data.frame_buffer,
            self.capture_data.global_buffer.width,
            self.capture_data.global_buffer.height,
            self.capture_data.global_buffer.frame_texmode,
        )
    }

    /// Advances the reader by one observation. This is the whole of the
    /// reader's behaviour: the next state is a function of the current state
    /// and the observation alone.
    pub fn tick(&mut self, event: PollEvent)
        ensures
            final(self)@ == spec_tick(old(self)@, event@),
    {
        match event {
            PollEvent::Discovery(found) => {
                if self.process.is_none() {
                    match found {
                        Some(p) => {
                            self.process = Some(p);
                        },
                        None => {},
                    }
                }
            },
            PollEvent::Dead => {
                self.process = None;
            },
            PollEvent::Alive { metadata, payload } => {
                match self.process {
                    Some(mut p) => {
                        let r = p.update_begin(&mut self.capture_data, metadata);
                        match r {
                            Ok(_request) => {
                                let _ack = p.update_finish(
                                    &mut self.capture_data,
                                    &self.capture_config,
                                    payload,
                                );
                            },
                            Err(_) => {},
                        }
                        self.process = Some(p);
                    },
                    None => {},
                }
            },
        }
    }

    /// Feeds a whole script of observations through the reader, first to
    /// last, as any driving loop — inline or on a worker — would.
    pub fn run_events(&mut self, events: Vec<PollEvent>)
        ensures
            final(self)@ == spec_run(old(self)@, events@.map_values(|e: PollEvent| e@)),
    {
        let ghost script = events@.map_values(|e: PollEvent| e@);
        let mut events = events;
        while events.len() > 0
            invariant
                spec_run(old(self)@, script) == spec_run(
                    self@,
                    events@.map_values(|e: PollEvent| e@),
                ),
            decreases events.len(),
        {
            let ghost pre = events@.map_values(|e: PollEvent| e@);
            let ev = events.remove(0);
            proof {
                assert(events@.map_values(|e: PollEvent| e@) =~= pre.drop_first());
                assert(pre[0] == ev@);
            }
            self.tick(ev);
        }
        proof {
            assert(events@.map_values(|e: PollEvent| e@) =~= Seq::<PollEventGhost>::empty());
        }
    }
}



/// A fresh, in-bounds publication is consumed whole: when the advertised
/// dimensions describe the published payload, the local buffer already
/// described the cached dimensions (or the dimensions changed, forcing a
/// reallocation), and the payload read returned the published bytes, then
/// after the poll the local pixel buffer holds exactly those bytes — sized
/// width * height * 4 — and the acknowledgment carries the consumed counter.
pub proof fn lemma_fresh_poll_adopts_payload(
    v: ReaderView,
    p: CaptureProcess,
    m: GlobalBufferHost,
    payload: Seq<u8>,
)
    requires
        v.process == Some(p),
        m.frame_counter != p.frame_counter,
        dims_in_bounds(m),
        payload.len() == m.width * m.height * 4,
        p.dims_changed(m) || v.frame_buffer.len() == p.frame_width * p.frame_height * 4,
    ensures
        ({
            let v2 = spec_tick(
                v,
                PollEventGhost::Alive { metadata: Some(m), payload: Some(payload) },
            );
            &&& v2.frame_buffer == payload
            &&& v2.frame_buffer.len() == m.width * m.height * 4
            &&& v2.global_buffer.frame_read_counter == m.frame_counter
            &&& v2.global_buffer.frame_counter == m.frame_counter
        }),
{
}

/// Idempotence under no new frame: one poll consumes the advertised frame
/// counter, so a second poll that reads identical metadata — the guest has
/// published nothing in between — is a stale no-op: the mirror's frame
/// counter, the pixel buffer, and the held poller are unchanged, whatever
/// the second payload read returned.
pub proof fn lemma_second_poll_is_stale(
    v: ReaderView,
    p: CaptureProcess,
    m: GlobalBufferHost,
    payload1: Option<Seq<u8>>,
    payload2: Option<Seq<u8>>,
)
    requires
        v.process == Some(p),
        m.frame_counter != p.frame_counter,
    ensures
        ({
            let v1 = spec_tick(v, PollEventGhost::Alive { metadata: Some(m), payload: payload1 });
            let v2 = spec_tick(v1, PollEventGhost::Alive { metadata: Some(m), payload: payload2 });
            &&& v2.frame_buffer == v1.frame_buffer
            &&& v2.global_buffer.frame_counter == v1.global_buffer.frame_counter
            &&& v2.process == v1.process
        }),
{
}

/// Scheduling equivalence: the reader's final state — and with it what
/// `image_data` and `cursor_data` return — is a function of the script of
/// poll outcomes alone. Two drivers that feed the same script from the same
/// starting state end in the same state, whether one polls inline once per
/// consumer frame and the other spins on a worker thread.
pub proof fn lemma_scheduling_equivalence(
    v1: ReaderView,
    v2: ReaderView,
    events: Seq<PollEventGhost>,
)
    requires
        v1 == v2,
    ensures
        spec_run(v1, events) == spec_run(v2, events),
{
}

} // verus!
