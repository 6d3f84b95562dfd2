//! The stand-in H.264 stream produced when no hardware encoder is running:
//! every frame is an access unit of the configured size, every 30th a key
//! frame carrying the parameter sets, filled with a deterministic
//! pseudo-random payload. Also the codec's rule for a frame: the encoder's
//! output when one is ready, else the raw frame bytes.
use vstd::prelude::*;
use crate::frame::Frame;
use crate::wire::push_slice;

verus! {

/// A key frame is produced every this many frames.
pub const STUB_KEY_INTERVAL: u64 = 30;

/// Sequence parameter set of the stand-in stream, with start codes.
pub open spec fn stub_sps_bytes() -> Seq<u8> {
    seq![
        0x00u8, 0x00, 0x00, 0x01, 0x67, 0x42, 0xc0, 0x28, 0xda, 0x40, 0x0a, 0xff, 0xff, 0x39, 0xc0, 0x80,
        0x00, 0x00, 0x03, 0x00, 0x04, 0x00, 0x00, 0x03, 0x00, 0xf0, 0x3c, 0x60, 0xcb, 0xbf, 0x80, 0x00,
        0x00, 0x00, 0x01,
    ]
}

/// Picture parameter set of the stand-in stream, with start codes.
pub open spec fn stub_pps_bytes() -> Seq<u8> {
    seq![0x00u8, 0x00, 0x00, 0x01, 0x68, 0xce, 0x3c, 0x80, 0x00, 0x00, 0x00, 0x01]
}

/// The next state of the payload generator.
pub open spec fn next_seed(s: u16) -> u16 {
    ((s * 11035 + 12345) % 65536) as u16
}

/// The generator state after `k` steps from `s0`.
pub open spec fn seed_after(s0: u16, k: nat) -> u16
    decreases k,
{
    if k == 0 {
        s0
    } else {
        next_seed(seed_after(s0, (k - 1) as nat))
    }
}

/// `n` payload bytes: the high byte of each successive generator state.
pub open spec fn stub_payload(s0: u16, n: nat) -> Seq<u8> {
    Seq::new(n, |i: int| (seed_after(s0, (i + 1) as nat) / 256) as u8)
}

/// The generator's first state for frame `fid`.
pub open spec fn initial_seed(fid: u64) -> u16 {
    ((fid * 2654435761) % 65536) as u16
}

/// Frame `fid` is a key frame.
pub open spec fn is_key_frame(fid: u64) -> bool {
    fid % STUB_KEY_INTERVAL == 0
}

/// Parameter sets (on key frames, when there are any), a start code, and
/// the NAL header of an IDR or a non-IDR slice.
pub open spec fn stub_header(sps: Seq<u8>, pps: Seq<u8>, fid: u64) -> Seq<u8> {
    (if is_key_frame(fid) && sps.len() > 0 {
        sps + pps
    } else {
        Seq::empty()
    }) + seq![0x00u8, 0x00, 0x00, 0x01] + seq![if is_key_frame(fid) { 0x65u8 } else { 0x61u8 }]
}

/// Bytes per frame that meet `bitrate` at `fps`.
pub open spec fn target_frame_bytes(bitrate: u32, fps: u32) -> int {
    (bitrate / 8 / fps) as int
}

/// Stand-in access unit for frame `fid`: the header, then payload up to the
/// target frame size.
pub open spec fn stub_frame_bytes(sps: Seq<u8>, pps: Seq<u8>, bitrate: u32, fps: u32, fid: u64) -> Seq<u8> {
    let h = stub_header(sps, pps, fid);
    let target = target_frame_bytes(bitrate, fps);
    let n: nat = if target > h.len() {
        (target - h.len()) as nat
    } else {
        0
    };
    h + stub_payload(initial_seed(fid), n)
}

/// A stand-in access unit is as long as the target frame size, or just its
/// header when that is longer; a key frame starts with the parameter sets;
/// the last header byte names the slice kind.
pub proof fn stub_frame_shape(sps: Seq<u8>, pps: Seq<u8>, bitrate: u32, fps: u32, fid: u64)
    ensures
        ({
            let h = stub_header(sps, pps, fid);
            let t = target_frame_bytes(bitrate, fps);
            stub_frame_bytes(sps, pps, bitrate, fps, fid).len() == if t > h.len() {
                t
            } else {
                h.len() as int
            }
        }),
        is_key_frame(fid) && sps.len() > 0 ==> stub_frame_bytes(sps, pps, bitrate, fps, fid).subrange(
            0,
            (sps.len() + pps.len()) as int,
        ) == sps + pps,
        stub_frame_bytes(sps, pps, bitrate, fps, fid)[stub_header(sps, pps, fid).len() - 1] == if is_key_frame(fid) {
            0x65u8
        } else {
            0x61u8
        },
{
    let h = stub_header(sps, pps, fid);
    let b = stub_frame_bytes(sps, pps, bitrate, fps, fid);
    if is_key_frame(fid) && sps.len() > 0 {
        assert(b.subrange(0, (sps.len() + pps.len()) as int) =~= sps + pps);
    }
}

/// The stand-in sequence and picture parameter sets.
pub fn stub_parameter_sets() -> (r: (Vec<u8>, Vec<u8>))
    ensures
        r.0@ == stub_sps_bytes(),
        r.1@ == stub_pps_bytes(),
{
    let sps: [u8; 35] = [
        0x00, 0x00, 0x00, 0x01, 0x67, 0x42, 0xc0, 0x28, 0xda, 0x40, 0x0a, 0xff, 0xff, 0x39, 0xc0, 0x80,
        0x00, 0x00, 0x03, 0x00, 0x04, 0x00, 0x00, 0x03, 0x00, 0xf0, 0x3c, 0x60, 0xcb, 0xbf, 0x80, 0x00,
        0x00, 0x00, 0x01,
    ];
    let pps: [u8; 12] = [0x00, 0x00, 0x00, 0x01, 0x68, 0xce, 0x3c, 0x80, 0x00, 0x00, 0x00, 0x01];
    let mut s: Vec<u8> = Vec::new();
    push_slice(&mut s, &sps);
    let mut p: Vec<u8> = Vec::new();
    push_slice(&mut p, &pps);
    assert(s@ =~= stub_sps_bytes());
    assert(p@ =~= stub_pps_bytes());
    (s, p)
}

fn first_seed(fid: u64) -> (r: u16)
    ensures
        r == initial_seed(fid),
{
    let low: u64 = fid % 65536;
    let v: u64 = (low * 31153) % 65536;
    proof {
        vstd::arithmetic::div_mod::lemma_mul_mod_noop_left(fid as int, 2654435761, 65536);
        vstd::arithmetic::div_mod::lemma_mul_mod_noop_right(low as int, 2654435761, 65536);
        vstd::arithmetic::div_mod::lemma_mul_mod_noop_right(low as int, 31153, 65536);
        assert(2654435761int % 65536 == 31153);
    }
    v as u16
}

/// The stand-in access unit for frame `fid` with the given parameter sets.
pub fn stub_frame(sps: &[u8], pps: &[u8], bitrate: u32, fps: u32, fid: u64) -> (r: Vec<u8>)
    requires
        fps > 0,
        sps@.len() + pps@.len() + 5 <= usize::MAX,
    ensures
        r@ == stub_frame_bytes(sps@, pps@, bitrate, fps, fid),
{
    let key = fid % STUB_KEY_INTERVAL == 0;
    let mut h264: Vec<u8> = Vec::new();
    if key && sps.len() > 0 {
        push_slice(&mut h264, sps);
        push_slice(&mut h264, pps);
    }
    h264.push(0x00);
    h264.push(0x00);
    h264.push(0x00);
    h264.push(0x01);
    h264.push(if key { 0x65 } else { 0x61 });
    let ghost header = h264@;
    assert(header =~= stub_header(sps@, pps@, fid));
    let target = (bitrate / 8 / fps) as usize;
    let payload: usize = if target > h264.len() { target - h264.len() } else { 0 };
    let s0 = first_seed(fid);
    let mut seed: u16 = s0;
    let mut k: usize = 0;
    while k < payload
        invariant
            k <= payload,
            seed == seed_after(s0, k as nat),
            h264@ == header + stub_payload(s0, k as nat),
        decreases payload - k,
    {
        let next: u16 = ((seed as u32 * 11035 + 12345) % 65536) as u16;
        assert(next == next_seed(seed));
        seed = next;
        h264.push((seed / 256) as u8);
        k = k + 1;
        assert(h264@ =~= header + stub_payload(s0, k as nat));
    }
    h264
}

/// Stand-in encoder: counts frames and produces the stand-in stream at the
/// configured bit rate.
#[derive(Debug)]
pub struct StubEncoder {
    width: u32,
    height: u32,
    fps: u32,
    bitrate: u32,
    frames: u64,
    sps: Vec<u8>,
    pps: Vec<u8>,
}

impl StubEncoder {
    pub closed spec fn spec_frames(&self) -> u64 {
        self.frames
    }

    pub closed spec fn spec_bitrate(&self) -> u32 {
        self.bitrate
    }

    pub closed spec fn spec_fps(&self) -> u32 {
        self.fps
    }

    pub closed spec fn spec_sps(&self) -> Seq<u8> {
        self.sps@
    }

    pub closed spec fn spec_pps(&self) -> Seq<u8> {
        self.pps@
    }

    pub closed spec fn wf(&self) -> bool {
        &&& self.fps > 0
        &&& self.sps@.len() + self.pps@.len() + 5 <= usize::MAX
    }

    /// An encoder for `width` x `height` at `fps` frames per second and
    /// `bitrate` bits per second, holding the stand-in parameter sets.
    pub fn new(width: u32, height: u32, fps: u32, bitrate: u32) -> (r: Self)
        requires
            fps > 0,
        ensures
            r.wf(),
            r.spec_frames() == 0,
            r.spec_bitrate() == bitrate,
            r.spec_fps() == fps,
            r.spec_sps() == stub_sps_bytes(),
            r.spec_pps() == stub_pps_bytes(),
    {
        let (sps, pps) = stub_parameter_sets();
        StubEncoder { width, height, fps, bitrate, frames: 0, sps, pps }
    }

    /// Copies of the parameter sets.
    pub fn get_sps_pps(&self) -> (r: (Vec<u8>, Vec<u8>))
        ensures
            r.0@ == self.spec_sps(),
            r.1@ == self.spec_pps(),
    {
        let mut s: Vec<u8> = Vec::new();
        push_slice(&mut s, self.sps.as_slice());
        let mut p: Vec<u8> = Vec::new();
        push_slice(&mut p, self.pps.as_slice());
        (s, p)
    }

    /// Frames encoded so far.
    pub fn frame_count(&self) -> (r: u64)
        ensures
            r == self.spec_frames(),
    {
        self.frames
    }

    /// The configured bit rate.
    pub fn target_bitrate(&self) -> (r: u32)
        ensures
            r == self.spec_bitrate(),
    {
        self.bitrate
    }

    /// The encoder's name.
    pub fn name(&self) -> (r: &'static str)
        ensures
            r@ == "NVENC(stub)"@,
    {
        "NVENC(stub)"
    }

    /// Encodes the next frame: it gets the next frame number and the
    /// stand-in access unit for that number. The picture itself is not read.
    pub fn encode(&mut self, frame: &Frame) -> (r: Vec<u8>)
        requires
            old(self).wf(),
            old(self).spec_frames() < u64::MAX,
        ensures
            final(self).wf(),
            final(self).spec_frames() == old(self).spec_frames() + 1,
            final(self).spec_bitrate() == old(self).spec_bitrate(),
            final(self).spec_fps() == old(self).spec_fps(),
            final(self).spec_sps() == old(self).spec_sps(),
            final(self).spec_pps() == old(self).spec_pps(),
            r@ == stub_frame_bytes(
                old(self).spec_sps(),
                old(self).spec_pps(),
                old(self).spec_bitrate(),
                old(self).spec_fps(),
                final(self).spec_frames(),
            ),
    {
        self.frames = self.frames + 1;
        stub_frame(self.sps.as_slice(), self.pps.as_slice(), self.bitrate, self.fps, self.frames)
    }
}

/// Smallest size of an encoder output buffer: 512 KiB.
pub const MIN_BITSTREAM_BUFFER: u32 = 524_288;

/// Size of each encoder output buffer: room for four frames at `bitrate`
/// and `fps`, and at least 512 KiB.
pub open spec fn bitstream_buffer_bytes(bitrate: u32, fps: u32) -> int {
    let four_frames = (bitrate / 8) * 4 / (fps as int);
    if four_frames > MIN_BITSTREAM_BUFFER {
        four_frames
    } else {
        MIN_BITSTREAM_BUFFER as int
    }
}

/// The size of each encoder output buffer for `bitrate` at `fps` frames per
/// second (a rate of zero frames has no frame size).
pub fn bitstream_buffer_size(bitrate: u32, fps: u32) -> (r: u32)
    requires
        fps > 0,
    ensures
        r == bitstream_buffer_bytes(bitrate, fps),
{
    let four_frames = (bitrate / 8) * 4 / fps;
    if four_frames > MIN_BITSTREAM_BUFFER {
        four_frames
    } else {
        MIN_BITSTREAM_BUFFER
    }
}

/// What the codec gives for `frame`: the encoder's result when an encoder
/// was ready (`encoded` holds it), else the frame's own bytes unchanged.
pub fn codec_output(frame: &Frame, encoded: Option<Result<Vec<u8>, String>>) -> (r: Result<Vec<u8>, String>)
    ensures
        match encoded {
            Some(e) => r == e,
            None => r matches Ok(b) && b@ == frame.data@,
        },
{
    match encoded {
        Some(e) => e,
        None => {
            let b = frame.data.clone();
            assert(b@ =~= frame.data@);
            Ok(b)
        },
    }
}

} // verus!
