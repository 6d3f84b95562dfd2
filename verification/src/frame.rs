//! Frame abstraction shared by capture, codec and transport.
use vstd::prelude::*;
use crate::clock::utc_now_micros;

verus! {

/// Pixel format of a captured frame.
#[derive(Debug, Clone, Copy, PartialEq, Eq, Structural)]
pub enum PixelFormat {
    Bgra32,
    Rgba32,
    Rgb24,
    Jpeg,
    H264,
    H265,
}

impl PixelFormat {
    /// Display name of the format.
    pub fn name(&self) -> (r: &'static str)
        ensures
            r@ == pixel_format_name(*self)@,
    {
        match self {
            PixelFormat::Bgra32 => "BGRA32",
            PixelFormat::Rgba32 => "RGBA32",
            PixelFormat::Rgb24 => "RGB24",
            PixelFormat::Jpeg => "JPEG",
            PixelFormat::H264 => "H264",
            PixelFormat::H265 => "H265",
        }
    }
}

/// Display name of each pixel format.
pub open spec fn pixel_format_name(f: PixelFormat) -> &'static str {
    match f {
        PixelFormat::Bgra32 => "BGRA32",
        PixelFormat::Rgba32 => "RGBA32",
        PixelFormat::Rgb24 => "RGB24",
        PixelFormat::Jpeg => "JPEG",
        PixelFormat::H264 => "H264",
        PixelFormat::H265 => "H265",
    }
}

/// A single video frame.
#[derive(Debug, Clone)]
pub struct Frame {
    pub timestamp: u64,
    pub width: u32,
    pub height: u32,
    pub format: PixelFormat,
    pub data: Vec<u8>,
    pub frame_id: u64,
}

/// Byte size of an uncompressed `width` x `height` image in `format`, or
/// `data_len` for compressed formats.
pub open spec fn uncompressed_size_of(width: u32, height: u32, format: PixelFormat, data_len: nat) -> int {
    match format {
        PixelFormat::Bgra32 | PixelFormat::Rgba32 => width * height * 4,
        PixelFormat::Rgb24 => width * height * 3,
        _ => data_len as int,
    }
}

/// A vector of `n` zero bytes.
pub fn zeroed(n: usize) -> (v: Vec<u8>)
    ensures
        v@ == Seq::new(n as nat, |i: int| 0u8),
{
    let mut v: Vec<u8> = Vec::with_capacity(n);
    let mut i: usize = 0;
    while i < n
        invariant
            i <= n,
            v@ == Seq::new(i as nat, |j: int| 0u8),
        decreases n - i,
    {
        v.push(0u8);
        i = i + 1;
        assert(v@ =~= Seq::new(i as nat, |j: int| 0u8));
    }
    v
}

impl Frame {
    /// An empty frame stamped with the current time in microseconds.
    pub fn empty(width: u32, height: u32, format: PixelFormat) -> (f: Self)
        ensures
            f.width == width,
            f.height == height,
            f.format == format,
            f.data@.len() == 0,
            f.frame_id == 0,
    {
        Frame::empty_at(width, height, format, utc_now_micros() as u64)
    }

    /// An empty frame stamped with `timestamp`.
    pub fn empty_at(width: u32, height: u32, format: PixelFormat, timestamp: u64) -> (f: Self)
        ensures
            f.timestamp == timestamp,
            f.width == width,
            f.height == height,
            f.format == format,
            f.data@.len() == 0,
            f.frame_id == 0,
    {
        Frame { timestamp, width, height, format, data: Vec::new(), frame_id: 0 }
    }

    /// A black BGRA frame of the given size stamped with the current time.
    pub fn test_frame(width: u32, height: u32) -> (f: Self)
        requires
            width * height * 4 <= u32::MAX,
        ensures
            f.width == width,
            f.height == height,
            f.format == PixelFormat::Bgra32,
            f.data@ == Seq::new((width * height * 4) as nat, |i: int| 0u8),
            f.frame_id == 0,
    {
        Frame::test_frame_at(width, height, utc_now_micros() as u64)
    }

    /// A black BGRA frame of the given size stamped with `timestamp`.
    pub fn test_frame_at(width: u32, height: u32, timestamp: u64) -> (f: Self)
        requires
            width * height * 4 <= u32::MAX,
        ensures
            f.timestamp == timestamp,
            f.width == width,
            f.height == height,
            f.format == PixelFormat::Bgra32,
            f.data@ == Seq::new((width * height * 4) as nat, |i: int| 0u8),
            f.frame_id == 0,
    {
        assert(width * height <= u32::MAX) by (nonlinear_arith)
            requires
                width * height * 4 <= u32::MAX,
        ;
        let area = width * height;
        let size = (area * 4) as usize;
        Frame { timestamp, width, height, format: PixelFormat::Bgra32, data: zeroed(size), frame_id: 0 }
    }

    /// Byte size of the frame's image when uncompressed.
    pub fn uncompressed_size(&self) -> (r: usize)
        requires
            self.format == PixelFormat::Bgra32 || self.format == PixelFormat::Rgba32
                ==> self.width * self.height * 4 <= u32::MAX,
            self.format == PixelFormat::Rgb24 ==> self.width * self.height * 3 <= u32::MAX,
        ensures
            r == uncompressed_size_of(self.width, self.height, self.format, self.data@.len()),
    {
        match self.format {
            PixelFormat::Bgra32 | PixelFormat::Rgba32 => {
                assert(self.width * self.height <= u32::MAX) by (nonlinear_arith)
                    requires
                        self.width * self.height * 4 <= u32::MAX,
                ;
                (self.width * self.height * 4) as usize
            },
            PixelFormat::Rgb24 => {
                assert(self.width * self.height <= u32::MAX) by (nonlinear_arith)
                    requires
                        self.width * self.height * 3 <= u32::MAX,
                ;
                (self.width * self.height * 3) as usize
            },
            _ => self.data.len(),
        }
    }

    pub fn is_empty(&self) -> (r: bool)
        ensures
            r == (self.data@.len() == 0),
    {
        self.data.len() == 0
    }

    /// A copy of the frame, field for field.
    pub fn duplicate(&self) -> (f: Self)
        ensures
            f.timestamp == self.timestamp,
            f.width == self.width,
            f.height == self.height,
            f.format == self.format,
            f.data@ == self.data@,
            f.frame_id == self.frame_id,
    {
        let mut data: Vec<u8> = Vec::new();
        crate::wire::push_slice(&mut data, self.data.as_slice());
        Frame {
            timestamp: self.timestamp,
            width: self.width,
            height: self.height,
            format: self.format,
            data,
            frame_id: self.frame_id,
        }
    }
}

/// Something that produces frames (capture devices, webcams).
pub trait FrameSource {
    fn next_frame(&mut self) -> Option<Frame>;

    fn name(&self) -> &str;
}

/// Something that takes frames (display, codec).
pub trait FrameConsumer {
    fn consume_frame(&mut self, frame: Frame) -> bool;
}

} // verus!
