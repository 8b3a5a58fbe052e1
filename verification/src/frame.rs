//! Image frames, their Chunk metadata and the pixel representations that can be requested.

use vstd::prelude::*;
use crate::sys::HikFrame;

verus! {

/// Pixel representation requested from a synchronous grab.
#[derive(Debug, Clone, Copy, PartialEq, Eq, Structural)]
pub enum OutputFormat {
    /// Preserve the camera's native pixel format and encoded layout.
    Raw,
    /// Convert to one unsigned 8-bit luminance channel per pixel.
    Mono8,
    /// Convert to packed blue-green-red bytes, three bytes per pixel.
    Bgr8,
}

/// The native code of an output format.
pub open spec fn output_format_code(f: OutputFormat) -> i32 {
    match f {
        OutputFormat::Raw => 0,
        OutputFormat::Mono8 => 1,
        OutputFormat::Bgr8 => 2,
    }
}

impl OutputFormat {
    /// The code the native layer expects: `Raw` is 0, `Mono8` 1, `Bgr8` 2.
    pub fn code(&self) -> (c: i32)
        ensures
            c == output_format_code(*self),
    {
        match self {
            OutputFormat::Raw => 0,
            OutputFormat::Mono8 => 1,
            OutputFormat::Bgr8 => 2,
        }
    }
}

/// Distinct output formats are sent as distinct codes.
pub proof fn lemma_output_format_codes_distinct(a: OutputFormat, b: OutputFormat)
    ensures
        a != b ==> output_format_code(a) != output_format_code(b),
{
}

/// Frame watermark and Chunk fields parsed by the MVS SDK.
///
/// A zero value may mean either that the camera reported zero or that the corresponding
/// Chunk entry was not enabled. The two floating-point fields are carried as their IEEE-754
/// bit patterns.
#[derive(Debug, Clone, Copy, Default, PartialEq, Eq)]
pub struct ChunkMetadata {
    /// Bit pattern of the gain reported for this frame (an `f32`, device-defined unit).
    pub gain_bits: u32,
    /// Bit pattern of the exposure time reported for this frame (an `f32`, normally µs).
    pub exposure_time_bits: u32,
    /// Device-computed average brightness.
    pub average_brightness: u32,
    /// Packets lost while receiving this individual frame.
    pub lost_packets: u32,
    /// Width reported by the Chunk payload.
    pub width: u32,
    /// Height reported by the Chunk payload.
    pub height: u32,
    /// Number of Chunk entries not parsed by the SDK.
    pub unparsed_count: u32,
}

/// The Chunk metadata that a frame descriptor carries.
pub open spec fn spec_chunk(raw: HikFrame) -> ChunkMetadata {
    ChunkMetadata {
        gain_bits: raw.gain_bits,
        exposure_time_bits: raw.exposure_time_bits,
        average_brightness: raw.average_brightness,
        lost_packets: raw.lost_packets,
        width: raw.chunk_width,
        height: raw.chunk_height,
        unparsed_count: raw.unparsed_chunk_count,
    }
}

/// The Chunk metadata reports what the Chunk payload carried, field by field; its width
/// and height are the Chunk entries', not the frame's own geometry.
pub proof fn lemma_chunk_reports_payload(raw: HikFrame)
    ensures
        spec_chunk(raw).gain_bits == raw.gain_bits,
        spec_chunk(raw).exposure_time_bits == raw.exposure_time_bits,
        spec_chunk(raw).average_brightness == raw.average_brightness,
        spec_chunk(raw).lost_packets == raw.lost_packets,
        spec_chunk(raw).width == raw.chunk_width,
        spec_chunk(raw).height == raw.chunk_height,
        spec_chunk(raw).unparsed_count == raw.unparsed_chunk_count,
{
}

/// `f` is a frame descriptor with every field zero and no image bytes.
pub open spec fn is_empty_frame(f: HikFrame) -> bool {
    &&& f.width == 0 && f.height == 0 && f.stride == 0 && f.pixel_format == 0
    &&& f.frame_number == 0 && f.timestamp == 0
    &&& f.gain_bits == 0 && f.exposure_time_bits == 0
    &&& f.average_brightness == 0 && f.lost_packets == 0
    &&& f.chunk_width == 0 && f.chunk_height == 0 && f.unparsed_chunk_count == 0
    &&& f.data@.len() == 0
}

/// A zero-initialized frame descriptor, used as the output record of native frame calls.
pub fn empty_frame() -> (f: HikFrame)
    ensures
        is_empty_frame(f),
{
    HikFrame {
        width: 0,
        height: 0,
        stride: 0,
        pixel_format: 0,
        frame_number: 0,
        timestamp: 0,
        gain_bits: 0,
        exposure_time_bits: 0,
        average_brightness: 0,
        lost_packets: 0,
        chunk_width: 0,
        chunk_height: 0,
        unparsed_chunk_count: 0,
        data: Vec::new(),
    }
}

/// Owned frame returned by synchronous acquisition and by image transforms.
pub struct Frame {
    raw: HikFrame,
}

impl Frame {
    /// The descriptor and image bytes this frame holds.
    pub closed spec fn descriptor(&self) -> HikFrame {
        self.raw
    }

    /// Wraps a filled frame descriptor.
    pub fn from_raw(raw: HikFrame) -> (f: Frame)
        ensures
            f.descriptor() == raw,
    {
        Frame { raw }
    }

    /// Image width in pixels.
    pub fn width(&self) -> (w: u32)
        ensures
            w == self.descriptor().width,
    {
        self.raw.width
    }

    /// Image height in pixels.
    pub fn height(&self) -> (h: u32)
        ensures
            h == self.descriptor().height,
    {
        self.raw.height
    }

    /// Number of bytes between adjacent image rows.
    pub fn stride(&self) -> (s: u32)
        ensures
            s == self.descriptor().stride,
    {
        self.raw.stride
    }

    /// Raw numeric value from Hikrobot's `MvGvspPixelType` enumeration.
    pub fn pixel_format(&self) -> (p: u32)
        ensures
            p == self.descriptor().pixel_format,
    {
        self.raw.pixel_format
    }

    /// Monotonic device frame sequence number.
    pub fn frame_number(&self) -> (n: u64)
        ensures
            n == self.descriptor().frame_number,
    {
        self.raw.frame_number
    }

    /// Device timestamp assembled from the SDK's high and low words.
    pub fn timestamp(&self) -> (t: u64)
        ensures
            t == self.descriptor().timestamp,
    {
        self.raw.timestamp
    }

    /// Parsed watermark and Chunk fields reported with this frame.
    pub fn chunk(&self) -> (c: ChunkMetadata)
        ensures
            c == spec_chunk(self.descriptor()),
            c.gain_bits == self.descriptor().gain_bits,
            c.exposure_time_bits == self.descriptor().exposure_time_bits,
            c.average_brightness == self.descriptor().average_brightness,
            c.lost_packets == self.descriptor().lost_packets,
            c.width == self.descriptor().chunk_width,
            c.height == self.descriptor().chunk_height,
            c.unparsed_count == self.descriptor().unparsed_chunk_count,
    {
        ChunkMetadata {
            gain_bits: self.raw.gain_bits,
            exposure_time_bits: self.raw.exposure_time_bits,
            average_brightness: self.raw.average_brightness,
            lost_packets: self.raw.lost_packets,
            width: self.raw.chunk_width,
            height: self.raw.chunk_height,
            unparsed_count: self.raw.unparsed_chunk_count,
        }
    }

    /// Borrows the image bytes for the lifetime of this frame.
    pub fn data(&self) -> (d: &[u8])
        ensures
            d@ == self.descriptor().data@,
    {
        self.raw.data.as_slice()
    }
}

/// Frame delivered by the image callback, with every byte copied into owned memory.
#[derive(Debug, Clone)]
pub struct OwnedFrame {
    /// Image width in pixels.
    pub width: u32,
    /// Image height in pixels.
    pub height: u32,
    /// Bytes between adjacent rows.
    pub stride: u32,
    /// Raw `MvGvspPixelType` numeric value.
    pub pixel_format: u32,
    /// Device frame sequence number.
    pub frame_number: u64,
    /// Device timestamp.
    pub timestamp: u64,
    /// Owned image bytes.
    pub data: Vec<u8>,
}

impl OwnedFrame {
    /// Keeps the geometry, pixel format, sequence number, timestamp and bytes of a callback
    /// frame descriptor.
    pub fn from_raw(raw: HikFrame) -> (f: OwnedFrame)
        ensures
            f.width == raw.width,
            f.height == raw.height,
            f.stride == raw.stride,
            f.pixel_format == raw.pixel_format,
            f.frame_number == raw.frame_number,
            f.timestamp == raw.timestamp,
            f.data@ == raw.data@,
    {
        OwnedFrame {
            width: raw.width,
            height: raw.height,
            stride: raw.stride,
            pixel_format: raw.pixel_format,
            frame_number: raw.frame_number,
            timestamp: raw.timestamp,
            data: raw.data,
        }
    }
}

} // verus!
