//! The records that cross the native C ABI, as plain values.
//!
//! Each record mirrors one structure of the native header field by field. Fixed-size text
//! fields are byte buffers holding NUL-terminated text; floating-point fields are carried as
//! their IEEE-754 bit patterns.

use vstd::prelude::*;

verus! {

/// Success status shared by the native wrapper and the MVS SDK.
pub const HIK_OK: i32 = 0;

/// Number of acknowledgement slots offered to an Action Command broadcast.
pub const ACTION_RESULT_CAPACITY: usize = 256;

/// Enumerated device as reported by the native layer.
#[derive(Debug, Clone)]
pub struct HikDeviceInfo {
    /// Transport: `1` for GigE, `2` for USB3, anything else unknown.
    pub transport: u32,
    /// Current GigE IPv4 address as a 32-bit value, most significant octet first; `0` if none.
    pub ip: u32,
    /// NUL-terminated camera model name.
    pub model: Vec<u8>,
    /// NUL-terminated manufacturer serial number.
    pub serial: Vec<u8>,
    /// NUL-terminated user-defined device name.
    pub user_name: Vec<u8>,
}

/// Frame descriptor with its image bytes.
#[derive(Debug, Clone)]
pub struct HikFrame {
    /// Image width in pixels.
    pub width: u32,
    /// Image height in pixels.
    pub height: u32,
    /// Byte distance between adjacent rows.
    pub stride: u32,
    /// Raw Hikrobot pixel-type value.
    pub pixel_format: u32,
    /// Device frame sequence number.
    pub frame_number: u64,
    /// Combined device timestamp.
    pub timestamp: u64,
    /// Bit pattern of the per-frame gain watermark (an `f32`).
    pub gain_bits: u32,
    /// Bit pattern of the per-frame exposure time (an `f32`, normally microseconds).
    pub exposure_time_bits: u32,
    /// Device-computed average brightness.
    pub average_brightness: u32,
    /// Packets lost while receiving this frame.
    pub lost_packets: u32,
    /// Image width reported by Chunk data.
    pub chunk_width: u32,
    /// Image height reported by Chunk data.
    pub chunk_height: u32,
    /// Number of Chunk entries not parsed by MVS.
    pub unparsed_chunk_count: u32,
    /// Image bytes.
    pub data: Vec<u8>,
}

/// Integer GenICam value and constraints.
#[derive(Debug, Clone, Copy)]
pub struct HikIntValue {
    /// Current value.
    pub current: i64,
    /// Minimum allowed value.
    pub minimum: i64,
    /// Maximum allowed value.
    pub maximum: i64,
    /// Required increment between valid values.
    pub increment: i64,
}

/// Camera-event data.
#[derive(Debug, Clone)]
pub struct HikEvent {
    /// NUL-terminated GenICam event name.
    pub name: Vec<u8>,
    /// Numeric event identifier.
    pub event_id: u16,
    /// Stream channel that emitted the event.
    pub stream_channel: u16,
    /// Associated block/frame identifier.
    pub block_id: u64,
    /// Device event timestamp.
    pub timestamp: u64,
}

/// GigE transport statistics.
#[derive(Debug, Clone, Copy)]
pub struct HikNetworkStats {
    /// Total bytes received.
    pub received_bytes: i64,
    /// Number of lost network packets.
    pub lost_packets: i64,
    /// Number of incomplete frames discarded.
    pub lost_frames: u32,
    /// Frames received by the network layer.
    pub received_frames: u32,
    /// Number of resend packets requested.
    pub requested_resend_packets: i64,
    /// Number of resent packets received.
    pub resent_packets: i64,
}

/// Device acknowledgement for an Action Command.
#[derive(Debug, Clone)]
pub struct HikActionResult {
    /// NUL-terminated device IPv4 address text.
    pub device_address: Vec<u8>,
    /// Device status; `0` means success.
    pub status: i32,
}

} // verus!
