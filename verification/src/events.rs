//! Asynchronous device exceptions, camera events and network statistics.

use vstd::prelude::*;
use crate::strings::{spec_text, text};
use crate::sys::{HikEvent, HikNetworkStats};

verus! {

/// The vendor message type of a device disconnection (`MV_EXCEPTION_DEV_DISCONNECT`).
pub const DEVICE_DISCONNECTED: u32 = 0x8001;

/// Asynchronous device exception.
#[derive(Debug, Clone, Copy, PartialEq, Eq, Structural)]
pub enum ExceptionEvent {
    /// The camera disconnected.
    Disconnected,
    /// Another vendor exception, identified by its raw message type.
    Other(u32),
}

/// The exception that a vendor message type denotes.
pub open spec fn spec_exception(message_type: u32) -> ExceptionEvent {
    if message_type == DEVICE_DISCONNECTED {
        ExceptionEvent::Disconnected
    } else {
        ExceptionEvent::Other(message_type)
    }
}

impl ExceptionEvent {
    /// Classifies a vendor exception message: the disconnection type becomes
    /// [`ExceptionEvent::Disconnected`], every other type is kept as [`ExceptionEvent::Other`].
    pub fn from_message_type(message_type: u32) -> (e: ExceptionEvent)
        ensures
            e == spec_exception(message_type),
    {
        if message_type == DEVICE_DISCONNECTED {
            ExceptionEvent::Disconnected
        } else {
            ExceptionEvent::Other(message_type)
        }
    }
}

/// No message type is lost in classification: distinct message types give distinct events.
pub proof fn lemma_exception_classification_injective(a: u32, b: u32)
    ensures
        spec_exception(a) == spec_exception(b) ==> a == b,
{
}

/// Owned camera event.
#[derive(Debug, Clone)]
pub struct CameraEvent {
    /// GenICam event name, for example an exposure-end event.
    pub name: String,
    /// Numeric event identifier.
    pub event_id: u16,
    /// Stream channel that produced the event.
    pub stream_channel: u16,
    /// Associated block/frame identifier when supplied by firmware.
    pub block_id: u64,
    /// Device event timestamp.
    pub timestamp: u64,
}

impl CameraEvent {
    /// Copies a native event record, decoding its NUL-terminated name.
    pub fn from_raw(raw: &HikEvent) -> (e: CameraEvent)
        ensures
            e.name@ == spec_text(raw.name@),
            e.event_id == raw.event_id,
            e.stream_channel == raw.stream_channel,
            e.block_id == raw.block_id,
            e.timestamp == raw.timestamp,
    {
        CameraEvent {
            name: text(raw.name.as_slice()),
            event_id: raw.event_id,
            stream_channel: raw.stream_channel,
            block_id: raw.block_id,
            timestamp: raw.timestamp,
        }
    }
}

/// Cumulative GigE stream health counters.
#[derive(Debug, Clone, Copy, Default, PartialEq, Eq)]
pub struct NetworkStats {
    /// Total payload bytes received during the current stream interval.
    pub received_bytes: i64,
    /// Number of missing network packets detected.
    pub lost_packets: i64,
    /// Number of incomplete frames discarded.
    pub lost_frames: u32,
    /// Number of frames received by the network layer.
    pub received_frames: u32,
    /// Number of packet retransmissions requested by the receiver.
    pub requested_resend_packets: i64,
    /// Number of retransmitted packets actually received.
    pub resent_packets: i64,
}

impl NetworkStats {
    /// Copies the native transport counters.
    pub fn from_raw(raw: &HikNetworkStats) -> (s: NetworkStats)
        ensures
            s.received_bytes == raw.received_bytes,
            s.lost_packets == raw.lost_packets,
            s.lost_frames == raw.lost_frames,
            s.received_frames == raw.received_frames,
            s.requested_resend_packets == raw.requested_resend_packets,
            s.resent_packets == raw.resent_packets,
    {
        NetworkStats {
            received_bytes: raw.received_bytes,
            lost_packets: raw.lost_packets,
            lost_frames: raw.lost_frames,
            received_frames: raw.received_frames,
            requested_resend_packets: raw.requested_resend_packets,
            resent_packets: raw.resent_packets,
        }
    }
}

} // verus!
