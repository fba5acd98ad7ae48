//! Audio samples before and after encoding.

use vstd::prelude::*;

verus! {

/// One encoded audio packet.
#[derive(Debug)]
pub struct EncodedAudioFrame {
    pub data: Vec<u8>,
    pub pts: i64,
    /// Capture timestamp in micro seconds
    pub timestamp: i64,
}

/// One chunk of interleaved 32-bit float samples, each held as its IEEE-754 bit pattern.
#[derive(Debug)]
pub struct RawAudioFrame {
    pub samples: Vec<u32>,
    /// Capture timestamp in micro seconds
    pub timestamp: i64,
}

impl EncodedAudioFrame {
    /// The frame published for a packet that left the codec: a missing presentation
    /// timestamp counts as 0, and so does a missing capture timestamp.
    pub fn from_packet(data: Vec<u8>, pts: Option<i64>, captured_at: Option<i64>) -> (frame: Self)
        ensures
            frame.data == data,
            frame.pts == (if pts is Some { pts->0 } else { 0 }),
            frame.timestamp == (if captured_at is Some { captured_at->0 } else { 0 }),
    {
        let pts: i64 = match pts {
            Some(p) => p,
            None => 0,
        };
        let timestamp: i64 = match captured_at {
            Some(t) => t,
            None => 0,
        };
        EncodedAudioFrame { data, pts, timestamp }
    }
}

} // verus!
