//! The audio source: gating of captured sample chunks and their hand-off to the encoder
//! loop.

use vstd::prelude::*;
use crate::capture::{admits, offered, Delivery};
use crate::channel::{Outcome, Outlet};
use crate::controls::CaptureControls;
use crate::ready::ReadyState;
use crate::text::{parse_u32, parsed_u32, trim, trimmed_of, without_quotes};
use crate::types::audio_frame::RawAudioFrame;

verus! {

/// Size in bytes of one sample.
pub const SAMPLE_BYTES: u32 = 4;

/// The publishing end of the audio source.
pub struct AudioCapture {
    frames: Outlet<RawAudioFrame>,
}

/// `bytemuck::try_cast_slice`, from bytes to 32-bit words: the words that the bytes hold
/// in the machine's byte order, which is one of two, or nothing when the bytes do not
/// start on a word boundary or are not a whole number of words.
#[verifier::external_body]
fn words_of(bytes: &[u8]) -> (words: Option<Vec<u32>>)
    ensures
        words matches Some(w) ==> w@.len() * 4 == bytes@.len(),
        words matches Some(w) ==> w@ == words_in(bytes@, true) || w@ == words_in(bytes@, false),
{
    match bytemuck::try_cast_slice::<u8, u32>(bytes) {
        Ok(words) => Some(words.to_vec()),
        Err(_) => None,
    }
}

impl AudioCapture {
    /// A source that publishes into `frame_tx` and has published nothing yet.
    pub fn new(frame_tx: crossbeam::channel::Sender<RawAudioFrame>) -> (source: Self)
        ensures
            source.channel() == frame_tx,
            source.offered() == Seq::<RawAudioFrame>::empty(),
            source.taken() == Seq::<RawAudioFrame>::empty(),
    {
        AudioCapture { frames: Outlet::new(frame_tx) }
    }

    /// The channel that this source publishes into.
    pub closed spec fn channel(&self) -> crossbeam::channel::Sender<RawAudioFrame> {
        self.frames.sender()
    }

    /// Every chunk that this source offered to its channel, oldest first.
    pub closed spec fn offered(&self) -> Seq<RawAudioFrame> {
        self.frames.offered()
    }

    /// Every chunk that the channel took from this source, oldest first.
    pub closed spec fn taken(&self) -> Seq<RawAudioFrame> {
        self.frames.taken()
    }

    /// Number of samples in a chunk of `chunk_size` bytes.
    pub fn sample_count(chunk_size: u32) -> (count: u32)
        ensures
            count == chunk_size / SAMPLE_BYTES,
    {
        chunk_size / SAMPLE_BYTES
    }

    /// The frame for one buffer of the native stream: the first `chunk_size / 4` samples
    /// that `bytes` holds, stamped with `timestamp`. There is none when the bytes cannot
    /// be read as samples or hold fewer samples than the chunk claims.
    pub fn frame_from_buffer(bytes: &[u8], chunk_size: u32, timestamp: i64) -> (frame: Option<RawAudioFrame>)
        ensures
            frame matches Some(f) ==> f.timestamp == timestamp && f.samples@.len() == chunk_size
                / SAMPLE_BYTES && f.samples@.len() * 4 <= bytes@.len(),
            bytes@.len() % 4 != 0 || bytes@.len() / 4 < (chunk_size / SAMPLE_BYTES) as int ==> frame is None,
            frame matches Some(f) ==> f.samples@ == words_in(bytes@, true).take(f.samples@.len() as int)
                || f.samples@ == words_in(bytes@, false).take(f.samples@.len() as int),
    {
        Self::frame_from_words(words_of(bytes), chunk_size, timestamp)
    }

    /// The frame for one buffer of the native stream, given the samples that were read
    /// from its bytes: the first `chunk_size / 4` of them, stamped with `timestamp`. There
    /// is none when no samples could be read or the buffer holds fewer than the chunk
    /// claims.
    pub fn frame_from_words(words: Option<Vec<u32>>, chunk_size: u32, timestamp: i64) -> (frame: Option<RawAudioFrame>)
        ensures
            frame is Some <==> chunk_samples(words, chunk_size) is Some,
            frame matches Some(f) ==> f.timestamp == timestamp,
            frame matches Some(f) ==> Some(f.samples@) == chunk_samples(words, chunk_size),
    {
        let count = Self::sample_count(chunk_size) as usize;
        match words {
            None => None,
            Some(mut samples) => {
                if count > samples.len() {
                    None
                } else {
                    samples.truncate(count);
                    Some(RawAudioFrame { samples, timestamp })
                }
            },
        }
    }

    /// Decides what happens to one captured chunk. The chunk is offered to the channel
    /// only when the video source is ready and the session is neither paused nor stopped;
    /// else the channel is left alone and the chunk is gone. The offer is made once and
    /// never blocks, and a chunk that the channel does not take is dropped.
    pub fn deliver(&mut self, ready: &ReadyState, controls: &CaptureControls, frame: RawAudioFrame) -> (delivery: Delivery)
        ensures
            final(self).channel() == old(self).channel(),
            !admits(ready@.video, controls@) ==> delivery == Delivery::Gated,
            !admits(ready@.video, controls@) ==> final(self).offered() == old(self).offered(),
            admits(ready@.video, controls@) ==> offered(delivery, frame.timestamp),
            admits(ready@.video, controls@) ==> final(self).offered() == old(self).offered().push(frame),
            delivery == Delivery::Sent ==> final(self).taken() == old(self).taken().push(frame),
            delivery != Delivery::Sent ==> final(self).taken() == old(self).taken(),
    {
        if !ready.video_ready() || controls.skip_processing() {
            return Delivery::Gated;
        }
        let timestamp = frame.timestamp;
        match self.frames.offer(frame) {
            Outcome::Delivered => Delivery::Sent,
            Outcome::DroppedFull => Delivery::ChannelFull(timestamp),
            Outcome::DroppedDisconnected => Delivery::ChannelClosed(timestamp),
        }
    }
}

/// The 32-bit word that four bytes spell, the lowest byte first or the highest byte first.
pub open spec fn word_of(first: u8, second: u8, third: u8, fourth: u8, lowest_first: bool) -> u32 {
    if lowest_first {
        (first + second * 0x100 + third * 0x1_0000 + fourth * 0x100_0000) as u32
    } else {
        (fourth + third * 0x100 + second * 0x1_0000 + first * 0x100_0000) as u32
    }
}

/// The 32-bit words that `bytes` hold, four bytes to a word, in one of the two byte
/// orders. Bytes behind the last whole word count for nothing.
pub open spec fn words_in(bytes: Seq<u8>, lowest_first: bool) -> Seq<u32> {
    Seq::new(
        (bytes.len() / 4) as nat,
        |i: int| word_of(bytes[4 * i], bytes[4 * i + 1], bytes[4 * i + 2], bytes[4 * i + 3], lowest_first),
    )
}

/// The samples of a chunk of `chunk_size` bytes, given the samples read from its buffer:
/// the first `chunk_size / 4` of them, if there are that many.
pub open spec fn chunk_samples(words: Option<Vec<u32>>, chunk_size: u32) -> Option<Seq<u32>> {
    match words {
        Some(samples) => if chunk_size / SAMPLE_BYTES <= samples@.len() {
            Some(samples@.take((chunk_size / SAMPLE_BYTES) as int))
        } else {
            None
        },
        None => None,
    }
}

/// The node id that the sound server printed for the default sink: the number left when
/// double quotes and surrounding whitespace are taken away. There is none where what is
/// left is no number.
pub fn get_default_sink_node_id(printed: &str) -> (node_id: Option<u32>)
    ensures
        node_id == parsed_u32(trimmed_of(printed@.filter(|c: char| c != '"'))),
{
    let cleaned = without_quotes(printed);
    parse_u32(trim(cleaned.as_str()))
}

} // verus!
