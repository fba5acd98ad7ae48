//! What every audio encoder offers.

use vstd::prelude::*;
use crate::types::audio_frame::{EncodedAudioFrame, RawAudioFrame};
use crate::types::error::WaycapError;

verus! {

/// One thing that was asked of an audio encoder.
pub enum AudioRequest {
    /// `process`, with the chunk that was handed over
    Process(RawAudioFrame),
    /// `drain`
    Drain,
    /// `reset`
    Reset,
    /// `drop_encoder`
    DropEncoder,
}

/// A record of what was asked of an audio encoder, oldest first.
pub type AskedAudio = Ghost<Seq<AudioRequest>>;

/// The record of an audio encoder that nothing has been asked of.
pub fn nothing_asked() -> (record: AskedAudio)
    ensures
        record@ == Seq::<AudioRequest>::empty(),
{
    Ghost(Seq::empty())
}

/// An encoder of audio. It gathers the samples that it is given into the windows that its
/// codec takes, and publishes what the codec produces on one channel for its whole life.
/// Whatever is done to it, a receiver that was handed out before goes on receiving.
pub trait AudioEncoder {
    /// The receiving end of the channel that the encoder publishes on. An implementation
    /// in unverified code writes this as a function that hands out such a handle.
    spec fn output_channel(&self) -> Option<crossbeam::channel::Receiver<EncodedAudioFrame>>;

    /// Everything that was asked of the encoder, oldest first. An implementation in
    /// unverified code writes this as a function that returns `nothing_asked()`.
    spec fn asked(&self) -> AskedAudio;

    /// Takes one chunk of raw samples. A full output channel is no error: what finds no
    /// room is dropped.
    fn process(&mut self, raw_frame: RawAudioFrame) -> (outcome: Result<(), WaycapError>)
        ensures
            final(self).output_channel() == old(self).output_channel(),
            final(self).asked()@ == old(self).asked()@.push(AudioRequest::Process(raw_frame)),
    ;

    /// Flushes what the codec still holds.
    fn drain(&mut self) -> (outcome: Result<(), WaycapError>)
        ensures
            final(self).output_channel() == old(self).output_channel(),
            final(self).asked()@ == old(self).asked()@.push(AudioRequest::Drain),
    ;

    /// Recreates the codec state for a fresh encoding session and forgets the samples
    /// gathered so far.
    fn reset(&mut self) -> (outcome: Result<(), WaycapError>)
        ensures
            final(self).output_channel() == old(self).output_channel(),
            final(self).asked()@ == old(self).asked()@.push(AudioRequest::Reset),
    ;

    /// A receiving handle on the output channel.
    fn get_encoded_recv(&mut self) -> (receiver: Option<crossbeam::channel::Receiver<EncodedAudioFrame>>)
        ensures
            receiver == old(self).output_channel(),
            final(self).output_channel() == old(self).output_channel(),
            final(self).asked() == old(self).asked(),
    ;

    /// Releases the codec.
    fn drop_encoder(&mut self)
        ensures
            final(self).output_channel() == old(self).output_channel(),
            final(self).asked()@ == old(self).asked()@.push(AudioRequest::DropEncoder),
    ;
}

} // verus!
