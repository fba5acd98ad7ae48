//! An "encoder" that hands captured frames on as they are.

use vstd::prelude::*;
use crate::channel::clone_receiver;
use crate::encoders::video::{nothing_asked, Asked, VideoEncoder, VideoRequest};
use crate::types::error::WaycapError;
use crate::types::video_frame::RawVideoFrame;

verus! {

/// "Encoder" which provides the raw DMA-Buf pointers directly.
///
/// Allows for using the image directly on the GPU, which makes it far more performant
/// when, for example, trying to display it to a user.
pub struct DmaBufEncoder {
    receiver: Option<crossbeam::channel::Receiver<RawVideoFrame>>,
    asked: Asked,
}

impl Default for DmaBufEncoder {
    fn default() -> (encoder: Self)
        ensures
            encoder.input() is None,
            encoder.asked()@ == Seq::<VideoRequest>::empty(),
    {
        DmaBufEncoder { receiver: None, asked: nothing_asked() }
    }
}

impl DmaBufEncoder {
    /// The channel of captured frames that this encoder passes on, once it has one.
    pub closed spec fn input(&self) -> Option<crossbeam::channel::Receiver<RawVideoFrame>> {
        self.receiver
    }

    /// Takes over the channel of captured frames. No thread is needed: the caller reads
    /// the frames from the output.
    pub fn start_processing(&mut self, input: crossbeam::channel::Receiver<RawVideoFrame>) -> (outcome: Result<(), WaycapError>)
        ensures
            outcome is Ok,
            final(self).input() == Some(input),
            final(self).asked() == old(self).asked(),
    {
        self.receiver = Some(input);
        Ok(())
    }
}

impl VideoEncoder for DmaBufEncoder {
    type Output = RawVideoFrame;

    closed spec fn output_channel(&self) -> Option<crossbeam::channel::Receiver<RawVideoFrame>> {
        self.receiver
    }

    closed spec fn asked(&self) -> Asked {
        self.asked
    }

    /// Nothing to recreate; the channel stays.
    fn reset(&mut self) -> (outcome: Result<(), WaycapError>)
        ensures
            outcome is Ok,
            final(self).input() == old(self).input(),
    {
        proof {
            self.asked = Ghost(self.asked@.push(VideoRequest::Reset));
        }
        Ok(())
    }

    /// A receiving handle on the channel of captured frames, once there is one.
    fn output(&mut self) -> (receiver: Option<crossbeam::channel::Receiver<RawVideoFrame>>)
        ensures
            receiver == old(self).input(),
            *final(self) == *old(self),
    {
        match &self.receiver {
            Some(receiver) => Some(clone_receiver(receiver)),
            None => None,
        }
    }

    /// Nothing to release.
    fn drop_processor(&mut self)
        ensures
            final(self).input() == old(self).input(),
    {
        proof {
            self.asked = Ghost(self.asked@.push(VideoRequest::DropProcessor));
        }
    }

    /// Nothing is buffered, so there is nothing to flush.
    fn drain(&mut self) -> (outcome: Result<(), WaycapError>)
        ensures
            outcome is Ok,
            final(self).input() == old(self).input(),
    {
        proof {
            self.asked = Ghost(self.asked@.push(VideoRequest::Drain));
        }
        Ok(())
    }
}

} // verus!
