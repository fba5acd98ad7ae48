//! The video source: gating of captured frames and their hand-off to the processing loop.

use vstd::prelude::*;
use crate::capture::{admits, offered, Delivery};
use crate::channel::{Outcome, Outlet};
use crate::controls::CaptureControls;
use crate::ready::ReadyState;
use crate::types::video_frame::RawVideoFrame;

verus! {

/// The publishing end of the video source.
pub struct VideoCapture {
    frames: Outlet<RawVideoFrame>,
}

impl VideoCapture {
    /// A source that publishes into `frame_tx` and has published nothing yet.
    pub fn new(frame_tx: crossbeam::channel::Sender<RawVideoFrame>) -> (source: Self)
        ensures
            source.channel() == frame_tx,
            source.offered() == Seq::<RawVideoFrame>::empty(),
            source.taken() == Seq::<RawVideoFrame>::empty(),
    {
        VideoCapture { frames: Outlet::new(frame_tx) }
    }

    /// The channel that this source publishes into.
    pub closed spec fn channel(&self) -> crossbeam::channel::Sender<RawVideoFrame> {
        self.frames.sender()
    }

    /// Every frame that this source offered to its channel, oldest first.
    pub closed spec fn offered(&self) -> Seq<RawVideoFrame> {
        self.frames.offered()
    }

    /// Every frame that the channel took from this source, oldest first.
    pub closed spec fn taken(&self) -> Seq<RawVideoFrame> {
        self.frames.taken()
    }

    /// Decides what happens to one captured frame. The frame is offered to the channel
    /// only when the audio source is ready and the session is neither paused nor stopped;
    /// else the channel is left alone and the frame is gone. The offer is made once and
    /// never blocks, and a frame that the channel does not take is dropped.
    pub fn deliver(&mut self, ready: &ReadyState, controls: &CaptureControls, frame: RawVideoFrame) -> (delivery: Delivery)
        ensures
            final(self).channel() == old(self).channel(),
            !admits(ready@.audio, controls@) ==> delivery == Delivery::Gated,
            !admits(ready@.audio, controls@) ==> final(self).offered() == old(self).offered(),
            admits(ready@.audio, controls@) ==> offered(delivery, frame.timestamp),
            admits(ready@.audio, controls@) ==> final(self).offered() == old(self).offered().push(frame),
            delivery == Delivery::Sent ==> final(self).taken() == old(self).taken().push(frame),
            delivery != Delivery::Sent ==> final(self).taken() == old(self).taken(),
    {
        if !ready.audio_ready() || controls.skip_processing() {
            return Delivery::Gated;
        }
        let timestamp = frame.timestamp;
        match self.frames.offer(frame) {
            Outcome::Delivered => Delivery::Sent,
            Outcome::DroppedFull => Delivery::ChannelFull(timestamp),
            Outcome::DroppedDisconnected => Delivery::ChannelClosed(timestamp),
        }
    }

    /// The descriptor of a buffer's DMA memory: present when the buffer is a DMA buffer
    /// and its raw descriptor is positive.
    pub fn get_dmabuf_fd(is_dmabuf: bool, raw_fd: i64) -> (fd: Option<i32>)
        ensures
            fd == (if is_dmabuf && raw_fd > 0 {
                Some(raw_fd as i32)
            } else {
                None
            }),
    {
        if is_dmabuf && raw_fd > 0 {
            Some(#[verifier::truncate] (raw_fd as i32))
        } else {
            None
        }
    }
}

} // verus!
