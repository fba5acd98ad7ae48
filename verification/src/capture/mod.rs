//! The library's side of the two capture sources: what a source does with each buffer
//! that the native stream hands it.

use vstd::prelude::*;
use crate::controls::ControlState;

pub mod audio;
pub mod video;

verus! {

/// The message that ends a capture source's run loop.
#[derive(Debug, Clone, Copy, PartialEq, Eq, Structural)]
pub struct Terminate {}

/// What became of a raw frame that a capture source produced.
#[derive(Debug, Clone, Copy, PartialEq, Eq, Structural)]
pub enum Delivery {
    /// Held back at the source: the session is paused or stopped, or the other source is
    /// not ready. The channel was not touched.
    Gated,
    /// The channel took the frame.
    Sent,
    /// The channel was full and the frame with this capture timestamp was dropped.
    ChannelFull(i64),
    /// The channel has no receiver and the frame with this capture timestamp was dropped.
    ChannelClosed(i64),
}

/// True when a source may publish: the other source is ready and the session is neither
/// paused nor stopped.
pub open spec fn admits(other_source_ready: bool, controls: ControlState) -> bool {
    other_source_ready && !controls.skip_processing()
}

/// True when `delivery` is what a source may report of a frame with capture timestamp
/// `timestamp` that it offered to its channel.
pub open spec fn offered(delivery: Delivery, timestamp: i64) -> bool {
    delivery == Delivery::Sent || delivery == Delivery::ChannelFull(timestamp) || delivery
        == Delivery::ChannelClosed(timestamp)
}

/// What a source has offered to its channel after `frames` arrived one after the other,
/// under flags and a latch that did not change meanwhile: each arrival adds to what was
/// offered as one call of `deliver` does.
pub open spec fn offered_after<T>(offered: Seq<T>, other_source_ready: bool, controls: ControlState, frames: Seq<T>) -> Seq<T>
    decreases frames.len(),
{
    if frames.len() == 0 {
        offered
    } else {
        offered_after(
            if admits(other_source_ready, controls) {
                offered.push(frames[0])
            } else {
                offered
            },
            other_source_ready,
            controls,
            frames.skip(1),
        )
    }
}

/// Before the other source is ready, and while the session is paused or stopped, a source
/// offers nothing to its channel, however many frames arrive: they are gone, not kept for
/// later.
pub proof fn held_source_offers_nothing<T>(offered: Seq<T>, other_source_ready: bool, controls: ControlState, frames: Seq<T>)
    requires
        !other_source_ready || controls.paused || controls.stopped,
    ensures
        offered_after(offered, other_source_ready, controls, frames) == offered,
    decreases frames.len(),
{
    if frames.len() > 0 {
        held_source_offers_nothing(offered, other_source_ready, controls, frames.skip(1));
    }
}

/// While the other source is ready and the session runs, a source offers every frame that
/// arrives, in the order of arrival.
pub proof fn open_source_offers_every_frame<T>(offered: Seq<T>, other_source_ready: bool, controls: ControlState, frames: Seq<T>)
    requires
        admits(other_source_ready, controls),
    ensures
        offered_after(offered, other_source_ready, controls, frames) == offered + frames,
    decreases frames.len(),
{
    if frames.len() > 0 {
        open_source_offers_every_frame(offered.push(frames[0]), other_source_ready, controls, frames.skip(1));
        assert(offered.push(frames[0]) + frames.skip(1) == offered + frames);
    } else {
        assert(offered + frames == offered);
    }
}

} // verus!
