//! Cutting captured audio into the fixed-size windows that the Opus codec takes, and
//! stamping what the codec gives back.

use std::collections::VecDeque;
use vstd::prelude::*;
use vstd::string::StringExecFns;
use crate::channel::{one_more, Outcome, OutputChannel};
use crate::types::audio_frame::{EncodedAudioFrame, RawAudioFrame};
use crate::types::error::WaycapError;

verus! {

/// One window of samples, ready for the codec.
#[derive(Debug)]
pub struct AudioWindow {
    pub samples: Vec<u32>,
    /// Presentation timestamp: the number of samples that went to the codec before.
    pub pts: i64,
}

/// A window as a mathematical value.
pub struct WindowModel {
    pub samples: Seq<u32>,
    pub pts: i64,
}

/// The framing state as a mathematical value.
pub struct FramingModel {
    /// Number of samples in one window.
    pub window: nat,
    /// Number of interleaved channels.
    pub channels: nat,
    /// Samples that have not filled a window yet.
    pub leftover: Seq<u32>,
    /// Presentation timestamp of the next window.
    pub next_pts: i64,
    /// Capture timestamps of the windows whose packets have not come back yet.
    pub timestamps: Seq<i64>,
}

impl FramingModel {
    /// The framing state after a packet came back from the codec: the oldest capture
    /// timestamp still noted is used up.
    pub open spec fn after_packet(self) -> FramingModel {
        FramingModel {
            timestamps: if self.timestamps.len() > 0 {
                self.timestamps.skip(1)
            } else {
                self.timestamps
            },
            ..self
        }
    }

    /// True when `frame` is what a packet with this data and presentation timestamp is
    /// published as in this state: stamped with the oldest capture timestamp still noted,
    /// and with 0 for whatever is not known.
    pub open spec fn is_frame_of(self, frame: EncodedAudioFrame, data: Vec<u8>, pts: Option<i64>) -> bool {
        &&& frame.data == data
        &&& frame.pts == (if pts is Some { pts->0 } else { 0 })
        &&& frame.timestamp == (if self.timestamps.len() > 0 { self.timestamps[0] } else { 0 })
    }
}

/// A presentation timestamp moved on by `by` samples; it stops at `i64::MAX`.
pub open spec fn bump(pts: i64, by: nat) -> i64 {
    if pts + by > i64::MAX {
        i64::MAX
    } else {
        (pts + by) as i64
    }
}

/// The full windows that can be cut from the front of `samples`, the first stamped `pts`
/// and each following one stamped one window later.
pub open spec fn framed(samples: Seq<u32>, window: nat, pts: i64) -> Seq<WindowModel>
    decreases samples.len(),
{
    if window > 0 && samples.len() >= window {
        seq![WindowModel { samples: samples.take(window as int), pts }] + framed(
            samples.skip(window as int),
            window,
            bump(pts, window),
        )
    } else {
        Seq::empty()
    }
}

/// The samples that remain when every full window has been cut from the front.
pub open spec fn unframed(samples: Seq<u32>, window: nat) -> Seq<u32>
    decreases samples.len(),
{
    if window > 0 && samples.len() >= window {
        unframed(samples.skip(window as int), window)
    } else {
        samples
    }
}

/// The presentation timestamp that follows the windows cut from `samples`.
pub open spec fn pts_behind(samples: Seq<u32>, window: nat, pts: i64) -> i64
    decreases samples.len(),
{
    if window > 0 && samples.len() >= window {
        pts_behind(samples.skip(window as int), window, bump(pts, window))
    } else {
        pts
    }
}

/// The windows in `windows` as mathematical values.
pub open spec fn modelled(windows: Seq<AudioWindow>) -> Seq<WindowModel> {
    Seq::new(windows.len(), |i: int| WindowModel { samples: windows[i].samples@, pts: windows[i].pts })
}

/// The samples of `windows`, one window after the other.
pub open spec fn joined(windows: Seq<WindowModel>) -> Seq<u32>
    decreases windows.len(),
{
    if windows.len() == 0 {
        Seq::empty()
    } else {
        windows[0].samples + joined(windows.skip(1))
    }
}

/// Framing loses nothing and invents nothing: the windows cut from some samples, followed
/// by what is left over, are those samples in their order. Every window is full, and what
/// is left over is less than a window.
pub proof fn framing_keeps_every_sample(samples: Seq<u32>, window: nat, pts: i64)
    requires
        window > 0,
    ensures
        joined(framed(samples, window, pts)) + unframed(samples, window) == samples,
        forall|i: int|
            0 <= i < framed(samples, window, pts).len() ==> (#[trigger] framed(samples, window, pts)[i]).samples.len()
                == window,
        unframed(samples, window).len() < window,
    decreases samples.len(),
{
    if samples.len() >= window {
        let first = WindowModel { samples: samples.take(window as int), pts };
        let rest = framed(samples.skip(window as int), window, bump(pts, window));
        framing_keeps_every_sample(samples.skip(window as int), window, bump(pts, window));
        let all = framed(samples, window, pts);
        assert(all == seq![first] + rest);
        assert(all[0] == first);
        assert(all.skip(1) == rest);
        assert(joined(all) == first.samples + joined(rest));
        assert(first.samples + (joined(rest) + unframed(samples.skip(window as int), window)) == samples);
        assert forall|i: int| 0 <= i < all.len() implies (#[trigger] all[i]).samples.len() == window by {
            if i > 0 {
                assert(all[i] == rest[i - 1]);
            }
        }
    }
}

/// Presentation timestamps never run backwards: each window is stamped no earlier than
/// the one before, and the timestamp behind the last window is no earlier than the first.
pub proof fn presentation_timestamps_do_not_decrease(samples: Seq<u32>, window: nat, pts: i64)
    ensures
        forall|i: int|
            0 <= i < framed(samples, window, pts).len() ==> (#[trigger] framed(samples, window, pts)[i]).pts >= pts,
        forall|i: int, j: int|
            0 <= i <= j < framed(samples, window, pts).len() ==> (#[trigger] framed(samples, window, pts)[i]).pts <= (
            #[trigger] framed(samples, window, pts)[j]).pts,
        pts_behind(samples, window, pts) >= pts,
    decreases samples.len(),
{
    if window > 0 && samples.len() >= window {
        let first = WindowModel { samples: samples.take(window as int), pts };
        let rest = framed(samples.skip(window as int), window, bump(pts, window));
        presentation_timestamps_do_not_decrease(samples.skip(window as int), window, bump(pts, window));
        let all = framed(samples, window, pts);
        assert(all == seq![first] + rest);
        assert forall|i: int| 0 <= i < all.len() implies (#[trigger] all[i]).pts >= pts by {
            if i > 0 {
                assert(all[i] == rest[i - 1]);
            }
        }
        assert forall|i: int, j: int| 0 <= i <= j < all.len() implies (#[trigger] all[i]).pts <= (#[trigger] all[j]).pts by {
            if i > 0 {
                assert(all[i] == rest[i - 1]);
                assert(all[j] == rest[j - 1]);
            } else if j > 0 {
                assert(all[j] == rest[j - 1]);
            }
        }
    }
}

/// Size of a window and number of channels; neither is 0.
#[derive(Debug, Clone, Copy)]
struct WindowShape {
    window: u32,
    channels: u16,
}

impl WindowShape {
    #[verifier::type_invariant]
    spec fn sized(&self) -> bool {
        self.window > 0 && self.channels > 0
    }

    closed spec fn window_len(&self) -> nat {
        self.window as nat
    }

    closed spec fn channel_count(&self) -> nat {
        self.channels as nat
    }

    fn new(window: u32, channels: u16) -> (shape: Self)
        requires
            window > 0,
            channels > 0,
        ensures
            shape.window_len() == window,
            shape.channel_count() == channels,
    {
        WindowShape { window, channels }
    }

    fn window(&self) -> (window: u32)
        ensures
            window == self.window_len(),
            window > 0,
    {
        proof {
            use_type_invariant(self);
        }
        self.window
    }

    fn channels(&self) -> (channels: u16)
        ensures
            channels == self.channel_count(),
            channels > 0,
    {
        proof {
            use_type_invariant(self);
        }
        self.channels
    }
}

/// Accumulates raw audio across calls into windows of the codec's frame size. Raw chunks
/// rarely end on a window boundary, so what is left of one chunk is kept for the next.
#[derive(Debug)]
pub struct OpusFraming {
    shape: WindowShape,
    next_pts: i64,
    leftover_data: Vec<u32>,
    capture_timestamps: VecDeque<i64>,
}

impl View for OpusFraming {
    type V = FramingModel;

    closed spec fn view(&self) -> FramingModel {
        FramingModel {
            window: self.shape.window_len(),
            channels: self.shape.channel_count(),
            leftover: self.leftover_data@,
            next_pts: self.next_pts,
            timestamps: self.capture_timestamps@,
        }
    }
}

impl OpusFraming {
    /// Framing for a codec that takes `frame_size` samples at a time, from `channels`
    /// interleaved channels. Neither may be 0.
    pub fn new(frame_size: u32, channels: u16) -> (framing: Result<Self, WaycapError>)
        ensures
            framing is Ok <==> frame_size > 0 && channels > 0,
            framing matches Ok(f) ==> f@ == (FramingModel {
                window: frame_size as nat,
                channels: channels as nat,
                leftover: Seq::empty(),
                next_pts: 0,
                timestamps: Seq::empty(),
            }),
            framing matches Err(e) ==> e is Config,
    {
        if frame_size == 0 || channels == 0 {
            return Err(WaycapError::config("frame size and channel count must be greater than zero"));
        }
        Ok(
            OpusFraming {
                shape: WindowShape::new(frame_size, channels),
                next_pts: 0,
                leftover_data: Vec::new(),
                capture_timestamps: VecDeque::new(),
            },
        )
    }

    /// Number of samples in one window.
    pub fn window(&self) -> (window: u32)
        ensures
            window == self@.window,
            window > 0,
    {
        self.shape.window()
    }

    /// Presentation timestamp of the next window.
    pub fn next_pts(&self) -> (pts: i64)
        ensures
            pts == self@.next_pts,
    {
        self.next_pts
    }

    /// Number of samples that wait for a window to fill.
    pub fn buffered(&self) -> (count: usize)
        ensures
            count == self@.leftover.len(),
    {
        self.leftover_data.len()
    }

    /// Number of windows whose packets have not come back from the codec.
    pub fn pending(&self) -> (count: usize)
        ensures
            count == self@.timestamps.len(),
    {
        self.capture_timestamps.len()
    }

    /// Takes one raw chunk and returns the windows that are now full, oldest first. A
    /// chunk that is not a whole number of samples per channel is rejected and changes
    /// nothing. Each window returned is noted with the chunk's capture timestamp until its
    /// packet comes back.
    pub fn process(&mut self, raw_frame: RawAudioFrame) -> (windows: Result<Vec<AudioWindow>, WaycapError>)
        ensures
            windows is Ok <==> raw_frame.samples@.len() % old(self)@.channels == 0,
            windows matches Err(e) ==> final(self)@ == old(self)@ && e is FFmpeg && e.detail()
                == "Invalid data found when processing input"@,
            windows matches Ok(cut) ==> {
                let all = old(self)@.leftover + raw_frame.samples@;
                &&& modelled(cut@) == framed(all, old(self)@.window, old(self)@.next_pts)
                &&& final(self)@ == (FramingModel {
                    leftover: unframed(all, old(self)@.window),
                    next_pts: pts_behind(all, old(self)@.window, old(self)@.next_pts),
                    timestamps: old(self)@.timestamps + Seq::new(cut@.len(), |i: int| raw_frame.timestamp),
                    ..old(self)@
                })
            },
    {
        if raw_frame.samples.len() % (self.shape.channels() as usize) != 0 {
            return Err(WaycapError::FFmpeg(String::from_str("Invalid data found when processing input")));
        }
        let timestamp = raw_frame.timestamp;
        let mut incoming = raw_frame.samples;
        self.leftover_data.append(&mut incoming);
        let ghost all = self.leftover_data@;
        let ghost first_pts = self.next_pts;
        let ghost noted = self.capture_timestamps@;
        let window = self.shape.window() as usize;
        let mut cut: Vec<AudioWindow> = Vec::new();
        while self.leftover_data.len() >= window
            invariant
                window == old(self)@.window > 0,
                self.shape == old(self).shape,
                framed(all, window as nat, first_pts) == modelled(cut@) + framed(
                    self.leftover_data@,
                    window as nat,
                    self.next_pts,
                ),
                unframed(all, window as nat) == unframed(self.leftover_data@, window as nat),
                pts_behind(all, window as nat, first_pts) == pts_behind(
                    self.leftover_data@,
                    window as nat,
                    self.next_pts,
                ),
                self.capture_timestamps@ == noted + Seq::new(cut@.len(), |i: int| timestamp),
            decreases self.leftover_data@.len(),
        {
            let ghost current = self.leftover_data@;
            let ghost before = cut@;
            let mut samples = self.leftover_data.split_off(window);
            core::mem::swap(&mut samples, &mut self.leftover_data);
            assert(samples@ == current.take(window as int));
            assert(self.leftover_data@ == current.skip(window as int));
            cut.push(AudioWindow { samples, pts: self.next_pts });
            self.capture_timestamps.push_back(timestamp);
            assert(modelled(cut@) == modelled(before) + seq![
                WindowModel { samples: current.take(window as int), pts: self.next_pts },
            ]);
            self.next_pts = if self.next_pts > i64::MAX - (window as i64) {
                i64::MAX
            } else {
                self.next_pts + window as i64
            };
        }
        Ok(cut)
    }

    /// The capture timestamp for the packet that the codec gave back: that of the oldest
    /// window still noted, which is then forgotten.
    pub fn packet_timestamp(&mut self) -> (timestamp: Option<i64>)
        ensures
            old(self)@.timestamps.len() == 0 ==> timestamp is None && final(self)@ == old(self)@,
            old(self)@.timestamps.len() > 0 ==> timestamp == Some(old(self)@.timestamps[0]) && final(self)@ == (
            FramingModel { timestamps: old(self)@.timestamps.skip(1), ..old(self)@ }),
    {
        self.capture_timestamps.pop_front()
    }

    /// The frame to publish for a packet that the codec gave back. Where nothing is known
    /// of a timestamp it is 0.
    pub fn encoded_frame(&mut self, data: Vec<u8>, pts: Option<i64>) -> (frame: EncodedAudioFrame)
        ensures
            old(self)@.is_frame_of(frame, data, pts),
            final(self)@ == old(self)@.after_packet(),
    {
        let captured_at = self.packet_timestamp();
        EncodedAudioFrame::from_packet(data, pts, captured_at)
    }

    /// Publishes what the codec gave back for one packet. A packet without data publishes
    /// nothing and uses up no capture timestamp. A packet with data becomes a frame with
    /// the capture timestamp of the oldest window still noted, and is offered to the output
    /// without waiting; where the output has no room, the frame is dropped and counted.
    pub fn publish_packet(
        &mut self,
        output: &mut OutputChannel<EncodedAudioFrame>,
        data: Option<Vec<u8>>,
        pts: Option<i64>,
    ) -> (published: Option<Outcome>)
        ensures
            final(output).ends() == old(output).ends(),
            published is Some <==> data is Some,
            published is None ==> final(self)@ == old(self)@,
            published is None ==> final(output).dropped_count() == old(output).dropped_count(),
            published is Some ==> final(self)@ == old(self)@.after_packet(),
            published matches Some(outcome) ==> final(output).dropped_count() == OutputChannel::<
                EncodedAudioFrame,
            >::count_after(old(output).dropped_count(), outcome),
            published != Some(Outcome::Delivered) ==> final(output).taken() == old(output).taken(),
            published == Some(Outcome::Delivered) ==> one_more(old(output).taken(), final(output).taken()),
            published == Some(Outcome::Delivered) ==> old(self)@.is_frame_of(final(output).taken().last(), data->0, pts),
    {
        match data {
            Some(data) => {
                let frame = self.encoded_frame(data, pts);
                let outcome = output.publish(frame);
                proof {
                    if outcome == Outcome::Delivered {
                        assert(output.taken().drop_last() == old(output).taken());
                    }
                }
                Some(outcome)
            },
            None => None,
        }
    }

    /// Starts a fresh encoding session: what was accumulated and what was noted is
    /// forgotten. Presentation timestamps go on counting.
    pub fn reset(&mut self)
        ensures
            final(self)@ == (FramingModel {
                leftover: Seq::empty(),
                timestamps: Seq::empty(),
                ..old(self)@
            }),
    {
        self.leftover_data.clear();
        self.capture_timestamps.clear();
    }
}

} // verus!
