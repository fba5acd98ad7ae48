//! An encoder that turns captured frames into RGBA images on the CPU.

use vstd::prelude::*;
use crate::channel::{one_more, Outcome, OutputChannel, OUTPUT_CAPACITY};
use crate::encoders::video::{nothing_asked, Asked, ProcessingThread, VideoEncoder, VideoRequest};
use crate::types::error::WaycapError;
use crate::types::video_frame::RawVideoFrame;

verus! {

/// `image::RgbaImage`: an image of RGBA pixels, one byte per channel, held as the `image`
/// crate holds it and read only through that crate.
#[verifier::external_body]
#[derive(Debug)]
pub struct RgbaImage {
    inner: image::RgbaImage,
}

/// The bytes of an image's pixel buffer, row by row, four to a pixel.
pub uninterp spec fn pixels_of(image: RgbaImage) -> Seq<u8>;

/// Width and height that an image was made with.
pub uninterp spec fn dimensions_of(image: RgbaImage) -> (u32, u32);

/// `ImageBuffer::from_raw` for RGBA pixels of one byte per channel: an image over `buf`
/// as it stands, provided that `buf` holds at least `4 * width * height` bytes.
#[verifier::external_body]
fn image_from_raw(width: u32, height: u32, buf: Vec<u8>) -> (image: Option<RgbaImage>)
    ensures
        image is Some <==> 4 * width * height <= buf@.len(),
        image matches Some(img) ==> pixels_of(img) == buf@ && dimensions_of(img) == (width, height),
{
    match image::RgbaImage::from_raw(width, height, buf) {
        Some(inner) => Some(RgbaImage { inner }),
        None => None,
    }
}

/// `ImageBuffer::into_raw`: the pixel buffer that the image was made over.
#[verifier::external_body]
fn image_into_raw(image: RgbaImage) -> (buf: Vec<u8>)
    ensures
        buf@ == pixels_of(image),
{
    image.inner.into_raw()
}

/// `ImageBuffer::dimensions`: width and height of the image.
#[verifier::external_body]
fn image_dimensions(image: &RgbaImage) -> (size: (u32, u32))
    ensures
        size == dimensions_of(*image),
{
    image.inner.dimensions()
}

impl RgbaImage {
    /// The image's pixel buffer.
    pub fn into_raw(self) -> (buf: Vec<u8>)
        ensures
            buf@ == pixels_of(self),
    {
        image_into_raw(self)
    }

    /// Width and height of the image.
    pub fn dimensions(&self) -> (size: (u32, u32))
        ensures
            size == dimensions_of(*self),
    {
        image_dimensions(self)
    }
}

/// The bytes of a pixel buffer with red and blue exchanged in every whole pixel. Bytes
/// behind the last whole pixel stay as they are.
pub open spec fn bgra_to_rgba(buf: Seq<u8>) -> Seq<u8> {
    Seq::new(
        buf.len(),
        |i: int|
            if (i / 4) * 4 + 4 <= buf.len() {
                if i % 4 == 0 {
                    buf[i + 2]
                } else if i % 4 == 2 {
                    buf[i - 2]
                } else {
                    buf[i]
                }
            } else {
                buf[i]
            },
    )
}

/// Exchanging red and blue twice gives the pixels back, and never changes how many bytes
/// there are.
pub proof fn exchange_is_its_own_inverse(buf: Seq<u8>)
    ensures
        bgra_to_rgba(buf).len() == buf.len(),
        bgra_to_rgba(bgra_to_rgba(buf)) == buf,
{
    let once = bgra_to_rgba(buf);
    assert forall|i: int| 0 <= i < buf.len() implies bgra_to_rgba(once)[i] == buf[i] by {
        if (i / 4) * 4 + 4 <= buf.len() {
            if i % 4 == 0 {
                assert(((i + 2) / 4) * 4 + 4 <= buf.len());
                assert((i + 2) % 4 == 2);
            } else if i % 4 == 2 {
                assert(((i - 2) / 4) * 4 + 4 <= buf.len());
                assert((i - 2) % 4 == 0);
            }
        }
    }
    assert(bgra_to_rgba(once) =~= buf);
}

/// BGRA to RGBA pixel buffer conversion
pub fn bgra_to_rgba_inplace(buf: &mut [u8])
    ensures
        final(buf)@ == bgra_to_rgba(old(buf)@),
{
    let len = buf.len();
    let mut at: usize = 0;
    while len - at >= 4
        invariant
            at <= len == buf@.len() == old(buf)@.len(),
            at % 4 == 0,
            forall|i: int| 0 <= i < at ==> buf@[i] == bgra_to_rgba(old(buf)@)[i],
            forall|i: int| at <= i < len ==> buf@[i] == old(buf)@[i],
        decreases len - at,
    {
        let blue = buf[at];
        let red = buf[at + 2];
        buf[at] = red;
        buf[at + 2] = blue;
        at = at + 4;
    }
    assert(buf@ =~= bgra_to_rgba(old(buf)@));
}

/// "Encoder" which outputs RGBA images
///
/// This is entirely CPU side, and won't ever be as fast as a hardware encoder.
pub struct RgbaImageEncoder {
    output: OutputChannel<RgbaImage>,
    asked: Asked,
}

impl Default for RgbaImageEncoder {
    fn default() -> (encoder: Self)
        ensures
            encoder.dropped_frames() == 0,
            encoder.offered() == Seq::<RgbaImage>::empty(),
            encoder.published() == Seq::<RgbaImage>::empty(),
            encoder.asked()@ == Seq::<VideoRequest>::empty(),
    {
        RgbaImageEncoder { output: OutputChannel::bounded(OUTPUT_CAPACITY), asked: nothing_asked() }
    }
}

impl RgbaImageEncoder {
    /// The two ends of the channel that images are published on.
    pub closed spec fn channel(&self) -> (
        crossbeam::channel::Sender<RgbaImage>,
        crossbeam::channel::Receiver<RgbaImage>,
    ) {
        self.output.ends()
    }

    /// Number of images that found no room in the channel.
    pub closed spec fn dropped_frames(&self) -> nat {
        self.output.dropped_count()
    }

    /// Every image that was offered to the output channel, oldest first, whether the
    /// channel took it or not.
    pub closed spec fn offered(&self) -> Seq<RgbaImage> {
        self.output.offered()
    }

    /// What became of the output when the image of `frame` was offered and the channel
    /// decided: the channel took it and nothing more is counted as dropped, or it did not
    /// and one more is.
    pub open spec fn offered_once(before: Self, after: Self, frame: RawVideoFrame) -> bool {
        ||| one_more(before.published(), after.published()) && Self::shows(after.published().last(), frame)
            && after.dropped_frames() == before.dropped_frames()
        ||| after.published() == before.published() && after.dropped_frames() == OutputChannel::<
            RgbaImage,
        >::count_after(before.dropped_frames(), Outcome::DroppedFull)
    }

    /// True when nothing went to the output between `before` and `after`: the channel is
    /// the same, and so is what was offered, what was taken and what was dropped.
    pub open spec fn output_kept(before: Self, after: Self) -> bool {
        &&& after.channel() == before.channel()
        &&& after.offered() == before.offered()
        &&& after.published() == before.published()
        &&& after.dropped_frames() == before.dropped_frames()
    }

    /// Every image that the output channel took, oldest first.
    pub closed spec fn published(&self) -> Seq<RgbaImage> {
        self.output.taken()
    }

    /// True when `image` shows `frame`: the frame's pixels with red and blue exchanged, in
    /// the frame's size.
    pub open spec fn shows(image: RgbaImage, frame: RawVideoFrame) -> bool {
        pixels_of(image) == bgra_to_rgba(frame.data@) && dimensions_of(image) == (
            frame.dimensions.width,
            frame.dimensions.height,
        )
    }

    /// The image that a captured frame shows: the frame's pixels with red and blue
    /// exchanged, in the frame's size. A frame whose data is too short for its size is
    /// rejected.
    pub fn convert(frame: &RawVideoFrame) -> (image: Result<RgbaImage, WaycapError>)
        ensures
            image is Ok <==> 4 * frame.dimensions.width * frame.dimensions.height <= frame.data@.len(),
            image matches Ok(img) ==> Self::shows(img, *frame),
            image matches Err(e) ==> e is Encoding,
    {
        let mut raw = frame.data.clone();
        bgra_to_rgba_inplace(raw.as_mut_slice());
        match image_from_raw(frame.dimensions.width, frame.dimensions.height, raw) {
            Some(image) => Ok(image),
            None => Err(WaycapError::encoding("Frame data is too short for its dimensions")),
        }
    }

    /// Converts one frame and offers the image to the output channel. A full channel, or
    /// one without a receiver, is no failure: the image is dropped and counted. Only a
    /// frame that cannot be converted is an error, and then nothing is offered.
    pub fn publish(&mut self, frame: RawVideoFrame) -> (outcome: Result<Outcome, WaycapError>)
        ensures
            outcome is Ok <==> 4 * frame.dimensions.width * frame.dimensions.height <= frame.data@.len(),
            final(self).channel() == old(self).channel(),
            outcome matches Ok(published) ==> final(self).dropped_frames() == OutputChannel::<
                RgbaImage,
            >::count_after(old(self).dropped_frames(), published),
            outcome matches Err(e) ==> e is Encoding && final(self).dropped_frames() == old(self).dropped_frames(),
            outcome is Err ==> final(self).offered() == old(self).offered(),
            outcome is Ok ==> one_more(old(self).offered(), final(self).offered()),
            outcome is Ok ==> Self::shows(final(self).offered().last(), frame),
            final(self).asked() == old(self).asked(),
            !(outcome matches Ok(Outcome::Delivered)) ==> final(self).published() == old(self).published(),
            outcome matches Ok(Outcome::Delivered) ==> one_more(old(self).published(), final(self).published()),
            outcome matches Ok(Outcome::Delivered) ==> Self::shows(final(self).published().last(), frame),
    {
        match Self::convert(&frame) {
            Ok(image) => {
                let outcome = self.output.publish(image);
                proof {
                    assert(self.output.offered().drop_last() == old(self).output.offered());
                    if outcome == Outcome::Delivered {
                        assert(self.output.taken().drop_last() == old(self).output.taken());
                    }
                }
                Ok(outcome)
            },
            Err(e) => Err(e),
        }
    }

    /// Number of images that found no room in the channel.
    pub fn dropped(&self) -> (count: u64)
        ensures
            count == self.dropped_frames(),
    {
        self.output.dropped()
    }
}

impl VideoEncoder for RgbaImageEncoder {
    type Output = RgbaImage;

    closed spec fn output_channel(&self) -> Option<crossbeam::channel::Receiver<RgbaImage>> {
        Some(self.output.ends().1)
    }

    closed spec fn asked(&self) -> Asked {
        self.asked
    }

    /// Nothing to recreate: the encoder keeps no codec state.
    fn reset(&mut self) -> (outcome: Result<(), WaycapError>)
        ensures
            outcome is Ok,
            Self::output_kept(*old(self), *final(self)),
    {
        proof {
            self.asked = Ghost(self.asked@.push(VideoRequest::Reset));
        }
        Ok(())
    }

    fn output(&mut self) -> (receiver: Option<crossbeam::channel::Receiver<RgbaImage>>)
        ensures
            *final(self) == *old(self),
    {
        Some(self.output.subscribe())
    }

    /// Nothing to release.
    fn drop_processor(&mut self)
        ensures
            Self::output_kept(*old(self), *final(self)),
    {
        proof {
            self.asked = Ghost(self.asked@.push(VideoRequest::DropProcessor));
        }
    }

    /// Nothing is buffered, so there is nothing to flush.
    fn drain(&mut self) -> (outcome: Result<(), WaycapError>)
        ensures
            outcome is Ok,
            Self::output_kept(*old(self), *final(self)),
    {
        proof {
            self.asked = Ghost(self.asked@.push(VideoRequest::Drain));
        }
        Ok(())
    }
}

impl ProcessingThread for RgbaImageEncoder {
    /// Converts one frame and offers the image to the output channel, once. The call
    /// succeeds whether or not the channel had room: an image that found none is dropped
    /// and counted. It fails only for a frame that cannot be converted, and then nothing
    /// is offered.
    fn process(&mut self, frame: RawVideoFrame) -> (outcome: Result<(), WaycapError>)
        ensures
            outcome is Ok <==> 4 * frame.dimensions.width * frame.dimensions.height <= frame.data@.len(),
            final(self).channel() == old(self).channel(),
            outcome matches Err(e) ==> e is Encoding,
            outcome is Err ==> final(self).offered() == old(self).offered(),
            outcome is Err ==> final(self).published() == old(self).published(),
            outcome is Err ==> final(self).dropped_frames() == old(self).dropped_frames(),
            outcome is Ok ==> one_more(old(self).offered(), final(self).offered()),
            outcome is Ok ==> Self::shows(final(self).offered().last(), frame),
            outcome is Ok ==> Self::offered_once(*old(self), *final(self), frame),
    {
        proof {
            self.asked = Ghost(self.asked@.push(VideoRequest::Process(frame)));
        }
        match self.publish(frame) {
            Ok(_) => Ok(()),
            Err(e) => Err(e),
        }
    }

    fn thread_setup(&mut self) -> (outcome: Result<(), WaycapError>)
        ensures
            outcome is Ok,
            Self::output_kept(*old(self), *final(self)),
    {
        proof {
            self.asked = Ghost(self.asked@.push(VideoRequest::ThreadSetup));
        }
        Ok(())
    }

    fn thread_teardown(&mut self) -> (outcome: Result<(), WaycapError>)
        ensures
            outcome is Ok,
            Self::output_kept(*old(self), *final(self)),
    {
        proof {
            self.asked = Ghost(self.asked@.push(VideoRequest::ThreadTeardown));
        }
        Ok(())
    }
}

} // verus!
