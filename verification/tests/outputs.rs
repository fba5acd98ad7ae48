use waycap_rs::channel::{Outcome, OutputChannel, OUTPUT_CAPACITY};
use waycap_rs::encoders::dma_buf_encoder::DmaBufEncoder;
use waycap_rs::encoders::rgba_image_encoder::{bgra_to_rgba_inplace, RgbaImageEncoder};
use waycap_rs::encoders::video::{publish_packet, ProcessingThread, VideoEncoder};
use waycap_rs::types::video_frame::{EncodedVideoFrame, RawVideoFrame, Resolution};

fn frame(data: Vec<u8>, width: u32, height: u32) -> RawVideoFrame {
    RawVideoFrame {
        data,
        timestamp: 0,
        dmabuf_fd: None,
        stride: (width * 4) as i32,
        offset: 0,
        size: width * height * 4,
        modifier: 0,
        format: 8,
        dimensions: Resolution { width, height },
    }
}

#[test]
fn bgra_pixels_become_rgba_and_a_trailing_rest_stays() {
    let mut one = [10u8, 20, 30, 40];
    bgra_to_rgba_inplace(&mut one);
    assert_eq!(one, [30, 20, 10, 40]);

    let mut two_and_rest = [1u8, 2, 3, 4, 5, 6, 7, 8, 9, 10, 11];
    bgra_to_rgba_inplace(&mut two_and_rest);
    assert_eq!(two_and_rest, [3, 2, 1, 4, 7, 6, 5, 8, 9, 10, 11]);

    let mut short = [1u8, 2, 3];
    bgra_to_rgba_inplace(&mut short);
    assert_eq!(short, [1, 2, 3]);

    let mut empty: [u8; 0] = [];
    bgra_to_rgba_inplace(&mut empty);
    assert_eq!(empty, []);
}

#[test]
fn converting_twice_gives_the_pixels_back() {
    let pixels: Vec<u8> = (0..=255u8).collect();
    let mut buf = pixels.clone();
    bgra_to_rgba_inplace(&mut buf);
    assert_ne!(buf, pixels);
    bgra_to_rgba_inplace(&mut buf);
    assert_eq!(buf, pixels);
}

#[test]
fn frame_is_converted_into_an_image_of_its_size() {
    let image = RgbaImageEncoder::convert(&frame(vec![1, 2, 3, 4, 5, 6, 7, 8], 2, 1)).unwrap();
    assert_eq!(image.dimensions(), (2, 1));
    assert_eq!(image.into_raw(), vec![3, 2, 1, 4, 7, 6, 5, 8]);

    let roomy = RgbaImageEncoder::convert(&frame(vec![9, 8, 7, 6, 5], 1, 1)).unwrap();
    assert_eq!(roomy.dimensions(), (1, 1));
    assert_eq!(roomy.into_raw(), vec![7, 8, 9, 6, 5]);

    let nothing = RgbaImageEncoder::convert(&frame(vec![], 0, 7)).unwrap();
    assert_eq!(nothing.dimensions(), (0, 7));
}

#[test]
fn frame_with_too_little_data_is_an_encoding_error() {
    let error = RgbaImageEncoder::convert(&frame(vec![1, 2, 3, 4, 5, 6, 7], 2, 1)).unwrap_err();
    assert_eq!(error.message(), "Encoding error: Frame data is too short for its dimensions");
    assert!(RgbaImageEncoder::convert(&frame(vec![0; 16], u32::MAX, u32::MAX)).is_err());

    let mut encoder = RgbaImageEncoder::default();
    let receiver = encoder.output().unwrap();
    assert!(encoder.process(frame(vec![1, 2, 3], 1, 1)).is_err());
    assert!(encoder.publish(frame(vec![1, 2, 3], 1, 1)).is_err());
    assert_eq!(encoder.dropped(), 0);
    assert!(receiver.try_recv().is_err());
}

#[test]
fn process_succeeds_and_drops_when_the_output_is_full() {
    let mut encoder = RgbaImageEncoder::default();
    let receiver = encoder.output().unwrap();
    for n in 0..OUTPUT_CAPACITY {
        assert!(encoder.process(frame(vec![n as u8, 0, 0, 255], 1, 1)).is_ok());
    }
    assert_eq!(encoder.dropped(), 0);
    for n in 0..5u64 {
        assert!(encoder.process(frame(vec![200, 0, 0, 255], 1, 1)).is_ok());
        assert_eq!(encoder.dropped(), n + 1);
    }
    assert_eq!(encoder.publish(frame(vec![201, 0, 0, 255], 1, 1)).unwrap(), Outcome::DroppedFull);
    assert_eq!(encoder.dropped(), 6);
    for n in 0..OUTPUT_CAPACITY {
        assert_eq!(receiver.try_recv().unwrap().into_raw(), vec![0, 0, n as u8, 255]);
    }
    assert!(receiver.try_recv().is_err());
    assert_eq!(encoder.publish(frame(vec![1, 2, 3, 4], 1, 1)).unwrap(), Outcome::Delivered);
    assert_eq!(encoder.dropped(), 6);
}

#[test]
fn output_that_nobody_drains_drops_without_failing() {
    let mut output: OutputChannel<EncodedVideoFrame> = OutputChannel::bounded(1);
    let packet = EncodedVideoFrame::from_packet(vec![1], true, None, None);
    assert_eq!(output.publish(packet), Outcome::Delivered);
    let second = EncodedVideoFrame::from_packet(vec![2], false, Some(1), Some(1));
    assert_eq!(output.publish(second), Outcome::DroppedFull);
    assert_eq!(output.dropped(), 1);
}

#[test]
fn consumer_attached_before_reset_receives_frames_produced_after_it() {
    let mut encoder = RgbaImageEncoder::default();
    let before = encoder.output().unwrap();
    assert!(encoder.process(frame(vec![1, 2, 3, 4], 1, 1)).is_ok());
    assert!(encoder.reset().is_ok());
    assert!(encoder.drain().is_ok());
    encoder.drop_processor();
    assert!(encoder.thread_setup().is_ok());
    assert!(encoder.process(frame(vec![5, 6, 7, 8], 1, 1)).is_ok());
    assert!(encoder.thread_teardown().is_ok());
    assert_eq!(before.try_recv().unwrap().into_raw(), vec![3, 2, 1, 4]);
    assert_eq!(before.try_recv().unwrap().into_raw(), vec![7, 6, 5, 8]);
    let after = encoder.output().unwrap();
    assert!(after.same_channel(&before));
    assert!(encoder.process(frame(vec![9, 9, 9, 9], 1, 1)).is_ok());
    assert_eq!(after.try_recv().unwrap().into_raw(), vec![9, 9, 9, 9]);
}

#[test]
fn every_subscription_is_a_handle_on_the_same_channel() {
    let mut output: OutputChannel<u32> = OutputChannel::bounded(3);
    let first = output.subscribe();
    let second = output.subscribe();
    assert!(first.same_channel(&second));
    assert_eq!(output.publish(1), Outcome::Delivered);
    assert_eq!(output.publish(2), Outcome::Delivered);
    assert_eq!(output.publish(3), Outcome::Delivered);
    assert_eq!(output.publish(4), Outcome::DroppedFull);
    assert_eq!(first.try_recv().unwrap(), 1);
    assert_eq!(second.try_recv().unwrap(), 2);
    assert_eq!(first.try_recv().unwrap(), 3);
    assert!(second.try_recv().is_err());
    assert_eq!(output.dropped(), 1);
}

#[test]
fn dma_buf_encoder_passes_the_capture_channel_on() {
    let mut encoder = DmaBufEncoder::default();
    assert!(encoder.output().is_none());
    assert!(encoder.reset().is_ok());
    assert!(encoder.drain().is_ok());
    let (tx, rx) = crossbeam::channel::bounded(2);
    assert!(encoder.start_processing(rx.clone()).is_ok());
    let output = encoder.output().unwrap();
    assert!(output.same_channel(&rx));
    tx.send(frame(vec![1, 2, 3, 4], 1, 1)).unwrap();
    assert!(encoder.reset().is_ok());
    encoder.drop_processor();
    assert_eq!(output.try_recv().unwrap().data, vec![1, 2, 3, 4]);
    assert!(encoder.output().is_some());
}

#[test]
fn video_packet_is_published_only_if_it_has_data() {
    let mut output: OutputChannel<EncodedVideoFrame> = OutputChannel::bounded(1);
    let receiver = output.subscribe();
    assert_eq!(publish_packet(&mut output, None, true, Some(1), Some(1)), None);
    assert!(receiver.try_recv().is_err());
    assert_eq!(
        publish_packet(&mut output, Some(vec![1, 2]), true, Some(33), None),
        Some(Outcome::Delivered)
    );
    assert_eq!(
        publish_packet(&mut output, Some(vec![3]), false, None, None),
        Some(Outcome::DroppedFull)
    );
    assert_eq!(output.dropped(), 1);
    let frame = receiver.try_recv().unwrap();
    assert_eq!(frame.data, vec![1, 2]);
    assert!(frame.is_keyframe);
    assert_eq!((frame.pts, frame.dts), (33, 0));
}
