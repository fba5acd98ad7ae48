use waycap_rs::channel::{Outcome, OutputChannel};
use waycap_rs::encoders::opus_encoder::OpusFraming;
use waycap_rs::types::audio_frame::{EncodedAudioFrame, RawAudioFrame};

fn chunk(samples: Vec<u32>, timestamp: i64) -> RawAudioFrame {
    RawAudioFrame { samples, timestamp }
}

#[test]
fn framing_needs_a_window_and_a_channel() {
    assert!(OpusFraming::new(0, 2).is_err());
    assert!(OpusFraming::new(960, 0).is_err());
    let error = OpusFraming::new(0, 0).unwrap_err();
    assert_eq!(
        error.message(),
        "Configuration error: frame size and channel count must be greater than zero"
    );
    let framing = OpusFraming::new(1920, 2).unwrap();
    assert_eq!(framing.window(), 1920);
    assert_eq!(framing.next_pts(), 0);
    assert_eq!(framing.buffered(), 0);
    assert_eq!(framing.pending(), 0);
}

#[test]
fn chunks_are_cut_into_windows_across_calls() {
    let mut framing = OpusFraming::new(4, 2).unwrap();
    let none = framing.process(chunk(vec![1, 2], 100)).unwrap();
    assert!(none.is_empty());
    assert_eq!(framing.buffered(), 2);
    assert_eq!(framing.pending(), 0);

    let cut = framing.process(chunk(vec![3, 4, 5, 6, 7, 8, 9, 10, 11, 12], 200)).unwrap();
    assert_eq!(cut.len(), 3);
    assert_eq!(cut[0].samples, vec![1, 2, 3, 4]);
    assert_eq!(cut[0].pts, 0);
    assert_eq!(cut[1].samples, vec![5, 6, 7, 8]);
    assert_eq!(cut[1].pts, 4);
    assert_eq!(cut[2].samples, vec![9, 10, 11, 12]);
    assert_eq!(cut[2].pts, 8);
    assert_eq!(framing.buffered(), 0);
    assert_eq!(framing.next_pts(), 12);
    assert_eq!(framing.pending(), 3);

    let more = framing.process(chunk(vec![13, 14, 15, 16, 17, 18], 300)).unwrap();
    assert_eq!(more.len(), 1);
    assert_eq!(more[0].samples, vec![13, 14, 15, 16]);
    assert_eq!(more[0].pts, 12);
    assert_eq!(framing.buffered(), 2);
    assert_eq!(framing.next_pts(), 16);

    assert_eq!(framing.packet_timestamp(), Some(200));
    assert_eq!(framing.packet_timestamp(), Some(200));
    assert_eq!(framing.packet_timestamp(), Some(200));
    assert_eq!(framing.packet_timestamp(), Some(300));
    assert_eq!(framing.packet_timestamp(), None);
}

#[test]
fn chunk_that_does_not_divide_into_channels_is_invalid_data() {
    let mut framing = OpusFraming::new(4, 2).unwrap();
    framing.process(chunk(vec![1, 2], 1)).unwrap();
    let error = framing.process(chunk(vec![3, 4, 5], 2)).unwrap_err();
    assert_eq!(error.message(), "FFmpeg error: Invalid data found when processing input");
    assert_eq!(framing.buffered(), 2);
    assert_eq!(framing.next_pts(), 0);
    assert_eq!(framing.pending(), 0);
    let cut = framing.process(chunk(vec![3, 4], 3)).unwrap();
    assert_eq!(cut.len(), 1);
    assert_eq!(cut[0].samples, vec![1, 2, 3, 4]);
    assert!(framing.process(chunk(vec![], 4)).unwrap().is_empty());
}

#[test]
fn packets_take_the_capture_time_of_the_oldest_window() {
    let mut framing = OpusFraming::new(2, 1).unwrap();
    framing.process(chunk(vec![1, 2, 3, 4], 1_000)).unwrap();
    framing.process(chunk(vec![5, 6], 2_000)).unwrap();
    let first: EncodedAudioFrame = framing.encoded_frame(vec![0xaa], Some(0));
    assert_eq!(first.data, vec![0xaa]);
    assert_eq!(first.pts, 0);
    assert_eq!(first.timestamp, 1_000);
    let second = framing.encoded_frame(vec![0xbb, 0xcc], None);
    assert_eq!(second.pts, 0);
    assert_eq!(second.timestamp, 1_000);
    let third = framing.encoded_frame(vec![], Some(-7));
    assert_eq!(third.pts, -7);
    assert_eq!(third.timestamp, 2_000);
    let unknown = framing.encoded_frame(vec![1], Some(6));
    assert_eq!(unknown.pts, 6);
    assert_eq!(unknown.timestamp, 0);
    assert_eq!(framing.pending(), 0);
}

#[test]
fn reset_forgets_samples_and_capture_times_but_not_the_clock() {
    let mut framing = OpusFraming::new(4, 2).unwrap();
    framing.process(chunk(vec![1, 2, 3, 4, 5, 6], 10)).unwrap();
    assert_eq!(framing.buffered(), 2);
    assert_eq!(framing.pending(), 1);
    assert_eq!(framing.next_pts(), 4);
    framing.reset();
    assert_eq!(framing.buffered(), 0);
    assert_eq!(framing.pending(), 0);
    assert_eq!(framing.next_pts(), 4);
    assert_eq!(framing.window(), 4);
    let cut = framing.process(chunk(vec![7, 8, 9, 10], 20)).unwrap();
    assert_eq!(cut.len(), 1);
    assert_eq!(cut[0].samples, vec![7, 8, 9, 10]);
    assert_eq!(cut[0].pts, 4);
    assert_eq!(framing.packet_timestamp(), Some(20));
}

#[test]
fn encoded_audio_frame_defaults_missing_stamps_to_zero() {
    let frame = EncodedAudioFrame::from_packet(vec![1, 2], None, None);
    assert_eq!((frame.data, frame.pts, frame.timestamp), (vec![1, 2], 0, 0));
    let stamped = EncodedAudioFrame::from_packet(vec![], Some(960), Some(-5));
    assert_eq!((stamped.pts, stamped.timestamp), (960, -5));
}

#[test]
fn packet_without_data_publishes_nothing_and_keeps_the_capture_time() {
    let mut framing = OpusFraming::new(2, 1).unwrap();
    let mut output: OutputChannel<EncodedAudioFrame> = OutputChannel::bounded(1);
    let receiver = output.subscribe();
    framing.process(chunk(vec![1, 2, 3, 4], 500)).unwrap();
    assert_eq!(framing.publish_packet(&mut output, None, Some(9)), None);
    assert_eq!(framing.pending(), 2);
    assert_eq!(framing.publish_packet(&mut output, Some(vec![7]), Some(9)), Some(Outcome::Delivered));
    assert_eq!(framing.pending(), 1);
    assert_eq!(framing.publish_packet(&mut output, Some(vec![8]), None), Some(Outcome::DroppedFull));
    assert_eq!(framing.pending(), 0);
    assert_eq!(output.dropped(), 1);
    let frame = receiver.try_recv().unwrap();
    assert_eq!((frame.data, frame.pts, frame.timestamp), (vec![7], 9, 500));
    assert!(receiver.try_recv().is_err());
}
