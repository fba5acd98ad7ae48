use crossbeam::channel::Receiver;
use waycap_rs::channel::{OutputChannel, Outcome};
use waycap_rs::controls::CaptureControls;
use waycap_rs::encoders::audio::{nothing_asked as no_chunks, AskedAudio, AudioEncoder};
use waycap_rs::encoders::dynamic_encoder::{Backend, DynamicEncoder};
use waycap_rs::encoders::video::{
    nothing_asked, publish_packet, Asked, LoopAction, ProcessingLoop, ProcessingThread, VideoEncoder,
};
use waycap_rs::pipeline::capture::Capture;
use waycap_rs::pipeline::model::CaptureCommand;
use waycap_rs::ready::ReadyState;
use waycap_rs::types::audio_frame::{EncodedAudioFrame, RawAudioFrame};
use waycap_rs::types::error::WaycapError;
use waycap_rs::types::video_frame::{EncodedVideoFrame, RawVideoFrame, Resolution};

/// An encoder that turns every frame into one packet of its bytes, and counts what is
/// asked of it.
struct Counting {
    output: OutputChannel<EncodedVideoFrame>,
    tag: u8,
    resets: u32,
    drains: u32,
    setups: u32,
    fail_on_empty: bool,
}

impl Counting {
    fn new(tag: u8) -> Self {
        Counting { output: OutputChannel::bounded(4), tag, resets: 0, drains: 0, setups: 0, fail_on_empty: true }
    }
}

impl VideoEncoder for Counting {
    type Output = EncodedVideoFrame;

    fn output_channel(&self) -> Option<Receiver<EncodedVideoFrame>> {
        Some(self.output.subscribe())
    }

    fn asked(&self) -> Asked {
        nothing_asked()
    }

    fn reset(&mut self) -> Result<(), WaycapError> {
        self.resets += 1;
        Ok(())
    }

    fn output(&mut self) -> Option<Receiver<EncodedVideoFrame>> {
        Some(self.output.subscribe())
    }

    fn drop_processor(&mut self) {}

    fn drain(&mut self) -> Result<(), WaycapError> {
        self.drains += 1;
        Ok(())
    }
}

impl ProcessingThread for Counting {
    fn process(&mut self, frame: RawVideoFrame) -> Result<(), WaycapError> {
        if frame.data.is_empty() && self.fail_on_empty {
            return Err(WaycapError::encoding("empty frame"));
        }
        let mut data = vec![self.tag];
        data.extend(frame.data);
        publish_packet(&mut self.output, Some(data), false, Some(frame.timestamp), None);
        Ok(())
    }

    fn thread_setup(&mut self) -> Result<(), WaycapError> {
        self.setups += 1;
        Ok(())
    }

    fn thread_teardown(&mut self) -> Result<(), WaycapError> {
        self.setups -= 1;
        Ok(())
    }
}

/// An audio encoder that publishes one packet per chunk, holding the number of samples.
struct CountingAudio {
    output: OutputChannel<EncodedAudioFrame>,
}

impl AudioEncoder for CountingAudio {
    fn output_channel(&self) -> Option<Receiver<EncodedAudioFrame>> {
        Some(self.output.subscribe())
    }

    fn asked(&self) -> AskedAudio {
        no_chunks()
    }

    fn process(&mut self, raw_frame: RawAudioFrame) -> Result<(), WaycapError> {
        if raw_frame.samples.len() % 2 != 0 {
            return Err(WaycapError::encoding("odd chunk"));
        }
        let frame = EncodedAudioFrame::from_packet(
            vec![raw_frame.samples.len() as u8],
            None,
            Some(raw_frame.timestamp),
        );
        self.output.publish(frame);
        Ok(())
    }

    fn drain(&mut self) -> Result<(), WaycapError> {
        Ok(())
    }

    fn reset(&mut self) -> Result<(), WaycapError> {
        Ok(())
    }

    fn get_encoded_recv(&mut self) -> Option<Receiver<EncodedAudioFrame>> {
        Some(self.output.subscribe())
    }

    fn drop_encoder(&mut self) {}
}

fn frame(timestamp: i64, data: Vec<u8>) -> RawVideoFrame {
    RawVideoFrame {
        data,
        timestamp,
        dmabuf_fd: None,
        stride: 0,
        offset: 0,
        size: 0,
        modifier: 0,
        format: 0,
        dimensions: Resolution { width: 0, height: 0 },
    }
}

fn both_ready() -> ReadyState {
    let mut ready = ReadyState::default();
    ready.video_state_changed(true);
    ready.audio_state_changed(true);
    ready
}

fn running() -> CaptureControls {
    let mut controls = CaptureControls::from_fps(60);
    controls.resume();
    controls
}

#[test]
fn dynamic_encoder_asks_only_the_encoder_that_was_chosen() {
    let mut chosen: DynamicEncoder<Counting, Counting> = DynamicEncoder::Nvenc(Counting::new(2));
    assert_eq!(chosen.backend(), Backend::Nvenc);
    let packets = chosen.output().unwrap();
    assert!(chosen.thread_setup().is_ok());
    assert!(chosen.process(frame(5, vec![9])).is_ok());
    assert!(chosen.reset().is_ok());
    assert!(chosen.drain().is_ok());
    assert!(chosen.drain().is_ok());
    chosen.drop_processor();
    assert!(chosen.process(frame(6, vec![])).is_err());
    assert!(chosen.thread_teardown().is_ok());
    assert_eq!(chosen.backend(), Backend::Nvenc);
    let packet = packets.try_recv().unwrap();
    assert_eq!(packet.data, vec![2, 9]);
    assert_eq!(packet.pts, 5);
    assert!(packets.try_recv().is_err());
    match chosen {
        DynamicEncoder::Nvenc(inner) => {
            assert_eq!((inner.resets, inner.drains, inner.setups), (1, 2, 0));
        }
        DynamicEncoder::Vaapi(_) => panic!("the backend changed"),
    }

    let mut other: DynamicEncoder<Counting, Counting> = DynamicEncoder::Vaapi(Counting::new(1));
    assert_eq!(other.backend(), Backend::Vaapi);
    let packets = other.output().unwrap();
    assert!(other.process(frame(7, vec![3, 4])).is_ok());
    assert_eq!(packets.try_recv().unwrap().data, vec![1, 3, 4]);
}

#[test]
fn loop_hands_a_frame_to_a_dynamic_encoder_exactly_when_it_is_due() {
    let ready = both_ready();
    let controls = running();
    let mut encoder: DynamicEncoder<Counting, Counting> = DynamicEncoder::Vaapi(Counting::new(7));
    let packets = encoder.output().unwrap();
    let mut lp = ProcessingLoop::new(&controls);
    assert_eq!(lp.on_frame(&ready, &controls, &mut encoder, frame(0, vec![1])).0, LoopAction::Process);
    assert_eq!(lp.on_frame(&ready, &controls, &mut encoder, frame(1, vec![2])).0, LoopAction::Discard);
    let (action, error) = lp.on_frame(&ready, &controls, &mut encoder, frame(50_000_000, vec![]));
    assert_eq!(action, LoopAction::Process);
    assert_eq!(error.unwrap().message(), "Encoding error: empty frame");
    assert_eq!(lp.on_frame(&ready, &controls, &mut encoder, frame(100_000_000, vec![3])).0, LoopAction::Process);
    assert_eq!(packets.try_recv().unwrap().data, vec![7, 1]);
    assert_eq!(packets.try_recv().unwrap().data, vec![7, 3]);
    assert!(packets.try_recv().is_err());
}

#[test]
fn loop_hands_every_chunk_to_the_audio_encoder_unless_held() {
    let ready = both_ready();
    let mut controls = running();
    let mut encoder = CountingAudio { output: OutputChannel::bounded(8) };
    let packets = encoder.get_encoded_recv().unwrap();
    let mut lp = ProcessingLoop::every_frame();
    let chunk = |timestamp: i64, n: usize| RawAudioFrame { samples: vec![0; n], timestamp };

    let (action, error) = lp.on_chunk(&ready, &controls, &mut encoder, chunk(10, 2));
    assert_eq!(action, LoopAction::Process);
    assert!(error.is_none());
    let (action, error) = lp.on_chunk(&ready, &controls, &mut encoder, chunk(10, 3));
    assert_eq!(action, LoopAction::Process);
    assert_eq!(error.unwrap().message(), "Encoding error: odd chunk");
    let (action, _) = lp.on_chunk(&ready, &controls, &mut encoder, chunk(11, 4));
    assert_eq!(action, LoopAction::Process);
    controls.pause();
    let (action, error) = lp.on_chunk(&ready, &controls, &mut encoder, chunk(12, 6));
    assert_eq!(action, LoopAction::Sleep);
    assert!(error.is_none());
    controls.resume();
    let (action, _) = lp.on_chunk(&ReadyState::default(), &controls, &mut encoder, chunk(13, 8));
    assert_eq!(action, LoopAction::Sleep);
    controls.stop();
    let (action, _) = lp.on_chunk(&ready, &controls, &mut encoder, chunk(14, 10));
    assert_eq!(action, LoopAction::Exit);

    let first = packets.try_recv().unwrap();
    assert_eq!((first.data, first.timestamp), (vec![2], 10));
    let second = packets.try_recv().unwrap();
    assert_eq!((second.data, second.timestamp), (vec![4], 11));
    assert!(packets.try_recv().is_err());
    assert!(encoder.drain().is_ok());
    assert!(encoder.reset().is_ok());
    encoder.drop_encoder();
}

#[test]
fn failed_step_of_a_finish_leaves_the_later_encoder_alone() {
    let plan = vec![CaptureCommand::DrainVideoEncoder, CaptureCommand::DrainAudioEncoder];
    let rest = Capture::after_step(plan.clone(), Ok(())).unwrap();
    assert_eq!(rest, vec![CaptureCommand::DrainAudioEncoder]);
    let done = Capture::after_step(rest, Ok(())).unwrap();
    assert!(done.is_empty());
    assert!(Capture::after_step(done, Ok(())).unwrap().is_empty());

    let failed = Capture::after_step(plan, Err(WaycapError::encoding("codec gone")));
    assert_eq!(failed.unwrap_err().message(), "Encoding error: codec gone");
    let resets = vec![CaptureCommand::ResetVideoEncoder, CaptureCommand::ResetAudioEncoder];
    assert!(Capture::after_step(resets, Err(WaycapError::init("no device"))).is_err());
}

#[test]
fn output_counts_only_what_found_no_room() {
    let mut output: OutputChannel<u8> = OutputChannel::bounded(1);
    assert_eq!(output.publish(1), Outcome::Delivered);
    assert_eq!(output.publish(2), Outcome::DroppedFull);
    assert_eq!(output.dropped(), 1);
}
