use waycap_rs::controls::CaptureControls;
use waycap_rs::ready::ReadyState;

#[test]
fn fresh_controls_are_paused_and_not_stopped() {
    let controls = CaptureControls::from_fps(60);
    assert!(controls.is_paused());
    assert!(!controls.is_stopped());
    assert!(controls.skip_processing());
    assert_eq!(controls.target_fps(), 60);
}

#[test]
fn resume_lets_frames_through_until_paused_again() {
    let mut controls = CaptureControls::from_fps(60);
    controls.resume();
    assert!(!controls.is_paused());
    assert!(!controls.skip_processing());
    controls.pause();
    assert!(controls.is_paused());
    assert!(controls.skip_processing());
}

#[test]
fn stop_is_never_undone() {
    let mut controls = CaptureControls::from_fps(60);
    controls.resume();
    controls.stop();
    assert!(controls.is_stopped());
    assert!(controls.skip_processing());
    controls.resume();
    controls.pause();
    controls.resume();
    assert!(controls.set_target_fps(30).is_ok());
    assert!(controls.is_stopped());
    assert!(controls.skip_processing());
}

#[test]
fn frame_interval_is_integer_division_of_one_second() {
    assert_eq!(CaptureControls::from_fps(60).frame_interval_ns(), 16_666_666);
    assert_eq!(CaptureControls::from_fps(30).frame_interval_ns(), 33_333_333);
    assert_eq!(CaptureControls::from_fps(1).frame_interval_ns(), 1_000_000_000);
    assert_eq!(CaptureControls::from_fps(7).frame_interval_ns(), 142_857_142);
    assert_eq!(CaptureControls::from_fps(2_000_000_000).frame_interval_ns(), 0);
}

#[test]
fn zero_frame_rate_is_rejected_and_changes_nothing() {
    let mut controls = CaptureControls::from_fps(60);
    let outcome = controls.set_target_fps(0);
    assert!(outcome.is_err());
    assert_eq!(
        outcome.unwrap_err().message(),
        "Configuration error: target fps must be greater than zero"
    );
    assert_eq!(controls.target_fps(), 60);
    assert!(controls.set_target_fps(24).is_ok());
    assert_eq!(controls.target_fps(), 24);
    assert_eq!(controls.frame_interval_ns(), 41_666_666);
}

#[test]
fn latches_start_clear_and_only_ever_set() {
    let mut ready = ReadyState::default();
    assert!(!ready.video_ready());
    assert!(!ready.audio_ready());
    assert!(!ready.both_ready());
    ready.video_state_changed(false);
    assert!(!ready.video_ready());
    ready.video_state_changed(true);
    assert!(ready.video_ready());
    assert!(!ready.both_ready());
    ready.video_state_changed(false);
    assert!(ready.video_ready());
    ready.audio_state_changed(true);
    ready.audio_state_changed(false);
    assert!(ready.audio_ready());
    assert!(ready.both_ready());
}

#[test]
fn a_copy_of_the_controls_is_a_snapshot() {
    let mut controls = CaptureControls::from_fps(50);
    controls.resume();
    let snapshot = controls.clone();
    controls.stop();
    controls.pause();
    assert!(controls.set_target_fps(25).is_ok());
    assert!(!snapshot.is_stopped());
    assert!(!snapshot.is_paused());
    assert_eq!(snapshot.target_fps(), 50);
    assert_eq!(snapshot.frame_interval_ns(), 20_000_000);
    assert!(controls.is_stopped());
    assert_eq!(controls.target_fps(), 25);
}
