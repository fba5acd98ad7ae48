//! Lifecycle flags that every thread of a capture session observes.

use vstd::prelude::*;
use crate::types::error::WaycapError;

verus! {

/// Number of timestamp units in one second.
pub const TIME_UNIT_NS: u64 = 1_000_000_000;

/// What the lifecycle flags of a session say at one instant.
pub struct ControlState {
    pub stopped: bool,
    pub paused: bool,
    pub target_fps: nat,
}

/// One change that can be made to the lifecycle flags.
pub enum ControlOp {
    Stop,
    Pause,
    Resume,
    SetTargetFps(u64),
}

impl ControlState {
    /// True when no frame may be handed on: the session is paused or stopped.
    pub open spec fn skip_processing(self) -> bool {
        self.paused || self.stopped
    }

    /// Length of one frame period in timestamp units.
    pub open spec fn frame_interval(self) -> int {
        TIME_UNIT_NS as int / self.target_fps as int
    }

    /// The flags after one change. A frame rate of 0 is not taken over.
    pub open spec fn apply(self, op: ControlOp) -> ControlState {
        match op {
            ControlOp::Stop => ControlState { stopped: true, ..self },
            ControlOp::Pause => ControlState { paused: true, ..self },
            ControlOp::Resume => ControlState { paused: false, ..self },
            ControlOp::SetTargetFps(fps) => if fps > 0 {
                ControlState { target_fps: fps as nat, ..self }
            } else {
                self
            },
        }
    }

    /// The flags after a sequence of changes, applied first to last.
    pub open spec fn apply_all(self, ops: Seq<ControlOp>) -> ControlState
        decreases ops.len(),
    {
        if ops.len() == 0 {
            self
        } else {
            self.apply(ops[0]).apply_all(ops.skip(1))
        }
    }
}

/// Controls for the capture, allows you to pause/resume processing
#[derive(Debug)]
pub struct CaptureControls {
    stop_flag: bool,
    pause_flag: bool,
    target_fps: u64,
}

impl View for CaptureControls {
    type V = ControlState;

    closed spec fn view(&self) -> ControlState {
        ControlState {
            stopped: self.stop_flag,
            paused: self.pause_flag,
            target_fps: self.target_fps as nat,
        }
    }
}

impl Clone for CaptureControls {
    /// A copy that says what these flags say now; later changes to one do not reach the
    /// other.
    fn clone(&self) -> (copy: Self)
        ensures
            copy@ == self@,
    {
        proof {
            use_type_invariant(self);
        }
        CaptureControls {
            stop_flag: self.stop_flag,
            pause_flag: self.pause_flag,
            target_fps: self.target_fps,
        }
    }
}

impl CaptureControls {
    #[verifier::type_invariant]
    spec fn positive_rate(&self) -> bool {
        self.target_fps > 0
    }

    /// Controls of a fresh session: paused, not stopped.
    pub fn from_fps(target_fps: u64) -> (controls: Self)
        requires
            target_fps > 0,
        ensures
            controls@ == (ControlState { stopped: false, paused: true, target_fps: target_fps as nat }),
    {
        Self { stop_flag: false, pause_flag: true, target_fps }
    }

    /// True when stopped or paused
    pub fn skip_processing(&self) -> (skip: bool)
        ensures
            skip == self@.skip_processing(),
    {
        self.is_paused() || self.is_stopped()
    }

    /// Check if processing is currently paused
    pub fn is_paused(&self) -> (paused: bool)
        ensures
            paused == self@.paused,
    {
        self.pause_flag
    }

    /// Check if processing is currently stopped
    pub fn is_stopped(&self) -> (stopped: bool)
        ensures
            stopped == self@.stopped,
    {
        self.stop_flag
    }

    /// The configured frame rate.
    pub fn target_fps(&self) -> (fps: u64)
        ensures
            fps == self@.target_fps,
            fps > 0,
    {
        proof {
            use_type_invariant(self);
        }
        self.target_fps
    }

    /// Stop processing
    ///
    /// This is final, use [`CaptureControls::pause`] if you want to resume later.
    pub fn stop(&mut self)
        ensures
            final(self)@ == old(self)@.apply(ControlOp::Stop),
    {
        proof {
            use_type_invariant(&*self);
        }
        self.stop_flag = true;
    }

    /// Pause processing
    pub fn pause(&mut self)
        ensures
            final(self)@ == old(self)@.apply(ControlOp::Pause),
    {
        proof {
            use_type_invariant(&*self);
        }
        self.pause_flag = true;
    }

    /// Resume processing
    pub fn resume(&mut self)
        ensures
            final(self)@ == old(self)@.apply(ControlOp::Resume),
    {
        proof {
            use_type_invariant(&*self);
        }
        self.pause_flag = false;
    }

    /// Changes the frame rate. A rate of 0 is rejected and leaves the controls as they were.
    pub fn set_target_fps(&mut self, fps: u64) -> (outcome: Result<(), WaycapError>)
        ensures
            final(self)@ == old(self)@.apply(ControlOp::SetTargetFps(fps)),
            outcome is Ok <==> fps > 0,
            outcome matches Err(e) ==> e is Config,
    {
        proof {
            use_type_invariant(&*self);
        }
        if fps == 0 {
            Err(WaycapError::config("target fps must be greater than zero"))
        } else {
            self.target_fps = fps;
            Ok(())
        }
    }

    /// Frame interval in nanoseconds
    pub fn frame_interval_ns(&self) -> (interval: u64)
        ensures
            interval == self@.frame_interval(),
            interval == TIME_UNIT_NS as int / self@.target_fps as int,
    {
        proof {
            use_type_invariant(self);
        }
        TIME_UNIT_NS / self.target_fps
    }
}

/// Once stopped, a session stays stopped whatever changes follow.
pub proof fn stop_is_final(state: ControlState, ops: Seq<ControlOp>)
    requires
        state.stopped,
    ensures
        state.apply_all(ops).stopped,
    decreases ops.len(),
{
    if ops.len() > 0 {
        stop_is_final(state.apply(ops[0]), ops.skip(1));
    }
}

/// After `Stop` has been applied, every later observation finds the session stopped.
pub proof fn stopped_after_stop(state: ControlState, before: Seq<ControlOp>, after: Seq<ControlOp>)
    ensures
        state.apply_all(before).apply(ControlOp::Stop).apply_all(after).stopped,
{
    stop_is_final(state.apply_all(before).apply(ControlOp::Stop), after);
}

/// No change makes the frame rate 0.
pub proof fn rate_stays_positive(state: ControlState, ops: Seq<ControlOp>)
    requires
        state.target_fps > 0,
    ensures
        state.apply_all(ops).target_fps > 0,
    decreases ops.len(),
{
    if ops.len() > 0 {
        rate_stays_positive(state.apply(ops[0]), ops.skip(1));
    }
}

} // verus!
