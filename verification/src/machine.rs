//! The capture loop as a state machine.
//!
//! The loop never touches hardware. In every state it has exactly one
//! [`Action`] outstanding; a driver performs it and answers with an
//! [`Event`], and [`CaptureLoop::step`] decides what is to be done next.
//!
//! After start-up the loop turns the preview on and polls: first the shutdown
//! flag, then the pin. A raised flag ends the loop; a high pin starts a
//! capture cycle (advance the counter, capture, stop the preview), which runs
//! to its end before the flag is looked at again. Any failed operation is
//! fatal. Whichever way the loop ends, a camera that was acquired is released
//! once before the exit code is handed out.

use vstd::prelude::*;
use crate::camera::{CameraOp, CameraState};

verus! {

/// The input pin that triggers a capture. It is configured once, as an input
/// with its pull-up resistor enabled.
pub const TRIGGER_PIN: u8 = 17;

/// Exit code of a run that ended because the operator asked for it.
pub const EXIT_CLEAN: i32 = 0;

/// Exit code of a run that ended on a fatal error.
pub const EXIT_FATAL: i32 = 1;

/// A digital level read from the pin.
#[derive(Clone, Copy, Debug, PartialEq, Eq, Structural)]
pub enum PinLevel {
    Low,
    High,
}

/// The operation whose failure ended the run.
#[derive(Clone, Copy, Debug, PartialEq, Eq, Structural)]
pub enum Fault {
    /// The interrupt handler could not be installed.
    HandlerRegistration,
    /// The camera could not be opened.
    CameraAcquisition,
    /// The pin could not be acquired or configured.
    PinConfiguration,
    /// The preview could not be started.
    PreviewStart,
    /// The pin could not be read.
    PinRead,
    /// The pin went high after the counter had reached its largest value.
    CounterExhausted,
    /// The frame could not be captured.
    Capture,
    /// The preview could not be stopped.
    PreviewStop,
    /// The camera could not be closed.
    Release,
}

/// When a fault strikes: before the loop has begun, or in it.
#[derive(Clone, Copy, Debug, PartialEq, Eq, Structural)]
pub enum FaultClass {
    Startup,
    Runtime,
}

/// What the loop is waiting to have done.
#[derive(Clone, Copy, Debug, PartialEq, Eq, Structural)]
pub enum Phase {
    /// The interrupt handler is being installed.
    Registering,
    /// The camera is being opened.
    Acquiring,
    /// The pin is being configured.
    Configuring,
    /// The preview is being started.
    Starting,
    /// The shutdown flag is being looked at.
    Checking,
    /// The pin is being read.
    Sampling,
    /// A frame is being captured.
    Capturing,
    /// The preview is being stopped after a capture.
    Stopping,
    /// The camera is being closed.
    Releasing,
    /// Nothing is left to do but exit.
    Finished,
}

/// The coarse state of the loop.
#[derive(Clone, Copy, Debug, PartialEq, Eq, Structural)]
pub enum Stage {
    /// Handler, camera and pin are being set up.
    Startup,
    /// The loop polls for shutdown and for a high pin.
    WaitingForEdge,
    /// A capture cycle is under way.
    Capturing,
    /// The loop has ended.
    Terminated,
}

/// What the driver is asked to do.
#[derive(Clone, Copy, Debug, PartialEq, Eq, Structural)]
pub enum Action {
    /// Install the handler that raises the shutdown flag on an interrupt.
    RegisterHandler,
    /// Open the camera.
    AcquireCamera,
    /// Configure `pin` as an input with pull-up.
    ConfigurePin { pin: u8 },
    /// Start the camera preview.
    StartPreview,
    /// Read the shutdown flag.
    CheckShutdown,
    /// Sample the level of `pin`.
    ReadPin { pin: u8 },
    /// Capture the current frame into the image file numbered `index`.
    Capture { index: u64 },
    /// Stop the camera preview.
    StopPreview,
    /// Close the camera.
    Release,
    /// Leave the process with `code`.
    Exit { code: i32 },
}

/// What the driver reports back.
#[derive(Clone, Copy, Debug, PartialEq, Eq, Structural)]
pub enum Event {
    /// The operation completed.
    Done,
    /// The operation failed.
    Failed,
    /// The shutdown flag was read; `true` means that shutdown was requested.
    Flag(bool),
    /// The pin was read at this level.
    Level(PinLevel),
}

/// An event that does not answer the outstanding action.
#[derive(Clone, Copy, Debug, PartialEq, Eq, Structural)]
pub struct Unexpected {
    /// The action that was outstanding, and still is.
    pub awaiting: Action,
    /// The event that was offered.
    pub event: Event,
}

/// The loop as a mathematical value.
pub struct LoopModel {
    pub phase: Phase,
    /// Number of capture cycles begun so far.
    pub counter: nat,
    pub camera: CameraState,
    /// The first fault met, if any.
    pub fault: Option<Fault>,
}

impl Fault {
    /// Faults of set-up strike before the loop begins; all others in it.
    pub open spec fn spec_class(self) -> FaultClass {
        match self {
            Fault::HandlerRegistration | Fault::CameraAcquisition | Fault::PinConfiguration =>
                FaultClass::Startup,
            _ => FaultClass::Runtime,
        }
    }

    /// Tells faults of set-up from faults in the loop.
    #[verifier::when_used_as_spec(spec_class)]
    pub fn class(self) -> (class: FaultClass)
        ensures
            class == self.spec_class(),
    {
        match self {
            Fault::HandlerRegistration => FaultClass::Startup,
            Fault::CameraAcquisition => FaultClass::Startup,
            Fault::PinConfiguration => FaultClass::Startup,
            _ => FaultClass::Runtime,
        }
    }
}

impl Phase {
    /// The coarse state that this phase belongs to.
    pub open spec fn spec_stage(self) -> Stage {
        match self {
            Phase::Registering | Phase::Acquiring | Phase::Configuring => Stage::Startup,
            Phase::Starting | Phase::Checking | Phase::Sampling => Stage::WaitingForEdge,
            Phase::Capturing | Phase::Stopping => Stage::Capturing,
            Phase::Releasing | Phase::Finished => Stage::Terminated,
        }
    }

    /// The coarse state that this phase belongs to.
    #[verifier::when_used_as_spec(spec_stage)]
    pub fn stage(self) -> (stage: Stage)
        ensures
            stage == self.spec_stage(),
    {
        match self {
            Phase::Registering => Stage::Startup,
            Phase::Acquiring => Stage::Startup,
            Phase::Configuring => Stage::Startup,
            Phase::Starting => Stage::WaitingForEdge,
            Phase::Checking => Stage::WaitingForEdge,
            Phase::Sampling => Stage::WaitingForEdge,
            Phase::Capturing => Stage::Capturing,
            Phase::Stopping => Stage::Capturing,
            Phase::Releasing => Stage::Terminated,
            Phase::Finished => Stage::Terminated,
        }
    }

    /// The fault that is recorded when the operation of this phase fails;
    /// none where the phase has no operation that can fail.
    pub open spec fn spec_fault(self) -> Option<Fault> {
        match self {
            Phase::Registering => Some(Fault::HandlerRegistration),
            Phase::Acquiring => Some(Fault::CameraAcquisition),
            Phase::Configuring => Some(Fault::PinConfiguration),
            Phase::Starting => Some(Fault::PreviewStart),
            Phase::Checking => None,
            Phase::Sampling => Some(Fault::PinRead),
            Phase::Capturing => Some(Fault::Capture),
            Phase::Stopping => Some(Fault::PreviewStop),
            Phase::Releasing => Some(Fault::Release),
            Phase::Finished => None,
        }
    }

    /// The fault that is recorded when the operation of this phase fails;
    /// none where the phase has no operation that can fail.
    #[verifier::when_used_as_spec(spec_fault)]
    pub fn fault(self) -> (fault: Option<Fault>)
        ensures
            fault == self.spec_fault(),
    {
        match self {
            Phase::Registering => Some(Fault::HandlerRegistration),
            Phase::Acquiring => Some(Fault::CameraAcquisition),
            Phase::Configuring => Some(Fault::PinConfiguration),
            Phase::Starting => Some(Fault::PreviewStart),
            Phase::Checking => None,
            Phase::Sampling => Some(Fault::PinRead),
            Phase::Capturing => Some(Fault::Capture),
            Phase::Stopping => Some(Fault::PreviewStop),
            Phase::Releasing => Some(Fault::Release),
            Phase::Finished => None,
        }
    }

    /// Whether `event` answers the action that is outstanding in this phase.
    pub open spec fn spec_accepts(self, event: Event) -> bool {
        match self {
            Phase::Checking => event is Flag,
            Phase::Sampling => event is Level || event is Failed,
            Phase::Finished => false,
            _ => event is Done || event is Failed,
        }
    }

    /// Whether `event` answers the action that is outstanding in this phase.
    #[verifier::when_used_as_spec(spec_accepts)]
    pub fn accepts(self, event: Event) -> (accepted: bool)
        ensures
            accepted == self.spec_accepts(event),
    {
        match self {
            Phase::Checking => match event {
                Event::Flag(_) => true,
                _ => false,
            },
            Phase::Sampling => match event {
                Event::Level(_) => true,
                Event::Failed => true,
                _ => false,
            },
            Phase::Finished => false,
            _ => match event {
                Event::Done => true,
                Event::Failed => true,
                _ => false,
            },
        }
    }
}

impl Action {
    /// The camera operation that this action asks for, if it is one.
    pub open spec fn spec_camera_op(self) -> Option<CameraOp> {
        match self {
            Action::AcquireCamera => Some(CameraOp::Acquire),
            Action::StartPreview => Some(CameraOp::StartPreview),
            Action::Capture { .. } => Some(CameraOp::Capture),
            Action::StopPreview => Some(CameraOp::StopPreview),
            Action::Release => Some(CameraOp::Release),
            _ => None,
        }
    }

    /// The camera operation that this action asks for, if it is one.
    #[verifier::when_used_as_spec(spec_camera_op)]
    pub fn camera_op(self) -> (op: Option<CameraOp>)
        ensures
            op == self.spec_camera_op(),
    {
        match self {
            Action::AcquireCamera => Some(CameraOp::Acquire),
            Action::StartPreview => Some(CameraOp::StartPreview),
            Action::Capture { .. } => Some(CameraOp::Capture),
            Action::StopPreview => Some(CameraOp::StopPreview),
            Action::Release => Some(CameraOp::Release),
            _ => None,
        }
    }
}

/// The exit code of a run that ended with the given fault, or with none.
pub open spec fn spec_exit_code(fault: Option<Fault>) -> i32 {
    if fault is None {
        EXIT_CLEAN
    } else {
        EXIT_FATAL
    }
}

/// The exit code of a run that ended with the given fault, or with none.
#[verifier::when_used_as_spec(spec_exit_code)]
pub fn exit_code(fault: Option<Fault>) -> (code: i32)
    ensures
        code == spec_exit_code(fault),
{
    match fault {
        None => EXIT_CLEAN,
        Some(_) => EXIT_FATAL,
    }
}

impl LoopModel {
    /// The loop before anything has been done.
    pub open spec fn initial() -> LoopModel {
        LoopModel {
            phase: Phase::Registering,
            counter: 0,
            camera: CameraState::Absent,
            fault: None,
        }
    }

    /// The action that is outstanding.
    pub open spec fn pending(self) -> Action {
        match self.phase {
            Phase::Registering => Action::RegisterHandler,
            Phase::Acquiring => Action::AcquireCamera,
            Phase::Configuring => Action::ConfigurePin { pin: TRIGGER_PIN },
            Phase::Starting => Action::StartPreview,
            Phase::Checking => Action::CheckShutdown,
            Phase::Sampling => Action::ReadPin { pin: TRIGGER_PIN },
            Phase::Capturing => Action::Capture { index: self.counter as u64 },
            Phase::Stopping => Action::StopPreview,
            Phase::Releasing => Action::Release,
            Phase::Finished => Action::Exit { code: spec_exit_code(self.fault) },
        }
    }

    /// Whether `event` answers the outstanding action.
    pub open spec fn accepts(self, event: Event) -> bool {
        self.phase.spec_accepts(event)
    }

    /// The loop after the outstanding operation has failed. The fault goes on
    /// record unless an earlier one is there already. A camera that is held
    /// is released next; where none is held, or the release is what failed,
    /// the loop is finished.
    pub open spec fn failed(self) -> LoopModel {
        match self.phase.spec_fault() {
            None => self,
            Some(fault) => {
                let first = if self.fault is Some {
                    self.fault
                } else {
                    Some(fault)
                };
                if self.phase == Phase::Releasing {
                    LoopModel {
                        phase: Phase::Finished,
                        camera: CameraState::Released,
                        fault: first,
                        ..self
                    }
                } else if self.camera.held() {
                    LoopModel { phase: Phase::Releasing, fault: first, ..self }
                } else {
                    LoopModel { phase: Phase::Finished, fault: first, ..self }
                }
            },
        }
    }

    /// The loop after the pin has been read high: a capture cycle begins
    /// under the next index, unless the counter cannot advance.
    pub open spec fn triggered(self) -> LoopModel {
        if self.counter < u64::MAX {
            LoopModel { phase: Phase::Capturing, counter: self.counter + 1, ..self }
        } else {
            LoopModel {
                phase: Phase::Releasing,
                fault: Some(Fault::CounterExhausted),
                ..self
            }
        }
    }

    /// The loop after `event`. An event that does not answer the outstanding
    /// action changes nothing.
    pub open spec fn next(self, event: Event) -> LoopModel {
        if !self.accepts(event) {
            self
        } else {
            match (self.phase, event) {
                (_, Event::Failed) => self.failed(),
                (Phase::Registering, _) => LoopModel { phase: Phase::Acquiring, ..self },
                (Phase::Acquiring, _) => LoopModel {
                    phase: Phase::Configuring,
                    camera: CameraState::Closed,
                    ..self
                },
                (Phase::Configuring, _) => LoopModel { phase: Phase::Starting, ..self },
                (Phase::Starting, _) => LoopModel {
                    phase: Phase::Checking,
                    camera: CameraState::Previewing,
                    ..self
                },
                (Phase::Checking, Event::Flag(true)) => LoopModel {
                    phase: Phase::Releasing,
                    ..self
                },
                (Phase::Checking, _) => LoopModel { phase: Phase::Sampling, ..self },
                (Phase::Sampling, Event::Level(PinLevel::High)) => self.triggered(),
                (Phase::Sampling, _) => LoopModel { phase: Phase::Checking, ..self },
                (Phase::Capturing, _) => LoopModel { phase: Phase::Stopping, ..self },
                (Phase::Stopping, _) => LoopModel {
                    phase: Phase::Starting,
                    camera: CameraState::Closed,
                    ..self
                },
                (Phase::Releasing, _) => LoopModel {
                    phase: Phase::Finished,
                    camera: CameraState::Released,
                    ..self
                },
                (Phase::Finished, _) => self,
            }
        }
    }

    /// What holds of every state that the loop can be in: the camera is in
    /// the state that the phase calls for, a fault is on record exactly where
    /// the loop is ending on one, and the counter fits its type.
    pub open spec fn wf(self) -> bool {
        &&& self.counter <= u64::MAX
        &&& match self.phase {
            Phase::Registering | Phase::Acquiring => {
                &&& self.camera == CameraState::Absent
                &&& self.fault is None
                &&& self.counter == 0
            },
            Phase::Configuring => {
                &&& self.camera == CameraState::Closed
                &&& self.fault is None
                &&& self.counter == 0
            },
            Phase::Starting => self.camera == CameraState::Closed && self.fault is None,
            Phase::Checking | Phase::Sampling => {
                self.camera == CameraState::Previewing && self.fault is None
            },
            Phase::Capturing | Phase::Stopping => {
                &&& self.camera == CameraState::Previewing
                &&& self.fault is None
                &&& self.counter >= 1
            },
            Phase::Releasing => {
                &&& self.camera.held()
                &&& self.fault != Some(Fault::HandlerRegistration)
                &&& self.fault != Some(Fault::CameraAcquisition)
                &&& self.fault != Some(Fault::Release)
            },
            Phase::Finished => {
                if self.camera == CameraState::Absent {
                    &&& self.counter == 0
                    &&& (self.fault == Some(Fault::HandlerRegistration) || self.fault == Some(
                        Fault::CameraAcquisition,
                    ))
                } else {
                    &&& self.camera == CameraState::Released
                    &&& self.fault != Some(Fault::HandlerRegistration)
                    &&& self.fault != Some(Fault::CameraAcquisition)
                }
            },
        }
        &&& (self.fault == Some(Fault::PinConfiguration) ==> self.counter == 0)
        &&& (self.fault == Some(Fault::Capture) || self.fault == Some(Fault::PreviewStop)
            ==> self.counter >= 1)
    }
}

/// The capture loop: its phase, the capture counter, the state of the camera
/// handle, and the fault that ended it, if one did.
#[derive(Clone, Copy, Debug, PartialEq, Eq)]
pub struct CaptureLoop {
    phase: Phase,
    counter: u64,
    camera: CameraState,
    fault: Option<Fault>,
}

impl View for CaptureLoop {
    type V = LoopModel;

    closed spec fn view(&self) -> LoopModel {
        LoopModel {
            phase: self.phase,
            counter: self.counter as nat,
            camera: self.camera,
            fault: self.fault,
        }
    }
}

impl CaptureLoop {
    /// Every loop value is well formed.
    #[verifier::type_invariant]
    spec fn reachable_shape(self) -> bool {
        self@.wf()
    }

    /// A loop that has done nothing yet. Its first action is to install the
    /// interrupt handler.
    pub fn new() -> (fresh: CaptureLoop)
        ensures
            fresh@ == LoopModel::initial(),
            fresh@.wf(),
    {
        CaptureLoop {
            phase: Phase::Registering,
            counter: 0,
            camera: CameraState::Absent,
            fault: None,
        }
    }

    /// The phase that the loop is in.
    pub fn phase(&self) -> (phase: Phase)
        ensures
            phase == self@.phase,
    {
        self.phase
    }

    /// The coarse state that the loop is in.
    pub fn stage(&self) -> (stage: Stage)
        ensures
            stage == self@.phase.stage(),
    {
        self.phase.stage()
    }

    /// The number of capture cycles begun so far, which is the index of the
    /// latest capture.
    pub fn counter(&self) -> (counter: u64)
        ensures
            counter == self@.counter,
    {
        self.counter
    }

    /// The state of the camera handle.
    pub fn camera(&self) -> (camera: CameraState)
        ensures
            camera == self@.camera,
    {
        self.camera
    }

    /// The fault that the loop is ending on, or has ended on, if any.
    pub fn fault(&self) -> (fault: Option<Fault>)
        ensures
            fault == self@.fault,
    {
        self.fault
    }

    /// Whether nothing is left to do but exit.
    pub fn is_finished(&self) -> (finished: bool)
        ensures
            finished == (self@.phase == Phase::Finished),
    {
        match self.phase {
            Phase::Finished => true,
            _ => false,
        }
    }

    /// The action that the driver is to perform now.
    pub fn pending(&self) -> (action: Action)
        ensures
            action == self@.pending(),
    {
        match self.phase {
            Phase::Registering => Action::RegisterHandler,
            Phase::Acquiring => Action::AcquireCamera,
            Phase::Configuring => Action::ConfigurePin { pin: TRIGGER_PIN },
            Phase::Starting => Action::StartPreview,
            Phase::Checking => Action::CheckShutdown,
            Phase::Sampling => Action::ReadPin { pin: TRIGGER_PIN },
            Phase::Capturing => Action::Capture { index: self.counter },
            Phase::Stopping => Action::StopPreview,
            Phase::Releasing => Action::Release,
            Phase::Finished => Action::Exit { code: exit_code(self.fault) },
        }
    }

    /// Takes the driver's answer to the outstanding action and returns the
    /// action to perform next. An event that does not answer the outstanding
    /// action is refused and leaves the loop as it was.
    pub fn step(&mut self, event: Event) -> (issued: Result<Action, Unexpected>)
        ensures
            old(self)@.accepts(event) ==> final(self)@ == old(self)@.next(event) && issued == Ok::<
                Action,
                Unexpected,
            >(old(self)@.next(event).pending()),
            !old(self)@.accepts(event) ==> final(self)@ == old(self)@ && issued == Err::<
                Action,
                Unexpected,
            >(Unexpected { awaiting: old(self)@.pending(), event }),
            old(self)@.wf(),
            final(self)@.wf(),
    {
        proof {
            use_type_invariant(&*self);
        }
        if !self.phase.accepts(event) {
            return Err(Unexpected { awaiting: self.pending(), event });
        }
        let current = *self;
        let after = match (current.phase, event) {
            (_, Event::Failed) => current.failed(),
            (Phase::Registering, _) => CaptureLoop { phase: Phase::Acquiring, ..current },
            (Phase::Acquiring, _) => CaptureLoop {
                phase: Phase::Configuring,
                camera: CameraState::Closed,
                ..current
            },
            (Phase::Configuring, _) => CaptureLoop { phase: Phase::Starting, ..current },
            (Phase::Starting, _) => CaptureLoop {
                phase: Phase::Checking,
                camera: CameraState::Previewing,
                ..current
            },
            (Phase::Checking, Event::Flag(true)) => CaptureLoop {
                phase: Phase::Releasing,
                ..current
            },
            (Phase::Checking, _) => CaptureLoop { phase: Phase::Sampling, ..current },
            (Phase::Sampling, Event::Level(PinLevel::High)) => current.triggered(),
            (Phase::Sampling, _) => CaptureLoop { phase: Phase::Checking, ..current },
            (Phase::Capturing, _) => CaptureLoop { phase: Phase::Stopping, ..current },
            (Phase::Stopping, _) => CaptureLoop {
                phase: Phase::Starting,
                camera: CameraState::Closed,
                ..current
            },
            (Phase::Releasing, _) => CaptureLoop {
                phase: Phase::Finished,
                camera: CameraState::Released,
                ..current
            },
            (Phase::Finished, _) => current,
        };
        *self = after;
        Ok(self.pending())
    }

    /// The loop after its outstanding operation has failed.
    fn failed(self) -> (after: CaptureLoop)
        ensures
            after@ == self@.failed(),
    {
        proof {
            use_type_invariant(&self);
        }
        match self.phase.fault() {
            None => self,
            Some(fault) => {
                let first = match self.fault {
                    Some(earlier) => Some(earlier),
                    None => Some(fault),
                };
                match self.phase {
                    Phase::Releasing => CaptureLoop {
                        phase: Phase::Finished,
                        camera: CameraState::Released,
                        fault: first,
                        ..self
                    },
                    _ => if self.camera.is_held() {
                        CaptureLoop { phase: Phase::Releasing, fault: first, ..self }
                    } else {
                        CaptureLoop { phase: Phase::Finished, fault: first, ..self }
                    },
                }
            },
        }
    }

    /// The loop after the pin has been read high.
    fn triggered(self) -> (after: CaptureLoop)
        requires
            self.phase == Phase::Sampling,
        ensures
            after@ == self@.triggered(),
    {
        proof {
            use_type_invariant(&self);
        }
        if self.counter < u64::MAX {
            CaptureLoop { phase: Phase::Capturing, counter: self.counter + 1, ..self }
        } else {
            CaptureLoop { phase: Phase::Releasing, fault: Some(Fault::CounterExhausted), ..self }
        }
    }
}

} // verus!
