//! Lifecycle of the camera handle.
//!
//! A handle is acquired once, alternates between idle and previewing while it
//! is held, and is released once. A frame can be captured only while the
//! preview runs.

use vstd::prelude::*;

verus! {

/// Where a camera handle stands in its lifecycle.
#[derive(Clone, Copy, Debug, PartialEq, Eq, Structural)]
pub enum CameraState {
    /// No handle has been acquired.
    Absent,
    /// The handle is held and the preview is off.
    Closed,
    /// The handle is held and the preview is running.
    Previewing,
    /// The handle has been released; nothing more may be asked of it.
    Released,
}

/// An operation on the camera handle.
#[derive(Clone, Copy, Debug, PartialEq, Eq, Structural)]
pub enum CameraOp {
    /// Open the device.
    Acquire,
    /// Begin the preview.
    StartPreview,
    /// Write the current frame to a file.
    Capture,
    /// End the preview.
    StopPreview,
    /// Close the device.
    Release,
}

impl CameraState {
    /// Whether the handle is held: acquired and not yet released.
    pub open spec fn held(self) -> bool {
        self == CameraState::Closed || self == CameraState::Previewing
    }

    /// Whether the handle is held: acquired and not yet released.
    #[verifier::when_used_as_spec(held)]
    pub fn is_held(self) -> (held: bool)
        ensures
            held == self.held(),
    {
        match self {
            CameraState::Closed => true,
            CameraState::Previewing => true,
            _ => false,
        }
    }

    /// Whether `op` is a valid request in this state.
    pub open spec fn permits(self, op: CameraOp) -> bool {
        match op {
            CameraOp::Acquire => self == CameraState::Absent,
            CameraOp::StartPreview => self == CameraState::Closed,
            CameraOp::Capture => self == CameraState::Previewing,
            CameraOp::StopPreview => self == CameraState::Previewing,
            CameraOp::Release => self.held(),
        }
    }

    /// The state that a completed `op` leaves the handle in.
    pub open spec fn after(self, op: CameraOp) -> CameraState {
        match op {
            CameraOp::Acquire => CameraState::Closed,
            CameraOp::StartPreview => CameraState::Previewing,
            CameraOp::Capture => CameraState::Previewing,
            CameraOp::StopPreview => CameraState::Closed,
            CameraOp::Release => CameraState::Released,
        }
    }

    /// Advances the lifecycle by one completed operation, or refuses an
    /// operation that the current state does not permit.
    pub fn apply(self, op: CameraOp) -> (next: Option<CameraState>)
        ensures
            self.permits(op) ==> next == Some(self.after(op)),
            !self.permits(op) ==> next.is_none(),
    {
        match (op, self) {
            (CameraOp::Acquire, CameraState::Absent) => Some(CameraState::Closed),
            (CameraOp::StartPreview, CameraState::Closed) => Some(CameraState::Previewing),
            (CameraOp::Capture, CameraState::Previewing) => Some(CameraState::Previewing),
            (CameraOp::StopPreview, CameraState::Previewing) => Some(CameraState::Closed),
            (CameraOp::Release, CameraState::Closed) => Some(CameraState::Released),
            (CameraOp::Release, CameraState::Previewing) => Some(CameraState::Released),
            _ => None,
        }
    }
}

} // verus!
