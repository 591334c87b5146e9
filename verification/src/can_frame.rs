//! Frames told apart by the width of their identifier: standard or
//! extended, classic or FD.

mod fd;
mod legacy;

use crate::sys::{can_frame, canfd_frame, CANFD_MTU, CAN_EFF_FLAG, CAN_MTU};
use vstd::prelude::*;
use vstd::std_specs::convert::FromSpecImpl;

pub use fd::{CanFdExtendedFrame, CanFdStandardFrame};
pub use legacy::{CanExtendedFrame, CanStandardFrame};

verus! {

/// A data frame of any of the four shapes.
#[derive(Clone, Copy, Debug)]
#[non_exhaustive]
pub enum CanFrame {
    Standard(CanStandardFrame),
    Extended(CanExtendedFrame),
    FdStandard(CanFdStandardFrame),
    FdExtended(CanFdExtendedFrame),
}

impl From<can_frame> for CanFrame {
    /// A classic wire struct is an extended frame where its identifier word
    /// has the EFF flag, and a standard frame where it has not.
    fn from(inner: can_frame) -> (frame: Self) {
        if inner.can_id & CAN_EFF_FLAG == 0 {
            CanFrame::Standard(CanStandardFrame(inner))
        } else {
            CanFrame::Extended(CanExtendedFrame(inner))
        }
    }
}

impl FromSpecImpl<can_frame> for CanFrame {
    open spec fn obeys_from_spec() -> bool {
        true
    }

    open spec fn from_spec(inner: can_frame) -> Self {
        if inner.can_id & CAN_EFF_FLAG == 0 {
            CanFrame::Standard(CanStandardFrame(inner))
        } else {
            CanFrame::Extended(CanExtendedFrame(inner))
        }
    }
}

impl From<canfd_frame> for CanFrame {
    /// An FD wire struct is an extended frame where its identifier word has
    /// the EFF flag, and a standard frame where it has not.
    fn from(inner: canfd_frame) -> (frame: Self) {
        if inner.can_id & CAN_EFF_FLAG == 0 {
            CanFrame::FdStandard(CanFdStandardFrame(inner))
        } else {
            CanFrame::FdExtended(CanFdExtendedFrame(inner))
        }
    }
}

impl FromSpecImpl<canfd_frame> for CanFrame {
    open spec fn obeys_from_spec() -> bool {
        true
    }

    open spec fn from_spec(inner: canfd_frame) -> Self {
        if inner.can_id & CAN_EFF_FLAG == 0 {
            CanFrame::FdStandard(CanFdStandardFrame(inner))
        } else {
            CanFrame::FdExtended(CanFdExtendedFrame(inner))
        }
    }
}

impl CanFrame {
    /// The size of the wire struct of the frame: 16 bytes for a classic
    /// frame, 72 for an FD frame.
    pub open spec fn spec_size(&self) -> usize {
        match self {
            CanFrame::Standard(_) | CanFrame::Extended(_) => CAN_MTU,
            CanFrame::FdStandard(_) | CanFrame::FdExtended(_) => CANFD_MTU,
        }
    }

    /// The size of the wire struct of the frame.
    #[verifier::when_used_as_spec(spec_size)]
    pub fn size(&self) -> (n: usize)
        ensures
            n == self.spec_size(),
    {
        match self {
            CanFrame::Standard(_) | CanFrame::Extended(_) => CAN_MTU,
            CanFrame::FdStandard(_) | CanFrame::FdExtended(_) => CANFD_MTU,
        }
    }
}

} // verus!
