//! Error message frames.

use crate::sys::{can_frame, CanFrameView, CAN_ERR_FLAG, CAN_RTR_FLAG};
use vstd::prelude::*;

verus! {

/// A classic frame in which the interface reports an error on the bus. It
/// is only ever read from the wire, and is carried as it came.
#[derive(Clone, Copy, Debug)]
pub struct ErrorFrame(pub can_frame);

impl View for ErrorFrame {
    type V = CanFrameView;

    open spec fn view(&self) -> CanFrameView {
        self.0@
    }
}

impl ErrorFrame {
    /// The identifier word carries the ERR flag and not the RTR flag.
    pub open spec fn wf(self) -> bool {
        &&& self.0.can_id & CAN_RTR_FLAG == 0
        &&& self.0.can_id & CAN_ERR_FLAG != 0
    }
}

} // verus!
