//! Remote transmission requests.

use super::id::Id;
use crate::sys::{can_frame, zeros, CanFrameView, CAN_MAX_DLEN, CAN_RTR_FLAG};
use vstd::prelude::*;

verus! {

/// A classic frame that asks for the data of an identifier and carries none
/// itself.
#[derive(Clone, Copy, Debug)]
pub struct RemoteFrame(pub can_frame);

impl View for RemoteFrame {
    type V = CanFrameView;

    open spec fn view(&self) -> CanFrameView {
        self.0@
    }
}

impl RemoteFrame {
    /// The identifier word carries the RTR flag.
    pub open spec fn wf(self) -> bool {
        self.0.can_id & CAN_RTR_FLAG != 0
    }

    /// The identifier that the identifier word names.
    pub open spec fn spec_id(self) -> Id {
        Id::spec_from_can_id(self.0.can_id)
    }

    /// The data length code: the length field.
    pub open spec fn spec_dlc(self) -> u8 {
        self.0.len
    }

    /// A request for `dlc` bytes of the data of `id`. The identifier word
    /// is that of `id` with the RTR flag set; every byte of the wire struct
    /// behind the length field is zero.
    ///
    /// `id` must fit its width and `dlc` must not be greater than 8.
    pub fn new(id: Id, dlc: u8) -> (frame: Self)
        requires
            id.valid(),
            dlc <= CAN_MAX_DLEN,
        ensures
            frame.wf(),
            frame.spec_id() == id,
            frame.spec_dlc() == dlc,
            frame@ == (CanFrameView {
                can_id: id.spec_into_can_id() | CAN_RTR_FLAG,
                len: dlc,
                pad: 0,
                res0: 0,
                len8_dlc: 0,
                data: zeros(8),
            }),
    {
        let word = id.into_can_id();
        proof {
            lemma_with_rtr(word);
        }
        let mut inner = can_frame::zeroed();
        inner.can_id = word | CAN_RTR_FLAG;
        inner.set_len(dlc);
        RemoteFrame(inner)
    }

    /// The identifier of the frame.
    pub fn id(&self) -> (id: Id)
        ensures
            id == self.spec_id(),
            id.valid(),
    {
        Id::from_can_id(self.0.can_id)
    }

    /// The number of bytes that the frame asks for.
    pub fn dlc(&self) -> (dlc: u8)
        ensures
            dlc == self.spec_dlc(),
    {
        self.0.len()
    }
}

/// Setting the RTR flag leaves the identifier that a word names as it is.
proof fn lemma_with_rtr(word: u32)
    by (bit_vector)
    ensures
        (word | CAN_RTR_FLAG) & CAN_RTR_FLAG != 0,
        (word | CAN_RTR_FLAG) & crate::sys::CAN_EFF_FLAG == word & crate::sys::CAN_EFF_FLAG,
        (word | CAN_RTR_FLAG) & crate::sys::CAN_SFF_MASK == word & crate::sys::CAN_SFF_MASK,
        (word | CAN_RTR_FLAG) & crate::sys::CAN_EFF_MASK == word & crate::sys::CAN_EFF_MASK,
{
}

} // verus!
