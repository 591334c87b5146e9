//! Classic data frames.

use super::id::Id;
use super::payload::{padded_8, zero_padded};
use crate::sys::{can_frame, CanFrameView, CAN_ERR_FLAG, CAN_MAX_DLEN, CAN_RTR_FLAG};
use vstd::prelude::*;

verus! {

/// A classic frame that carries up to eight bytes of data.
#[derive(Clone, Copy, Debug)]
pub struct DataFrame(pub can_frame);

impl View for DataFrame {
    type V = CanFrameView;

    open spec fn view(&self) -> CanFrameView {
        self.0@
    }
}

impl DataFrame {
    /// The length field is at most eight, and the identifier word carries
    /// neither the RTR nor the ERR flag.
    pub open spec fn wf(self) -> bool {
        &&& self.0.len <= CAN_MAX_DLEN
        &&& self.0.can_id & CAN_RTR_FLAG == 0
        &&& self.0.can_id & CAN_ERR_FLAG == 0
    }

    /// The identifier that the identifier word names.
    pub open spec fn spec_id(self) -> Id {
        Id::spec_from_can_id(self.0.can_id)
    }

    /// The payload: as many bytes of the data array as the length field
    /// says.
    pub open spec fn spec_data(self) -> Seq<u8> {
        self.0.data@.subrange(0, self.0.len as int)
    }

    /// A frame with the given identifier and payload. Every byte of the
    /// wire struct that neither of them fills is zero.
    ///
    /// `id` must fit its width and `data` must not be longer than 8 bytes.
    pub fn new(id: Id, data: &[u8]) -> (frame: Self)
        requires
            id.valid(),
            data@.len() <= CAN_MAX_DLEN,
        ensures
            frame.wf(),
            frame.spec_id() == id,
            frame.spec_data() == data@,
            frame@ == (CanFrameView {
                can_id: id.spec_into_can_id(),
                len: data@.len() as u8,
                pad: 0,
                res0: 0,
                len8_dlc: 0,
                data: zero_padded(data@, 8),
            }),
    {
        let can_id = id.into_can_id();
        let inner = can_frame {
            can_id,
            len: data.len() as u8,
            pad: 0,
            res0: 0,
            len8_dlc: 0,
            data: padded_8(data),
        };
        proof {
            lemma_no_flags(can_id);
            super::payload::lemma_zero_padded_prefix(data@, 8, data@.len());
        }
        DataFrame(inner)
    }

    /// The identifier of the frame.
    pub fn id(&self) -> (id: Id)
        ensures
            id == self.spec_id(),
            id.valid(),
    {
        Id::from_can_id(self.0.can_id)
    }

    /// The payload of the frame, without the padding behind it.
    pub fn data(&self) -> (data: &[u8])
        requires
            self.wf(),
        ensures
            data@ == self.spec_data(),
            data@.len() == self.0.len,
    {
        vstd::slice::slice_subrange(self.0.data.as_slice(), 0, self.0.len as usize)
    }
}

/// A word without both flags has neither.
pub(crate) proof fn lemma_no_flags(can_id: u32)
    by (bit_vector)
    requires
        can_id & (CAN_RTR_FLAG | CAN_ERR_FLAG) == 0,
    ensures
        can_id & CAN_RTR_FLAG == 0,
        can_id & CAN_ERR_FLAG == 0,
{
}

} // verus!
