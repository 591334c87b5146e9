//! Classic frames that are told apart by the width of their identifier.

use crate::frame::{lemma_extended_word, lemma_standard_word, lemma_zero_padded_prefix};
use crate::frame::{padded_8, zero_padded};
use crate::sys::{can_frame, CanFrameView, CAN_EFF_FLAG, CAN_EFF_MASK, CAN_MAX_DLEN, CAN_SFF_MASK};
use vstd::prelude::*;

verus! {

/// A classic frame with an 11-bit identifier.
#[derive(Clone, Copy, Debug)]
pub struct CanStandardFrame(pub can_frame);

impl View for CanStandardFrame {
    type V = CanFrameView;

    open spec fn view(&self) -> CanFrameView {
        self.0@
    }
}

impl CanStandardFrame {
    /// Width of the identifier in bits.
    pub const ID_BITS: u32 = 11;

    /// Longest payload in bytes.
    pub const MAX_DLEN: usize = 8;

    /// The length field does not exceed the data array.
    pub open spec fn wf(self) -> bool {
        self.0.len <= CAN_MAX_DLEN
    }

    /// The identifier: the low 11 bits of the identifier word.
    pub open spec fn spec_id(self) -> u32 {
        self.0.can_id & CAN_SFF_MASK
    }

    /// The payload: as many bytes of the data array as the length field
    /// says.
    pub open spec fn spec_data(self) -> Seq<u8> {
        self.0.data@.subrange(0, self.0.len as int)
    }

    /// A frame with the given identifier and payload. The identifier
    /// word is the identifier itself.
    /// Every byte of the wire struct that neither of them fills is zero.
    ///
    /// `id` must fit 11 bits and `data` must not be longer than 8 bytes.
    pub fn new(id: u32, data: &[u8]) -> (frame: Self)
        requires
            id <= CAN_SFF_MASK,
            data@.len() <= CAN_MAX_DLEN,
        ensures
            frame.wf(),
            frame.spec_id() == id,
            frame.spec_data() == data@,
            frame@ == (CanFrameView {
                can_id: id,
                len: data@.len() as u8,
                pad: 0,
                res0: 0,
                len8_dlc: 0,
                data: zero_padded(data@, 8),
            }),
    {
        proof {
            lemma_standard_word(id);
            lemma_zero_padded_prefix(data@, 8, data@.len());
        }
        CanStandardFrame(
            can_frame {
                can_id: id,
                len: data.len() as u8,
                pad: 0,
                res0: 0,
                len8_dlc: 0,
                data: padded_8(data),
            },
        )
    }

    /// The identifier of the frame.
    pub fn id(&self) -> (id: u32)
        ensures
            id == self.spec_id(),
    {
        self.0.can_id & CAN_SFF_MASK
    }

    /// The payload of the frame, without the padding behind it.
    pub fn data(&self) -> (data: &[u8])
        requires
            self.wf(),
        ensures
            data@ == self.spec_data(),
    {
        vstd::slice::slice_subrange(self.0.data.as_slice(), 0, self.0.len as usize)
    }
}

/// A classic frame with a 29-bit identifier.
#[derive(Clone, Copy, Debug)]
pub struct CanExtendedFrame(pub can_frame);

impl View for CanExtendedFrame {
    type V = CanFrameView;

    open spec fn view(&self) -> CanFrameView {
        self.0@
    }
}

impl CanExtendedFrame {
    /// Width of the identifier in bits.
    pub const ID_BITS: u32 = 29;

    /// Longest payload in bytes.
    pub const MAX_DLEN: usize = 8;

    /// The length field does not exceed the data array.
    pub open spec fn wf(self) -> bool {
        self.0.len <= CAN_MAX_DLEN
    }

    /// The identifier: the low 29 bits of the identifier word.
    pub open spec fn spec_id(self) -> u32 {
        self.0.can_id & CAN_EFF_MASK
    }

    /// The payload: as many bytes of the data array as the length field
    /// says.
    pub open spec fn spec_data(self) -> Seq<u8> {
        self.0.data@.subrange(0, self.0.len as int)
    }

    /// A frame with the given identifier and payload. The identifier
    /// word is the identifier with the EFF flag set.
    /// Every byte of the wire struct that neither of them fills is zero.
    ///
    /// `id` must fit 29 bits and `data` must not be longer than 8 bytes.
    pub fn new(id: u32, data: &[u8]) -> (frame: Self)
        requires
            id <= CAN_EFF_MASK,
            data@.len() <= CAN_MAX_DLEN,
        ensures
            frame.wf(),
            frame.spec_id() == id,
            frame.spec_data() == data@,
            frame@ == (CanFrameView {
                can_id: id | CAN_EFF_FLAG,
                len: data@.len() as u8,
                pad: 0,
                res0: 0,
                len8_dlc: 0,
                data: zero_padded(data@, 8),
            }),
    {
        proof {
            lemma_extended_word(id);
            lemma_zero_padded_prefix(data@, 8, data@.len());
        }
        CanExtendedFrame(
            can_frame {
                can_id: id | CAN_EFF_FLAG,
                len: data.len() as u8,
                pad: 0,
                res0: 0,
                len8_dlc: 0,
                data: padded_8(data),
            },
        )
    }

    /// The identifier of the frame.
    pub fn id(&self) -> (id: u32)
        ensures
            id == self.spec_id(),
    {
        self.0.can_id & CAN_EFF_MASK
    }

    /// The payload of the frame, without the padding behind it.
    pub fn data(&self) -> (data: &[u8])
        requires
            self.wf(),
        ensures
            data@ == self.spec_data(),
    {
        vstd::slice::slice_subrange(self.0.data.as_slice(), 0, self.0.len as usize)
    }
}

} // verus!
