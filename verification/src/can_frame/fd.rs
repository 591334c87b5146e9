//! CAN FD frames that are told apart by the width of their identifier.

use crate::frame::{fd_flags, fd_len, lemma_fd_flags, lemma_fd_len_is_least, snap_len};
use crate::frame::{lemma_extended_word, lemma_standard_word, lemma_zero_padded_prefix};
use crate::frame::{padded_64, zero_padded};
use crate::sys::{
    canfd_frame, CanFdFrameView, CANFD_BRS, CANFD_ESI, CANFD_MAX_DLEN, CAN_EFF_FLAG,
    CAN_EFF_MASK, CAN_SFF_MASK,
};
use vstd::prelude::*;

verus! {

/// A CAN FD frame with an 11-bit identifier.
#[derive(Clone, Copy, Debug)]
pub struct CanFdStandardFrame(pub canfd_frame);

impl View for CanFdStandardFrame {
    type V = CanFdFrameView;

    open spec fn view(&self) -> CanFdFrameView {
        self.0@
    }
}

impl CanFdStandardFrame {
    /// Width of the identifier in bits.
    pub const ID_BITS: u32 = 11;

    /// Longest payload in bytes.
    pub const MAX_DLEN: usize = 64;

    /// The length field does not exceed the data array.
    pub open spec fn wf(self) -> bool {
        self.0.len <= CANFD_MAX_DLEN
    }

    /// The identifier: the low 11 bits of the identifier word.
    pub open spec fn spec_id(self) -> u32 {
        self.0.can_id & CAN_SFF_MASK
    }

    /// Whether the flags byte has the bit rate switch bit.
    pub open spec fn spec_brs(self) -> bool {
        self.0.flags & CANFD_BRS != 0
    }

    /// Whether the flags byte has the error state indicator bit.
    pub open spec fn spec_esi(self) -> bool {
        self.0.flags & CANFD_ESI != 0
    }

    /// The payload: as many bytes of the data array as the length field
    /// says.
    pub open spec fn spec_data(self) -> Seq<u8> {
        self.0.data@.subrange(0, self.0.len as int)
    }

    /// A frame with the given identifier, flags and payload. The identifier
    /// word is the identifier itself.
    /// Its length is the smallest FD frame length that holds the payload;
    /// the payload comes first, and zero bytes fill the frame up to that
    /// length. Every other byte of the wire struct is zero too.
    ///
    /// `id` must fit 11 bits and `data` must not be longer than 64 bytes.
    pub fn new(id: u32, brs: bool, esi: bool, data: &[u8]) -> (frame: Self)
        requires
            id <= CAN_SFF_MASK,
            data@.len() <= CANFD_MAX_DLEN,
        ensures
            frame.wf(),
            frame.spec_id() == id,
            frame.spec_brs() == brs,
            frame.spec_esi() == esi,
            frame.spec_data() == zero_padded(data@, fd_len(data@.len() as int) as nat),
            frame@ == (CanFdFrameView {
                can_id: id,
                len: fd_len(data@.len() as int) as u8,
                flags: fd_flags(brs, esi),
                res0: 0,
                res1: 0,
                data: zero_padded(data@, 64),
            }),
    {
        let len = snap_len(data.len());
        let flags = (if brs { CANFD_BRS } else { 0u8 }) | (if esi { CANFD_ESI } else { 0u8 });
        proof {
            lemma_standard_word(id);
            lemma_fd_flags();
            lemma_fd_len_is_least(data@.len() as int);
            lemma_zero_padded_prefix(data@, 64, len as nat);
        }
        CanFdStandardFrame(
            canfd_frame { can_id: id, len, flags, res0: 0, res1: 0, data: padded_64(data) },
        )
    }

    /// The identifier of the frame.
    pub fn id(&self) -> (id: u32)
        ensures
            id == self.spec_id(),
    {
        self.0.can_id & CAN_SFF_MASK
    }

    /// Whether the payload was sent at the second bit rate.
    pub fn brs(&self) -> (brs: bool)
        ensures
            brs == self.spec_brs(),
    {
        self.0.flags & CANFD_BRS != 0
    }

    /// Whether the sender was in the error passive state.
    pub fn esi(&self) -> (esi: bool)
        ensures
            esi == self.spec_esi(),
    {
        self.0.flags & CANFD_ESI != 0
    }

    /// The payload of the frame, with the zero bytes that fill it up to its
    /// length and without the rest of the data array.
    pub fn data(&self) -> (data: &[u8])
        requires
            self.wf(),
        ensures
            data@ == self.spec_data(),
    {
        vstd::slice::slice_subrange(self.0.data.as_slice(), 0, self.0.len as usize)
    }
}

/// A CAN FD frame with a 29-bit identifier.
#[derive(Clone, Copy, Debug)]
pub struct CanFdExtendedFrame(pub canfd_frame);

impl View for CanFdExtendedFrame {
    type V = CanFdFrameView;

    open spec fn view(&self) -> CanFdFrameView {
        self.0@
    }
}

impl CanFdExtendedFrame {
    /// Width of the identifier in bits.
    pub const ID_BITS: u32 = 29;

    /// Longest payload in bytes.
    pub const MAX_DLEN: usize = 64;

    /// The length field does not exceed the data array.
    pub open spec fn wf(self) -> bool {
        self.0.len <= CANFD_MAX_DLEN
    }

    /// The identifier: the low 29 bits of the identifier word.
    pub open spec fn spec_id(self) -> u32 {
        self.0.can_id & CAN_EFF_MASK
    }

    /// Whether the flags byte has the bit rate switch bit.
    pub open spec fn spec_brs(self) -> bool {
        self.0.flags & CANFD_BRS != 0
    }

    /// Whether the flags byte has the error state indicator bit.
    pub open spec fn spec_esi(self) -> bool {
        self.0.flags & CANFD_ESI != 0
    }

    /// The payload: as many bytes of the data array as the length field
    /// says.
    pub open spec fn spec_data(self) -> Seq<u8> {
        self.0.data@.subrange(0, self.0.len as int)
    }

    /// A frame with the given identifier, flags and payload. The identifier
    /// word is the identifier with the EFF flag set.
    /// Its length is the smallest FD frame length that holds the payload;
    /// the payload comes first, and zero bytes fill the frame up to that
    /// length. Every other byte of the wire struct is zero too.
    ///
    /// `id` must fit 29 bits and `data` must not be longer than 64 bytes.
    pub fn new(id: u32, brs: bool, esi: bool, data: &[u8]) -> (frame: Self)
        requires
            id <= CAN_EFF_MASK,
            data@.len() <= CANFD_MAX_DLEN,
        ensures
            frame.wf(),
            frame.spec_id() == id,
            frame.spec_brs() == brs,
            frame.spec_esi() == esi,
            frame.spec_data() == zero_padded(data@, fd_len(data@.len() as int) as nat),
            frame@ == (CanFdFrameView {
                can_id: id | CAN_EFF_FLAG,
                len: fd_len(data@.len() as int) as u8,
                flags: fd_flags(brs, esi),
                res0: 0,
                res1: 0,
                data: zero_padded(data@, 64),
            }),
    {
        let len = snap_len(data.len());
        let flags = (if brs { CANFD_BRS } else { 0u8 }) | (if esi { CANFD_ESI } else { 0u8 });
        proof {
            lemma_extended_word(id);
            lemma_fd_flags();
            lemma_fd_len_is_least(data@.len() as int);
            lemma_zero_padded_prefix(data@, 64, len as nat);
        }
        CanFdExtendedFrame(
            canfd_frame { can_id: id | CAN_EFF_FLAG, len, flags, res0: 0, res1: 0, data: padded_64(data) },
        )
    }

    /// The identifier of the frame.
    pub fn id(&self) -> (id: u32)
        ensures
            id == self.spec_id(),
    {
        self.0.can_id & CAN_EFF_MASK
    }

    /// Whether the payload was sent at the second bit rate.
    pub fn brs(&self) -> (brs: bool)
        ensures
            brs == self.spec_brs(),
    {
        self.0.flags & CANFD_BRS != 0
    }

    /// Whether the sender was in the error passive state.
    pub fn esi(&self) -> (esi: bool)
        ensures
            esi == self.spec_esi(),
    {
        self.0.flags & CANFD_ESI != 0
    }

    /// The payload of the frame, with the zero bytes that fill it up to its
    /// length and without the rest of the data array.
    pub fn data(&self) -> (data: &[u8])
        requires
            self.wf(),
        ensures
            data@ == self.spec_data(),
    {
        vstd::slice::slice_subrange(self.0.data.as_slice(), 0, self.0.len as usize)
    }
}

} // verus!
