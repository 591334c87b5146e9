//! An FD frame as a bare identifier word, flags byte and payload.

use crate::frame::{fd_len, lemma_fd_len_is_least, lemma_zero_padded_prefix};
use crate::frame::{padded_64, snap_len, zero_padded};
use crate::sys::{canfd_frame, CanFdFrameView, CANFD_MAX_DLEN};
use vstd::prelude::*;

verus! {

/// An FD frame whose identifier word and flags byte are taken as they are.
#[derive(Clone, Copy, Debug)]
pub struct CanFdFrame(pub canfd_frame);

impl View for CanFdFrame {
    type V = CanFdFrameView;

    open spec fn view(&self) -> CanFdFrameView {
        self.0@
    }
}

impl CanFdFrame {
    /// The length field does not exceed the data array.
    pub open spec fn wf(self) -> bool {
        self.0.len <= CANFD_MAX_DLEN
    }

    /// The payload: as many bytes of the data array as the length field
    /// says.
    pub open spec fn spec_data(self) -> Seq<u8> {
        self.0.data@.subrange(0, self.0.len as int)
    }

    /// A frame with the given identifier word, flags byte and payload, or
    /// nothing where the payload is longer than 64 bytes. The length of the
    /// frame is the smallest FD frame length that holds the payload; the
    /// payload comes first, and zero bytes fill the frame up to that length.
    pub fn new(can_id: u32, flags: u8, data: &[u8]) -> (r: Option<Self>)
        ensures
            r is Some <==> data@.len() <= CANFD_MAX_DLEN,
            r matches Some(frame) ==> {
                &&& frame.wf()
                &&& frame.spec_data() == zero_padded(data@, fd_len(data@.len() as int) as nat)
                &&& frame@ == (CanFdFrameView {
                    can_id,
                    len: fd_len(data@.len() as int) as u8,
                    flags,
                    res0: 0,
                    res1: 0,
                    data: zero_padded(data@, 64),
                })
            },
    {
        if data.len() > CANFD_MAX_DLEN {
            return None;
        }
        let len = snap_len(data.len());
        proof {
            lemma_fd_len_is_least(data@.len() as int);
            lemma_zero_padded_prefix(data@, 64, len as nat);
        }
        Some(CanFdFrame(canfd_frame { can_id, len, flags, res0: 0, res1: 0, data: padded_64(data) }))
    }

    /// The identifier word.
    pub fn can_id(&self) -> (can_id: u32)
        ensures
            can_id == self.0.can_id,
    {
        self.0.can_id
    }

    /// The flags byte.
    pub fn flags(&self) -> (flags: u8)
        ensures
            flags == self.0.flags,
    {
        self.0.flags
    }

    /// The payload of the frame, with the zero bytes that fill it up to its
    /// length and without the rest of the data array.
    pub fn data(&self) -> (data: &[u8])
        requires
            self.wf(),
        ensures
            data@ == self.spec_data(),
    {
        vstd::slice::slice_subrange(self.0.data.as_slice(), 0, self.0.len as usize)
    }
}

} // verus!
