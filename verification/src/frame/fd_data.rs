//! CAN FD data frames and the lengths that such a frame can have.

use super::data::lemma_no_flags;
use super::id::Id;
use super::payload::{padded_64, zero_padded};
use crate::sys::{
    canfd_frame, CanFdFrameView, CANFD_BRS, CANFD_ESI, CANFD_MAX_DLEN, CAN_ERR_FLAG,
    CAN_RTR_FLAG,
};
use vstd::prelude::*;

verus! {

/// The payload lengths that a data length code of an FD frame can stand
/// for.
pub open spec fn is_fd_len(n: int) -> bool {
    ||| 0 <= n <= 8
    ||| n == 12
    ||| n == 16
    ||| n == 20
    ||| n == 24
    ||| n == 32
    ||| n == 48
    ||| n == 64
}

/// The length of the FD frame that carries `n` bytes: the smallest length
/// with a data length code that is not below `n`.
pub open spec fn fd_len(n: int) -> int
    recommends
        0 <= n <= 64,
{
    if n <= 8 {
        n
    } else if n <= 12 {
        12
    } else if n <= 16 {
        16
    } else if n <= 20 {
        20
    } else if n <= 24 {
        24
    } else if n <= 32 {
        32
    } else if n <= 48 {
        48
    } else {
        64
    }
}

/// `fd_len(n)` has a data length code, is not below `n`, and no smaller
/// length has both properties.
pub proof fn lemma_fd_len_is_least(n: int)
    requires
        0 <= n <= 64,
    ensures
        is_fd_len(fd_len(n)),
        n <= fd_len(n) <= 64,
        forall|m: int| is_fd_len(m) && n <= m ==> fd_len(n) <= m,
        is_fd_len(n) ==> fd_len(n) == n,
{
}

/// The flags byte that says whether the bit rate was switched and whether
/// the sender was in the error passive state.
pub open spec fn fd_flags(brs: bool, esi: bool) -> u8 {
    (if brs { CANFD_BRS } else { 0u8 }) | (if esi { CANFD_ESI } else { 0u8 })
}

/// The frame length for a payload of `n` bytes.
pub fn snap_len(n: usize) -> (len: u8)
    requires
        n <= CANFD_MAX_DLEN,
    ensures
        len == fd_len(n as int),
{
    let table: [u8; 15] = [0, 1, 2, 3, 4, 5, 6, 7, 8, 12, 16, 20, 24, 32, 48];
    let mut i: usize = 0;
    while i < 15
        invariant
            i <= 15,
            n <= CANFD_MAX_DLEN,
            table@ == seq![0u8, 1, 2, 3, 4, 5, 6, 7, 8, 12, 16, 20, 24, 32, 48],
            forall|j: int| 0 <= j < i ==> table@[j] < n,
        decreases 15 - i,
    {
        if table[i] as usize >= n {
            return table[i];
        }
        i += 1;
    }
    assert(table@[14] < n);
    64
}

/// A CAN FD frame that carries up to 64 bytes of data.
#[derive(Clone, Copy, Debug)]
pub struct FdDataFrame(pub canfd_frame);

impl View for FdDataFrame {
    type V = CanFdFrameView;

    open spec fn view(&self) -> CanFdFrameView {
        self.0@
    }
}

impl FdDataFrame {
    /// The length field is at most 64, and the identifier word carries
    /// neither the RTR nor the ERR flag.
    pub open spec fn wf(self) -> bool {
        &&& self.0.len <= CANFD_MAX_DLEN
        &&& self.0.can_id & CAN_RTR_FLAG == 0
        &&& self.0.can_id & CAN_ERR_FLAG == 0
    }

    /// The identifier that the identifier word names.
    pub open spec fn spec_id(self) -> Id {
        Id::spec_from_can_id(self.0.can_id)
    }

    /// Whether the flags byte has the bit rate switch bit.
    pub open spec fn spec_brs(self) -> bool {
        self.0.flags & CANFD_BRS != 0
    }

    /// Whether the flags byte has the error state indicator bit.
    pub open spec fn spec_esi(self) -> bool {
        self.0.flags & CANFD_ESI != 0
    }

    /// The payload: as many bytes of the data array as the length field
    /// says.
    pub open spec fn spec_data(self) -> Seq<u8> {
        self.0.data@.subrange(0, self.0.len as int)
    }

    /// A frame with the given identifier, flags and payload. Its length is
    /// the smallest FD frame length that holds the payload; the payload
    /// comes first, and zero bytes fill the frame up to that length. Every
    /// other byte of the wire struct is zero too.
    ///
    /// `id` must fit its width and `data` must not be longer than 64 bytes.
    pub fn new(id: Id, brs: bool, esi: bool, data: &[u8]) -> (frame: Self)
        requires
            id.valid(),
            data@.len() <= CANFD_MAX_DLEN,
        ensures
            frame.wf(),
            frame.spec_id() == id,
            frame.spec_brs() == brs,
            frame.spec_esi() == esi,
            is_fd_len(frame.spec_data().len() as int),
            frame.spec_data().len() >= data@.len(),
            forall|m: int| is_fd_len(m) && m >= data@.len() ==> frame.spec_data().len() <= m,
            frame.spec_data().len() == fd_len(data@.len() as int),
            frame.spec_data() == zero_padded(data@, fd_len(data@.len() as int) as nat),
            frame@ == (CanFdFrameView {
                can_id: id.spec_into_can_id(),
                len: fd_len(data@.len() as int) as u8,
                flags: fd_flags(brs, esi),
                res0: 0,
                res1: 0,
                data: zero_padded(data@, 64),
            }),
    {
        let can_id = id.into_can_id();
        let len = snap_len(data.len());
        let flags = (if brs { CANFD_BRS } else { 0u8 }) | (if esi { CANFD_ESI } else { 0u8 });
        let inner = canfd_frame { can_id, len, flags, res0: 0, res1: 0, data: padded_64(data) };
        proof {
            lemma_no_flags(can_id);
            lemma_fd_flags();
            lemma_fd_len_is_least(data@.len() as int);
            super::payload::lemma_zero_padded_prefix(data@, 64, len as nat);
        }
        FdDataFrame(inner)
    }

    /// The identifier of the frame.
    pub fn id(&self) -> (id: Id)
        ensures
            id == self.spec_id(),
            id.valid(),
    {
        Id::from_can_id(self.0.can_id)
    }

    /// Whether the payload was sent at the second bit rate.
    pub fn brs(&self) -> (brs: bool)
        ensures
            brs == self.spec_brs(),
    {
        self.0.flags & CANFD_BRS != 0
    }

    /// Whether the sender was in the error passive state.
    pub fn esi(&self) -> (esi: bool)
        ensures
            esi == self.spec_esi(),
    {
        self.0.flags & CANFD_ESI != 0
    }

    /// The payload of the frame, with the zero bytes that fill it up to its
    /// length and without the rest of the data array.
    pub fn data(&self) -> (data: &[u8])
        requires
            self.wf(),
        ensures
            data@ == self.spec_data(),
            data@.len() == self.0.len,
    {
        vstd::slice::slice_subrange(self.0.data.as_slice(), 0, self.0.len as usize)
    }
}

/// Each flag of the flags byte reads back as it was written.
pub proof fn lemma_fd_flags()
    ensures
        forall|brs: bool, esi: bool| #[trigger] fd_flags(brs, esi) & CANFD_BRS != 0 <==> brs,
        forall|brs: bool, esi: bool| #[trigger] fd_flags(brs, esi) & CANFD_ESI != 0 <==> esi,
{
    assert((0u8 | 0u8) & 1u8 == 0 && (0u8 | 0u8) & 2u8 == 0 && (1u8 | 0u8) & 1u8 != 0 && (1u8
        | 0u8) & 2u8 == 0 && (0u8 | 2u8) & 1u8 == 0 && (0u8 | 2u8) & 2u8 != 0 && (1u8 | 2u8) & 1u8
        != 0 && (1u8 | 2u8) & 2u8 != 0) by (bit_vector);
}

} // verus!
