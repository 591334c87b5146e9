//! Kernel ABI of `linux/can.h` and `linux/can/raw.h`: flag bits, masks, sizes
//! and the two wire structs with their byte layout.
//!
//! The kernel exchanges both structs in host byte order. Every function that
//! touches bytes therefore takes the byte order as an argument, so that the
//! layout is a plain function of its inputs.

use crate::byte_order::{read_u32, u32_from_bytes, u32_to_bytes, write_u32, ByteOrder};
use vstd::prelude::*;

verus! {

/// Set in the identifier word of a frame that carries a 29-bit identifier.
pub const CAN_EFF_FLAG: u32 = 0x8000_0000;

/// Set in the identifier word of a remote transmission request.
pub const CAN_RTR_FLAG: u32 = 0x4000_0000;

/// Set in the identifier word of an error message frame.
pub const CAN_ERR_FLAG: u32 = 0x2000_0000;

/// The bits of an 11-bit identifier.
pub const CAN_SFF_MASK: u32 = 0x0000_07FF;

/// The bits of a 29-bit identifier.
pub const CAN_EFF_MASK: u32 = 0x1FFF_FFFF;

/// Width of a standard identifier.
pub const CAN_SFF_ID_BITS: u32 = 11;

/// Width of an extended identifier.
pub const CAN_EFF_ID_BITS: u32 = 29;

/// Longest payload of a classic frame.
pub const CAN_MAX_DLEN: usize = 8;

/// Longest payload of an FD frame.
pub const CANFD_MAX_DLEN: usize = 64;

/// Largest data length code of an FD frame.
pub const CANFD_MAX_DLC: usize = 15;

/// Bit rate switch: the payload was sent at the second bit rate.
pub const CANFD_BRS: u8 = 0x01;

/// Error state indicator of the transmitting node.
pub const CANFD_ESI: u8 = 0x02;

/// Size in bytes of a classic frame on the wire.
pub const CAN_MTU: usize = 16;

/// Size in bytes of an FD frame on the wire.
pub const CANFD_MTU: usize = 72;

/// Protocol number of raw CAN sockets.
pub const CAN_RAW: i32 = 1;

/// Socket option level of raw CAN sockets.
pub const SOL_CAN_RAW: i32 = 101;

/// Socket option: deliver frames sent through the socket itself.
pub const CAN_RAW_RECV_OWN_MSGS: i32 = 4;

/// Socket option: accept and deliver FD frames.
pub const CAN_RAW_FD_FRAMES: i32 = 5;

/// What a classic wire struct holds: its header fields and its eight data
/// bytes.
pub struct CanFrameView {
    pub can_id: u32,
    pub len: u8,
    pub pad: u8,
    pub res0: u8,
    pub len8_dlc: u8,
    pub data: Seq<u8>,
}

/// What an FD wire struct holds: its header fields and its 64 data bytes.
pub struct CanFdFrameView {
    pub can_id: u32,
    pub len: u8,
    pub flags: u8,
    pub res0: u8,
    pub res1: u8,
    pub data: Seq<u8>,
}

impl CanFrameView {
    /// The 16 bytes of the struct: identifier word, length, three reserved
    /// bytes, data.
    pub open spec fn to_bytes(self, order: ByteOrder) -> Seq<u8> {
        u32_to_bytes(order, self.can_id) + seq![self.len, self.pad, self.res0, self.len8_dlc]
            + self.data
    }

    /// The struct that 16 bytes hold.
    pub open spec fn from_bytes(order: ByteOrder, b: Seq<u8>) -> Self
        recommends
            b.len() == CAN_MTU,
    {
        CanFrameView {
            can_id: u32_from_bytes(order, b.subrange(0, 4)),
            len: b[4],
            pad: b[5],
            res0: b[6],
            len8_dlc: b[7],
            data: b.subrange(8, 16),
        }
    }
}

impl CanFdFrameView {
    /// The 72 bytes of the struct: identifier word, length, flags, two
    /// reserved bytes, data.
    pub open spec fn to_bytes(self, order: ByteOrder) -> Seq<u8> {
        u32_to_bytes(order, self.can_id) + seq![self.len, self.flags, self.res0, self.res1]
            + self.data
    }

    /// The struct that 72 bytes hold.
    pub open spec fn from_bytes(order: ByteOrder, b: Seq<u8>) -> Self
        recommends
            b.len() == CANFD_MTU,
    {
        CanFdFrameView {
            can_id: u32_from_bytes(order, b.subrange(0, 4)),
            len: b[4],
            flags: b[5],
            res0: b[6],
            res1: b[7],
            data: b.subrange(8, 72),
        }
    }

    /// The classic struct that shares its first 16 bytes with this one.
    pub open spec fn classic_prefix(self) -> CanFrameView {
        CanFrameView {
            can_id: self.can_id,
            len: self.len,
            pad: self.flags,
            res0: self.res0,
            len8_dlc: self.res1,
            data: self.data.subrange(0, 8),
        }
    }
}

/// `struct can_frame`: a classic CAN frame as the kernel lays it out.
#[allow(non_camel_case_types)]
#[derive(Clone, Copy, Debug)]
pub struct can_frame {
    /// Identifier with the EFF, RTR and ERR flags in its top three bits.
    pub can_id: u32,
    /// Number of payload bytes.
    pub len: u8,
    pub pad: u8,
    pub res0: u8,
    pub len8_dlc: u8,
    pub data: [u8; 8],
}

/// `struct canfd_frame`: a CAN FD frame as the kernel lays it out.
#[allow(non_camel_case_types)]
#[derive(Clone, Copy, Debug)]
pub struct canfd_frame {
    /// Identifier with the EFF, RTR and ERR flags in its top three bits.
    pub can_id: u32,
    /// Number of payload bytes.
    pub len: u8,
    /// `CANFD_BRS` and `CANFD_ESI`.
    pub flags: u8,
    pub res0: u8,
    pub res1: u8,
    pub data: [u8; 64],
}

impl View for can_frame {
    type V = CanFrameView;

    open spec fn view(&self) -> CanFrameView {
        CanFrameView {
            can_id: self.can_id,
            len: self.len,
            pad: self.pad,
            res0: self.res0,
            len8_dlc: self.len8_dlc,
            data: self.data@,
        }
    }
}

impl View for canfd_frame {
    type V = CanFdFrameView;

    open spec fn view(&self) -> CanFdFrameView {
        CanFdFrameView {
            can_id: self.can_id,
            len: self.len,
            flags: self.flags,
            res0: self.res0,
            res1: self.res1,
            data: self.data@,
        }
    }
}

/// A sequence of `n` zero bytes.
pub open spec fn zeros(n: nat) -> Seq<u8> {
    Seq::new(n, |i: int| 0u8)
}

/// Two wire structs with the same contents are the same struct.
pub proof fn lemma_can_frame_view_injective(a: can_frame, b: can_frame)
    requires
        a@ == b@,
    ensures
        a == b,
{
    assert(a.data =~= b.data);
}

/// Two wire structs with the same contents are the same struct.
pub proof fn lemma_canfd_frame_view_injective(a: canfd_frame, b: canfd_frame)
    requires
        a@ == b@,
    ensures
        a == b,
{
    assert(a.data =~= b.data);
}

impl can_frame {
    /// The struct with every byte zero.
    pub fn zeroed() -> (f: Self)
        ensures
            f@ == (CanFrameView { can_id: 0, len: 0, pad: 0, res0: 0, len8_dlc: 0, data: zeros(8) }),
    {
        let f = can_frame { can_id: 0, len: 0, pad: 0, res0: 0, len8_dlc: 0, data: [0u8; 8] };
        assert(f.data@ =~= zeros(8));
        f
    }

    pub open spec fn spec_len(&self) -> u8 {
        self.len
    }

    /// The payload length field.
    #[verifier::when_used_as_spec(spec_len)]
    pub fn len(&self) -> (n: u8)
        ensures
            n == self.len,
    {
        self.len
    }

    /// Stores the payload length field and leaves the rest as it is.
    pub fn set_len(&mut self, len: u8)
        ensures
            final(self)@ == (CanFrameView { len: len, ..old(self)@ }),
    {
        self.len = len;
    }

    /// Writes the struct out as the kernel lays it out.
    pub fn to_bytes(&self, order: ByteOrder) -> (b: [u8; 16])
        ensures
            b@ == self@.to_bytes(order),
    {
        let id = write_u32(order, self.can_id);
        let d = &self.data;
        let b = [
            id[0], id[1], id[2], id[3],
            self.len, self.pad, self.res0, self.len8_dlc,
            d[0], d[1], d[2], d[3], d[4], d[5], d[6], d[7],
        ];
        assert(b@ =~= self@.to_bytes(order));
        b
    }

    /// Reads the struct from the 16 bytes the kernel laid out.
    pub fn from_bytes(order: ByteOrder, b: &[u8]) -> (f: Self)
        requires
            b@.len() == CAN_MTU,
        ensures
            f@ == CanFrameView::from_bytes(order, b@),
    {
        let can_id = read_u32(order, vstd::slice::slice_subrange(b, 0, 4));
        let f = can_frame {
            can_id,
            len: b[4],
            pad: b[5],
            res0: b[6],
            len8_dlc: b[7],
            data: [b[8], b[9], b[10], b[11], b[12], b[13], b[14], b[15]],
        };
        assert(f.data@ =~= b@.subrange(8, 16));
        f
    }
}

impl canfd_frame {
    /// The struct with every byte zero.
    pub fn zeroed() -> (f: Self)
        ensures
            f@ == (CanFdFrameView { can_id: 0, len: 0, flags: 0, res0: 0, res1: 0, data: zeros(64) }),
    {
        let f = canfd_frame { can_id: 0, len: 0, flags: 0, res0: 0, res1: 0, data: [0u8; 64] };
        assert(f.data@ =~= zeros(64));
        f
    }

    /// Writes the struct out as the kernel lays it out.
    pub fn to_bytes(&self, order: ByteOrder) -> (b: [u8; 72])
        ensures
            b@ == self@.to_bytes(order),
    {
        let id = write_u32(order, self.can_id);
        let mut b = [0u8; 72];
        b[0] = id[0];
        b[1] = id[1];
        b[2] = id[2];
        b[3] = id[3];
        b[4] = self.len;
        b[5] = self.flags;
        b[6] = self.res0;
        b[7] = self.res1;
        let mut i: usize = 0;
        while i < 64
            invariant
                i <= 64,
                b@.subrange(0, 8) == u32_to_bytes(order, self.can_id) + seq![
                    self.len,
                    self.flags,
                    self.res0,
                    self.res1,
                ],
                forall|j: int| 0 <= j < i ==> b@[8 + j] == self.data@[j],
            decreases 64 - i,
        {
            b[8 + i] = self.data[i];
            i += 1;
        }
        assert(b@ =~= self@.to_bytes(order));
        b
    }

    /// Reads the struct from the 72 bytes the kernel laid out.
    pub fn from_bytes(order: ByteOrder, b: &[u8]) -> (f: Self)
        requires
            b@.len() == CANFD_MTU,
        ensures
            f@ == CanFdFrameView::from_bytes(order, b@),
    {
        let can_id = read_u32(order, vstd::slice::slice_subrange(b, 0, 4));
        let mut data = [0u8; 64];
        let mut i: usize = 0;
        while i < 64
            invariant
                i <= 64,
                b@.len() == CANFD_MTU,
                forall|j: int| 0 <= j < i ==> data@[j] == b@[8 + j],
            decreases 64 - i,
        {
            data[i] = b[8 + i];
            i += 1;
        }
        assert(data@ =~= b@.subrange(8, 72));
        canfd_frame { can_id, len: b[4], flags: b[5], res0: b[6], res1: b[7], data }
    }

    /// The classic struct that shares its first 16 bytes with this one: what
    /// a classic frame read into a buffer of FD size holds.
    pub fn classic_prefix(&self) -> (f: can_frame)
        ensures
            f@ == self@.classic_prefix(),
    {
        let d = &self.data;
        let f = can_frame {
            can_id: self.can_id,
            len: self.len,
            pad: self.flags,
            res0: self.res0,
            len8_dlc: self.res1,
            data: [d[0], d[1], d[2], d[3], d[4], d[5], d[6], d[7]],
        };
        assert(f.data@ =~= self.data@.subrange(0, 8));
        f
    }
}

/// Reading back the bytes of a classic struct gives the struct.
pub proof fn lemma_can_frame_from_to_bytes(order: ByteOrder, v: CanFrameView)
    requires
        v.data.len() == 8,
    ensures
        v.to_bytes(order).len() == CAN_MTU,
        CanFrameView::from_bytes(order, v.to_bytes(order)) == v,
{
    crate::byte_order::lemma_u32_from_to_bytes(order, v.can_id);
    let b = v.to_bytes(order);
    assert(b.subrange(0, 4) =~= u32_to_bytes(order, v.can_id));
    assert(b.subrange(8, 16) =~= v.data);
}

/// Writing out the classic struct read from 16 bytes gives the 16 bytes.
pub proof fn lemma_can_frame_to_from_bytes(order: ByteOrder, b: Seq<u8>)
    requires
        b.len() == CAN_MTU,
    ensures
        CanFrameView::from_bytes(order, b).to_bytes(order) == b,
{
    crate::byte_order::lemma_u32_to_from_bytes(order, b.subrange(0, 4));
    assert(CanFrameView::from_bytes(order, b).to_bytes(order) =~= b);
}

/// Reading back the bytes of an FD struct gives the struct.
pub proof fn lemma_canfd_frame_from_to_bytes(order: ByteOrder, v: CanFdFrameView)
    requires
        v.data.len() == 64,
    ensures
        v.to_bytes(order).len() == CANFD_MTU,
        CanFdFrameView::from_bytes(order, v.to_bytes(order)) == v,
{
    crate::byte_order::lemma_u32_from_to_bytes(order, v.can_id);
    let b = v.to_bytes(order);
    assert(b.subrange(0, 4) =~= u32_to_bytes(order, v.can_id));
    assert(b.subrange(8, 72) =~= v.data);
}

/// Writing out the FD struct read from 72 bytes gives the 72 bytes.
pub proof fn lemma_canfd_frame_to_from_bytes(order: ByteOrder, b: Seq<u8>)
    requires
        b.len() == CANFD_MTU,
    ensures
        CanFdFrameView::from_bytes(order, b).to_bytes(order) == b,
{
    crate::byte_order::lemma_u32_to_from_bytes(order, b.subrange(0, 4));
    assert(CanFdFrameView::from_bytes(order, b).to_bytes(order) =~= b);
}

} // verus!
