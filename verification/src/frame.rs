//! CAN frames: the four kinds, and how a frame is told from wire bytes.
//!
//! A frame travels as one of two wire structs. The number of bytes tells
//! which of the two it is, and the flags in the identifier word of a classic
//! struct tell a data frame from a remote request and from an error message.

mod data;
mod error;
mod fd_data;
mod id;
mod payload;
mod remote;

use crate::byte_order::ByteOrder;
use crate::sys::{
    can_frame, canfd_frame, CanFdFrameView, CanFrameView, CANFD_MAX_DLEN, CANFD_MTU,
    CAN_ERR_FLAG, CAN_MAX_DLEN, CAN_MTU, CAN_RTR_FLAG,
};
use vstd::prelude::*;

pub use data::DataFrame;
pub use error::ErrorFrame;
pub use fd_data::{
    fd_flags, fd_len, is_fd_len, lemma_fd_flags, lemma_fd_len_is_least, snap_len, FdDataFrame,
};
pub(crate) use id::{lemma_extended_word, lemma_standard_word};
pub use id::{lemma_from_can_id_valid, lemma_id_round_trip, Id};
pub use payload::{lemma_zero_padded_prefix, padded_64, padded_8, zero_padded};
pub use remote::RemoteFrame;

verus! {

/// A frame of any of the four kinds.
#[derive(Clone, Copy, Debug)]
pub enum Frame {
    Data(DataFrame),
    FdData(FdDataFrame),
    Remote(RemoteFrame),
    Error(ErrorFrame),
}

/// What a frame holds: its kind and the contents of its wire struct.
pub enum FrameView {
    Data(CanFrameView),
    FdData(CanFdFrameView),
    Remote(CanFrameView),
    Error(CanFrameView),
}

impl View for Frame {
    type V = FrameView;

    open spec fn view(&self) -> FrameView {
        match *self {
            Frame::Data(f) => FrameView::Data(f@),
            Frame::FdData(f) => FrameView::FdData(f@),
            Frame::Remote(f) => FrameView::Remote(f@),
            Frame::Error(f) => FrameView::Error(f@),
        }
    }
}

/// The kind of the frame that a classic wire struct holds: a remote request
/// where the RTR flag is set, else an error message where the ERR flag is
/// set, else a data frame.
pub open spec fn classify(raw: CanFrameView) -> FrameView {
    if raw.can_id & CAN_RTR_FLAG != 0 {
        FrameView::Remote(raw)
    } else if raw.can_id & CAN_ERR_FLAG != 0 {
        FrameView::Error(raw)
    } else {
        FrameView::Data(raw)
    }
}

/// A classic wire struct that can be taken for a frame: where it holds a
/// data frame, its length field does not exceed the data array.
pub open spec fn classic_acceptable(raw: CanFrameView) -> bool {
    raw.can_id & CAN_RTR_FLAG == 0 && raw.can_id & CAN_ERR_FLAG == 0 ==> raw.len <= CAN_MAX_DLEN
}

/// An FD wire struct that can be taken for a frame: it carries neither the
/// RTR nor the ERR flag, and its length field does not exceed the data
/// array.
pub open spec fn fd_acceptable(raw: CanFdFrameView) -> bool {
    &&& raw.can_id & (CAN_RTR_FLAG | CAN_ERR_FLAG) == 0
    &&& raw.len <= CANFD_MAX_DLEN
}

impl FrameView {
    /// The frame in a receive buffer of FD size of which the kernel filled
    /// `size` bytes: a classic frame in its first 16 bytes, an FD frame in
    /// all 72, and nothing for any other count.
    pub open spec fn from_raw(raw: CanFdFrameView, size: int) -> Option<FrameView> {
        if size == CAN_MTU {
            Some(classify(raw.classic_prefix()))
        } else if size == CANFD_MTU {
            Some(FrameView::FdData(raw))
        } else {
            None
        }
    }

    /// What `from_raw` asks of the buffer.
    pub open spec fn raw_acceptable(raw: CanFdFrameView, size: int) -> bool {
        &&& size == CAN_MTU ==> classic_acceptable(raw.classic_prefix())
        &&& size == CANFD_MTU ==> fd_acceptable(raw)
    }

    /// The frame that wire bytes hold: a classic frame in 16 bytes, an FD
    /// frame in 72, and nothing in any other number of bytes.
    pub open spec fn decode(order: ByteOrder, bytes: Seq<u8>) -> Option<FrameView> {
        if bytes.len() == CAN_MTU {
            Some(classify(CanFrameView::from_bytes(order, bytes)))
        } else if bytes.len() == CANFD_MTU {
            Some(FrameView::FdData(CanFdFrameView::from_bytes(order, bytes)))
        } else {
            None
        }
    }

    /// What `decode` asks of the bytes.
    pub open spec fn decodable(order: ByteOrder, bytes: Seq<u8>) -> bool {
        &&& bytes.len() == CAN_MTU ==> classic_acceptable(CanFrameView::from_bytes(order, bytes))
        &&& bytes.len() == CANFD_MTU ==> fd_acceptable(CanFdFrameView::from_bytes(order, bytes))
    }

    /// The wire bytes of the frame: those of its wire struct.
    pub open spec fn encode(self, order: ByteOrder) -> Seq<u8> {
        match self {
            FrameView::Data(raw) => raw.to_bytes(order),
            FrameView::FdData(raw) => raw.to_bytes(order),
            FrameView::Remote(raw) => raw.to_bytes(order),
            FrameView::Error(raw) => raw.to_bytes(order),
        }
    }

    /// The size of the wire struct of the frame.
    pub open spec fn size(self) -> nat {
        match self {
            FrameView::FdData(_) => CANFD_MTU as nat,
            _ => CAN_MTU as nat,
        }
    }
}

/// Tells whether a classic wire struct can be taken for a frame.
pub fn is_classic_acceptable(raw: &can_frame) -> (b: bool)
    ensures
        b == classic_acceptable(raw@),
{
    if raw.can_id & CAN_RTR_FLAG == 0 && raw.can_id & CAN_ERR_FLAG == 0 {
        raw.len as usize <= CAN_MAX_DLEN
    } else {
        true
    }
}

/// Tells whether an FD wire struct can be taken for a frame.
pub fn is_fd_acceptable(raw: &canfd_frame) -> (b: bool)
    ensures
        b == fd_acceptable(raw@),
{
    raw.can_id & (CAN_RTR_FLAG | CAN_ERR_FLAG) == 0 && raw.len as usize <= CANFD_MAX_DLEN
}

/// The frame that a classic wire struct holds.
fn from_classic(raw: can_frame) -> (frame: Frame)
    requires
        classic_acceptable(raw@),
    ensures
        frame@ == classify(raw@),
        frame.wf(),
{
    if raw.can_id & CAN_RTR_FLAG != 0 {
        Frame::Remote(RemoteFrame(raw))
    } else if raw.can_id & CAN_ERR_FLAG != 0 {
        Frame::Error(ErrorFrame(raw))
    } else {
        Frame::Data(DataFrame(raw))
    }
}

/// The frame that an FD wire struct holds.
fn from_fd(raw: canfd_frame) -> (frame: Frame)
    requires
        fd_acceptable(raw@),
    ensures
        frame@ == FrameView::FdData(raw@),
        frame.wf(),
{
    proof {
        data::lemma_no_flags(raw.can_id);
    }
    Frame::FdData(FdDataFrame(raw))
}

impl Frame {
    /// The frame is well formed for its kind.
    pub open spec fn wf(self) -> bool {
        match self {
            Frame::Data(f) => f.wf(),
            Frame::FdData(f) => f.wf(),
            Frame::Remote(f) => f.wf(),
            Frame::Error(f) => f.wf(),
        }
    }

    /// Tells whether `from_raw` can take the buffer.
    pub fn raw_acceptable(raw: &canfd_frame, size: usize) -> (b: bool)
        ensures
            b == FrameView::raw_acceptable(raw@, size as int),
    {
        if size == CAN_MTU {
            is_classic_acceptable(&raw.classic_prefix())
        } else if size == CANFD_MTU {
            is_fd_acceptable(raw)
        } else {
            true
        }
    }

    /// Takes a frame out of a receive buffer of FD size of which the kernel
    /// filled `size` bytes. The count alone decides between a classic and
    /// an FD frame, and any other count gives nothing. In a classic frame
    /// the RTR flag makes a remote request, else the ERR flag an error
    /// message, else it is a data frame.
    ///
    /// An FD frame must carry neither flag, and the length field of a data
    /// frame must not exceed its data array.
    pub fn from_raw(raw: canfd_frame, size: usize) -> (r: Option<Frame>)
        requires
            FrameView::raw_acceptable(raw@, size as int),
        ensures
            r is Some <==> size == CAN_MTU || size == CANFD_MTU,
            match r {
                Some(frame) => FrameView::from_raw(raw@, size as int) == Some(frame@) && frame.wf(),
                None => FrameView::from_raw(raw@, size as int) is None,
            },
    {
        if size == CAN_MTU {
            Some(from_classic(raw.classic_prefix()))
        } else if size == CANFD_MTU {
            Some(from_fd(raw))
        } else {
            None
        }
    }

    /// Tells whether `decode` can take the bytes.
    pub fn decodable(order: ByteOrder, bytes: &[u8]) -> (b: bool)
        ensures
            b == FrameView::decodable(order, bytes@),
    {
        if bytes.len() == CAN_MTU {
            is_classic_acceptable(&can_frame::from_bytes(order, bytes))
        } else if bytes.len() == CANFD_MTU {
            is_fd_acceptable(&canfd_frame::from_bytes(order, bytes))
        } else {
            true
        }
    }

    /// Reads a frame from the bytes that the kernel handed over. Their
    /// number alone decides between a classic and an FD frame, and any
    /// other number gives nothing. In a classic frame the RTR flag makes a
    /// remote request, else the ERR flag an error message, else it is a
    /// data frame.
    ///
    /// An FD frame must carry neither flag, and the length field of a data
    /// frame must not exceed its data array.
    pub fn decode(order: ByteOrder, bytes: &[u8]) -> (r: Option<Frame>)
        requires
            FrameView::decodable(order, bytes@),
        ensures
            r is Some <==> bytes@.len() == CAN_MTU || bytes@.len() == CANFD_MTU,
            match r {
                Some(frame) => FrameView::decode(order, bytes@) == Some(frame@) && frame.wf(),
                None => FrameView::decode(order, bytes@) is None,
            },
    {
        if bytes.len() == CAN_MTU {
            Some(from_classic(can_frame::from_bytes(order, bytes)))
        } else if bytes.len() == CANFD_MTU {
            Some(from_fd(canfd_frame::from_bytes(order, bytes)))
        } else {
            None
        }
    }

    /// Writes the frame out as the bytes that the kernel takes.
    pub fn encode(&self, order: ByteOrder) -> (bytes: Vec<u8>)
        ensures
            bytes@ == self@.encode(order),
            bytes@.len() == self@.size(),
    {
        match self {
            Frame::Data(DataFrame(raw)) | Frame::Remote(RemoteFrame(raw)) | Frame::Error(
                ErrorFrame(raw),
            ) => {
                let b = raw.to_bytes(order);
                vstd::slice::slice_to_vec(b.as_slice())
            },
            Frame::FdData(FdDataFrame(raw)) => {
                let b = raw.to_bytes(order);
                vstd::slice::slice_to_vec(b.as_slice())
            },
        }
    }

    pub open spec fn spec_size(&self) -> usize {
        match self {
            Frame::FdData(_) => CANFD_MTU,
            _ => CAN_MTU,
        }
    }

    /// The size of the wire struct of the frame.
    #[verifier::when_used_as_spec(spec_size)]
    pub fn size(&self) -> (n: usize)
        ensures
            n == self@.size(),
            n == self.spec_size(),
    {
        match self {
            Frame::Data(_) | Frame::Remote(_) | Frame::Error(_) => CAN_MTU,
            Frame::FdData(_) => CANFD_MTU,
        }
    }
}

/// What the flags of a classic frame decide: 16 bytes with the RTR flag
/// are a remote request, without it and with the ERR flag an error message,
/// and with neither a data frame.
pub proof fn lemma_decode_kind(order: ByteOrder, bytes: Seq<u8>)
    requires
        bytes.len() == CAN_MTU,
    ensures
        ({
            let raw = CanFrameView::from_bytes(order, bytes);
            let rtr = raw.can_id & CAN_RTR_FLAG != 0;
            let err = raw.can_id & CAN_ERR_FLAG != 0;
            &&& rtr ==> FrameView::decode(order, bytes) == Some(FrameView::Remote(raw))
            &&& !rtr && err ==> FrameView::decode(order, bytes) == Some(FrameView::Error(raw))
            &&& !rtr && !err ==> FrameView::decode(order, bytes) == Some(FrameView::Data(raw))
        }),
{
}

/// Decoding the bytes of a well formed frame gives the frame, whatever its
/// kind. The bytes are as many as the size of its wire struct, and `decode`
/// accepts them.
pub proof fn lemma_decode_encode(order: ByteOrder, frame: Frame)
    requires
        frame.wf(),
    ensures
        frame@.encode(order).len() == frame@.size(),
        FrameView::decodable(order, frame@.encode(order)),
        FrameView::decode(order, frame@.encode(order)) == Some(frame@),
{
    match frame {
        Frame::Data(f) => {
            crate::sys::lemma_can_frame_from_to_bytes(order, f@);
        },
        Frame::Remote(f) => {
            crate::sys::lemma_can_frame_from_to_bytes(order, f@);
        },
        Frame::Error(f) => {
            crate::sys::lemma_can_frame_from_to_bytes(order, f@);
        },
        Frame::FdData(f) => {
            crate::sys::lemma_canfd_frame_from_to_bytes(order, f@);
            lemma_both_flags(f.0.can_id);
        },
    }
}

/// Encoding the frame read from wire bytes gives the bytes.
pub proof fn lemma_encode_decode(order: ByteOrder, bytes: Seq<u8>)
    requires
        FrameView::decode(order, bytes) is Some,
    ensures
        FrameView::decode(order, bytes).unwrap().encode(order) == bytes,
{
    if bytes.len() == CAN_MTU {
        crate::sys::lemma_can_frame_to_from_bytes(order, bytes);
    } else {
        crate::sys::lemma_canfd_frame_to_from_bytes(order, bytes);
    }
}

/// Two frames that hold the same are the same frame.
pub proof fn lemma_frame_view_injective(a: Frame, b: Frame)
    requires
        a@ == b@,
    ensures
        a == b,
{
    match (a, b) {
        (Frame::Data(x), Frame::Data(y)) => crate::sys::lemma_can_frame_view_injective(x.0, y.0),
        (Frame::Remote(x), Frame::Remote(y)) => crate::sys::lemma_can_frame_view_injective(
            x.0,
            y.0,
        ),
        (Frame::Error(x), Frame::Error(y)) => crate::sys::lemma_can_frame_view_injective(
            x.0,
            y.0,
        ),
        (Frame::FdData(x), Frame::FdData(y)) => crate::sys::lemma_canfd_frame_view_injective(
            x.0,
            y.0,
        ),
        _ => {},
    }
}

/// A word with neither flag has not both.
proof fn lemma_both_flags(can_id: u32)
    by (bit_vector)
    requires
        can_id & CAN_RTR_FLAG == 0,
        can_id & CAN_ERR_FLAG == 0,
    ensures
        can_id & (CAN_RTR_FLAG | CAN_ERR_FLAG) == 0,
{
}

} // verus!
