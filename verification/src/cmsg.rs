//! Control messages that the kernel hands over beside a frame.
//!
//! Walking the control buffer from one message header to the next is left to
//! the caller, who has the platform's own macros for it. What is decided
//! here is what a message means, once its header and its payload are at
//! hand as plain values.

use crate::byte_order::{i64_from_bytes, read_i64, ByteOrder};
use vstd::prelude::*;

verus! {

/// Size in bytes of the payload of a timestamping message: three
/// timestamps of two 64-bit fields each.
pub const TIMESTAMPING_LEN: usize = 48;

/// A point in time: seconds, and nanoseconds within the second.
#[derive(Clone, Copy, Debug, PartialEq, Eq, Structural)]
pub struct Timespec {
    pub tv_sec: i64,
    pub tv_nsec: i64,
}

/// The header of a control message.
#[derive(Clone, Copy, Debug, PartialEq, Eq, Structural)]
pub struct CmsgHeader {
    /// Length of the message in bytes, header included.
    pub len: usize,
    /// The protocol that the message comes from.
    pub level: i32,
    /// The kind of the message within its protocol.
    pub ty: i32,
}

/// What the platform fixes about control messages.
#[derive(Clone, Copy, Debug, PartialEq, Eq, Structural)]
pub struct CmsgAbi {
    /// Size in bytes to whose multiples headers and payloads are aligned.
    pub word: usize,
    /// Size in bytes of a message header.
    pub header: usize,
    /// Level of messages of the socket layer.
    pub sol_socket: i32,
    /// Kind of the message that carries timestamps.
    pub scm_timestamping: i32,
    /// Flag of a received message whose control data was cut short.
    pub msg_ctrunc: i32,
}

/// A control message.
#[derive(Clone, Copy, Debug, PartialEq, Eq, Structural)]
pub enum Cmsg {
    /// The time at which a frame was received: first as software took it,
    /// then as the hardware took it. Either is zero where it was not taken.
    Timestamping(Timespec, Timespec),
    /// A message of a kind that is not known here, told by its header.
    Other(CmsgHeader),
}

/// `len` rounded up to a multiple of `word`.
pub open spec fn cmsg_align(word: int, len: int) -> int
    recommends
        word > 0,
        len >= 0,
{
    (len + word - 1) / word * word
}

/// The length of a message with a payload of `len` bytes: the aligned
/// header, then the payload.
pub open spec fn cmsg_len(abi: CmsgAbi, len: int) -> int {
    cmsg_align(abi.word as int, abi.header as int) + len
}

/// The room that a message with a payload of `len` bytes takes in a control
/// buffer: the aligned header, then the aligned payload.
pub open spec fn cmsg_space(abi: CmsgAbi, len: int) -> int {
    cmsg_align(abi.word as int, abi.header as int) + cmsg_align(abi.word as int, len)
}

impl Timespec {
    /// The timestamp that 16 bytes hold: seconds, then nanoseconds.
    pub open spec fn spec_from_bytes(order: ByteOrder, b: Seq<u8>) -> Timespec
        recommends
            b.len() == 16,
    {
        Timespec {
            tv_sec: i64_from_bytes(order, b.subrange(0, 8)),
            tv_nsec: i64_from_bytes(order, b.subrange(8, 16)),
        }
    }

    /// Reads a timestamp from the 16 bytes that hold it.
    pub fn from_bytes(order: ByteOrder, b: &[u8]) -> (t: Timespec)
        requires
            b@.len() == 16,
        ensures
            t == Timespec::spec_from_bytes(order, b@),
    {
        Timespec {
            tv_sec: read_i64(order, vstd::slice::slice_subrange(b, 0, 8)),
            tv_nsec: read_i64(order, vstd::slice::slice_subrange(b, 8, 16)),
        }
    }
}

impl CmsgAbi {
    /// The sizes are positive, and small enough for lengths to be
    /// computed.
    pub open spec fn wf(self) -> bool {
        &&& 0 < self.word <= 0x100
        &&& 0 < self.header <= 0x1000
    }

    /// Tells whether the sizes are in their bounds.
    pub fn is_wf(&self) -> (b: bool)
        ensures
            b == self.wf(),
    {
        0 < self.word && self.word <= 0x100 && 0 < self.header && self.header <= 0x1000
    }

    /// Whether a header is that of a timestamping message.
    pub open spec fn is_timestamping(self, header: CmsgHeader) -> bool {
        header.level == self.sol_socket && header.ty == self.scm_timestamping
    }

    /// Whether the control data of a received message is whole: its flags
    /// lack the one that says it was cut short.
    pub open spec fn spec_control_intact(&self, msg_flags: i32) -> bool {
        msg_flags & self.msg_ctrunc == 0
    }

    /// `len` rounded up to a multiple of the alignment.
    pub fn align(&self, len: usize) -> (r: usize)
        requires
            self.wf(),
            len <= 0x1000_0000,
        ensures
            r == cmsg_align(self.word as int, len as int),
            len <= r < len + self.word,
            r % self.word == 0,
    {
        let word = self.word;
        let q = (len + word - 1) / word;
        assert(q * word <= len + word - 1 && q * word > len - 1 && (q * word) % (word as int)
            == 0) by (nonlinear_arith)
            requires
                q == (len + word - 1) / (word as int),
                word > 0,
        ;
        q * word
    }

    /// The length of a message with a payload of `len` bytes.
    pub fn len(&self, len: usize) -> (r: usize)
        requires
            self.wf(),
            len <= 0x1000_0000,
        ensures
            r == cmsg_len(*self, len as int),
    {
        self.align(self.header) + len
    }

    /// The room that a message with a payload of `len` bytes takes in a
    /// control buffer.
    pub fn space(&self, len: usize) -> (r: usize)
        requires
            self.wf(),
            len <= 0x1000_0000,
        ensures
            r == cmsg_space(*self, len as int),
            r >= cmsg_len(*self, len as int),
    {
        self.align(self.header) + self.align(len)
    }

    /// Tells whether the control data of a received message is whole.
    #[verifier::when_used_as_spec(spec_control_intact)]
    pub fn control_intact(&self, msg_flags: i32) -> (b: bool)
        ensures
            b == self.spec_control_intact(msg_flags),
    {
        msg_flags & self.msg_ctrunc == 0
    }
}

impl Cmsg {
    /// The message that a header and a payload make. A timestamping
    /// message gives the first and the third of its three timestamps; the
    /// second is a leftover that the kernel no longer fills. Any other
    /// message is passed on by its header.
    pub open spec fn spec_decode(
        abi: CmsgAbi,
        order: ByteOrder,
        header: CmsgHeader,
        payload: Seq<u8>,
    ) -> Cmsg {
        if abi.is_timestamping(header) {
            Cmsg::Timestamping(
                Timespec::spec_from_bytes(order, payload.subrange(0, 16)),
                Timespec::spec_from_bytes(order, payload.subrange(32, 48)),
            )
        } else {
            Cmsg::Other(header)
        }
    }

    /// What `decode` asks of a message: where it is a timestamping message,
    /// its payload has the size of three timestamps, and its header says
    /// so.
    pub open spec fn decodable(abi: CmsgAbi, header: CmsgHeader, payload: Seq<u8>) -> bool {
        abi.is_timestamping(header) ==> {
            &&& payload.len() == TIMESTAMPING_LEN
            &&& header.len == cmsg_len(abi, TIMESTAMPING_LEN as int)
        }
    }

    /// Tells whether `decode` can take the message.
    pub fn is_decodable(abi: &CmsgAbi, header: &CmsgHeader, payload: &[u8]) -> (b: bool)
        requires
            abi.wf(),
        ensures
            b == Cmsg::decodable(*abi, *header, payload@),
    {
        if header.level == abi.sol_socket && header.ty == abi.scm_timestamping {
            payload.len() == TIMESTAMPING_LEN && header.len == abi.len(TIMESTAMPING_LEN)
        } else {
            true
        }
    }

    /// Reads a control message from its header and its payload.
    ///
    /// The payload of a timestamping message must have the size of three
    /// timestamps, and its header must say so: anything else is no message
    /// of the kernel's.
    pub fn decode(abi: &CmsgAbi, order: ByteOrder, header: CmsgHeader, payload: &[u8]) -> (cmsg:
        Cmsg)
        requires
            Cmsg::decodable(*abi, header, payload@),
        ensures
            cmsg == Cmsg::spec_decode(*abi, order, header, payload@),
            cmsg is Timestamping <==> abi.is_timestamping(header),
    {
        if header.level == abi.sol_socket && header.ty == abi.scm_timestamping {
            Cmsg::Timestamping(
                Timespec::from_bytes(order, vstd::slice::slice_subrange(payload, 0, 16)),
                Timespec::from_bytes(order, vstd::slice::slice_subrange(payload, 32, 48)),
            )
        } else {
            Cmsg::Other(header)
        }
    }

    /// The size of a control buffer that holds any one message known here:
    /// the room of the largest of them.
    pub fn space(abi: &CmsgAbi) -> (r: usize)
        requires
            abi.wf(),
        ensures
            r == cmsg_space(*abi, TIMESTAMPING_LEN as int),
    {
        abi.space(TIMESTAMPING_LEN)
    }
}

/// A control message as it lies in the control buffer.
#[derive(Debug)]
pub struct RawCmsg {
    pub header: CmsgHeader,
    pub payload: Vec<u8>,
}

/// The control messages of one received message, read one after another.
#[derive(Debug)]
pub struct CmsgIter {
    pub abi: CmsgAbi,
    pub order: ByteOrder,
    pub records: Vec<RawCmsg>,
    pub next: usize,
}

impl CmsgIter {
    /// The position is within the records, and every record can be
    /// decoded.
    pub open spec fn wf(self) -> bool {
        &&& self.next <= self.records@.len()
        &&& forall|i: int|
            0 <= i < self.records@.len() ==> Cmsg::decodable(
                self.abi,
                (#[trigger] self.records@[i]).header,
                self.records@[i].payload@,
            )
    }

    /// The messages that are still to come, in their order.
    pub open spec fn remaining(self) -> Seq<Cmsg> {
        Seq::new(
            (self.records@.len() - self.next) as nat,
            |i: int|
                Cmsg::spec_decode(
                    self.abi,
                    self.order,
                    self.records@[self.next + i].header,
                    self.records@[self.next + i].payload@,
                ),
        )
    }

    /// The messages of a control buffer, or nothing where the flags of the
    /// received message say that its control data was cut short: what is
    /// left of it then is not to be read.
    pub fn from_raw(abi: CmsgAbi, order: ByteOrder, msg_flags: i32, records: Vec<RawCmsg>) -> (r:
        Option<CmsgIter>)
        requires
            forall|i: int|
                0 <= i < records@.len() ==> Cmsg::decodable(
                    abi,
                    (#[trigger] records@[i]).header,
                    records@[i].payload@,
                ),
        ensures
            r is Some <==> abi.spec_control_intact(msg_flags),
            r matches Some(iter) ==> {
                &&& iter.wf()
                &&& iter.abi == abi
                &&& iter.order == order
                &&& iter.records@ == records@
                &&& iter.next == 0
                &&& iter.remaining().len() == records@.len()
            },
    {
        if abi.control_intact(msg_flags) {
            Some(CmsgIter { abi, order, records, next: 0 })
        } else {
            None
        }
    }

    /// The next message, or nothing once all have been read. A message is
    /// given out once, and after the last one nothing ever comes again.
    pub fn next(&mut self) -> (r: Option<Cmsg>)
        requires
            old(self).wf(),
        ensures
            final(self).wf(),
            final(self).abi == old(self).abi,
            final(self).order == old(self).order,
            final(self).records@ == old(self).records@,
            old(self).remaining().len() == 0 ==> r is None && final(self).next == old(self).next,
            old(self).remaining().len() > 0 ==> r == Some(old(self).remaining()[0])
                && final(self).remaining() == old(self).remaining().drop_first(),
    {
        if self.next >= self.records.len() {
            return None;
        }
        let record = &self.records[self.next];
        let cmsg = Cmsg::decode(&self.abi, self.order, record.header, record.payload.as_slice());
        self.next = self.next + 1;
        assert(self.remaining() =~= old(self).remaining().drop_first());
        Some(cmsg)
    }
}

} // verus!
