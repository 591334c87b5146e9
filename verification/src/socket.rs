//! The decisions of a raw CAN socket, apart from the system calls.
//!
//! Nothing here touches the operating system. Each function takes what a
//! system call returned, as plain values, and says what follows from it: the
//! frame that was read, the error to report, the call to make next. The
//! caller makes the calls.

use crate::byte_order::ByteOrder;
use crate::cmsg::{Cmsg, CmsgAbi, CmsgIter, RawCmsg};
use crate::error::Error;
use crate::frame::{Frame, FrameView};
use crate::sys::{CANFD_MTU, CAN_MTU, CAN_RAW_FD_FRAMES, CAN_RAW_RECV_OWN_MSGS, SOL_CAN_RAW};
use crate::timestamping::Timestamping;
use vstd::prelude::*;

verus! {

/// A raw CAN socket that is bound to an interface: its descriptor.
#[derive(Debug, PartialEq, Eq, Structural)]
pub struct Socket {
    pub fd: i32,
}

/// What binding a socket to an interface does next. Binding starts at
/// `Resolve`; each step but the last two names a system call, and `next`
/// takes what the call returned to the step that follows.
#[derive(Debug, PartialEq, Eq, Structural)]
pub enum BindStep {
    /// Look up the index of the interface by its name.
    Resolve,
    /// Open a raw CAN socket.
    Open { ifindex: u32 },
    /// Bind the socket to the interface.
    Bind { fd: i32, ifindex: u32 },
    /// Close the socket, which could not be bound.
    Close { fd: i32, error: Error },
    /// The socket is bound.
    Done { socket: Socket },
    /// There is no socket.
    Failed { error: Error },
}

/// What a system call of a bind step returned.
#[derive(Clone, Copy, Debug, PartialEq, Eq, Structural)]
pub enum Returned {
    /// The interface index, or zero where the name names no interface.
    IfIndex(u32),
    /// The new descriptor, or -1.
    Fd(i32),
    /// Zero, or -1.
    Status(i32),
    /// The descriptor is closed.
    Closed,
}

impl BindStep {
    /// The kind of value that the system call of the step returns.
    pub open spec fn accepts(self, returned: Returned) -> bool {
        match self {
            BindStep::Resolve => returned is IfIndex,
            BindStep::Open { .. } => returned is Fd,
            BindStep::Bind { .. } => returned is Status,
            BindStep::Close { .. } => returned is Closed,
            BindStep::Done { .. } => false,
            BindStep::Failed { .. } => false,
        }
    }

    /// Whether binding has come to its end.
    pub open spec fn spec_is_final(&self) -> bool {
        *self is Done || *self is Failed
    }

    /// The step that follows. A name without an interface ends binding
    /// with `NoSuchDevice`, a socket that cannot be opened with `Os`. A
    /// socket that cannot be bound is closed first, and binding then ends
    /// with `BindFailed`. The error number is that of the failed call.
    pub open spec fn spec_next(self, returned: Returned, errno: i32) -> BindStep {
        match (self, returned) {
            (BindStep::Resolve, Returned::IfIndex(ifindex)) => if ifindex == 0 {
                BindStep::Failed { error: Error::NoSuchDevice { errno } }
            } else {
                BindStep::Open { ifindex }
            },
            (BindStep::Open { ifindex }, Returned::Fd(fd)) => if fd == -1 {
                BindStep::Failed { error: Error::Os { errno } }
            } else {
                BindStep::Bind { fd, ifindex }
            },
            (BindStep::Bind { fd, ifindex }, Returned::Status(status)) => if status != 0 {
                BindStep::Close { fd, error: Error::BindFailed { errno } }
            } else {
                BindStep::Done { socket: Socket { fd } }
            },
            (BindStep::Close { fd, error }, Returned::Closed) => BindStep::Failed { error },
            (step, _) => step,
        }
    }

    /// The first step of binding.
    pub fn start() -> (step: BindStep)
        ensures
            step == BindStep::Resolve,
    {
        BindStep::Resolve
    }

    /// Tells whether binding has come to its end.
    #[verifier::when_used_as_spec(spec_is_final)]
    pub fn is_final(&self) -> (b: bool)
        ensures
            b == self.spec_is_final(),
    {
        match self {
            BindStep::Done { .. } | BindStep::Failed { .. } => true,
            _ => false,
        }
    }

    /// Tells whether `returned` is what the system call of the step
    /// returns.
    pub fn is_accepted(&self, returned: Returned) -> (b: bool)
        ensures
            b == self.accepts(returned),
    {
        match (self, returned) {
            (BindStep::Resolve, Returned::IfIndex(_)) => true,
            (BindStep::Open { .. }, Returned::Fd(_)) => true,
            (BindStep::Bind { .. }, Returned::Status(_)) => true,
            (BindStep::Close { .. }, Returned::Closed) => true,
            _ => false,
        }
    }

    /// Takes what the system call of the step returned, and the error
    /// number it left, to the step that follows.
    pub fn next(self, returned: Returned, errno: i32) -> (step: BindStep)
        requires
            self.accepts(returned),
        ensures
            step == self.spec_next(returned, errno),
    {
        match (self, returned) {
            (BindStep::Resolve, Returned::IfIndex(ifindex)) => {
                if ifindex == 0 {
                    BindStep::Failed { error: Error::NoSuchDevice { errno } }
                } else {
                    BindStep::Open { ifindex }
                }
            },
            (BindStep::Open { ifindex }, Returned::Fd(fd)) => {
                if fd == -1 {
                    BindStep::Failed { error: Error::Os { errno } }
                } else {
                    BindStep::Bind { fd, ifindex }
                }
            },
            (BindStep::Bind { fd, ifindex }, Returned::Status(status)) => {
                if status != 0 {
                    BindStep::Close { fd, error: Error::BindFailed { errno } }
                } else {
                    BindStep::Done { socket: Socket { fd } }
                }
            },
            (BindStep::Close { fd, error }, Returned::Closed) => BindStep::Failed { error },
            (step, _) => step,
        }
    }
}

/// What binding comes to, given what its three system calls return: the
/// interface index with the error number of the lookup, the descriptor with
/// that of opening, the status with that of binding.
pub open spec fn bind_outcome(
    ifindex: u32,
    resolve_errno: i32,
    fd: i32,
    open_errno: i32,
    status: i32,
    bind_errno: i32,
) -> Result<Socket, Error> {
    if ifindex == 0 {
        Err(Error::NoSuchDevice { errno: resolve_errno })
    } else if fd == -1 {
        Err(Error::Os { errno: open_errno })
    } else if status != 0 {
        Err(Error::BindFailed { errno: bind_errno })
    } else {
        Ok(Socket { fd })
    }
}

/// Binding ends after at most four system calls, and ends as `bind_outcome`
/// says. It makes no call after one has failed, but for closing the socket
/// that it opened and could not bind; and it never closes the socket that
/// it hands out.
pub proof fn lemma_bind_run(
    ifindex: u32,
    resolve_errno: i32,
    fd: i32,
    open_errno: i32,
    status: i32,
    bind_errno: i32,
    close_errno: i32,
)
    ensures
        ({
            let outcome = bind_outcome(ifindex, resolve_errno, fd, open_errno, status, bind_errno);
            let s1 = BindStep::Resolve.spec_next(Returned::IfIndex(ifindex), resolve_errno);
            let s2 = s1.spec_next(Returned::Fd(fd), open_errno);
            let s3 = s2.spec_next(Returned::Status(status), bind_errno);
            let s4 = s3.spec_next(Returned::Closed, close_errno);
            &&& ifindex == 0 ==> s1 == (BindStep::Failed { error: outcome->Err_0 })
            &&& ifindex != 0 ==> s1 == BindStep::Open { ifindex }
            &&& ifindex != 0 && fd == -1 ==> s2 == (BindStep::Failed { error: outcome->Err_0 })
            &&& ifindex != 0 && fd != -1 ==> s2 == BindStep::Bind { fd, ifindex }
            &&& ifindex != 0 && fd != -1 && status == 0 ==> s3 == (BindStep::Done {
                socket: outcome->Ok_0,
            })
            &&& ifindex != 0 && fd != -1 && status != 0 ==> s3 == (BindStep::Close {
                fd,
                error: outcome->Err_0,
            }) && s4 == (BindStep::Failed { error: outcome->Err_0 })
            &&& s4.spec_is_final()
            &&& outcome is Ok <==> s4 is Done
        }),
{
}

/// A socket option and the value to set it to.
#[derive(Clone, Copy, Debug, PartialEq, Eq, Structural)]
pub enum SocketOption {
    /// `SO_TIMESTAMPING` at the socket level.
    Timestamping(Timestamping),
    /// `CAN_RAW_RECV_OWN_MSGS` at the raw CAN level.
    RecvOwnMsgs(bool),
    /// `CAN_RAW_FD_FRAMES` at the raw CAN level.
    FdFrames(bool),
}

/// The level and the name of a socket option, where both are numbers of the
/// CAN protocol family. Those of the one option at the socket level differ
/// between architectures and are left to the caller.
pub open spec fn can_raw_option(option: SocketOption) -> Option<(i32, i32)> {
    match option {
        SocketOption::Timestamping(_) => None,
        SocketOption::RecvOwnMsgs(_) => Some((SOL_CAN_RAW, CAN_RAW_RECV_OWN_MSGS)),
        SocketOption::FdFrames(_) => Some((SOL_CAN_RAW, CAN_RAW_FD_FRAMES)),
    }
}

/// The integer that the kernel takes for the option: the bits of the flags,
/// and one or zero for a switch.
pub open spec fn option_value(option: SocketOption) -> i32 {
    match option {
        SocketOption::Timestamping(flags) => flags@,
        SocketOption::RecvOwnMsgs(enable) => if enable { 1i32 } else { 0i32 },
        SocketOption::FdFrames(enable) => if enable { 1i32 } else { 0i32 },
    }
}

impl SocketOption {
    /// The level and the name of the option, where the CAN protocol family
    /// defines them.
    pub fn can_raw_ids(&self) -> (r: Option<(i32, i32)>)
        ensures
            r == can_raw_option(*self),
    {
        match self {
            SocketOption::Timestamping(_) => None,
            SocketOption::RecvOwnMsgs(_) => Some((SOL_CAN_RAW, CAN_RAW_RECV_OWN_MSGS)),
            SocketOption::FdFrames(_) => Some((SOL_CAN_RAW, CAN_RAW_FD_FRAMES)),
        }
    }

    /// The integer to hand to the kernel as the value of the option.
    pub fn value(&self) -> (v: i32)
        ensures
            v == option_value(*self),
    {
        match self {
            SocketOption::Timestamping(flags) => flags.bits(),
            SocketOption::RecvOwnMsgs(enable) | SocketOption::FdFrames(enable) => {
                if *enable {
                    1
                } else {
                    0
                }
            },
        }
    }
}

/// What a system call that returns a status comes to: an `Os` error with
/// the error number of the call where the status is not zero.
pub open spec fn status_outcome(status: i32, errno: i32) -> Result<(), Error> {
    if status != 0 {
        Err(Error::Os { errno })
    } else {
        Ok(())
    }
}

/// What a read into a buffer of FD size comes to. A negative count is a
/// failed call. A count that is the size of a frame gives the frame in that
/// many bytes of the buffer. Any other count is the size of no frame.
pub open spec fn recv_outcome(order: ByteOrder, buf: Seq<u8>, count: int, errno: i32) -> Result<
    FrameView,
    Error,
>
    recommends
        count <= buf.len(),
{
    if count < 0 {
        Err(Error::Os { errno })
    } else if count == CAN_MTU || count == CANFD_MTU {
        Ok(FrameView::decode(order, buf.subrange(0, count)).unwrap())
    } else {
        Err(Error::UnrecognizedFrameSize { size: count as usize })
    }
}

/// What `Socket::recv` asks of the buffer and the count: the buffer holds
/// the bytes counted, and where they are a frame, `Frame::decode` accepts
/// them.
pub open spec fn recv_acceptable(order: ByteOrder, buf: Seq<u8>, count: int) -> bool {
    &&& count <= buf.len()
    &&& count == CAN_MTU || count == CANFD_MTU ==> FrameView::decodable(
        order,
        buf.subrange(0, count),
    )
}

/// What a write of a frame comes to. A negative count is a failed call, a
/// count other than the size of the frame a truncated write.
pub open spec fn send_outcome(expected: usize, count: int, errno: i32) -> Result<(), Error> {
    if count < 0 {
        Err(Error::Os { errno })
    } else if count != expected {
        Err(Error::WriteTruncated { written: count as usize, expected })
    } else {
        Ok(())
    }
}

impl Socket {
    /// The socket of a descriptor.
    pub fn from_fd(fd: i32) -> (socket: Self)
        ensures
            socket.fd == fd,
    {
        Socket { fd }
    }

    /// The descriptor of the socket.
    pub fn as_raw_fd(&self) -> (fd: i32)
        ensures
            fd == self.fd,
    {
        self.fd
    }

    /// Gives up the socket for its descriptor.
    pub fn into_raw_fd(self) -> (fd: i32)
        ensures
            fd == self.fd,
    {
        self.fd
    }

    /// The first step of binding a socket to an interface.
    pub fn bind() -> (step: BindStep)
        ensures
            step == BindStep::Resolve,
    {
        BindStep::start()
    }

    /// The argument of the `FIONBIO` request that switches non-blocking
    /// mode: one to switch it on, zero to switch it off.
    pub fn set_nonblocking(&self, nonblocking: bool) -> (arg: i32)
        ensures
            arg == if nonblocking { 1i32 } else { 0i32 },
    {
        if nonblocking {
            1
        } else {
            0
        }
    }

    /// The option that sets the timestamping flags.
    pub fn set_timestamping(&self, timestamping: Timestamping) -> (option: SocketOption)
        ensures
            option == SocketOption::Timestamping(timestamping),
            option_value(option) == timestamping@,
            can_raw_option(option) is None,
    {
        SocketOption::Timestamping(timestamping)
    }

    /// The option that switches the delivery of the frames that the socket
    /// itself sent.
    pub fn set_recv_own_msgs(&self, enable: bool) -> (option: SocketOption)
        ensures
            option == SocketOption::RecvOwnMsgs(enable),
            option_value(option) == if enable { 1i32 } else { 0i32 },
            can_raw_option(option) == Some((SOL_CAN_RAW, CAN_RAW_RECV_OWN_MSGS)),
    {
        SocketOption::RecvOwnMsgs(enable)
    }

    /// The option that switches the acceptance of FD frames.
    pub fn set_fd_frames(&self, enable: bool) -> (option: SocketOption)
        ensures
            option == SocketOption::FdFrames(enable),
            option_value(option) == if enable { 1i32 } else { 0i32 },
            can_raw_option(option) == Some((SOL_CAN_RAW, CAN_RAW_FD_FRAMES)),
    {
        SocketOption::FdFrames(enable)
    }

    /// What setting an option, or switching non-blocking mode, came to,
    /// given the status that the call returned and the error number it
    /// left.
    pub fn setsockopt(&self, status: i32, errno: i32) -> (r: Result<(), Error>)
        ensures
            r == status_outcome(status, errno),
    {
        if status != 0 {
            Err(Error::Os { errno })
        } else {
            Ok(())
        }
    }

    /// Tells whether `recv` can take the buffer and the count.
    pub fn recv_acceptable(order: ByteOrder, buf: &[u8], count: isize) -> (b: bool)
        ensures
            b == recv_acceptable(order, buf@, count as int),
    {
        if count >= 0 && count as usize > buf.len() {
            false
        } else if count == CAN_MTU as isize || count == CANFD_MTU as isize {
            Frame::decodable(order, vstd::slice::slice_subrange(buf, 0, count as usize))
        } else {
            true
        }
    }

    /// The frame that one read gave, given the buffer that was read into,
    /// the count that the read returned and the error number it left. A
    /// read gives a whole classic frame or a whole FD frame, or it fails;
    /// a count that is neither size is an error of its own kind, which is
    /// no error of the system.
    pub fn recv(&self, order: ByteOrder, buf: &[u8], count: isize, errno: i32) -> (r: Result<
        Frame,
        Error,
    >)
        requires
            recv_acceptable(order, buf@, count as int),
        ensures
            r is Ok <==> count == CAN_MTU || count == CANFD_MTU,
            match r {
                Ok(frame) => recv_outcome(order, buf@, count as int, errno) == Ok::<
                    FrameView,
                    Error,
                >(frame@) && frame.wf(),
                Err(error) => recv_outcome(order, buf@, count as int, errno) == Err::<
                    FrameView,
                    Error,
                >(error),
            },
    {
        if count < 0 {
            Err(Error::Os { errno })
        } else if count == CAN_MTU as isize || count == CANFD_MTU as isize {
            match Frame::decode(order, vstd::slice::slice_subrange(buf, 0, count as usize)) {
                Some(frame) => Ok(frame),
                None => Err(Error::UnrecognizedFrameSize { size: count as usize }),
            }
        } else {
            Err(Error::UnrecognizedFrameSize { size: count as usize })
        }
    }

    /// The frame that one scatter/gather receive gave, and its control
    /// messages, given the buffer that the frame was read into, the count
    /// that the call returned, the error number it left, the flags of the
    /// received message, and the control messages as they lay in the
    /// control buffer.
    ///
    /// The frame is told as in `recv`. Control data that the kernel cut
    /// short is taken as absent, which is no error: the frame is handed
    /// out all the same, without control messages.
    pub fn recv_msg(
        &self,
        order: ByteOrder,
        buf: &[u8],
        count: isize,
        errno: i32,
        abi: CmsgAbi,
        msg_flags: i32,
        records: Vec<RawCmsg>,
    ) -> (r: Result<(Frame, Option<CmsgIter>), Error>)
        requires
            recv_acceptable(order, buf@, count as int),
            forall|i: int|
                0 <= i < records@.len() ==> Cmsg::decodable(
                    abi,
                    (#[trigger] records@[i]).header,
                    records@[i].payload@,
                ),
        ensures
            r is Ok <==> count == CAN_MTU || count == CANFD_MTU,
            match r {
                Ok((frame, cmsgs)) => {
                    &&& recv_outcome(order, buf@, count as int, errno) == Ok::<FrameView, Error>(
                        frame@,
                    )
                    &&& frame.wf()
                    &&& cmsgs is Some <==> abi.spec_control_intact(msg_flags)
                    &&& cmsgs matches Some(iter) ==> {
                        &&& iter.wf()
                        &&& iter.abi == abi
                        &&& iter.order == order
                        &&& iter.records@ == records@
                        &&& iter.next == 0
                    }
                },
                Err(error) => recv_outcome(order, buf@, count as int, errno) == Err::<
                    FrameView,
                    Error,
                >(error),
            },
    {
        match self.recv(order, buf, count, errno) {
            Ok(frame) => Ok((frame, CmsgIter::from_raw(abi, order, msg_flags, records))),
            Err(error) => Err(error),
        }
    }

    /// What one write of a frame came to, given the count that the write
    /// returned and the error number it left. Anything but a write of the
    /// whole frame is a failure.
    pub fn send(&self, frame: &Frame, count: isize, errno: i32) -> (r: Result<(), Error>)
        ensures
            r == send_outcome(frame.spec_size(), count as int, errno),
            r is Ok <==> count == frame@.size(),
    {
        let expected = frame.size();
        if count < 0 {
            Err(Error::Os { errno })
        } else if count as usize != expected {
            Err(Error::WriteTruncated { written: count as usize, expected })
        } else {
            Ok(())
        }
    }
}

} // verus!
