//! Frame codec and socket protocol logic for Linux SocketCAN.

pub mod aio;
pub mod byte_order;
pub mod can_fd_frame;
pub mod can_frame;
pub mod cmsg;
pub mod error;
pub mod frame;
pub mod socket;
pub mod sys;
pub mod timestamping;

pub use byte_order::ByteOrder;
pub use can_fd_frame::CanFdFrame;
pub use can_frame::{
    CanExtendedFrame, CanFdExtendedFrame, CanFdStandardFrame, CanFrame, CanStandardFrame,
};
pub use cmsg::{Cmsg, CmsgAbi, CmsgHeader, CmsgIter, RawCmsg, Timespec};
pub use error::Error;
pub use frame::{DataFrame, ErrorFrame, FdDataFrame, Frame, FrameView, Id, RemoteFrame};
pub use socket::{BindStep, Returned, Socket, SocketOption};
pub use timestamping::Timestamping;
