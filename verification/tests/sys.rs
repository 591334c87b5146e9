use socketcan_alt::byte_order::{read_u32, write_u32};
use socketcan_alt::sys;
use socketcan_alt::sys::{can_frame, canfd_frame};
use socketcan_alt::ByteOrder;

#[test]
fn test_constants_match_libc() {
    assert_eq!(sys::CAN_EFF_FLAG, libc::CAN_EFF_FLAG);
    assert_eq!(sys::CAN_RTR_FLAG, libc::CAN_RTR_FLAG);
    assert_eq!(sys::CAN_ERR_FLAG, libc::CAN_ERR_FLAG);
    assert_eq!(sys::CAN_SFF_MASK, libc::CAN_SFF_MASK);
    assert_eq!(sys::CAN_EFF_MASK, libc::CAN_EFF_MASK);
    assert_eq!(sys::CAN_SFF_ID_BITS as i32, libc::CAN_SFF_ID_BITS);
    assert_eq!(sys::CAN_EFF_ID_BITS as i32, libc::CAN_EFF_ID_BITS);
    assert_eq!(sys::CAN_MAX_DLEN, libc::CAN_MAX_DLEN);
    assert_eq!(sys::CANFD_MAX_DLEN, libc::CANFD_MAX_DLEN);
    assert_eq!(sys::CANFD_MAX_DLC as i32, libc::CANFD_MAX_DLC);
    assert_eq!(sys::CANFD_BRS as i32, libc::CANFD_BRS);
    assert_eq!(sys::CANFD_ESI as i32, libc::CANFD_ESI);
    assert_eq!(sys::CAN_MTU, libc::CAN_MTU);
    assert_eq!(sys::CANFD_MTU, libc::CANFD_MTU);
    assert_eq!(sys::CAN_RAW, libc::CAN_RAW);
    assert_eq!(sys::SOL_CAN_RAW, libc::SOL_CAN_RAW);
    assert_eq!(sys::CAN_RAW_RECV_OWN_MSGS, libc::CAN_RAW_RECV_OWN_MSGS);
    assert_eq!(sys::CAN_RAW_FD_FRAMES, libc::CAN_RAW_FD_FRAMES);
}

#[test]
fn test_u32_bytes() {
    assert_eq!(write_u32(ByteOrder::Little, 0x1234_5678), [0x78, 0x56, 0x34, 0x12]);
    assert_eq!(write_u32(ByteOrder::Big, 0x1234_5678), [0x12, 0x34, 0x56, 0x78]);
    assert_eq!(read_u32(ByteOrder::Little, &[0x78, 0x56, 0x34, 0x12]), 0x1234_5678);
    assert_eq!(read_u32(ByteOrder::Big, &[0x78, 0x56, 0x34, 0x12]), 0x7856_3412);
    assert_eq!(read_u32(ByteOrder::Big, &[0xFF; 4]), u32::MAX);
    for &x in &[0u32, 1, 0xFF, 0x100, 0x8000_0000, u32::MAX] {
        assert_eq!(write_u32(ByteOrder::Little, x), x.to_le_bytes());
        assert_eq!(write_u32(ByteOrder::Big, x), x.to_be_bytes());
        assert_eq!(read_u32(ByteOrder::Little, &x.to_le_bytes()), x);
        assert_eq!(read_u32(ByteOrder::Big, &x.to_be_bytes()), x);
    }
}

#[test]
fn test_can_frame_len() {
    let mut frame = can_frame::zeroed();
    assert_eq!(frame.len(), 0);
    frame.set_len(5);
    assert_eq!(frame.len(), 5);
    assert_eq!(frame.can_id, 0);
    assert_eq!(frame.data, [0; 8]);
}

#[test]
fn test_wire_struct_layout() {
    let frame = can_frame {
        can_id: 0x0403_0201,
        len: 5,
        pad: 6,
        res0: 7,
        len8_dlc: 8,
        data: [9, 10, 11, 12, 13, 14, 15, 16],
    };
    let bytes = frame.to_bytes(ByteOrder::Little);
    assert_eq!(bytes, [1, 2, 3, 4, 5, 6, 7, 8, 9, 10, 11, 12, 13, 14, 15, 16]);
    let back = can_frame::from_bytes(ByteOrder::Little, &bytes);
    assert_eq!(back.can_id, frame.can_id);
    assert_eq!(back.len, 5);
    assert_eq!(back.pad, 6);
    assert_eq!(back.res0, 7);
    assert_eq!(back.len8_dlc, 8);
    assert_eq!(back.data, frame.data);

    let mut wide = canfd_frame::zeroed();
    wide.can_id = 0x0403_0201;
    wide.len = 64;
    wide.flags = 1;
    wide.res0 = 2;
    wide.res1 = 3;
    for (i, b) in wide.data.iter_mut().enumerate() {
        *b = 100 + i as u8;
    }
    let bytes = wide.to_bytes(ByteOrder::Big);
    assert_eq!(&bytes[..8], &[4, 3, 2, 1, 64, 1, 2, 3]);
    assert_eq!(&bytes[8..], &wide.data[..]);
    let back = canfd_frame::from_bytes(ByteOrder::Big, &bytes);
    assert_eq!(back.can_id, wide.can_id);
    assert_eq!(back.len, 64);
    assert_eq!(back.flags, 1);
    assert_eq!(back.res0, 2);
    assert_eq!(back.res1, 3);
    assert_eq!(back.data, wide.data);
    let prefix = wide.classic_prefix();
    assert_eq!(prefix.can_id, wide.can_id);
    assert_eq!(prefix.len, 64);
    assert_eq!(prefix.pad, 1);
    assert_eq!(prefix.res0, 2);
    assert_eq!(prefix.len8_dlc, 3);
    assert_eq!(prefix.data, [100, 101, 102, 103, 104, 105, 106, 107]);
}
