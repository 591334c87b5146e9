use socketcan_alt::sys::{self, can_frame, canfd_frame};
use socketcan_alt::{
    CanExtendedFrame, CanFdExtendedFrame, CanFdFrame, CanFdStandardFrame, CanFrame,
    CanStandardFrame,
};

#[test]
fn tests_test_standard() {
    let mut inner = can_frame::zeroed();
    inner.can_id = 0x42;
    match inner.into() {
        CanFrame::Standard(frame) => assert_eq!(frame.id(), 0x42),
        _ => panic!(),
    }
}

#[test]
fn tests_test_extended() {
    let mut inner = can_frame::zeroed();
    inner.can_id = 0x4242 | sys::CAN_EFF_FLAG;
    match inner.into() {
        CanFrame::Extended(frame) => assert_eq!(frame.id(), 0x4242),
        _ => panic!(),
    }
}

#[test]
fn tests_test_fd_standard() {
    let mut inner = canfd_frame::zeroed();
    inner.can_id = 0x42;
    match inner.into() {
        CanFrame::FdStandard(frame) => assert_eq!(frame.id(), 0x42),
        _ => panic!(),
    }
}

#[test]
fn tests_test_fd_extended() {
    let mut inner = canfd_frame::zeroed();
    inner.can_id = 0x4242 | sys::CAN_EFF_FLAG;
    match inner.into() {
        CanFrame::FdExtended(frame) => assert_eq!(frame.id(), 0x4242),
        _ => panic!(),
    }
}

#[test]
fn test_fd_standard() {
    for &brs in &[false, true] {
        for &esi in &[false, true] {
            let data = rand::random::<[u8; 8]>();
            let frame = CanFdStandardFrame::new(0x42, brs, esi, &data);
            assert_eq!(frame.id(), 0x42);
            assert_eq!(frame.brs(), brs);
            assert_eq!(frame.esi(), esi);
            assert_eq!(frame.data(), &data);
        }
    }
}

#[test]
fn test_fd_standard_data_padded() {
    let data = rand::random::<[u8; 17]>();
    let frame = CanFdStandardFrame::new(0x42, false, false, &data);
    assert_eq!(frame.data().len(), 20);
    assert_eq!(&frame.data()[..17], &data);
}

#[test]
fn test_fd_extended() {
    for &brs in &[false, true] {
        for &esi in &[false, true] {
            let data = rand::random::<[u8; 8]>();
            let frame = CanFdExtendedFrame::new(0x4242, brs, esi, &data);
            assert_eq!(frame.id(), 0x4242);
            assert_eq!(frame.brs(), brs);
            assert_eq!(frame.esi(), esi);
            assert_eq!(frame.data(), &data);
        }
    }
}

#[test]
fn test_fd_extended_data_padded() {
    let data = rand::random::<[u8; 17]>();
    let frame = CanFdExtendedFrame::new(0x4242, false, false, &data);
    assert_eq!(frame.data().len(), 20);
    assert_eq!(&frame.data()[..17], &data);
}

#[test]
fn test_standard_frame() {
    let data = rand::random::<[u8; 8]>();
    let frame = CanStandardFrame::new(0x42, &data);
    assert_eq!(frame.id(), 0x42);
    assert_eq!(frame.data(), &data);
}

#[test]
fn test_extended_frame() {
    let data = rand::random::<[u8; 8]>();
    let frame = CanExtendedFrame::new(0x4242, &data);
    assert_eq!(frame.id(), 0x4242);
    assert_eq!(frame.data(), &data);
}

#[test]
fn test_id_widths() {
    assert_eq!(CanStandardFrame::ID_BITS, 11);
    assert_eq!(CanExtendedFrame::ID_BITS, 29);
    assert_eq!(CanFdStandardFrame::ID_BITS, 11);
    assert_eq!(CanFdExtendedFrame::ID_BITS, 29);
    assert_eq!(CanStandardFrame::MAX_DLEN, 8);
    assert_eq!(CanExtendedFrame::MAX_DLEN, 8);
    assert_eq!(CanFdStandardFrame::MAX_DLEN, 64);
    assert_eq!(CanFdExtendedFrame::MAX_DLEN, 64);
}

#[test]
fn test_extended_frame_sets_flag() {
    let frame = CanExtendedFrame::new(0x42, &[]);
    assert_eq!(frame.0.can_id, 0x8000_0042);
    let frame = CanFdExtendedFrame::new(0x42, false, false, &[]);
    assert_eq!(frame.0.can_id, 0x8000_0042);
    let frame = CanStandardFrame::new(0x42, &[]);
    assert_eq!(frame.0.can_id, 0x42);
}

#[test]
fn test_can_frame_size() {
    assert_eq!(CanFrame::from(can_frame::zeroed()).size(), 16);
    assert_eq!(CanFrame::from(canfd_frame::zeroed()).size(), 72);
}

#[test]
fn test_can_fd_frame() {
    let frame = CanFdFrame::new(0x8000_0042, 3, &[1, 2, 3, 4, 5, 6, 7, 8, 9]).unwrap();
    assert_eq!(frame.can_id(), 0x8000_0042);
    assert_eq!(frame.flags(), 3);
    assert_eq!(frame.data(), &[1, 2, 3, 4, 5, 6, 7, 8, 9, 0, 0, 0]);
    assert!(CanFdFrame::new(0, 0, &[0; 64]).is_some());
    assert!(CanFdFrame::new(0, 0, &[0; 65]).is_none());
    assert!(CanFdFrame::new(0, 0, &[0; 72]).is_none());
}

#[test]
fn test_can_fd_frame_lengths() {
    let expected = [
        (0usize, 0usize),
        (8, 8),
        (9, 12),
        (12, 12),
        (13, 16),
        (17, 20),
        (21, 24),
        (25, 32),
        (33, 48),
        (49, 64),
        (64, 64),
    ];
    let bytes = [0x55u8; 64];
    for &(n, len) in &expected {
        let frame = CanFdFrame::new(1, 0, &bytes[..n]).unwrap();
        assert_eq!(frame.data().len(), len);
    }
}
