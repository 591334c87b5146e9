use socketcan_alt::byte_order::{read_i64, read_u64};
use socketcan_alt::cmsg::TIMESTAMPING_LEN;
use socketcan_alt::{ByteOrder, Cmsg, CmsgAbi, CmsgHeader, CmsgIter, RawCmsg, Timespec};
use std::mem::size_of;

fn lp64() -> CmsgAbi {
    CmsgAbi { word: 8, header: 16, sol_socket: 1, scm_timestamping: 37, msg_ctrunc: 8 }
}

fn native() -> CmsgAbi {
    CmsgAbi {
        word: size_of::<usize>(),
        header: size_of::<libc::cmsghdr>(),
        sol_socket: libc::SOL_SOCKET,
        scm_timestamping: libc::SCM_TIMESTAMPING,
        msg_ctrunc: libc::MSG_CTRUNC,
    }
}

fn timestamps(order: ByteOrder, values: [i64; 6]) -> Vec<u8> {
    let mut bytes = Vec::new();
    for v in values {
        match order {
            ByteOrder::Little => bytes.extend_from_slice(&v.to_le_bytes()),
            ByteOrder::Big => bytes.extend_from_slice(&v.to_be_bytes()),
        }
    }
    bytes
}

#[test]
fn test_64_bit_integers() {
    let bytes = [1u8, 2, 3, 4, 5, 6, 7, 8];
    assert_eq!(read_u64(ByteOrder::Little, &bytes), 0x0807_0605_0403_0201);
    assert_eq!(read_u64(ByteOrder::Big, &bytes), 0x0102_0304_0506_0708);
    assert_eq!(read_i64(ByteOrder::Little, &[0xFF; 8]), -1);
    assert_eq!(read_i64(ByteOrder::Big, &[0x80, 0, 0, 0, 0, 0, 0, 0]), i64::MIN);
    for &x in &[0i64, 1, -1, 1_700_000_000, 999_999_999, i64::MAX, i64::MIN] {
        assert_eq!(read_i64(ByteOrder::Little, &x.to_le_bytes()), x);
        assert_eq!(read_i64(ByteOrder::Big, &x.to_be_bytes()), x);
    }
}

#[test]
fn test_lengths() {
    let abi = lp64();
    assert_eq!(abi.align(0), 0);
    assert_eq!(abi.align(1), 8);
    assert_eq!(abi.align(8), 8);
    assert_eq!(abi.align(9), 16);
    assert_eq!(abi.align(48), 48);
    assert_eq!(abi.len(0), 16);
    assert_eq!(abi.len(48), 64);
    assert_eq!(abi.len(5), 21);
    assert_eq!(abi.space(48), 64);
    assert_eq!(abi.space(5), 24);
    assert_eq!(Cmsg::space(&abi), 64);
    let narrow = CmsgAbi { word: 4, header: 12, ..abi };
    assert_eq!(narrow.len(48), 60);
    assert_eq!(narrow.space(5), 20);
    assert_eq!(Cmsg::space(&narrow), 60);
}

#[test]
fn test_timespec_from_bytes() {
    let bytes = timestamps(ByteOrder::Little, [1_700_000_000, 123_456_789, 0, 0, 0, 0]);
    assert_eq!(
        Timespec::from_bytes(ByteOrder::Little, &bytes[..16]),
        Timespec { tv_sec: 1_700_000_000, tv_nsec: 123_456_789 }
    );
}

#[test]
fn test_decode_timestamping() {
    for abi in [lp64(), native()] {
        for order in [ByteOrder::Little, ByteOrder::Big] {
            let payload = timestamps(order, [100, 1, 200, 2, 300, 3]);
            let header = CmsgHeader {
                len: abi.len(TIMESTAMPING_LEN),
                level: abi.sol_socket,
                ty: abi.scm_timestamping,
            };
            assert!(Cmsg::is_decodable(&abi, &header, &payload));
            assert_eq!(
                Cmsg::decode(&abi, order, header, &payload),
                Cmsg::Timestamping(
                    Timespec { tv_sec: 100, tv_nsec: 1 },
                    Timespec { tv_sec: 300, tv_nsec: 3 }
                )
            );
        }
    }
}

#[test]
fn test_decode_other() {
    let abi = lp64();
    let header = CmsgHeader { len: 20, level: 1, ty: 29 };
    assert!(Cmsg::is_decodable(&abi, &header, &[1, 2, 3, 4]));
    assert_eq!(Cmsg::decode(&abi, ByteOrder::Little, header, &[1, 2, 3, 4]), Cmsg::Other(header));
    let header = CmsgHeader { len: 64, level: 101, ty: 37 };
    assert_eq!(Cmsg::decode(&abi, ByteOrder::Little, header, &[0; 48]), Cmsg::Other(header));
}

#[test]
fn test_timestamping_of_wrong_size_is_not_decodable() {
    let abi = lp64();
    let header = CmsgHeader { len: 64, level: 1, ty: 37 };
    assert!(Cmsg::is_decodable(&abi, &header, &[0; 48]));
    assert!(!Cmsg::is_decodable(&abi, &header, &[0; 47]));
    assert!(!Cmsg::is_decodable(&abi, &header, &[0; 32]));
    let header = CmsgHeader { len: 48, level: 1, ty: 37 };
    assert!(!Cmsg::is_decodable(&abi, &header, &[0; 48]));
}

#[test]
fn test_control_intact() {
    let abi = lp64();
    assert!(abi.control_intact(0));
    assert!(abi.control_intact(0x40));
    assert!(!abi.control_intact(8));
    assert!(!abi.control_intact(0x28));
}

#[test]
fn test_iter_yields_each_message_once() {
    let abi = lp64();
    let other = CmsgHeader { len: 20, level: 1, ty: 29 };
    let stamp = CmsgHeader { len: 64, level: 1, ty: 37 };
    let records = vec![
        RawCmsg { header: other, payload: vec![1, 2, 3, 4] },
        RawCmsg {
            header: stamp,
            payload: timestamps(ByteOrder::Little, [10, 11, 20, 21, 30, 31]),
        },
    ];
    let mut iter = CmsgIter::from_raw(abi, ByteOrder::Little, 0, records).unwrap();
    assert_eq!(iter.next(), Some(Cmsg::Other(other)));
    assert_eq!(
        iter.next(),
        Some(Cmsg::Timestamping(
            Timespec { tv_sec: 10, tv_nsec: 11 },
            Timespec { tv_sec: 30, tv_nsec: 31 }
        ))
    );
    assert_eq!(iter.next(), None);
    assert_eq!(iter.next(), None);
}

#[test]
fn test_iter_of_truncated_control_data() {
    let abi = lp64();
    let records = vec![RawCmsg {
        header: CmsgHeader { len: 20, level: 1, ty: 29 },
        payload: vec![1, 2, 3, 4],
    }];
    assert!(CmsgIter::from_raw(abi, ByteOrder::Little, 8, records).is_none());
    let mut empty = CmsgIter::from_raw(abi, ByteOrder::Little, 0, Vec::new()).unwrap();
    assert_eq!(empty.next(), None);
}
