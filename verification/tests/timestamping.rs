use socketcan_alt::timestamping::ALL_BITS;
use socketcan_alt::Timestamping;

#[test]
fn test_flag_bits_match_libc() {
    assert_eq!(Timestamping::TX_HARDWARE as u32, libc::SOF_TIMESTAMPING_TX_HARDWARE);
    assert_eq!(Timestamping::TX_SOFTWARE as u32, libc::SOF_TIMESTAMPING_TX_SOFTWARE);
    assert_eq!(Timestamping::RX_HARDWARE as u32, libc::SOF_TIMESTAMPING_RX_HARDWARE);
    assert_eq!(Timestamping::RX_SOFTWARE as u32, libc::SOF_TIMESTAMPING_RX_SOFTWARE);
    assert_eq!(Timestamping::SOFTWARE as u32, libc::SOF_TIMESTAMPING_SOFTWARE);
    assert_eq!(Timestamping::SYS_HARDWARE as u32, libc::SOF_TIMESTAMPING_SYS_HARDWARE);
    assert_eq!(Timestamping::RAW_HARDWARE as u32, libc::SOF_TIMESTAMPING_RAW_HARDWARE);
    assert_eq!(Timestamping::OPT_ID as u32, libc::SOF_TIMESTAMPING_OPT_ID);
    assert_eq!(Timestamping::TX_SCHED as u32, libc::SOF_TIMESTAMPING_TX_SCHED);
    assert_eq!(Timestamping::TX_ACK as u32, libc::SOF_TIMESTAMPING_TX_ACK);
    assert_eq!(Timestamping::OPT_CMSG as u32, libc::SOF_TIMESTAMPING_OPT_CMSG);
    assert_eq!(Timestamping::OPT_TSONLY as u32, libc::SOF_TIMESTAMPING_OPT_TSONLY);
    assert_eq!(Timestamping::OPT_STATS as u32, libc::SOF_TIMESTAMPING_OPT_STATS);
    assert_eq!(Timestamping::OPT_PKTINFO as u32, libc::SOF_TIMESTAMPING_OPT_PKTINFO);
    assert_eq!(Timestamping::OPT_TX_SWHW as u32, libc::SOF_TIMESTAMPING_OPT_TX_SWHW);
}

#[test]
fn test_single_flags() {
    let all = [
        Timestamping::tx_hardware(),
        Timestamping::tx_software(),
        Timestamping::rx_hardware(),
        Timestamping::rx_software(),
        Timestamping::software(),
        Timestamping::sys_hardware(),
        Timestamping::raw_hardware(),
        Timestamping::opt_id(),
        Timestamping::tx_sched(),
        Timestamping::tx_ack(),
        Timestamping::opt_cmsg(),
        Timestamping::opt_tsonly(),
        Timestamping::opt_stats(),
        Timestamping::opt_pktinfo(),
        Timestamping::opt_tx_swhw(),
    ];
    let mut union = Timestamping::empty();
    for (i, flag) in all.iter().enumerate() {
        assert_eq!(flag.bits(), 1 << i);
        assert!(!union.contains(*flag));
        union = union.union(*flag);
        assert!(union.contains(*flag));
    }
    assert_eq!(union, Timestamping::all());
    assert_eq!(union.bits(), ALL_BITS);
    assert_eq!(ALL_BITS, 0x7FFF);
}

#[test]
fn test_set_operations() {
    let a = Timestamping::rx_software().union(Timestamping::software());
    assert_eq!(a.bits(), 0x18);
    assert!(a.contains(Timestamping::software()));
    assert!(!a.contains(Timestamping::raw_hardware()));
    assert!(a.contains(Timestamping::empty()));
    let b = Timestamping::software().union(Timestamping::raw_hardware());
    assert_eq!(a.intersection(b), Timestamping::software());
    assert!(a.intersection(Timestamping::tx_ack()).is_empty());
    assert!(Timestamping::empty().is_empty());
    assert!(!a.is_empty());
}

#[test]
fn test_from_bits() {
    assert_eq!(Timestamping::from_bits(0), Some(Timestamping::empty()));
    assert_eq!(Timestamping::from_bits(0x18).map(|t| t.bits()), Some(0x18));
    assert_eq!(Timestamping::from_bits(0x7FFF), Some(Timestamping::all()));
    assert_eq!(Timestamping::from_bits(0x8000), None);
    assert_eq!(Timestamping::from_bits(-1), None);
    assert_eq!(Timestamping::from_bits_truncate(-1), Timestamping::all());
    assert_eq!(Timestamping::from_bits_truncate(0x1_0010).bits(), 0x10);
}
