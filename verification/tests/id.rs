use socketcan_alt::sys;
use socketcan_alt::Id;

#[test]
fn test_standard() {
    assert_eq!(Id::Standard(42).into_can_id(), 42);
}

#[test]
fn test_extended() {
    assert_eq!(Id::Extended(4242).into_can_id(), 4242 | sys::CAN_EFF_FLAG);
}

#[test]
fn test_id_round_trip() {
    for &value in &[0u32, 1, 42, 0x7FE, 0x7FF] {
        let id = Id::Standard(value);
        assert!(id.is_valid());
        assert_eq!(Id::from_can_id(id.into_can_id()), id);
    }
    for &value in &[0u32, 1, 0x7FF, 0x800, 4242, 0x1FFF_FFFE, 0x1FFF_FFFF] {
        let id = Id::Extended(value);
        assert!(id.is_valid());
        assert_eq!(Id::from_can_id(id.into_can_id()), id);
    }
}

#[test]
fn test_id_extended_word_is_value_plus_flag() {
    assert_eq!(Id::Extended(4242).into_can_id(), 0x8000_1092);
    assert_eq!(Id::Extended(0).into_can_id(), 0x8000_0000);
    assert_eq!(Id::Extended(0x1FFF_FFFF).into_can_id(), 0x9FFF_FFFF);
}

#[test]
fn test_id_limits() {
    assert_eq!(Id::standard(0x7FF), Some(Id::Standard(0x7FF)));
    assert_eq!(Id::standard(0x800), None);
    assert_eq!(Id::standard(u32::MAX), None);
    assert_eq!(Id::extended(0x1FFF_FFFF), Some(Id::Extended(0x1FFF_FFFF)));
    assert_eq!(Id::extended(0x2000_0000), None);
    assert_eq!(Id::extended(u32::MAX), None);
    assert!(!Id::Standard(0x800).is_valid());
    assert!(!Id::Extended(0x2000_0000).is_valid());
}

#[test]
fn test_from_can_id_drops_flags() {
    assert_eq!(Id::from_can_id(42 | sys::CAN_RTR_FLAG), Id::Standard(42));
    assert_eq!(Id::from_can_id(42 | sys::CAN_ERR_FLAG), Id::Standard(42));
    assert_eq!(
        Id::from_can_id(4242 | sys::CAN_EFF_FLAG | sys::CAN_RTR_FLAG),
        Id::Extended(4242)
    );
    assert_eq!(Id::from_can_id(0x1234_5678), Id::Standard(0x678));
    assert_eq!(Id::from_can_id(0xFFFF_FFFF), Id::Extended(0x1FFF_FFFF));
}
