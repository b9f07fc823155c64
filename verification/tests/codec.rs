use vrp8::bytes::{i16_from_le, i16_to_le};
use vrp8::input::{ControllerButtons, ControllerFlags, HMDInterface, GPIO_BLOCK_LEN};

#[test]
fn i16_little_endian_values() {
    assert_eq!(i16_to_le(150), (150, 0));
    assert_eq!(i16_to_le(-1), (0xff, 0xff));
    assert_eq!(i16_to_le(-360), (0x98, 0xfe));
    assert_eq!(i16_to_le(i16::MIN), (0x00, 0x80));
    assert_eq!(i16_from_le(0x98, 0xfe), -360);
    assert_eq!(i16_from_le(0xff, 0x7f), i16::MAX);
}

#[test]
fn i16_roundtrip_all_values() {
    for x in i16::MIN..=i16::MAX {
        let (lo, hi) = i16_to_le(x);
        assert_eq!(i16_from_le(lo, hi), x);
    }
}

#[test]
fn default_interface_is_zero_block() {
    let h = HMDInterface::default();
    assert_eq!(h.to_gpio_bytes(), vec![0u8; GPIO_BLOCK_LEN]);
}

#[test]
fn placeholder_poses_layout() {
    let mut h = HMDInterface::default();
    h.left_rumble = 7;
    h.apply_placeholder_poses();
    assert_eq!(h.hmd_y, 150);
    assert_eq!(h.left_x, -10);
    assert_eq!(h.right_yaw, 360);
    assert_eq!(h.left_rumble, 7);
    let b = h.to_gpio_bytes();
    assert_eq!(b.len(), 52);
    assert_eq!(b[14], 7);
    // hmd_y at bytes 18..20
    assert_eq!((b[18], b[19]), (150, 0));
    // left_x at bytes 28..30
    assert_eq!((b[28], b[29]), (0xf6, 0xff));
    // right_pitch at bytes 48..50
    assert_eq!((b[48], b[49]), (0x68, 0x01));
}

#[test]
fn gpio_roundtrip() {
    let mut bytes: Vec<u8> = (0..52u8).map(|i| i.wrapping_mul(37)).collect();
    let h = HMDInterface::from_gpio_bytes(&bytes).unwrap();
    assert_eq!(h.buttons.bits, bytes[1]);
    assert_eq!(h.left_trigger, bytes[2]);
    assert_eq!(h.right_rumble, bytes[15]);
    assert_eq!(h.left_stick_x, i16::from_le_bytes([bytes[6], bytes[7]]));
    assert_eq!(h.right_roll, i16::from_le_bytes([bytes[50], bytes[51]]));
    bytes[0] = 0;
    assert_eq!(h.to_gpio_bytes(), bytes);
    assert_eq!(HMDInterface::from_gpio_bytes(&h.to_gpio_bytes()), Some(h));
}

#[test]
fn gpio_wrong_length() {
    assert_eq!(HMDInterface::from_gpio_bytes(&[0u8; 51]), None);
    assert_eq!(HMDInterface::from_gpio_bytes(&[0u8; 53]), None);
    assert_eq!(HMDInterface::from_gpio_bytes(&[]), None);
}

#[test]
fn buttons_insert_remove() {
    let mut b = ControllerButtons::empty();
    assert!(!b.contains(ControllerButtons::a()));
    b.insert(ControllerButtons::a());
    b.insert(ControllerButtons::left_menu());
    assert_eq!(b.bits, 0b0100_0001);
    assert!(b.contains(ControllerButtons::a()));
    assert!(!b.contains(ControllerButtons::b()));
    b.remove(ControllerButtons::a());
    assert!(!b.contains(ControllerButtons::a()));
    assert!(b.contains(ControllerButtons::left_menu()));
    assert_eq!(ControllerButtons::a().bits, 1);
    assert_eq!(ControllerButtons::b().bits, 2);
    assert_eq!(ControllerButtons::x().bits, 4);
    assert_eq!(ControllerButtons::y().bits, 8);
    assert_eq!(ControllerButtons::left_stick().bits, 16);
    assert_eq!(ControllerButtons::right_stick().bits, 32);
    assert_eq!(ControllerButtons::left_menu().bits, 64);
    assert_eq!(ControllerButtons::right_menu().bits, 128);
}

#[test]
fn controller_flags() {
    let mut f = ControllerFlags::empty();
    f.insert(ControllerFlags::connected());
    assert!(f.contains(ControllerFlags::connected()));
    assert!(!f.contains(ControllerFlags::has_rumble()));
    assert_eq!(ControllerFlags::has_rumble().bits, 2);
}

#[test]
fn buttons_byte_in_gpio_block() {
    let mut h = HMDInterface::default();
    h.buttons.insert(ControllerButtons::b());
    h.buttons.insert(ControllerButtons::right_menu());
    assert_eq!(h.to_gpio_bytes()[1], 0b1000_0010);
}
