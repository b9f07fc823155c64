use vrp8::constants::{P8_GPIO, P8_UPPER};
use vrp8::error::{check_prerequisites, Error};
use vrp8::magic::{find_magic, is_magic, magic_bytes, RuntimeLayout};
use vrp8::memory_map::{parse_region, MemoryRegion};

#[test]
fn magic_spells_marker() {
    assert_eq!(&magic_bytes(), b"omgVRonPICO8!Wow");
    assert!(is_magic(b"omgVRonPICO8!Wow"));
    assert!(!is_magic(b"omgVRonPICO8!Wox"));
    assert!(!is_magic(b"omgVRonPICO8!Wo"));
}

#[test]
fn find_magic_first_offset() {
    let mut region = vec![0u8; 100];
    assert_eq!(find_magic(&region), None);
    region[40..56].copy_from_slice(b"omgVRonPICO8!Wow");
    region[70..86].copy_from_slice(b"omgVRonPICO8!Wow");
    assert_eq!(find_magic(&region), Some(40));
    assert_eq!(find_magic(b"omgVRonPICO8!Wow"), Some(0));
    assert_eq!(find_magic(b"omgVRon"), None);
    let mut tail = vec![1u8; 20];
    tail[4..].copy_from_slice(b"omgVRonPICO8!Wow");
    assert_eq!(find_magic(&tail), Some(4));
}

#[test]
fn layout_from_gpio_address() {
    let l = RuntimeLayout::from_gpio_address(0x1000_0000 + P8_GPIO).unwrap();
    assert_eq!(l.gpio, 0x1000_0000 + P8_GPIO);
    assert_eq!(l.upper, 0x1000_0000 + P8_UPPER);
    assert_eq!(RuntimeLayout::from_gpio_address(P8_GPIO - 1), None);
    assert_eq!(RuntimeLayout::from_gpio_address(P8_GPIO).unwrap().upper, P8_UPPER);
    assert_eq!(RuntimeLayout::from_gpio_address(usize::MAX), None);
}

#[test]
fn parse_maps_lines() {
    assert_eq!(
        parse_region(b"55d0c2a00000-55d0c2a21000 rw-p 00000000 00:00 0 [heap]"),
        Some(MemoryRegion { start: 0x55d0c2a00000, end: 0x55d0c2a21000, readable: true })
    );
    assert_eq!(
        parse_region(b"7fFF0-7FFFF ---p 0 0:0 0"),
        Some(MemoryRegion { start: 0x7fff0, end: 0x7ffff, readable: false })
    );
    assert_eq!(parse_region(b"-1000 r--p"), None);
    assert_eq!(parse_region(b"1000-2000"), None);
    assert_eq!(parse_region(b"1000 2000 r"), None);
    assert_eq!(parse_region(b"1000- r--p"), None);
    assert_eq!(parse_region(b"1ffffffffffffffff-2 r--p"), None);
    assert_eq!(parse_region(b""), None);
}

#[test]
fn prerequisites() {
    assert_eq!(check_prerequisites(true), Ok(()));
    assert_eq!(check_prerequisites(false), Err(Error::MissingPrerequisites));
    assert_eq!(Error::MissingPrerequisites.message(), "Missing prerequisites");
    assert_eq!(Error::KilledByCtrlC.message(), "Killed by Ctrl-C");
}

#[test]
fn searchable_regions() {
    assert!(MemoryRegion { start: 0x1000, end: 0x2000, readable: true }.is_searchable());
    assert!(!MemoryRegion { start: 0x1000, end: 0x2000, readable: false }.is_searchable());
    assert!(!MemoryRegion { start: 0x2000, end: 0x2000, readable: true }.is_searchable());
}
