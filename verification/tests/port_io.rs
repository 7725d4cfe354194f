use coquelicot_hal::io::{Port, PortSpace};

#[test]
fn round_trip_u8() {
    let mut space = PortSpace::new();
    let port: Port<u8> = Port::new(0x80);
    port.write(&mut space, 0xAB);
    assert_eq!(port.read(&space), 0xAB);
}

#[test]
fn round_trip_u16() {
    let mut space = PortSpace::new();
    let port: Port<u16> = Port::new(0x1F0);
    port.write(&mut space, 0xBEEF);
    assert_eq!(port.read(&space), 0xBEEF);
}

#[test]
fn round_trip_u32() {
    let mut space = PortSpace::new();
    let port: Port<u32> = Port::new(0xCF8);
    port.write(&mut space, 0xDEAD_BEEF);
    assert_eq!(port.read(&space), 0xDEAD_BEEF);
}

#[test]
fn fresh_space_reads_zero() {
    let space = PortSpace::new();
    let port: Port<u32> = Port::new(0xFFFF);
    assert_eq!(port.read(&space), 0);
}

#[test]
fn narrow_read_takes_low_byte() {
    let mut space = PortSpace::new();
    let wide: Port<u32> = Port::new(0x3F8);
    wide.write(&mut space, 0x1234_5678);
    let narrow: Port<u8> = Port::new(0x3F8);
    assert_eq!(narrow.read(&space), 0x78);
}

#[test]
fn ports_do_not_alias() {
    let mut space = PortSpace::new();
    let a: Port<u8> = Port::new(0x20);
    let b: Port<u8> = Port::new(0x21);
    a.write(&mut space, 1);
    b.write(&mut space, 2);
    assert_eq!(a.read(&space), 1);
    assert_eq!(b.read(&space), 2);
}
