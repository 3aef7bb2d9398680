use freeradius::address::{Ipv4Address, Ipv6Address};
use freeradius::wire::{read_be_u32, write_be_u32, INTEGER_LEN, IPV6_LEN, MAX_VALUE_LEN};

#[test]
fn lengths_of_values() {
    assert_eq!(MAX_VALUE_LEN, 253);
    assert_eq!(INTEGER_LEN, 4);
    assert_eq!(IPV6_LEN, 16);
}

#[test]
fn big_endian_numbers_are_read() {
    assert_eq!(read_be_u32(&[0, 0, 0, 1]), Some(1));
    assert_eq!(read_be_u32(&[0, 0, 1, 0]), Some(256));
    assert_eq!(read_be_u32(&[0x12, 0x34, 0x56, 0x78]), Some(0x1234_5678));
    assert_eq!(read_be_u32(&[0xff, 0xff, 0xff, 0xff]), Some(u32::MAX));
    assert_eq!(read_be_u32(&[]), None);
    assert_eq!(read_be_u32(&[1, 2, 3]), None);
    assert_eq!(read_be_u32(&[1, 2, 3, 4, 5]), None);
}

#[test]
fn big_endian_numbers_are_written() {
    assert_eq!(write_be_u32(1), vec![0, 0, 0, 1]);
    assert_eq!(write_be_u32(0x1234_5678), vec![0x12, 0x34, 0x56, 0x78]);
    assert_eq!(write_be_u32(u32::MAX), vec![0xff, 0xff, 0xff, 0xff]);
    assert_eq!(write_be_u32(0), vec![0, 0, 0, 0]);
}

#[test]
fn big_endian_round_trip() {
    for n in [0u32, 1, 255, 256, 65535, 65536, 0x00ff_ffff, 0x0100_0000, 0x8000_0000, u32::MAX] {
        assert_eq!(read_be_u32(&write_be_u32(n)), Some(n));
    }
}

#[test]
fn ipv4_address_from_and_to_bytes() {
    let address = Ipv4Address::from_bytes(&[192, 0, 2, 1]).unwrap();
    assert_eq!(address, Ipv4Address::new(192, 0, 2, 1));
    assert_eq!(address.octets, [192, 0, 2, 1]);
    assert_eq!(address.to_vec(), vec![192, 0, 2, 1]);
    assert_eq!(address.to_u32(), 0xc000_0201);
    assert_eq!(Ipv4Address::from_u32(0xc000_0201), address);
    assert_eq!(Ipv4Address::from_bytes(&[192, 0, 2]), None);
    assert_eq!(Ipv4Address::from_bytes(&[192, 0, 2, 1, 1]), None);
}

#[test]
fn ipv6_address_from_and_to_bytes() {
    let octets: [u8; 16] = [1, 2, 3, 4, 5, 6, 7, 8, 9, 10, 11, 12, 13, 14, 15, 16];
    let address = Ipv6Address::from_bytes(&octets).unwrap();
    assert_eq!(address, Ipv6Address::new(octets));
    assert_eq!(address.octets, octets);
    assert_eq!(address.to_vec(), octets.to_vec());
    assert_eq!(Ipv6Address::from_bytes(&octets[..15]), None);
    assert_eq!(Ipv6Address::from_bytes(&[0; 17]), None);
}
