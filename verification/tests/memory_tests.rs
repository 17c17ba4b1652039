use vmm_core::memory::{DataInit, GuestAddress, GuestMemory, GuestMemoryError};

#[test]
fn test_regions_must_be_ordered_and_disjoint() {
    assert_eq!(
        GuestMemory::new(&vec![]).err(),
        Some(GuestMemoryError::NoMemoryRegions)
    );
    // overlapping regions
    assert_eq!(
        GuestMemory::new(&vec![(GuestAddress(0), 0x2000), (GuestAddress(0x1000), 0x1000)]).err(),
        Some(GuestMemoryError::MemoryRegionOverlap)
    );
    // adjacent regions are fine
    let m = GuestMemory::new(&vec![(GuestAddress(0), 0x1000), (GuestAddress(0x1000), 0x1000)])
        .unwrap();
    assert_eq!(m.num_regions(), 2);
}

#[test]
fn test_write_read_round_trip() {
    // Writing an object to guest memory then reading the same address
    // returns the object, for each supported width.
    let mut m = GuestMemory::new(&vec![(GuestAddress(0x100), 0x100)]).unwrap();

    m.write_obj_at_addr(0xAAu8, GuestAddress(0x100)).unwrap();
    assert_eq!(m.read_obj_from_addr::<u8>(GuestAddress(0x100)).unwrap(), 0xAA);

    m.write_obj_at_addr(0x1234u16, GuestAddress(0x110)).unwrap();
    assert_eq!(m.read_obj_from_addr::<u16>(GuestAddress(0x110)).unwrap(), 0x1234);

    m.write_obj_at_addr(0x1122_3344u32, GuestAddress(0x120)).unwrap();
    assert_eq!(
        m.read_obj_from_addr::<u32>(GuestAddress(0x120)).unwrap(),
        0x1122_3344
    );

    m.write_obj_at_addr(0x0102_0304_0506_0708u64, GuestAddress(0x130)).unwrap();
    assert_eq!(
        m.read_obj_from_addr::<u64>(GuestAddress(0x130)).unwrap(),
        0x0102_0304_0506_0708
    );
}

#[test]
fn test_little_endian_layout() {
    let mut m = GuestMemory::new(&vec![(GuestAddress(0), 0x100)]).unwrap();
    m.write_obj_at_addr(0x1122_3344u32, GuestAddress(0x10)).unwrap();
    // least significant byte first
    assert_eq!(m.read_obj_from_addr::<u8>(GuestAddress(0x10)).unwrap(), 0x44);
    assert_eq!(m.read_obj_from_addr::<u8>(GuestAddress(0x11)).unwrap(), 0x33);
    assert_eq!(m.read_obj_from_addr::<u8>(GuestAddress(0x12)).unwrap(), 0x22);
    assert_eq!(m.read_obj_from_addr::<u8>(GuestAddress(0x13)).unwrap(), 0x11);
}

#[test]
fn test_access_outside_regions_is_refused() {
    let mut m = GuestMemory::new(&vec![(GuestAddress(0x100), 0x10)]).unwrap();
    assert_eq!(
        m.write_obj_at_addr(1u8, GuestAddress(0xff)).err(),
        Some(GuestMemoryError::InvalidGuestAddress)
    );
    // an access straddling the end of a region is refused too
    assert_eq!(
        m.write_obj_at_addr(1u32, GuestAddress(0x10d)).err(),
        Some(GuestMemoryError::InvalidGuestAddress)
    );
    assert_eq!(
        m.read_obj_from_addr::<u64>(GuestAddress(0x10c)).err(),
        Some(GuestMemoryError::InvalidGuestAddress)
    );
    // the last in-bounds spots work
    assert!(m.write_obj_at_addr(7u8, GuestAddress(0x10f)).is_ok());
    assert!(m.write_obj_at_addr(7u32, GuestAddress(0x10c)).is_ok());
}

#[test]
fn test_byte_serialization() {
    assert_eq!(0xABu8.to_bytes(), vec![0xAB]);
    assert_eq!(0x1234u16.to_bytes(), vec![0x34, 0x12]);
    assert_eq!(0x1122_3344u32.to_bytes(), vec![0x44, 0x33, 0x22, 0x11]);
    assert_eq!(u16::from_bytes(&[0x34, 0x12]), 0x1234);
    assert_eq!(u64::from_bytes(&[1, 2, 3, 4, 5, 6, 7, 8]), 0x0807_0605_0403_0201);
}
