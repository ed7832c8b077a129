use efi_loader::memory_map::{
    EFIMemoryType, MemoryMap, MemoryMapVisitor, DESCRIPTOR_SIZE, MEMORY_MAP_SIZE,
};

fn put_descriptor(buf: &mut [u8], off: usize, typ: u32, phys: u64, virt: u64, pages: u64, attr: u64) {
    buf[off..off + 4].copy_from_slice(&typ.to_le_bytes());
    buf[off + 8..off + 16].copy_from_slice(&phys.to_le_bytes());
    buf[off + 16..off + 24].copy_from_slice(&virt.to_le_bytes());
    buf[off + 24..off + 32].copy_from_slice(&pages.to_le_bytes());
    buf[off + 32..off + 40].copy_from_slice(&attr.to_le_bytes());
}

#[test]
fn capacity_and_minimum_record_size() {
    assert_eq!(MEMORY_MAP_SIZE, 16384);
    assert_eq!(DESCRIPTOR_SIZE, 40);
}

#[test]
fn three_descriptors_of_stride_48_in_order() {
    // Stride 48 leaves eight spare bytes after each 40-byte record.
    let mut buf = vec![0u8; 144];
    put_descriptor(&mut buf, 0, 7, 0x1000, 0, 16, 0xF);
    put_descriptor(&mut buf, 48, 1, 0x2000, 0, 8, 0x7);
    put_descriptor(&mut buf, 96, 9, 0x3000, 0, 4, 0x1);
    let map = MemoryMap { size: 144, buf, map_key: 42, descriptor_size: 48, version: 1 };
    let descriptors = map.descriptors();
    assert_eq!(descriptors.len(), 3);
    assert_eq!(descriptors[0].typ, EFIMemoryType::ConventionalMemory);
    assert_eq!(descriptors[1].typ, EFIMemoryType::LoaderCode);
    assert_eq!(descriptors[2].typ, EFIMemoryType::ACPIReclaimMemory);
}

#[test]
fn descriptor_fields_read_at_their_offsets() {
    let mut buf = vec![0u8; 40];
    put_descriptor(&mut buf, 0, 7, 0xDEAD_BEEF_0000, 0x40, 123, 0x8000_0000_0000_000F);
    let map = MemoryMap { size: 40, buf, map_key: 0, descriptor_size: 40, version: 1 };
    let descriptors = map.descriptors();
    assert_eq!(descriptors.len(), 1);
    let d = descriptors[0];
    assert_eq!(d.typ, EFIMemoryType::ConventionalMemory);
    assert_eq!(d.physical_address, 0xDEAD_BEEF_0000);
    assert_eq!(d.virtual_start, 0x40);
    assert_eq!(d.number_of_pages, 123);
    assert_eq!(d.attribute, 0x8000_0000_0000_000F);
}

#[test]
fn empty_snapshot_yields_no_descriptors() {
    let map = MemoryMap { size: 0, buf: Vec::new(), map_key: 0, descriptor_size: 48, version: 1 };
    assert_eq!(map.descriptors().len(), 0);
    let mut visitor = MemoryMapVisitor::new(&map);
    assert!(visitor.next().is_none());
}

#[test]
fn empty_snapshot_with_zero_stride_yields_none() {
    // The pre-population default geometry: nothing populated, stride still
    // zero.  Enumeration needs no stride to yield nothing.
    let mut map = MemoryMap::default();
    map.size = 0;
    assert_eq!(map.descriptors().len(), 0);
    let mut visitor = MemoryMapVisitor::new(&map);
    assert!(visitor.next().is_none());
    assert!(visitor.next().is_none());
}

#[test]
fn visitor_walks_by_stride_then_stops() {
    let mut buf = vec![0u8; 96];
    put_descriptor(&mut buf, 0, 2, 0xA000, 0, 1, 0);
    put_descriptor(&mut buf, 48, 3, 0xB000, 0, 2, 0);
    let map = MemoryMap { size: 96, buf, map_key: 0, descriptor_size: 48, version: 1 };
    let mut visitor = MemoryMapVisitor::new(&map);
    assert!(visitor.has_next());
    let first = visitor.next().unwrap();
    assert_eq!(first.typ, EFIMemoryType::LoaderData);
    assert_eq!(first.physical_address, 0xA000);
    let second = visitor.next().unwrap();
    assert_eq!(second.typ, EFIMemoryType::BootServicesCode);
    assert_eq!(second.physical_address, 0xB000);
    assert!(!visitor.has_next());
    assert!(visitor.next().is_none());
}

#[test]
fn memory_type_ordinals_match_the_specification() {
    assert_eq!(EFIMemoryType::from_u32(0), Some(EFIMemoryType::ReservedMemoryType));
    assert_eq!(EFIMemoryType::from_u32(7), Some(EFIMemoryType::ConventionalMemory));
    assert_eq!(EFIMemoryType::from_u32(14), Some(EFIMemoryType::PersistentMemory));
    assert_eq!(EFIMemoryType::from_u32(16), Some(EFIMemoryType::MaxMemoryType));
    assert_eq!(EFIMemoryType::from_u32(17), None);
    assert_eq!(EFIMemoryType::from_u32(0x8000_0000), None);
    assert_eq!(EFIMemoryType::ConventionalMemory.as_u32(), 7);
    assert_eq!(EFIMemoryType::UnacceptedMemoryType.as_u32(), 15);
}

#[test]
fn default_snapshot_offers_full_capacity() {
    let map = MemoryMap::default();
    assert_eq!(map.size, MEMORY_MAP_SIZE);
    assert_eq!(map.buf.len(), MEMORY_MAP_SIZE);
    assert!(map.buf.iter().all(|b| *b == 0));
    assert_eq!(map.map_key, 0);
    assert_eq!(map.descriptor_size, 0);
    assert_eq!(map.version, 0);
}
