use efi_loader::boot_services::{
    EFIBootServices, FirmwareMapReport, BOOT_SERVICES_TABLE_SIZE, GET_MEMORY_MAP_OFFSET,
    LOCATE_PROTOCOL_OFFSET,
};
use efi_loader::graphics::{EFIGraphicsOutputProtocol, EFIGraphicsOutputProtocolMode};
use efi_loader::header::EFITableHeader;
use efi_loader::memory_map::MEMORY_MAP_SIZE;
use efi_loader::status::{EFIError, EFIStatus};

fn services() -> EFIBootServices {
    EFIBootServices {
        header: EFITableHeader { signature: 0, revision: 0, size: 0, crc32: 0 },
        get_memory_map_handle: 0,
        locate_protocol_handle: 0,
    }
}

fn put_descriptor(buf: &mut [u8], off: usize, typ: u32, phys: u64, pages: u64) {
    buf[off..off + 4].copy_from_slice(&typ.to_le_bytes());
    buf[off + 8..off + 16].copy_from_slice(&phys.to_le_bytes());
    buf[off + 24..off + 32].copy_from_slice(&pages.to_le_bytes());
}

fn good_report() -> FirmwareMapReport {
    let mut data = vec![0u8; 96];
    put_descriptor(&mut data, 0, 7, 0x1000, 16);
    put_descriptor(&mut data, 48, 1, 0x2000, 8);
    FirmwareMapReport {
        status: EFIStatus(0),
        buffer_size: 96,
        map_key: 9,
        descriptor_size: 48,
        version: 1,
        data,
    }
}

#[test]
fn successful_report_becomes_a_snapshot() {
    let map = services().get_memory_map(good_report()).unwrap();
    assert_eq!(map.size, 96);
    assert_eq!(map.map_key, 9);
    assert_eq!(map.descriptor_size, 48);
    assert_eq!(map.version, 1);
    assert_eq!(map.descriptors().len(), 2);
}

#[test]
fn oversized_report_is_capacity_exceeded() {
    let mut report = good_report();
    report.buffer_size = MEMORY_MAP_SIZE + 1;
    assert_eq!(
        services().get_memory_map(report).unwrap_err(),
        EFIError::CapacityExceeded(MEMORY_MAP_SIZE + 1)
    );
}

#[test]
fn failed_status_propagates_its_word() {
    let mut report = good_report();
    report.status = EFIStatus(0x8000_0000_0000_0005);
    assert_eq!(
        services().get_memory_map(report).unwrap_err(),
        EFIError::FirmwareCall(EFIStatus(0x8000_0000_0000_0005))
    );
}

#[test]
fn undersized_stride_is_malformed() {
    let mut report = good_report();
    report.descriptor_size = 16;
    assert_eq!(services().get_memory_map(report).unwrap_err(), EFIError::MalformedMap);
}

#[test]
fn ragged_extent_is_malformed() {
    let mut report = good_report();
    report.buffer_size = 95;
    assert_eq!(services().get_memory_map(report).unwrap_err(), EFIError::MalformedMap);
}

#[test]
fn short_data_is_malformed() {
    let mut report = good_report();
    report.data.truncate(40);
    assert_eq!(services().get_memory_map(report).unwrap_err(), EFIError::MalformedMap);
}

#[test]
fn undefined_classification_is_malformed() {
    let mut report = good_report();
    report.data[48..52].copy_from_slice(&99u32.to_le_bytes());
    assert_eq!(services().get_memory_map(report).unwrap_err(), EFIError::MalformedMap);
}

fn graphics_instance() -> EFIGraphicsOutputProtocol {
    EFIGraphicsOutputProtocol {
        mode: EFIGraphicsOutputProtocolMode {
            max_mode: 4,
            mode: 1,
            info_handle: 0,
            info_size: 0,
            frame_buffer_base: 0x8000_0000,
            frame_buffer_size: 0x20_0000,
        },
    }
}

#[test]
fn located_protocol_is_returned() {
    let found = services()
        .locate_protocol(EFIStatus(0), Some(graphics_instance()))
        .unwrap();
    assert_eq!(found.mode.frame_buffer_base, 0x8000_0000);
    assert_eq!(found.mode.frame_buffer_size, 0x20_0000);
}

#[test]
fn null_lookup_is_protocol_not_found() {
    let r = services().locate_protocol::<EFIGraphicsOutputProtocol>(EFIStatus(0), None);
    assert_eq!(r, Err(EFIError::ProtocolNotFound));
}

#[test]
fn failed_lookup_is_protocol_not_found() {
    let r = services().locate_protocol(EFIStatus(14), Some(graphics_instance()));
    assert_eq!(r, Err(EFIError::ProtocolNotFound));
}

#[test]
fn boot_services_binding_reads_dispatch_slots() {
    assert_eq!(GET_MEMORY_MAP_OFFSET, 56);
    assert_eq!(LOCATE_PROTOCOL_OFFSET, 320);
    let mut img = vec![0u8; BOOT_SERVICES_TABLE_SIZE];
    img[0..8].copy_from_slice(&0x5652_4553_544F_4F42u64.to_le_bytes());
    img[56..64].copy_from_slice(&0xAAAA_BBBB_CCCC_DDDDu64.to_le_bytes());
    img[320..328].copy_from_slice(&0x1234_5678_9ABC_DEF0u64.to_le_bytes());
    let services = EFIBootServices::from_image(&img);
    assert_eq!(services.header.signature, 0x5652_4553_544F_4F42);
    assert_eq!(services.get_memory_map_handle, 0xAAAA_BBBB_CCCC_DDDD);
    assert_eq!(services.locate_protocol_handle, 0x1234_5678_9ABC_DEF0);
}
