//! The root system table binding.
//!
//! The system table is the firmware's entry structure: its common header,
//! the firmware vendor's wide string, and the handles of the console output
//! service and the boot services table, each at an ABI-fixed byte offset.
//! An image constructor builds the same layout back from field values; its
//! contract together with the readers' is the round trip that pins every
//! offset down.

use vstd::prelude::*;

verus! {

use crate::bytes_le::{le_u32_at, le_u64_at, read_u32_at, read_u64_at, write_u32_at, write_u64_at,
    zero_vec};
use crate::boot_services::EFIBootServices;
use crate::console::{EFISimpleTextOutputProtocol, EFISimpleTextWriter, GlobalWriter};
use crate::header::{spec_parse_header, EFITableHeader, CRC32_OFFSET, REVISION_OFFSET,
    SIGNATURE_OFFSET, SIZE_OFFSET};
use crate::wide_text::CChar;

/// Byte offset of the firmware-vendor string handle within the system
/// table, mandated by the firmware ABI.
pub const FIRMWARE_VENDOR_OFFSET: usize = 24;

/// Byte offset of the firmware revision word within the system table,
/// mandated by the firmware ABI.
pub const FIRMWARE_REVISION_OFFSET: usize = 32;

/// Byte offset of the console-output handle within the system table,
/// mandated by the firmware ABI.
pub const CON_OUT_OFFSET: usize = 64;

/// Byte offset of the boot-services handle within the system table,
/// mandated by the firmware ABI.
pub const BOOT_SERVICES_OFFSET: usize = 96;

/// Bytes of the system table this binding reads.
pub const SYSTEM_TABLE_SIZE: usize = 104;

/// The decoded root table: header, vendor string, and the two service
/// bindings the loader follows out of it.
#[derive(Debug)]
pub struct EFISystemTable {
    /// The table's common header.
    pub header: EFITableHeader,
    /// The firmware vendor's name, a null-terminated wide string.
    pub firmware_vendor: CChar,
    /// Firmware revision word.
    pub firmware_revision: u32,
    /// The console output service the table points to (table byte 64).
    pub con_out: EFISimpleTextOutputProtocol,
    /// The boot services table the table points to (table byte 96).
    pub boot_services: EFIBootServices,
}

impl EFISystemTable {
    /// The firmware-vendor string handle stored in a system table image.
    pub fn read_firmware_vendor_ptr(img: &[u8]) -> (r: u64)
        requires
            img@.len() >= SYSTEM_TABLE_SIZE,
        ensures
            r == le_u64_at(img@, FIRMWARE_VENDOR_OFFSET as int),
    {
        read_u64_at(img, FIRMWARE_VENDOR_OFFSET)
    }

    /// The firmware revision word stored in a system table image.
    pub fn read_firmware_revision(img: &[u8]) -> (r: u32)
        requires
            img@.len() >= SYSTEM_TABLE_SIZE,
        ensures
            r == le_u32_at(img@, FIRMWARE_REVISION_OFFSET as int),
    {
        read_u32_at(img, FIRMWARE_REVISION_OFFSET)
    }

    /// The console-output handle stored in a system table image.
    pub fn read_con_out_ptr(img: &[u8]) -> (r: u64)
        requires
            img@.len() >= SYSTEM_TABLE_SIZE,
        ensures
            r == le_u64_at(img@, CON_OUT_OFFSET as int),
    {
        read_u64_at(img, CON_OUT_OFFSET)
    }

    /// The boot-services handle stored in a system table image.
    pub fn read_boot_services_ptr(img: &[u8]) -> (r: u64)
        requires
            img@.len() >= SYSTEM_TABLE_SIZE,
        ensures
            r == le_u64_at(img@, BOOT_SERVICES_OFFSET as int),
    {
        read_u64_at(img, BOOT_SERVICES_OFFSET)
    }

    /// Bind the decoded table: the header and revision read from the table
    /// image, and the already-bound vendor string and services the image's
    /// handles point at.
    pub fn from_image(
        img: &[u8],
        firmware_vendor: CChar,
        con_out: EFISimpleTextOutputProtocol,
        boot_services: EFIBootServices,
    ) -> (r: EFISystemTable)
        requires
            img@.len() >= SYSTEM_TABLE_SIZE,
            firmware_vendor.wf(),
        ensures
            r.header == spec_parse_header(img@),
            r.firmware_revision == le_u32_at(img@, FIRMWARE_REVISION_OFFSET as int),
            r.firmware_vendor == firmware_vendor,
            r.con_out == con_out,
            r.boot_services == boot_services,
    {
        EFISystemTable {
            header: EFITableHeader::parse(img),
            firmware_vendor,
            firmware_revision: read_u32_at(img, FIRMWARE_REVISION_OFFSET),
            con_out,
            boot_services,
        }
    }
}

/// Law: building a system table image from known field values and reading
/// it back through the binding's accessors returns exactly those values,
/// each at its mandated offset — the round trip over the documented layout.
pub fn make_system_table_image(
    header: EFITableHeader,
    firmware_vendor_ptr: u64,
    firmware_revision: u32,
    con_out_ptr: u64,
    boot_services_ptr: u64,
) -> (img: Vec<u8>)
    ensures
        img@.len() == SYSTEM_TABLE_SIZE,
        spec_parse_header(img@) == header,
        le_u64_at(img@, FIRMWARE_VENDOR_OFFSET as int) == firmware_vendor_ptr,
        le_u32_at(img@, FIRMWARE_REVISION_OFFSET as int) == firmware_revision,
        le_u64_at(img@, CON_OUT_OFFSET as int) == con_out_ptr,
        le_u64_at(img@, BOOT_SERVICES_OFFSET as int) == boot_services_ptr,
{
    let mut img = zero_vec(SYSTEM_TABLE_SIZE);
    write_u64_at(&mut img, SIGNATURE_OFFSET, header.signature);
    let ghost s_signature = img@;
    write_u32_at(&mut img, REVISION_OFFSET, header.revision);
    let ghost s_revision = img@;
    write_u32_at(&mut img, SIZE_OFFSET, header.size);
    let ghost s_size = img@;
    write_u32_at(&mut img, CRC32_OFFSET, header.crc32);
    let ghost s_crc = img@;
    write_u64_at(&mut img, FIRMWARE_VENDOR_OFFSET, firmware_vendor_ptr);
    let ghost s_vendor = img@;
    write_u32_at(&mut img, FIRMWARE_REVISION_OFFSET, firmware_revision);
    let ghost s_fwrev = img@;
    write_u64_at(&mut img, CON_OUT_OFFSET, con_out_ptr);
    let ghost s_conout = img@;
    write_u64_at(&mut img, BOOT_SERVICES_OFFSET, boot_services_ptr);
    proof {
        assert(img@.subrange(0, 8) =~= s_signature.subrange(0, 8));
        assert(img@.subrange(8, 12) =~= s_revision.subrange(8, 12));
        assert(img@.subrange(12, 16) =~= s_size.subrange(12, 16));
        assert(img@.subrange(16, 20) =~= s_crc.subrange(16, 20));
        assert(img@.subrange(24, 32) =~= s_vendor.subrange(24, 32));
        assert(img@.subrange(32, 36) =~= s_fwrev.subrange(32, 36));
        assert(img@.subrange(64, 72) =~= s_conout.subrange(64, 72));
    }
    img
}

/// Initialize the process-wide console writer from the system table's
/// console output service.  The slot must still be uninitialized; once
/// this returns it is ready and holds a writer over that very console:
/// both dispatch-slot values and the recorded screen equal the table's.
pub fn init_text_writer(system_table: &EFISystemTable, writer: &mut GlobalWriter)
    requires
        !old(writer).is_ready(),
    ensures
        final(writer).is_ready(),
        final(writer).screen() == system_table.con_out.written@,
        (final(writer).writer matches Some(w)
            && w.protocol.output_string_handle == system_table.con_out.output_string_handle
            && w.protocol.clear_screen_handle == system_table.con_out.clear_screen_handle),
{
    let protocol = system_table.con_out.clone();
    let text_writer = EFISimpleTextWriter::new(protocol);
    writer.init(text_writer);
}

} // verus!
