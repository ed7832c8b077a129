//! The common header prefix shared by every firmware table.
//!
//! A table image begins with a 24-byte header: a 64-bit signature tag, a
//! 32-bit revision, the table's declared size, a checksum, and a reserved
//! word.  The parser below binds each field to its mandated byte offset.

use vstd::prelude::*;

verus! {

use crate::bytes_le::{le_u32_at, le_u64_at, read_u32_at, read_u64_at};

/// Byte offset of the signature field within a table image.
pub const SIGNATURE_OFFSET: usize = 0;

/// Byte offset of the revision field within a table image.
pub const REVISION_OFFSET: usize = 8;

/// Byte offset of the declared-size field within a table image.
pub const SIZE_OFFSET: usize = 12;

/// Byte offset of the checksum field within a table image.
pub const CRC32_OFFSET: usize = 16;

/// Total size in bytes of the header prefix, the reserved word included.
pub const HEADER_SIZE: usize = 24;

/// The decoded common header of a firmware table.
#[derive(Clone, Copy, Debug, PartialEq, Eq, Structural)]
pub struct EFITableHeader {
    /// 64-bit tag identifying the table kind.
    pub signature: u64,
    /// Format revision of the table.
    pub revision: u32,
    /// Declared size in bytes of the whole table, header included.
    pub size: u32,
    /// Checksum over the declared extent (not verified by this layer).
    pub crc32: u32,
}

/// The header described by the first 24 bytes of a table image.
pub open spec fn spec_parse_header(s: Seq<u8>) -> EFITableHeader
    recommends
        s.len() >= HEADER_SIZE,
{
    EFITableHeader {
        signature: le_u64_at(s, SIGNATURE_OFFSET as int),
        revision: le_u32_at(s, REVISION_OFFSET as int),
        size: le_u32_at(s, SIZE_OFFSET as int),
        crc32: le_u32_at(s, CRC32_OFFSET as int),
    }
}

impl EFITableHeader {
    /// Decode the header prefix of a table image.
    pub fn parse(img: &[u8]) -> (r: EFITableHeader)
        requires
            img@.len() >= HEADER_SIZE,
        ensures
            r == spec_parse_header(img@),
    {
        EFITableHeader {
            signature: read_u64_at(img, SIGNATURE_OFFSET),
            revision: read_u32_at(img, REVISION_OFFSET),
            size: read_u32_at(img, SIZE_OFFSET),
            crc32: read_u32_at(img, CRC32_OFFSET),
        }
    }
}

} // verus!
