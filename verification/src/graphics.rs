//! The graphics output protocol binding: the active display mode and the
//! linear frame buffer it exposes.

use vstd::prelude::*;

verus! {

use crate::bytes_le::{le_u32_at, le_u64_at, read_u32_at, read_u64_at};
use crate::guid::{EFIGuid, Guid};

/// Byte offset of the mode-count field within a graphics mode record.
pub const MAX_MODE_OFFSET: usize = 0;

/// Byte offset of the active-mode ordinal within a graphics mode record.
pub const CURRENT_MODE_OFFSET: usize = 4;

/// Byte offset of the mode-information handle within a graphics mode
/// record.
pub const MODE_INFO_OFFSET: usize = 8;

/// Byte offset of the mode-information size field within a graphics mode
/// record.
pub const MODE_INFO_SIZE_OFFSET: usize = 16;

/// Byte offset of the frame-buffer base address within a graphics mode
/// record.
pub const FRAME_BUFFER_BASE_OFFSET: usize = 24;

/// Byte offset of the frame-buffer byte count within a graphics mode
/// record.
pub const FRAME_BUFFER_SIZE_OFFSET: usize = 32;

/// Bytes of the graphics mode record this binding reads.
pub const GRAPHICS_MODE_SIZE: usize = 40;

/// The active display mode metadata a located graphics protocol reports.
#[derive(Clone, Copy, Debug, PartialEq, Eq, Structural)]
pub struct EFIGraphicsOutputProtocolMode {
    /// Number of modes the device supports.
    pub max_mode: u32,
    /// Ordinal of the mode currently active.
    pub mode: u32,
    /// Handle of the mode-information record firmware keeps beside this
    /// one.
    pub info_handle: u64,
    /// Size in bytes of that mode-information record.
    pub info_size: u64,
    /// Physical address of the linear frame buffer's first byte.
    pub frame_buffer_base: u64,
    /// Size in bytes of the linear frame buffer.
    pub frame_buffer_size: u64,
}

impl EFIGraphicsOutputProtocolMode {
    /// The frame buffer describes a region `[base, base + size)` that must
    /// lie within the 64-bit physical address space.
    pub open spec fn wf(&self) -> bool {
        self.frame_buffer_base + self.frame_buffer_size <= u64::MAX as int + 1
    }

    /// Bind to a firmware graphics mode record, reading every field at its
    /// mandated offset.
    pub fn from_image(img: &[u8]) -> (r: Self)
        requires
            img@.len() >= GRAPHICS_MODE_SIZE,
        ensures
            r.max_mode == le_u32_at(img@, MAX_MODE_OFFSET as int),
            r.mode == le_u32_at(img@, CURRENT_MODE_OFFSET as int),
            r.info_handle == le_u64_at(img@, MODE_INFO_OFFSET as int),
            r.info_size == le_u64_at(img@, MODE_INFO_SIZE_OFFSET as int),
            r.frame_buffer_base == le_u64_at(img@, FRAME_BUFFER_BASE_OFFSET as int),
            r.frame_buffer_size == le_u64_at(img@, FRAME_BUFFER_SIZE_OFFSET as int),
    {
        EFIGraphicsOutputProtocolMode {
            max_mode: read_u32_at(img, MAX_MODE_OFFSET),
            mode: read_u32_at(img, CURRENT_MODE_OFFSET),
            info_handle: read_u64_at(img, MODE_INFO_OFFSET),
            info_size: read_u64_at(img, MODE_INFO_SIZE_OFFSET),
            frame_buffer_base: read_u64_at(img, FRAME_BUFFER_BASE_OFFSET),
            frame_buffer_size: read_u64_at(img, FRAME_BUFFER_SIZE_OFFSET),
        }
    }
}

/// A located graphics output protocol instance: its active mode record.
#[derive(Clone, Copy, Debug, PartialEq, Eq, Structural)]
pub struct EFIGraphicsOutputProtocol {
    /// The active display mode the device reports.
    pub mode: EFIGraphicsOutputProtocolMode,
}

impl Guid for EFIGraphicsOutputProtocol {
    /// The graphics output protocol's published identifier, bit-for-bit.
    fn guid() -> (r: EFIGuid)
        ensures
            r.data1 == 0x9042a9de,
            r.data2 == 0x23dc,
            r.data3 == 0x4a38,
            r.data4@ == seq![0x96u8, 0xfb, 0x7a, 0xde, 0xd0, 0x80, 0x51, 0x6a],
    {
        EFIGuid {
            data1: 0x9042a9de,
            data2: 0x23dc,
            data3: 0x4a38,
            data4: [0x96, 0xfb, 0x7a, 0xde, 0xd0, 0x80, 0x51, 0x6a],
        }
    }
}

} // verus!
