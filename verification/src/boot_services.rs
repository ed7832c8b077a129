//! The boot services binding: memory map retrieval and protocol lookup.
//!
//! Both operations live behind function pointers at ABI-fixed offsets of
//! the boot services table.  What firmware hands back is validated here
//! before a snapshot is produced: a non-success status, a report that needs
//! more room than the snapshot's fixed capacity, and a geometry that cannot
//! describe whole descriptor records each surface as a distinct error
//! instead of a silently truncated or corrupted snapshot.

use vstd::prelude::*;

verus! {

use crate::bytes_le::{le_u32_at, le_u64_at, read_u32_at, read_u64_at};
use crate::guid::Guid;
use crate::header::{spec_parse_header, EFITableHeader};
use crate::memory_map::{
    spec_memory_type_from, EFIMemoryType, MemoryMap, DESCRIPTOR_SIZE, MEMORY_MAP_SIZE,
};
use crate::status::{EFIError, EFIStatus};
use vstd::arithmetic::div_mod::{lemma_fundamental_div_mod, lemma_fundamental_div_mod_converse};
use vstd::arithmetic::mul::lemma_mul_inequality;

/// Byte offset of the get-memory-map dispatch slot within the boot
/// services table, mandated by the firmware ABI.
pub const GET_MEMORY_MAP_OFFSET: usize = 56;

/// Byte offset of the locate-protocol dispatch slot within the boot
/// services table, mandated by the firmware ABI.
pub const LOCATE_PROTOCOL_OFFSET: usize = 320;

/// Bytes of the boot services table this binding reads.
pub const BOOT_SERVICES_TABLE_SIZE: usize = 328;

/// What the firmware get-memory-map operation reports back: its status
/// word, the bytes the map needs, a freshness token, the per-entry stride,
/// the format version, and the bytes it wrote.
#[derive(Debug)]
pub struct FirmwareMapReport {
    /// Status word of the call.
    pub status: EFIStatus,
    /// Bytes the memory map occupies (or requires, when the call failed
    /// for lack of room).
    pub buffer_size: usize,
    /// Opaque token identifying the map's freshness.
    pub map_key: usize,
    /// Byte distance between consecutive descriptors.
    pub descriptor_size: usize,
    /// Format version of the descriptor records.
    pub version: u32,
    /// The bytes firmware wrote.
    pub data: Vec<u8>,
}

impl FirmwareMapReport {
    /// The number of descriptor entries the report claims.
    pub open spec fn spec_count(&self) -> int {
        self.buffer_size as int / self.descriptor_size as int
    }

    /// The reported geometry describes whole descriptor records that all
    /// lie within the written bytes.
    pub open spec fn geometry_ok(&self) -> bool {
        &&& self.descriptor_size >= DESCRIPTOR_SIZE
        &&& self.buffer_size as int % self.descriptor_size as int == 0
        &&& self.data@.len() >= self.buffer_size
    }

    /// Every entry of the report carries a classification ordinal the
    /// firmware specification defines.
    pub open spec fn entries_ok(&self) -> bool {
        forall|k: int|
            0 <= k < self.spec_count() ==> spec_memory_type_from(
                #[trigger] le_u32_at(self.data@, k * self.descriptor_size as int),
            ) is Some
    }

    /// A report that yields a snapshot: successful, within capacity, and
    /// well formed throughout.
    pub open spec fn accepted(&self) -> bool {
        &&& self.buffer_size <= MEMORY_MAP_SIZE
        &&& self.status.spec_is_success()
        &&& self.geometry_ok()
        &&& self.entries_ok()
    }
}

/// The boot services binding: the common table header and the two
/// dispatch-slot values read at their mandated offsets.
#[derive(Debug)]
pub struct EFIBootServices {
    /// The table's common header.
    pub header: EFITableHeader,
    /// Value of the get-memory-map function-pointer slot (table byte 56).
    pub get_memory_map_handle: u64,
    /// Value of the locate-protocol function-pointer slot (table byte
    /// 320).
    pub locate_protocol_handle: u64,
}

impl EFIBootServices {
    /// Bind to a firmware boot services table image, reading the header
    /// and both dispatch slots at their mandated offsets.
    pub fn from_image(img: &[u8]) -> (r: Self)
        requires
            img@.len() >= BOOT_SERVICES_TABLE_SIZE,
        ensures
            r.header == spec_parse_header(img@),
            r.get_memory_map_handle == le_u64_at(img@, GET_MEMORY_MAP_OFFSET as int),
            r.locate_protocol_handle == le_u64_at(img@, LOCATE_PROTOCOL_OFFSET as int),
    {
        EFIBootServices {
            header: EFITableHeader::parse(img),
            get_memory_map_handle: read_u64_at(img, GET_MEMORY_MAP_OFFSET),
            locate_protocol_handle: read_u64_at(img, LOCATE_PROTOCOL_OFFSET),
        }
    }

    /// Turn a firmware memory map report into a validated snapshot.
    ///
    /// A report that needs more bytes than the snapshot's fixed capacity is
    /// refused as capacity-exceeded before anything else is considered; a
    /// failed status propagates its status word; a geometry or entry that
    /// cannot be interpreted is refused as malformed.  Exactly the accepted
    /// reports produce a snapshot, and that snapshot carries the report's
    /// fields unchanged.
    pub fn get_memory_map(&self, report: FirmwareMapReport) -> (r: Result<MemoryMap, EFIError>)
        ensures
            r is Ok <==> report.accepted(),
            r matches Ok(m) ==> {
                &&& m.wf()
                &&& m.size == report.buffer_size
                &&& m.buf@ == report.data@
                &&& m.map_key == report.map_key
                &&& m.descriptor_size == report.descriptor_size
                &&& m.version == report.version
            },
            report.buffer_size > MEMORY_MAP_SIZE ==> r == Err::<MemoryMap, EFIError>(
                EFIError::CapacityExceeded(report.buffer_size),
            ),
            report.buffer_size <= MEMORY_MAP_SIZE && !report.status.spec_is_success() ==> r
                == Err::<MemoryMap, EFIError>(EFIError::FirmwareCall(report.status)),
            report.buffer_size <= MEMORY_MAP_SIZE && report.status.spec_is_success() && !(
            report.geometry_ok() && report.entries_ok()) ==> r == Err::<MemoryMap, EFIError>(
                EFIError::MalformedMap,
            ),
    {
        if report.buffer_size > MEMORY_MAP_SIZE {
            return Err(EFIError::CapacityExceeded(report.buffer_size));
        }
        if !report.status.is_success() {
            return Err(EFIError::FirmwareCall(report.status));
        }
        if report.descriptor_size < DESCRIPTOR_SIZE {
            return Err(EFIError::MalformedMap);
        }
        if report.buffer_size % report.descriptor_size != 0 {
            return Err(EFIError::MalformedMap);
        }
        if report.data.len() < report.buffer_size {
            return Err(EFIError::MalformedMap);
        }
        // Walk the claimed entries and refuse the first undefined
        // classification ordinal.
        let data = report.data.as_slice();
        // Materializing the length bounds it by usize, so the walk's offsets
        // cannot wrap.
        let _len: usize = data.len();
        let size = report.buffer_size;
        let stride = report.descriptor_size;
        let mut offset: usize = 0;
        let ghost mut index: int = 0;
        proof {
            assert(0int * stride as int == 0) by (nonlinear_arith);
        }
        while offset < size
            invariant
                report.buffer_size <= MEMORY_MAP_SIZE,
                report.status.spec_is_success(),
                report.geometry_ok(),
                data@ == report.data@,
                stride == report.descriptor_size,
                size == report.buffer_size,
                stride >= DESCRIPTOR_SIZE,
                size as int % stride as int == 0,
                size <= data@.len(),
                0 <= offset <= size,
                offset as int == index * stride as int,
                index >= 0,
                forall|k: int|
                    0 <= k < index ==> spec_memory_type_from(
                        #[trigger] le_u32_at(data@, k * stride as int),
                    ) is Some,
            decreases size - offset,
        {
            proof {
                lemma_entry_step(size as int, stride as int, offset as int, index);
            }
            let ordinal = read_u32_at(data, offset);
            if EFIMemoryType::from_u32(ordinal).is_none() {
                proof {
                    assert(le_u32_at(report.data@, index * report.descriptor_size as int)
                        == ordinal);
                    assert(!report.entries_ok());
                }
                return Err(EFIError::MalformedMap);
            }
            offset += stride;
            proof {
                index = index + 1;
                assert(index * stride as int == (index - 1) * stride as int + stride as int)
                    by (nonlinear_arith);
            }
        }
        proof {
            // The walk covered every claimed entry.
            lemma_fundamental_div_mod_converse(size as int, stride as int, index, 0);
        }
        let map = MemoryMap {
            size: report.buffer_size,
            buf: report.data,
            map_key: report.map_key,
            descriptor_size: report.descriptor_size,
            version: report.version,
        };
        Ok(map)
    }

    /// Resolve a protocol lookup that firmware answered with the given
    /// status word and instance.  Exactly a successful status together with
    /// a published instance yields that instance; any failed or null lookup
    /// is reported as protocol-not-found instead of handed out dangling.
    pub fn locate_protocol<T: Guid>(&self, status: EFIStatus, instance: Option<T>) -> (r: Result<
        T,
        EFIError,
    >)
        ensures
            r is Ok <==> (status.spec_is_success() && instance is Some),
            r matches Ok(t) ==> instance == Some(t),
            !(status.spec_is_success() && instance is Some) ==> (r matches Err(e) && e
                == EFIError::ProtocolNotFound),
    {
        if status.is_success() {
            match instance {
                Some(t) => Ok(t),
                None => Err(EFIError::ProtocolNotFound),
            }
        } else {
            Err(EFIError::ProtocolNotFound)
        }
    }
}

/// A stride-multiple offset strictly inside the populated extent starts a
/// whole record, and its entry index stays below the claimed count.
proof fn lemma_entry_step(size: int, stride: int, off: int, index: int)
    requires
        stride > 0,
        size % stride == 0,
        off == index * stride,
        index >= 0,
        0 <= off < size,
    ensures
        off + stride <= size,
        index < size / stride,
        index == off / stride,
{
    lemma_fundamental_div_mod(size, stride);
    lemma_fundamental_div_mod_converse(off, stride, index, 0);
    let qs = size / stride;
    assert(size == qs * stride) by (nonlinear_arith)
        requires
            size == stride * qs + size % stride,
            size % stride == 0,
    ;
    if index >= qs {
        lemma_mul_inequality(qs, index, stride);
    }
    lemma_mul_inequality(index + 1, qs, stride);
    assert((index + 1) * stride == index * stride + stride) by (nonlinear_arith);
}

} // verus!
