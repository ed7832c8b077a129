//! The memory map snapshot and its enumerator.
//!
//! Firmware populates a fixed-capacity buffer with a packed array of memory
//! region descriptors.  The byte distance between consecutive descriptors is
//! the stride firmware reports, not the descriptor's declared size: firmware
//! may reserve room after each record for future fields, and walking by the
//! declared size instead would silently misalign every later entry.  The
//! enumerator therefore advances by the reported stride, and its contract
//! pins each yielded descriptor to its exact byte offset in the buffer.

use vstd::prelude::*;

verus! {

use crate::bytes_le::{le_u32_at, le_u64_at, read_u32_at, read_u64_at};
use vstd::arithmetic::div_mod::{
    lemma_fundamental_div_mod, lemma_fundamental_div_mod_converse, lemma_mod_add_multiples_vanish,
    lemma_small_mod,
};
use vstd::arithmetic::mul::{lemma_mul_inequality, lemma_mul_nonnegative};

/// Fixed capacity in bytes of a memory map snapshot's buffer.
pub const MEMORY_MAP_SIZE: usize = 4096 * 4;

/// Minimum bytes one descriptor record occupies: its five declared fields
/// and the padding word after the classification ordinal.
pub const DESCRIPTOR_SIZE: usize = 40;

/// Classification of a physical memory region, ordered by the 32-bit
/// ordinal the firmware specification assigns to each kind.
#[derive(Clone, Copy, Debug, PartialEq, Eq, Structural)]
pub enum EFIMemoryType {
    /// Ordinal 0: reserved, not usable.
    ReservedMemoryType,
    /// Ordinal 1: code of the loaded application.
    LoaderCode,
    /// Ordinal 2: data of the loaded application.
    LoaderData,
    /// Ordinal 3: boot-services code.
    BootServicesCode,
    /// Ordinal 4: boot-services data.
    BootServicesData,
    /// Ordinal 5: runtime-services code.
    RuntimeServicesCode,
    /// Ordinal 6: runtime-services data.
    RuntimeServicesData,
    /// Ordinal 7: free conventional memory.
    ConventionalMemory,
    /// Ordinal 8: memory with detected errors.
    UnusableMemory,
    /// Ordinal 9: ACPI tables, reclaimable after parsing.
    ACPIReclaimMemory,
    /// Ordinal 10: ACPI non-volatile storage.
    ACPIMemoryNVS,
    /// Ordinal 11: memory-mapped I/O.
    MemoryMappedIO,
    /// Ordinal 12: memory-mapped I/O port space.
    MemoryMappedIOPortSpace,
    /// Ordinal 13: processor firmware code.
    PalCode,
    /// Ordinal 14: byte-addressable persistent memory.
    PersistentMemory,
    /// Ordinal 15: memory not yet accepted from the platform.
    UnacceptedMemoryType,
    /// Ordinal 16: first value past the defined classifications.
    MaxMemoryType,
}

/// The wire ordinal of a region classification, exactly as the firmware
/// specification numbers them.
pub open spec fn memory_type_ordinal(t: EFIMemoryType) -> u32 {
    match t {
        EFIMemoryType::ReservedMemoryType => 0,
        EFIMemoryType::LoaderCode => 1,
        EFIMemoryType::LoaderData => 2,
        EFIMemoryType::BootServicesCode => 3,
        EFIMemoryType::BootServicesData => 4,
        EFIMemoryType::RuntimeServicesCode => 5,
        EFIMemoryType::RuntimeServicesData => 6,
        EFIMemoryType::ConventionalMemory => 7,
        EFIMemoryType::UnusableMemory => 8,
        EFIMemoryType::ACPIReclaimMemory => 9,
        EFIMemoryType::ACPIMemoryNVS => 10,
        EFIMemoryType::MemoryMappedIO => 11,
        EFIMemoryType::MemoryMappedIOPortSpace => 12,
        EFIMemoryType::PalCode => 13,
        EFIMemoryType::PersistentMemory => 14,
        EFIMemoryType::UnacceptedMemoryType => 15,
        EFIMemoryType::MaxMemoryType => 16,
    }
}

/// The classification a wire ordinal decodes to, or `None` for a value the
/// specification does not define.
pub open spec fn spec_memory_type_from(v: u32) -> Option<EFIMemoryType> {
    if v == 0 {
        Some(EFIMemoryType::ReservedMemoryType)
    } else if v == 1 {
        Some(EFIMemoryType::LoaderCode)
    } else if v == 2 {
        Some(EFIMemoryType::LoaderData)
    } else if v == 3 {
        Some(EFIMemoryType::BootServicesCode)
    } else if v == 4 {
        Some(EFIMemoryType::BootServicesData)
    } else if v == 5 {
        Some(EFIMemoryType::RuntimeServicesCode)
    } else if v == 6 {
        Some(EFIMemoryType::RuntimeServicesData)
    } else if v == 7 {
        Some(EFIMemoryType::ConventionalMemory)
    } else if v == 8 {
        Some(EFIMemoryType::UnusableMemory)
    } else if v == 9 {
        Some(EFIMemoryType::ACPIReclaimMemory)
    } else if v == 10 {
        Some(EFIMemoryType::ACPIMemoryNVS)
    } else if v == 11 {
        Some(EFIMemoryType::MemoryMappedIO)
    } else if v == 12 {
        Some(EFIMemoryType::MemoryMappedIOPortSpace)
    } else if v == 13 {
        Some(EFIMemoryType::PalCode)
    } else if v == 14 {
        Some(EFIMemoryType::PersistentMemory)
    } else if v == 15 {
        Some(EFIMemoryType::UnacceptedMemoryType)
    } else if v == 16 {
        Some(EFIMemoryType::MaxMemoryType)
    } else {
        None
    }
}

impl EFIMemoryType {
    /// Decode a wire ordinal, rejecting values the specification does not
    /// define.
    pub fn from_u32(v: u32) -> (r: Option<EFIMemoryType>)
        ensures
            r == spec_memory_type_from(v),
    {
        match v {
            0 => Some(EFIMemoryType::ReservedMemoryType),
            1 => Some(EFIMemoryType::LoaderCode),
            2 => Some(EFIMemoryType::LoaderData),
            3 => Some(EFIMemoryType::BootServicesCode),
            4 => Some(EFIMemoryType::BootServicesData),
            5 => Some(EFIMemoryType::RuntimeServicesCode),
            6 => Some(EFIMemoryType::RuntimeServicesData),
            7 => Some(EFIMemoryType::ConventionalMemory),
            8 => Some(EFIMemoryType::UnusableMemory),
            9 => Some(EFIMemoryType::ACPIReclaimMemory),
            10 => Some(EFIMemoryType::ACPIMemoryNVS),
            11 => Some(EFIMemoryType::MemoryMappedIO),
            12 => Some(EFIMemoryType::MemoryMappedIOPortSpace),
            13 => Some(EFIMemoryType::PalCode),
            14 => Some(EFIMemoryType::PersistentMemory),
            15 => Some(EFIMemoryType::UnacceptedMemoryType),
            16 => Some(EFIMemoryType::MaxMemoryType),
            _ => None,
        }
    }

    /// The wire ordinal of this classification.
    pub fn as_u32(&self) -> (r: u32)
        ensures
            r == memory_type_ordinal(*self),
    {
        match self {
            EFIMemoryType::ReservedMemoryType => 0,
            EFIMemoryType::LoaderCode => 1,
            EFIMemoryType::LoaderData => 2,
            EFIMemoryType::BootServicesCode => 3,
            EFIMemoryType::BootServicesData => 4,
            EFIMemoryType::RuntimeServicesCode => 5,
            EFIMemoryType::RuntimeServicesData => 6,
            EFIMemoryType::ConventionalMemory => 7,
            EFIMemoryType::UnusableMemory => 8,
            EFIMemoryType::ACPIReclaimMemory => 9,
            EFIMemoryType::ACPIMemoryNVS => 10,
            EFIMemoryType::MemoryMappedIO => 11,
            EFIMemoryType::MemoryMappedIOPortSpace => 12,
            EFIMemoryType::PalCode => 13,
            EFIMemoryType::PersistentMemory => 14,
            EFIMemoryType::UnacceptedMemoryType => 15,
            EFIMemoryType::MaxMemoryType => 16,
        }
    }
}

/// One decoded memory region descriptor.
#[derive(Clone, Copy, Debug, PartialEq, Eq, Structural)]
pub struct EFIMemoryDescriptor {
    /// The region's classification.
    pub typ: EFIMemoryType,
    /// Physical address of the region's first byte.
    pub physical_address: u64,
    /// Virtual address assigned to the region (unused before paging).
    pub virtual_start: u64,
    /// Number of 4 KiB pages the region spans.
    pub number_of_pages: u64,
    /// Capability and cacheability bit flags.
    pub attribute: u64,
}

/// The descriptor whose record begins at byte offset `off` of `s`: the
/// classification ordinal at the record's start, then, each 8-byte aligned,
/// the physical address, virtual start, page count and attribute fields.
pub open spec fn spec_parse_descriptor(s: Seq<u8>, off: int) -> EFIMemoryDescriptor
    recommends
        0 <= off,
        off + DESCRIPTOR_SIZE <= s.len(),
        spec_memory_type_from(le_u32_at(s, off)) is Some,
{
    EFIMemoryDescriptor {
        typ: spec_memory_type_from(le_u32_at(s, off)).unwrap(),
        physical_address: le_u64_at(s, off + 8),
        virtual_start: le_u64_at(s, off + 16),
        number_of_pages: le_u64_at(s, off + 24),
        attribute: le_u64_at(s, off + 32),
    }
}

/// A populated memory map snapshot: the raw buffer, the bytes firmware
/// filled, a freshness token, the reported per-entry stride, and the format
/// version.
#[derive(Debug)]
pub struct MemoryMap {
    /// Bytes of the buffer actually populated by firmware.
    pub size: usize,
    /// The raw descriptor array, of fixed capacity.
    pub buf: Vec<u8>,
    /// Opaque token identifying this snapshot's freshness.
    pub map_key: usize,
    /// Byte distance between consecutive descriptors, reported by firmware.
    pub descriptor_size: usize,
    /// Format version of the descriptor records.
    pub version: u32,
}

impl Default for MemoryMap {
    /// The snapshot as it stands before firmware populates it: a zeroed
    /// buffer of full capacity offered to firmware, and no geometry yet.
    fn default() -> (r: MemoryMap)
        ensures
            r.size == MEMORY_MAP_SIZE,
            r.buf@.len() == MEMORY_MAP_SIZE,
            forall|i: int| 0 <= i < MEMORY_MAP_SIZE ==> r.buf@[i] == 0,
            r.map_key == 0,
            r.descriptor_size == 0,
            r.version == 0,
    {
        MemoryMap {
            size: MEMORY_MAP_SIZE,
            buf: crate::bytes_le::zero_vec(MEMORY_MAP_SIZE),
            map_key: 0,
            descriptor_size: 0,
            version: 0,
        }
    }
}

impl MemoryMap {
    /// The number of descriptors the snapshot holds.
    pub open spec fn spec_count(&self) -> int {
        if self.size == 0 {
            0
        } else {
            self.size as int / self.descriptor_size as int
        }
    }

    /// The descriptor stored at entry index `k`, read at byte offset
    /// `k * descriptor_size`.
    pub open spec fn spec_descriptor_at(&self, k: int) -> EFIMemoryDescriptor {
        spec_parse_descriptor(self.buf@, k * self.descriptor_size as int)
    }

    /// A well-formed snapshot: the populated extent lies within the buffer
    /// and, once anything is populated, the stride covers at least one
    /// whole descriptor record, the extent is a whole number of strides,
    /// and every entry carries a classification ordinal the specification
    /// defines.  An empty snapshot is well formed whatever its stride: a
    /// map that holds nothing needs no geometry to enumerate it.
    pub open spec fn wf(&self) -> bool {
        &&& self.size <= self.buf@.len()
        &&& self.size > 0 ==> self.descriptor_size >= DESCRIPTOR_SIZE
        &&& self.size > 0 ==> self.size as int % self.descriptor_size as int == 0
        &&& forall|k: int|
            0 <= k < self.spec_count() ==> spec_memory_type_from(
                #[trigger] le_u32_at(self.buf@, k * self.descriptor_size as int),
            ) is Some
    }

    /// Enumerate the whole snapshot: exactly `size / descriptor_size`
    /// descriptors, the `k`-th parsed at byte offset `k * descriptor_size`.
    pub fn descriptors(&self) -> (r: Vec<EFIMemoryDescriptor>)
        requires
            self.wf(),
        ensures
            r@.len() == self.spec_count(),
            forall|k: int| 0 <= k < self.spec_count() ==> r@[k] == self.spec_descriptor_at(k),
    {
        let mut out: Vec<EFIMemoryDescriptor> = Vec::new();
        let mut visitor = MemoryMapVisitor::new(self);
        proof {
            lemma_count_nonnegative(self);
            assert(0int * self.descriptor_size as int == 0) by (nonlinear_arith);
        }
        while visitor.has_next()
            invariant
                self.wf(),
                visitor.wf(),
                visitor.map_view() == *self,
                visitor.spec_offset() == out@.len() * self.descriptor_size as int,
                out@.len() <= self.spec_count(),
                forall|k: int| 0 <= k < out@.len() ==> out@[k] == self.spec_descriptor_at(k),
            decreases self.size - visitor.spec_offset(),
        {
            let ghost len_before = out@.len() as int;
            let ghost off_before = visitor.spec_offset();
            let d = visitor.next().unwrap();
            out.push(d);
            proof {
                let stride = self.descriptor_size as int;
                assert((len_before + 1) * stride == len_before * stride + stride)
                    by (nonlinear_arith);
                lemma_stride_step(self.size as int, stride, off_before);
                lemma_fundamental_div_mod_converse(off_before, stride, len_before, 0);
            }
        }
        proof {
            // The walk stopped exactly at the populated extent, so the
            // number of entries yielded is the snapshot's count.  An empty
            // extent was never entered, so nothing was yielded.
            if self.size > 0 {
                lemma_fundamental_div_mod_converse(
                    self.size as int,
                    self.descriptor_size as int,
                    out@.len() as int,
                    self.size as int - out@.len() * self.descriptor_size as int,
                );
            }
        }
        out
    }
}

/// The entry count of a well-formed snapshot is never negative, and an
/// empty snapshot enumerates no descriptors at all.
pub proof fn lemma_count_nonnegative(m: &MemoryMap)
    requires
        m.wf(),
    ensures
        m.spec_count() >= 0,
        m.spec_count() * m.descriptor_size as int == m.size as int,
        m.size == 0 ==> m.spec_count() == 0,
{
    if m.size == 0 {
        assert(0int * m.descriptor_size as int == 0) by (nonlinear_arith);
    } else {
        lemma_fundamental_div_mod(m.size as int, m.descriptor_size as int);
        if m.spec_count() < 0 {
            lemma_mul_inequality(m.spec_count(), -1, m.descriptor_size as int);
        }
    }
}

/// Any byte offset that is a whole number of strides and lies strictly
/// inside the populated extent starts a whole descriptor record.
proof fn lemma_stride_step(size: int, stride: int, off: int)
    requires
        stride > 0,
        size % stride == 0,
        off % stride == 0,
        0 <= off < size,
    ensures
        off + stride <= size,
        off / stride < size / stride,
        off == (off / stride) * stride,
{
    lemma_fundamental_div_mod(size, stride);
    lemma_fundamental_div_mod(off, stride);
    let qs = size / stride;
    let qo = off / stride;
    assert(off == qo * stride) by (nonlinear_arith)
        requires
            off == stride * qo + off % stride,
            off % stride == 0,
    ;
    assert(size == qs * stride) by (nonlinear_arith)
        requires
            size == stride * qs + size % stride,
            size % stride == 0,
    ;
    if qo >= qs {
        lemma_mul_inequality(qs, qo, stride);
    }
    lemma_mul_inequality(qo + 1, qs, stride);
    assert((qo + 1) * stride == qo * stride + stride) by (nonlinear_arith);
}

/// A one-shot walker over a snapshot's descriptor array.  It starts at
/// offset zero and advances by the firmware-reported stride after each
/// yielded descriptor, stopping once the populated extent is exhausted.
#[derive(Debug)]
pub struct MemoryMapVisitor<'a> {
    memory_map: &'a MemoryMap,
    offset: usize,
}

impl<'a> MemoryMapVisitor<'a> {
    /// The snapshot being walked.
    pub closed spec fn map_view(&self) -> MemoryMap {
        *self.memory_map
    }

    /// The byte offset the walk has reached.
    pub closed spec fn spec_offset(&self) -> int {
        self.offset as int
    }

    /// A valid walk position: the snapshot is well formed and the offset
    /// is a whole number of strides within the populated extent (any
    /// position at all once the extent is empty, since only offset zero is
    /// then admissible).
    pub open spec fn wf(&self) -> bool {
        &&& self.map_view().wf()
        &&& 0 <= self.spec_offset() <= self.map_view().size
        &&& self.map_view().size > 0 ==> self.spec_offset()
            % self.map_view().descriptor_size as int == 0
    }

    /// Start a walk at the beginning of the snapshot.
    pub fn new(memory_map: &'a MemoryMap) -> (r: Self)
        requires
            memory_map.wf(),
        ensures
            r.wf(),
            r.map_view() == *memory_map,
            r.spec_offset() == 0,
    {
        proof {
            if memory_map.size > 0 {
                lemma_small_mod(0, memory_map.descriptor_size as nat);
            }
        }
        MemoryMapVisitor { memory_map, offset: 0 }
    }

    /// Whether another descriptor remains to be yielded.
    pub fn has_next(&self) -> (r: bool)
        ensures
            r == (self.spec_offset() < self.map_view().size),
    {
        self.offset < self.memory_map.size
    }

    /// Yield the descriptor at the current offset and advance by the
    /// stride, or stop once the populated extent is exhausted.
    pub fn next(&mut self) -> (r: Option<EFIMemoryDescriptor>)
        requires
            old(self).wf(),
        ensures
            final(self).wf(),
            final(self).map_view() == old(self).map_view(),
            old(self).spec_offset() >= old(self).map_view().size ==> (r is None
                && final(self).spec_offset() == old(self).spec_offset()),
            old(self).spec_offset() < old(self).map_view().size ==> (r == Some(
                spec_parse_descriptor(old(self).map_view().buf@, old(self).spec_offset()))
                && final(self).spec_offset() == old(self).spec_offset()
                    + old(self).map_view().descriptor_size),
    {
        if self.offset >= self.memory_map.size {
            return None;
        }
        proof {
            lemma_stride_step(
                self.memory_map.size as int,
                self.memory_map.descriptor_size as int,
                self.offset as int,
            );
        }
        let buf = self.memory_map.buf.as_slice();
        // Materializing the length bounds it by usize, so the field offsets
        // cannot wrap.
        let _len: usize = buf.len();
        let off = self.offset;
        let ordinal = read_u32_at(buf, off);
        let typ = EFIMemoryType::from_u32(ordinal).unwrap();
        let descriptor = EFIMemoryDescriptor {
            typ,
            physical_address: read_u64_at(buf, off + 8),
            virtual_start: read_u64_at(buf, off + 16),
            number_of_pages: read_u64_at(buf, off + 24),
            attribute: read_u64_at(buf, off + 32),
        };
        proof {
            lemma_mod_add_multiples_vanish(
                self.offset as int,
                self.memory_map.descriptor_size as int,
            );
        }
        self.offset += self.memory_map.descriptor_size;
        Some(descriptor)
    }
}

} // verus!
