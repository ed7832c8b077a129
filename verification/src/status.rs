//! Firmware status codes and the error taxonomy of this layer.
//!
//! Every firmware operation returns a status word; zero means success.  The
//! bindings classify a failed call instead of discarding the status, and add
//! the failures that firmware itself cannot report: a memory map too large
//! for the snapshot's fixed capacity, a protocol that is not published, a
//! write to the console writer before it is initialized, and a populated map
//! whose reported geometry is inconsistent.

use vstd::prelude::*;

verus! {

/// A raw status word returned by a firmware call.  Zero is success; any
/// other value classifies a failure defined by the firmware specification.
#[derive(Clone, Copy, Debug, PartialEq, Eq, Structural)]
pub struct EFIStatus(pub usize);

impl EFIStatus {
    /// Whether this status word reports success.
    pub open spec fn spec_is_success(self) -> bool {
        self.0 == 0
    }

    /// Whether this status word reports success.
    pub fn is_success(&self) -> (r: bool)
        ensures
            r == self.spec_is_success(),
    {
        self.0 == 0
    }
}

/// A failure surfaced by this layer.  Firmware-call failures carry the raw
/// status word; the remaining variants are conditions the bindings detect
/// themselves while validating what firmware handed back.
#[derive(Clone, Copy, Debug, PartialEq, Eq, Structural)]
pub enum EFIError {
    /// A bound firmware operation returned a non-success status word.
    FirmwareCall(EFIStatus),
    /// The memory map firmware wants to report needs more bytes than the
    /// snapshot's fixed capacity; the payload is the required byte count.
    CapacityExceeded(usize),
    /// A protocol lookup returned no published instance.
    ProtocolNotFound,
    /// A write was attempted while the process-wide console writer was
    /// still uninitialized.
    WriterUninitialized,
    /// A populated memory map reported a geometry that cannot describe a
    /// whole number of well-formed descriptors.
    MalformedMap,
}

} // verus!
