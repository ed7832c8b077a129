//! Protocol identity: the 128-bit globally unique identifier firmware uses
//! to name a protocol interface, and the capability trait tying a protocol
//! binding to its identifier.

use vstd::prelude::*;

verus! {

/// A firmware-defined 128-bit protocol identifier, in its canonical
/// four-field wire layout.
#[derive(Clone, Copy, Debug, PartialEq, Eq)]
pub struct EFIGuid {
    /// First 32-bit group.
    pub data1: u32,
    /// Second 16-bit group.
    pub data2: u16,
    /// Third 16-bit group.
    pub data3: u16,
    /// Remaining eight bytes.
    pub data4: [u8; 8],
}

/// A protocol binding that knows the identifier firmware publishes it
/// under.  The protocol locator resolves any such type through one shared
/// lookup; adding a protocol means declaring its layout and identifier,
/// never touching the locator.
pub trait Guid {
    /// The identifier firmware publishes this protocol under.
    fn guid() -> EFIGuid;
}

} // verus!
