//! GUIDs.

use vstd::prelude::*;

verus! {

/// A GUID, laid out as its four fields.
#[derive(Debug, Copy, Clone, PartialEq, Eq, Default)]
pub struct Guid {
    /// The first 32 bits.
    pub data1: u32,
    /// The next 16 bits.
    pub data2: u16,
    /// The next 16 bits.
    pub data3: u16,
    /// The final 64 bits, as bytes.
    pub data4: [u8; 8],
}

} // verus!
