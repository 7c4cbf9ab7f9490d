//! Capabilities.

use vstd::prelude::*;

verus! {

/// Capability IDs.
///
/// Sources: PCI 2.3 Spec - Appendix H
#[derive(Clone, Copy, Debug, PartialEq, Eq, Hash)]
pub struct CapabilityId(pub u8);

impl CapabilityId {
    pub const VENDOR_SPECIFIC: u8 = 0x09;
    pub const MSIX: u8 = 0x11;
}

/// Offsets into the MSI-X capability header.
///
/// | Offset    | Bits 31-24         | Bits 23-16 | Bits 15-8    | Bits 7-3             | Bits 2-0 |
/// |-----------|--------------------|------------|--------------|----------------------|----------|
/// | Cap + 0x0 | Message Control    |            | Next Pointer | Capability ID (0x11) |          |
/// | Cap + 0x4 | Table Offset       |            |              |                      | BIR      |
/// | Cap + 0x8 | Pending Bit Offset |            |              |                      | BIR      |
#[derive(Clone, Copy, Debug, PartialEq, Eq, Hash)]
pub struct MsixCapabilityHeader(pub u16);

impl MsixCapabilityHeader {
    pub const CONTROL_CAPS: u16 = 0x00;
    pub const OFFSET_TABLE: u16 = 0x04;
    pub const OFFSET_PBA: u16 = 0x08;
}

/// Offsets into a single MSI-X table entry.
#[derive(Clone, Copy, Debug, PartialEq, Eq, Hash)]
pub struct MsixTableEntryIdx(pub u16);

impl MsixTableEntryIdx {
    pub const MSG_ADDR_LO: u16 = 0x00;
    pub const MSG_ADDR_HI: u16 = 0x04;
    pub const MSG_DATA: u16 = 0x08;
    pub const VECTOR_CTL: u16 = 0x0C;
}

} // verus!
