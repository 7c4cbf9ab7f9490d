//! The configuration space.
//!
//! Sources: PCI 2.3 Spec - Chapter 6

use vstd::prelude::*;

verus! {

/// Offsets into the type 00h configuration space header.
///
/// | Offset | Bits 31-24                 | Bits 23-16  | Bits 15-8           | Bits 7-0             |
/// |--------|----------------------------|-------------|---------------------|--------------------- |
/// | 0x0    | Device ID                  |             | Vendor ID           |                      |
/// | 0x4    | Status                     |             | Command             |                      |
/// | 0x8    | Class code                 |             |                     | Revision ID          |
/// | 0xC    | BIST                       | Header type | Latency Timer       | Cache Line Size      |
/// | 0x10   | Base address #0 (BAR0)     |             |                     |                      |
/// | 0x14   | Base address #1 (BAR1)     |             |                     |                      |
/// | 0x18   | Base address #2 (BAR2)     |             |                     |                      |
/// | 0x1C   | Base address #3 (BAR3)     |             |                     |                      |
/// | 0x20   | Base address #4 (BAR4)     |             |                     |                      |
/// | 0x24   | Base address #5 (BAR5)     |             |                     |                      |
/// | 0x28   | Cardbus CIS Pointer        |             |                     |                      |
/// | 0x2C   | Subsystem ID               |             | Subsystem Vendor ID |                      |
/// | 0x30   | Expansion ROM base address |             |                     |                      |
/// | 0x34   | Reserved                   |             |                     | Capabilities Pointer |
/// | 0x38   | Reserved                   |             |                     |                      |
/// | 0x3C   | Max latency                | Min Grant   | Interrupt PIN       | Interrupt Line       |
#[derive(Clone, Copy, Debug, PartialEq, Eq, Hash)]
pub struct HeaderType00(pub u16);

impl HeaderType00 {
    pub const DEVICE_VENDOR: u16 = 0x00;
    pub const STATUS_COMMAND: u16 = 0x04;
    pub const CLASS_REVISION: u16 = 0x08;
    pub const BIST_HEADER: u16 = 0x0C;
    pub const BAR0: u16 = 0x10;
    pub const BAR1: u16 = 0x14;
    pub const BAR2: u16 = 0x18;
    pub const BAR3: u16 = 0x1C;
    pub const BAR4: u16 = 0x20;
    pub const BAR5: u16 = 0x24;
    pub const CARDBUS_CIS_PTR: u16 = 0x28;
    pub const SUBSYSTEM_ID: u16 = 0x2C;
    pub const EXPANSION_ROM_BASE: u16 = 0x30;
    pub const RESERVED_CAP_PTR: u16 = 0x34;
    pub const RESERVED: u16 = 0x38;
    pub const LATENCY_INTERRUPT: u16 = 0x3C;
}

/// The size of the type 00h header.
pub const HEADER_TYPE_00_SIZE: u16 = 0x40;

/// BAR in-band encoding bits. The low bits of a BAR are not part of the
/// address: they tell what kind of BAR it is.
#[derive(Clone, Copy, Debug, PartialEq, Eq, Hash)]
pub struct BarEncodingBits {
    bits: u32,
}

impl BarEncodingBits {
    pub const USE_PIO: u32 = 0x1;
    /// Only used in MMIO.
    pub const TYPE_32_BIT: u32 = 0x0;
    pub const TYPE_64_BIT: u32 = 0x4;
    pub const PREFETCHABLE: u32 = 0x8;

    /// Every bit that has a meaning.
    pub const ALL: u32 = 0xd;

    /// The flags as a number.
    pub closed spec fn spec_bits(&self) -> u32 {
        self.bits
    }

    /// The flags as a number.
    #[verifier::when_used_as_spec(spec_bits)]
    pub fn bits(&self) -> (r: u32)
        ensures
            r == self.spec_bits(),
    {
        self.bits
    }

    /// No flag.
    pub fn empty() -> (r: Self)
        ensures
            r.bits() == 0,
    {
        BarEncodingBits { bits: 0 }
    }

    /// The flags that `bits` holds; bits without a meaning are dropped.
    pub fn from_bits_truncate(bits: u32) -> (r: Self)
        ensures
            r.bits() == bits & BarEncodingBits::ALL,
    {
        BarEncodingBits { bits: bits & BarEncodingBits::ALL }
    }

    /// The flags that `bits` holds, unless a bit of it has no meaning.
    pub fn from_bits(bits: u32) -> (r: Option<Self>)
        ensures
            r is Some <==> bits & !BarEncodingBits::ALL == 0,
            r matches Some(flags) ==> flags.bits() == bits,
    {
        if bits & !BarEncodingBits::ALL == 0 {
            Some(BarEncodingBits { bits })
        } else {
            None
        }
    }

    /// Whether every flag of `other` is set.
    pub fn contains(&self, other: Self) -> (r: bool)
        ensures
            r == (self.bits() & other.bits() == other.bits()),
    {
        self.bits & other.bits == other.bits
    }

    /// The flags of both.
    pub fn union(self, other: Self) -> (r: Self)
        ensures
            r.bits() == self.bits() | other.bits(),
    {
        BarEncodingBits { bits: self.bits | other.bits }
    }

    /// The flags of `self` that `other` lacks.
    pub fn difference(self, other: Self) -> (r: Self)
        ensures
            r.bits() == self.bits() & !other.bits(),
    {
        BarEncodingBits { bits: self.bits & !other.bits }
    }
}

/// The command register.
#[derive(Clone, Copy, Debug, PartialEq, Eq, Hash)]
pub struct Command {
    bits: u16,
}

impl Command {
    pub const PIO_ENABLED: u16 = 0x1;
    pub const MMIO_ENABLED: u16 = 0x2;
    pub const BUS_MASTER: u16 = 0x4;
    pub const SPECIAL_CYCLES: u16 = 0x8;
    pub const ENABLE_MEMORY_WRITE_INVALIDATE: u16 = 0x10;
    pub const VGA_PALETTE_SNOOP: u16 = 0x20;
    pub const PARITY_ERROR_RESPONSE: u16 = 0x40;
    pub const ENABLE_SERR: u16 = 0x100;
    pub const ENABLE_FAST_B2B: u16 = 0x200;
    pub const INTX_DISABLE: u16 = 0x400;

    /// Every bit that has a meaning.
    pub const ALL: u16 = 0x77f;

    /// The flags as a number.
    pub closed spec fn spec_bits(&self) -> u16 {
        self.bits
    }

    /// The flags as a number.
    #[verifier::when_used_as_spec(spec_bits)]
    pub fn bits(&self) -> (r: u16)
        ensures
            r == self.spec_bits(),
    {
        self.bits
    }

    /// No flag.
    pub fn empty() -> (r: Self)
        ensures
            r.bits() == 0,
    {
        Command { bits: 0 }
    }

    /// The flags that `bits` holds; bits without a meaning are dropped.
    pub fn from_bits_truncate(bits: u16) -> (r: Self)
        ensures
            r.bits() == bits & Command::ALL,
    {
        Command { bits: bits & Command::ALL }
    }

    /// The flags that `bits` holds, unless a bit of it has no meaning.
    pub fn from_bits(bits: u16) -> (r: Option<Self>)
        ensures
            r is Some <==> bits & !Command::ALL == 0,
            r matches Some(flags) ==> flags.bits() == bits,
    {
        if bits & !Command::ALL == 0 {
            Some(Command { bits })
        } else {
            None
        }
    }

    /// Whether every flag of `other` is set.
    pub fn contains(&self, other: Self) -> (r: bool)
        ensures
            r == (self.bits() & other.bits() == other.bits()),
    {
        self.bits & other.bits == other.bits
    }

    /// The flags of both.
    pub fn union(self, other: Self) -> (r: Self)
        ensures
            r.bits() == self.bits() | other.bits(),
    {
        Command { bits: self.bits | other.bits }
    }

    /// The flags of `self` that `other` lacks.
    pub fn difference(self, other: Self) -> (r: Self)
        ensures
            r.bits() == self.bits() & !other.bits(),
    {
        Command { bits: self.bits & !other.bits }
    }
}

/// The status register.
#[derive(Clone, Copy, Debug, PartialEq, Eq, Hash)]
pub struct Status {
    bits: u16,
}

impl Status {
    pub const INTERRUPT_STATUS: u16 = 0x8;
    pub const CAPABILITIES_LIST: u16 = 0x10;
    pub const CAPABLE_MHZ_66: u16 = 0x20;
    pub const CAPABLE_FAST_B2B: u16 = 0x80;
    pub const ERR_MASTER_PARITY: u16 = 0x100;
    pub const DEVSEL_FAST: u16 = 0x0;
    pub const DEVSEL_MED: u16 = 0x400;
    pub const DEVSEL_SLOW: u16 = 0x800;
    pub const ABORT_TARGET_SIGNALED: u16 = 0x800;
    pub const ABORT_TARGET_RECEIVED: u16 = 0x1000;
    pub const ABORT_MASTER_RECEIVED: u16 = 0x2000;
    pub const ERR_SIGNALED: u16 = 0x4000;
    pub const ERR_DETECTED_PARITY: u16 = 0x8000;

    /// Every bit that has a meaning.
    pub const ALL: u16 = 0xfdb8;

    /// The flags as a number.
    pub closed spec fn spec_bits(&self) -> u16 {
        self.bits
    }

    /// The flags as a number.
    #[verifier::when_used_as_spec(spec_bits)]
    pub fn bits(&self) -> (r: u16)
        ensures
            r == self.spec_bits(),
    {
        self.bits
    }

    /// No flag.
    pub fn empty() -> (r: Self)
        ensures
            r.bits() == 0,
    {
        Status { bits: 0 }
    }

    /// The flags that `bits` holds; bits without a meaning are dropped.
    pub fn from_bits_truncate(bits: u16) -> (r: Self)
        ensures
            r.bits() == bits & Status::ALL,
    {
        Status { bits: bits & Status::ALL }
    }

    /// The flags that `bits` holds, unless a bit of it has no meaning.
    pub fn from_bits(bits: u16) -> (r: Option<Self>)
        ensures
            r is Some <==> bits & !Status::ALL == 0,
            r matches Some(flags) ==> flags.bits() == bits,
    {
        if bits & !Status::ALL == 0 {
            Some(Status { bits })
        } else {
            None
        }
    }

    /// Whether every flag of `other` is set.
    pub fn contains(&self, other: Self) -> (r: bool)
        ensures
            r == (self.bits() & other.bits() == other.bits()),
    {
        self.bits & other.bits == other.bits
    }

    /// The flags of both.
    pub fn union(self, other: Self) -> (r: Self)
        ensures
            r.bits() == self.bits() | other.bits(),
    {
        Status { bits: self.bits | other.bits }
    }

    /// The flags of `self` that `other` lacks.
    pub fn difference(self, other: Self) -> (r: Self)
        ensures
            r.bits() == self.bits() & !other.bits(),
    {
        Status { bits: self.bits & !other.bits }
    }
}

} // verus!
