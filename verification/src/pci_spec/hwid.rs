//! Hardware ID types and constants.

use vstd::prelude::*;
use vstd::std_specs::convert::FromSpecImpl;
use vstd::string::*;

verus! {

/// The hard-coded hardware IDs of one PCI device, as its configuration
/// space registers report them.
#[derive(Debug, Copy, Clone)]
pub struct HardwareIds {
    pub vendor_id: u16,
    pub device_id: u16,
    pub revision_id: u8,
    pub prog_if: ProgrammingInterface,
    pub sub_class: Subclass,
    pub base_class: ClassCode,
    pub type0_sub_vendor_id: u16,
    pub type0_sub_system_id: u16,
}

/// Identifies the PCI device's type. Any byte is a class code; the named
/// ones are the associated constants.
#[derive(Clone, Copy, Debug, PartialEq, Eq, Hash)]
pub struct ClassCode(pub u8);

impl ClassCode {
    pub const UNCLASSIFIED: u8 = 0x00;
    pub const MASS_STORAGE_CONTROLLER: u8 = 0x01;
    pub const NETWORK_CONTROLLER: u8 = 0x02;
    pub const DISPLAY_CONTROLLER: u8 = 0x03;
    pub const MULTIMEDIA_CONTROLLER: u8 = 0x04;
    pub const MEMORY_CONTROLLER: u8 = 0x05;
    pub const BRIDGE: u8 = 0x06;
    pub const SIMPLE_COMMUNICATION_CONTROLLER: u8 = 0x07;
    pub const BASE_SYSTEM_PERIPHERAL: u8 = 0x08;
    pub const INPUT_DEVICE_CONTROLLER: u8 = 0x09;
    pub const DOCKING_STATION: u8 = 0x0A;
    pub const PROCESSOR: u8 = 0x0B;
    pub const SERIAL_BUS_CONTROLLER: u8 = 0x0C;
    pub const WIRELESS_CONTROLLER: u8 = 0x0D;
    pub const INTELLIGENT_CONTROLLER: u8 = 0x0E;
    pub const SATELLITE_COMMUNICATION_CONTROLLER: u8 = 0x0F;
    pub const ENCRYPTION_CONTROLLER: u8 = 0x10;
    pub const SIGNAL_PROCESSING_CONTROLLER: u8 = 0x11;
    pub const PROCESSING_ACCELERATOR: u8 = 0x12;
    pub const NONESSENTIAL_INSTRUMENTATION: u8 = 0x13;
    pub const CO_PROCESSOR: u8 = 0x40;
    /// Vendor specific.
    pub const UNASSIGNED: u8 = 0xFF;

    /// Whether the code lies in one of the two ranges that the
    /// specification reserves.
    pub open spec fn spec_is_reserved(&self) -> bool {
        (0x14 <= self.0 <= 0x3f) || (0x41 <= self.0 <= 0xfe)
    }

    /// Whether the code lies in one of the two ranges that the
    /// specification reserves.
    #[verifier::when_used_as_spec(spec_is_reserved)]
    pub fn is_reserved(&self) -> (r: bool)
        ensures
            r == self.spec_is_reserved(),
    {
        let c = self.0;
        (0x14 <= c && c <= 0x3f) || (0x41 <= c && c <= 0xfe)
    }

    /// The name of a code that is not reserved.
    pub open spec fn spec_name(&self) -> Seq<char>
        recommends
            !self.spec_is_reserved(),
    {
        let c = self.0;
        if c == 0x00 {
            "UNCLASSIFIED"@
        } else if c == 0x01 {
            "MASS_STORAGE_CONTROLLER"@
        } else if c == 0x02 {
            "NETWORK_CONTROLLER"@
        } else if c == 0x03 {
            "DISPLAY_CONTROLLER"@
        } else if c == 0x04 {
            "MULTIMEDIA_CONTROLLER"@
        } else if c == 0x05 {
            "MEMORY_CONTROLLER"@
        } else if c == 0x06 {
            "BRIDGE"@
        } else if c == 0x07 {
            "SIMPLE_COMMUNICATION_CONTROLLER"@
        } else if c == 0x08 {
            "BASE_SYSTEM_PERIPHERAL"@
        } else if c == 0x09 {
            "INPUT_DEVICE_CONTROLLER"@
        } else if c == 0x0A {
            "DOCKING_STATION"@
        } else if c == 0x0B {
            "PROCESSOR"@
        } else if c == 0x0C {
            "SERIAL_BUS_CONTROLLER"@
        } else if c == 0x0D {
            "WIRELESS_CONTROLLER"@
        } else if c == 0x0E {
            "INTELLIGENT_CONTROLLER"@
        } else if c == 0x0F {
            "SATELLITE_COMMUNICATION_CONTROLLER"@
        } else if c == 0x10 {
            "ENCRYPTION_CONTROLLER"@
        } else if c == 0x11 {
            "SIGNAL_PROCESSING_CONTROLLER"@
        } else if c == 0x12 {
            "PROCESSING_ACCELERATOR"@
        } else if c == 0x13 {
            "NONESSENTIAL_INSTRUMENTATION"@
        } else if c == 0x40 {
            "CO_PROCESSOR"@
        } else {
            "UNASSIGNED"@
        }
    }

    /// The name of the code, unless the code is reserved.
    pub fn name(&self) -> (r: Option<&'static str>)
        ensures
            self.is_reserved() <==> r is None,
            r matches Some(name) ==> name@ == self.spec_name(),
    {
        let c = self.0;
        if self.is_reserved() {
            None
        } else if c == 0x00 {
            Some("UNCLASSIFIED")
        } else if c == 0x01 {
            Some("MASS_STORAGE_CONTROLLER")
        } else if c == 0x02 {
            Some("NETWORK_CONTROLLER")
        } else if c == 0x03 {
            Some("DISPLAY_CONTROLLER")
        } else if c == 0x04 {
            Some("MULTIMEDIA_CONTROLLER")
        } else if c == 0x05 {
            Some("MEMORY_CONTROLLER")
        } else if c == 0x06 {
            Some("BRIDGE")
        } else if c == 0x07 {
            Some("SIMPLE_COMMUNICATION_CONTROLLER")
        } else if c == 0x08 {
            Some("BASE_SYSTEM_PERIPHERAL")
        } else if c == 0x09 {
            Some("INPUT_DEVICE_CONTROLLER")
        } else if c == 0x0A {
            Some("DOCKING_STATION")
        } else if c == 0x0B {
            Some("PROCESSOR")
        } else if c == 0x0C {
            Some("SERIAL_BUS_CONTROLLER")
        } else if c == 0x0D {
            Some("WIRELESS_CONTROLLER")
        } else if c == 0x0E {
            Some("INTELLIGENT_CONTROLLER")
        } else if c == 0x0F {
            Some("SATELLITE_COMMUNICATION_CONTROLLER")
        } else if c == 0x10 {
            Some("ENCRYPTION_CONTROLLER")
        } else if c == 0x11 {
            Some("SIGNAL_PROCESSING_CONTROLLER")
        } else if c == 0x12 {
            Some("PROCESSING_ACCELERATOR")
        } else if c == 0x13 {
            Some("NONESSENTIAL_INSTRUMENTATION")
        } else if c == 0x40 {
            Some("CO_PROCESSOR")
        } else {
            Some("UNASSIGNED")
        }
    }

    /// The text that stands for the code: its name, or for a reserved code
    /// the word `RESERVED` with the code in hexadecimal.
    pub open spec fn spec_display(&self) -> Seq<char> {
        if self.spec_is_reserved() {
            "RESERVED("@ + hex_byte(self.0) + ")"@
        } else {
            self.spec_name()
        }
    }

    /// The text that stands for the code.
    pub fn display(&self) -> (r: String)
        ensures
            r@ == self.spec_display(),
    {
        match self.name() {
            Some(name) => String::from_str(name),
            None => {
                let c = self.0;
                assert(c >> 4 < 16 && c & 0xf < 16) by (bit_vector);
                let mut text = String::from_str("RESERVED(");
                text.append("0x");
                text.append(hex_digit(self.0 >> 4));
                text.append(hex_digit(self.0 & 0xf));
                text.append(")");
                text
            },
        }
    }
}

/// The sixteen hexadecimal digits, in order.
pub open spec fn hex_digits() -> Seq<char> {
    "0123456789abcdef"@
}

/// A byte as `0x` and two lower-case hexadecimal digits.
pub open spec fn hex_byte(b: u8) -> Seq<char> {
    "0x"@ + hex_digits().subrange((b >> 4) as int, (b >> 4) as int + 1) + hex_digits().subrange(
        (b & 0xf) as int,
        (b & 0xf) as int + 1,
    )
}

/// The hexadecimal digit for `n`.
fn hex_digit(n: u8) -> (r: &'static str)
    requires
        n < 16,
    ensures
        r@ == hex_digits().subrange(n as int, n as int + 1),
{
    let digits = "0123456789abcdef";
    proof {
        reveal_strlit("0123456789abcdef");
    }
    digits.substring_ascii(n as usize, n as usize + 1)
}

impl From<u8> for ClassCode {
    fn from(c: u8) -> (r: Self) {
        ClassCode(c)
    }
}

impl FromSpecImpl<u8> for ClassCode {
    open spec fn obeys_from_spec() -> bool {
        true
    }

    open spec fn from_spec(c: u8) -> Self {
        ClassCode(c)
    }
}

impl From<ClassCode> for u8 {
    fn from(c: ClassCode) -> (r: Self) {
        c.0
    }
}

impl FromSpecImpl<ClassCode> for u8 {
    open spec fn obeys_from_spec() -> bool {
        true
    }

    open spec fn from_spec(c: ClassCode) -> Self {
        c.0
    }
}

/// Identifies the PCI device's function within its class. Only the values
/// in use are named.
#[derive(Clone, Copy, Debug, PartialEq, Eq, Hash)]
pub struct Subclass(pub u8);

impl Subclass {
    pub const NONE: u8 = 0x00;
    pub const MASS_STORAGE_CONTROLLER_NON_VOLATILE_MEMORY: u8 = 0x08;
    pub const NETWORK_CONTROLLER_ETHERNET: u8 = 0x00;
    pub const BRIDGE_HOST: u8 = 0x00;
    pub const BRIDGE_ISA: u8 = 0x01;
    pub const BRIDGE_OTHER: u8 = 0x80;
    pub const BASE_SYSTEM_PERIPHERAL_OTHER: u8 = 0x80;
}

impl From<u8> for Subclass {
    fn from(c: u8) -> (r: Self) {
        Subclass(c)
    }
}

impl FromSpecImpl<u8> for Subclass {
    open spec fn obeys_from_spec() -> bool {
        true
    }

    open spec fn from_spec(c: u8) -> Self {
        Subclass(c)
    }
}

impl From<Subclass> for u8 {
    fn from(c: Subclass) -> (r: Self) {
        c.0
    }
}

impl FromSpecImpl<Subclass> for u8 {
    open spec fn obeys_from_spec() -> bool {
        true
    }

    open spec fn from_spec(c: Subclass) -> Self {
        c.0
    }
}

/// Identifies the register-level programming interface of the PCI device.
/// Only the values in use are named.
#[derive(Clone, Copy, Debug, PartialEq, Eq, Hash)]
pub struct ProgrammingInterface(pub u8);

impl ProgrammingInterface {
    pub const NONE: u8 = 0x00;
    pub const MASS_STORAGE_CONTROLLER_NON_VOLATILE_MEMORY_NVME: u8 = 0x02;
    pub const NETWORK_CONTROLLER_ETHERNET_GDMA: u8 = 0x01;
}

impl From<u8> for ProgrammingInterface {
    fn from(c: u8) -> (r: Self) {
        ProgrammingInterface(c)
    }
}

impl FromSpecImpl<u8> for ProgrammingInterface {
    open spec fn obeys_from_spec() -> bool {
        true
    }

    open spec fn from_spec(c: u8) -> Self {
        ProgrammingInterface(c)
    }
}

impl From<ProgrammingInterface> for u8 {
    fn from(c: ProgrammingInterface) -> (r: Self) {
        c.0
    }
}

impl FromSpecImpl<ProgrammingInterface> for u8 {
    open spec fn obeys_from_spec() -> bool {
        true
    }

    open spec fn from_spec(c: ProgrammingInterface) -> Self {
        c.0
    }
}

} // verus!
