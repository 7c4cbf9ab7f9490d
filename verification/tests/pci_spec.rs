use vmm_core::pci_spec::caps::CapabilityId;
use vmm_core::pci_spec::caps::MsixCapabilityHeader;
use vmm_core::pci_spec::caps::MsixTableEntryIdx;
use vmm_core::pci_spec::cfg_space::BarEncodingBits;
use vmm_core::pci_spec::cfg_space::Command;
use vmm_core::pci_spec::cfg_space::HeaderType00;
use vmm_core::pci_spec::cfg_space::Status;
use vmm_core::pci_spec::cfg_space::HEADER_TYPE_00_SIZE;
use vmm_core::pci_spec::hwid::ClassCode;
use vmm_core::pci_spec::hwid::HardwareIds;
use vmm_core::pci_spec::hwid::ProgrammingInterface;
use vmm_core::pci_spec::hwid::Subclass;

#[test]
fn reserved_class_codes() {
    for c in 0..=u8::MAX {
        let expected = (0x14..=0x3f).contains(&c) || (0x41..=0xfe).contains(&c);
        assert_eq!(ClassCode(c).is_reserved(), expected, "class code {:#04x}", c);
    }
    assert!(!ClassCode(0x13).is_reserved());
    assert!(ClassCode(0x14).is_reserved());
    assert!(ClassCode(0x3f).is_reserved());
    assert!(!ClassCode(ClassCode::CO_PROCESSOR).is_reserved());
    assert!(ClassCode(0x41).is_reserved());
    assert!(ClassCode(0xfe).is_reserved());
    assert!(!ClassCode(ClassCode::UNASSIGNED).is_reserved());
}

#[test]
fn class_code_names() {
    assert_eq!(ClassCode(ClassCode::UNCLASSIFIED).name(), Some("UNCLASSIFIED"));
    assert_eq!(ClassCode(ClassCode::BRIDGE).name(), Some("BRIDGE"));
    assert_eq!(
        ClassCode(ClassCode::NONESSENTIAL_INSTRUMENTATION).name(),
        Some("NONESSENTIAL_INSTRUMENTATION")
    );
    assert_eq!(ClassCode(0x40).name(), Some("CO_PROCESSOR"));
    assert_eq!(ClassCode(0xff).name(), Some("UNASSIGNED"));
    assert_eq!(ClassCode(0x20).name(), None);
    for c in 0..=u8::MAX {
        assert_eq!(ClassCode(c).name().is_none(), ClassCode(c).is_reserved());
    }
}

#[test]
fn class_code_text() {
    assert_eq!(
        ClassCode(ClassCode::MASS_STORAGE_CONTROLLER).display(),
        "MASS_STORAGE_CONTROLLER"
    );
    assert_eq!(ClassCode(0x14).display(), "RESERVED(0x14)");
    assert_eq!(ClassCode(0x3f).display(), "RESERVED(0x3f)");
    assert_eq!(ClassCode(0xab).display(), "RESERVED(0xab)");
    assert_eq!(ClassCode(0xfe).display(), "RESERVED(0xfe)");
    for c in 0..=u8::MAX {
        if ClassCode(c).is_reserved() {
            assert_eq!(ClassCode(c).display(), format!("RESERVED({:#04x})", c));
        }
    }
}

#[test]
fn codes_convert_to_and_from_bytes() {
    assert_eq!(ClassCode::from(6), ClassCode(ClassCode::BRIDGE));
    assert_eq!(u8::from(ClassCode(0x77)), 0x77);
    assert_eq!(Subclass::from(0x80), Subclass(Subclass::BRIDGE_OTHER));
    assert_eq!(u8::from(Subclass(Subclass::BRIDGE_ISA)), 1);
    assert_eq!(
        ProgrammingInterface::from(2),
        ProgrammingInterface(ProgrammingInterface::MASS_STORAGE_CONTROLLER_NON_VOLATILE_MEMORY_NVME)
    );
    assert_eq!(
        u8::from(ProgrammingInterface(
            ProgrammingInterface::NETWORK_CONTROLLER_ETHERNET_GDMA
        )),
        1
    );
    assert_eq!(Subclass::NONE, 0);
    assert_eq!(Subclass::MASS_STORAGE_CONTROLLER_NON_VOLATILE_MEMORY, 8);
    assert_eq!(ProgrammingInterface::NONE, 0);
}

#[test]
fn hardware_ids_hold_their_fields() {
    let ids = HardwareIds {
        vendor_id: 0x1414,
        device_id: 0xb111,
        revision_id: 1,
        prog_if: ProgrammingInterface(ProgrammingInterface::NONE),
        sub_class: Subclass(Subclass::BRIDGE_HOST),
        base_class: ClassCode(ClassCode::BRIDGE),
        type0_sub_vendor_id: 2,
        type0_sub_system_id: 3,
    };
    let copy = ids;
    assert_eq!(copy.vendor_id, 0x1414);
    assert_eq!(copy.device_id, 0xb111);
    assert_eq!(copy.base_class, ClassCode(6));
    assert_eq!(ids.type0_sub_system_id, 3);
}

#[test]
fn header_offsets() {
    assert_eq!(HeaderType00::DEVICE_VENDOR, 0x00);
    assert_eq!(HeaderType00::BAR0, 0x10);
    assert_eq!(HeaderType00::BAR5, 0x24);
    assert_eq!(HeaderType00::LATENCY_INTERRUPT, 0x3c);
    assert_eq!(HEADER_TYPE_00_SIZE, 0x40);
    assert_eq!(HeaderType00(HeaderType00::BAR1), HeaderType00(0x14));
    assert_eq!(CapabilityId::VENDOR_SPECIFIC, 0x09);
    assert_eq!(CapabilityId::MSIX, 0x11);
    assert_eq!(MsixCapabilityHeader::OFFSET_PBA, 8);
    assert_eq!(MsixTableEntryIdx::VECTOR_CTL, 0xc);
}

#[test]
fn command_flags() {
    assert_eq!(Command::empty().bits(), 0);
    assert_eq!(Command::ALL, 0x77f);
    let cmd = Command::from_bits_truncate(0xffff);
    assert_eq!(cmd.bits(), 0x77f);
    assert!(Command::from_bits(0x80).is_none());
    assert!(Command::from_bits(0x800).is_none());
    let mmio = Command::from_bits(Command::MMIO_ENABLED).unwrap();
    let both = mmio.union(Command::from_bits_truncate(Command::BUS_MASTER));
    assert_eq!(both.bits(), 0x6);
    assert!(both.contains(mmio));
    assert!(!mmio.contains(both));
    assert!(both.contains(Command::empty()));
    assert_eq!(both.difference(mmio).bits(), Command::BUS_MASTER);
    assert_eq!(Command::INTX_DISABLE, 1 << 10);
}

#[test]
fn status_and_bar_flags() {
    assert_eq!(Status::ALL, 0xfdb8);
    assert_eq!(Status::from_bits_truncate(0xffff).bits(), 0xfdb8);
    assert!(Status::from_bits(0x1).is_none());
    assert_eq!(
        Status::from_bits(Status::CAPABILITIES_LIST | Status::DEVSEL_MED)
            .unwrap()
            .bits(),
        0x410
    );
    assert_eq!(Status::ERR_DETECTED_PARITY, 0x8000);
    assert_eq!(BarEncodingBits::ALL, 0xd);
    let bar = BarEncodingBits::from_bits_truncate(0xfff0_000c);
    assert_eq!(
        bar.bits(),
        BarEncodingBits::TYPE_64_BIT | BarEncodingBits::PREFETCHABLE
    );
    assert!(bar.contains(BarEncodingBits::from_bits_truncate(BarEncodingBits::TYPE_64_BIT)));
    assert!(!bar.contains(BarEncodingBits::from_bits_truncate(BarEncodingBits::USE_PIO)));
    assert!(BarEncodingBits::from_bits(0x2).is_none());
}
