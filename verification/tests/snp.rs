use vmm_core::snp::builder::SnpVpContext;
use vmm_core::snp::builder::SnpVpContextBuilder;
use vmm_core::snp::builder::VbsContext;
use vmm_core::snp::hardware::is_importable;
use vmm_core::snp::hardware::vmsa_segment_register;
use vmm_core::snp::hardware::SnpHardwareContext;
use vmm_core::snp::trampoline::build_trampoline;
use vmm_core::snp::trampoline::u64_le_bytes;
use vmm_core::snp::trampoline::BREAK_OFFSET;
use vmm_core::snp::trampoline::ENTRY_OFFSET;
use vmm_core::snp::trampoline::PAGE_SIZE;
use vmm_core::snp::BootPageAcceptance;
use vmm_core::snp::BuilderError;
use vmm_core::snp::ContextError;
use vmm_core::snp::InjectionType;
use vmm_core::snp::PageData;
use vmm_core::snp::SegmentRegister;
use vmm_core::snp::SevFeatures;
use vmm_core::snp::SevSelector;
use vmm_core::snp::SevVmsa;
use vmm_core::snp::TableRegister;
use vmm_core::snp::VpContextPageState;
use vmm_core::snp::VpContextState;
use vmm_core::snp::X86Register;
use vmm_core::snp::X64_EFER_SVME;
use vmm_core::synic::Vtl;

/// A context of a lower VTL that records what it is given.
struct Recorded {
    vtl: u8,
    registers: Vec<X86Register>,
    page: Option<(u64, BootPageAcceptance)>,
}

impl VbsContext for Recorded {
    fn new(vtl: u8) -> Self {
        Recorded {
            vtl,
            registers: Vec::new(),
            page: None,
        }
    }

    fn import_vp_register(&mut self, register: X86Register) {
        self.registers.push(register);
    }

    fn vp_context_page(&self) -> Result<u64, ContextError> {
        self.page.map(|p| p.0).ok_or(ContextError::LowerVtl)
    }

    fn set_vp_context_memory(&mut self, page_base: u64, acceptance: BootPageAcceptance) {
        self.page = Some((page_base, acceptance));
    }

    fn finalize(self) -> Option<VpContextState> {
        let (page_base, acceptance) = self.page?;
        Some(VpContextState::Page(VpContextPageState {
            page_base,
            page_count: 1,
            acceptance,
            data: PageData::Bytes(vec![self.vtl, self.registers.len() as u8]),
        }))
    }
}

const ZERO: SevSelector = SevSelector {
    selector: 0,
    attrib: 0,
    limit: 0,
    base: 0,
};

fn vmsa_of(states: &[VpContextState], index: usize) -> (u64, BootPageAcceptance, SevVmsa) {
    match &states[index] {
        VpContextState::Page(page) => {
            assert_eq!(page.page_count, 1);
            match &page.data {
                PageData::Vmsa(vmsa) => (page.page_base, page.acceptance, *vmsa),
                PageData::Bytes(_) => panic!("expected a save area"),
            }
        }
    }
}

fn hardware(vtl: Vtl, enlightened_uefi: bool, injection: InjectionType) -> SevVmsa {
    let mut context = SnpHardwareContext::new(vtl, enlightened_uefi, 0x8000_0000, injection);
    context.set_vp_context_memory(5, BootPageAcceptance::VpContext);
    let states = context.finalize();
    vmsa_of(&states, states.len() - 1).2
}

#[test]
fn initial_save_area_of_vtl0() {
    let vmsa = hardware(Vtl::Vtl0, false, InjectionType::Restricted);
    assert_eq!(vmsa.efer, X64_EFER_SVME);
    assert_eq!(vmsa.efer, 1 << 12);
    assert_eq!(vmsa.xcr0, 1);
    assert_eq!(vmsa.virtual_tom, 0x8000_0000);
    assert_eq!(
        vmsa.sev_features,
        SevFeatures {
            snp: true,
            vtom: true,
            restrict_injection: false,
            alternate_injection: true,
            debug_swap: true,
            prevent_host_ibs: false,
            snp_btb_isolation: false,
            vmsa_reg_prot: false,
        }
    );
    assert_eq!(vmsa.cs, ZERO);
    assert_eq!(vmsa.rip, 0);
    let normal = hardware(Vtl::Vtl0, false, InjectionType::Normal);
    assert!(!normal.sev_features.alternate_injection);
    assert!(!normal.sev_features.restrict_injection);
    let vtl1 = hardware(Vtl::Vtl1, false, InjectionType::Restricted);
    assert_eq!(vtl1.sev_features, vmsa.sev_features);
}

#[test]
fn initial_save_area_of_the_paravisor() {
    let vmsa = hardware(Vtl::Vtl2, false, InjectionType::Restricted);
    assert_eq!(vmsa.virtual_tom, 0);
    assert_eq!(
        vmsa.sev_features,
        SevFeatures {
            snp: true,
            vtom: false,
            restrict_injection: true,
            alternate_injection: false,
            debug_swap: true,
            prevent_host_ibs: true,
            snp_btb_isolation: true,
            vmsa_reg_prot: true,
        }
    );
    let normal = hardware(Vtl::Vtl2, false, InjectionType::Normal);
    assert!(!normal.sev_features.restrict_injection);
    assert!(normal.sev_features.vmsa_reg_prot);
}

#[test]
fn initial_save_area_with_enlightened_firmware() {
    for vtl in [Vtl::Vtl0, Vtl::Vtl2] {
        let vmsa = hardware(vtl, true, InjectionType::Restricted);
        assert_eq!(vmsa.virtual_tom, 0x8000_0000);
        assert_eq!(
            vmsa.sev_features,
            SevFeatures {
                snp: true,
                vtom: true,
                restrict_injection: true,
                alternate_injection: false,
                debug_swap: true,
                prevent_host_ibs: false,
                snp_btb_isolation: false,
                vmsa_reg_prot: false,
            }
        );
    }
}

#[test]
fn registers_are_imported() {
    let mut context = SnpHardwareContext::new(Vtl::Vtl0, false, 0, InjectionType::Normal);
    let segment = SegmentRegister {
        base: 0x1000,
        limit: 0xffff_ffff,
        selector: 0x10,
        attributes: 0xc09b,
    };
    context.import_register(X86Register::Gdtr(TableRegister {
        base: 0x2000,
        limit: 0x17,
    }));
    context.import_register(X86Register::Cs(segment));
    context.import_register(X86Register::Ds(SegmentRegister {
        selector: 0x18,
        ..segment
    }));
    context.import_register(X86Register::Tr(SegmentRegister {
        attributes: 0x008b,
        ..segment
    }));
    context.import_register(X86Register::Cr0(0x8000_0011));
    context.import_register(X86Register::Cr3(0x3000));
    context.import_register(X86Register::Cr4(0x20));
    context.import_register(X86Register::Efer(0x500));
    context.import_register(X86Register::Pat(0x0007_0406));
    context.import_register(X86Register::Rip(0xfff0));
    context.import_register(X86Register::Rbp(1));
    context.import_register(X86Register::Rsi(2));
    context.import_register(X86Register::R8(8));
    context.import_register(X86Register::R9(9));
    context.import_register(X86Register::R10(10));
    context.import_register(X86Register::R11(11));
    context.import_register(X86Register::R12(12));
    context.import_register(X86Register::MtrrDefType(0xc00));
    context.import_register(X86Register::MtrrFix4kF8000(5));
    context.set_vp_context_memory(9, BootPageAcceptance::VpContext);
    assert_eq!(context.vp_context_page(), Ok(9));
    let states = context.finalize();
    assert_eq!(states.len(), 1);
    let (page, acceptance, vmsa) = vmsa_of(&states, 0);
    assert_eq!(page, 9);
    assert_eq!(acceptance, BootPageAcceptance::VpContext);
    assert_eq!(
        vmsa.gdtr,
        SevSelector {
            selector: 0,
            attrib: 0,
            limit: 0x17,
            base: 0x2000
        }
    );
    assert_eq!(
        vmsa.cs,
        SevSelector {
            selector: 0x10,
            attrib: 0xc9b,
            limit: 0xffff_ffff,
            base: 0x1000
        }
    );
    assert_eq!(vmsa.ds.selector, 0x18);
    assert_eq!(vmsa.tr.attrib, 0x08b);
    assert_eq!(vmsa.es, ZERO);
    assert_eq!(vmsa.cr0, 0x8000_0011);
    assert_eq!(vmsa.cr3, 0x3000);
    assert_eq!(vmsa.cr4, 0x20);
    assert_eq!(vmsa.efer, 0x1500);
    assert_eq!(vmsa.pat, 0x0007_0406);
    assert_eq!(vmsa.rip, 0xfff0);
    assert_eq!((vmsa.rbp, vmsa.rsi), (1, 2));
    assert_eq!(
        (vmsa.r8, vmsa.r9, vmsa.r10, vmsa.r11, vmsa.r12),
        (8, 9, 10, 11, 12)
    );
    assert_eq!(vmsa.xcr0, 1);
}

#[test]
fn segment_attributes_are_packed() {
    let selector = vmsa_segment_register(SegmentRegister {
        base: 1,
        limit: 2,
        selector: 3,
        attributes: 0xffff,
    });
    assert_eq!(selector.attrib, 0xfff);
    assert_eq!((selector.base, selector.limit, selector.selector), (1, 2, 3));
    let selector = vmsa_segment_register(SegmentRegister {
        base: 0,
        limit: 0,
        selector: 0,
        attributes: 0xa0f3,
    });
    assert_eq!(selector.attrib, 0xaf3);
    let selector = vmsa_segment_register(SegmentRegister {
        base: 0,
        limit: 0,
        selector: 0,
        attributes: 0x0f00,
    });
    assert_eq!(selector.attrib, 0);
}

#[test]
fn registers_without_a_place() {
    let table = TableRegister { base: 0, limit: 0 };
    assert!(!is_importable(X86Register::Idtr(table)));
    assert!(!is_importable(X86Register::Rsp(0)));
    assert!(!is_importable(X86Register::Rflags(2)));
    assert!(is_importable(X86Register::Gdtr(table)));
    assert!(is_importable(X86Register::Rip(0)));
    assert!(is_importable(X86Register::MtrrPhysBase0(0)));
}

#[test]
fn context_page_is_set_once() {
    let mut context = SnpHardwareContext::new(Vtl::Vtl0, false, 0, InjectionType::Normal);
    assert_eq!(context.vp_context_page(), Err(ContextError::NoAcceptance));
    assert!(context.can_set_vp_context_memory(BootPageAcceptance::VpContext));
    assert!(!context.can_set_vp_context_memory(BootPageAcceptance::Exclusive));
    context.set_vp_context_memory(77, BootPageAcceptance::VpContext);
    assert!(!context.can_set_vp_context_memory(BootPageAcceptance::VpContext));
    assert_eq!(context.vp_context_page(), Ok(77));
}

#[test]
fn context_without_memory_has_no_pages() {
    let context = SnpHardwareContext::new(Vtl::Vtl0, true, 0, InjectionType::Restricted);
    assert!(context.finalize().is_empty());
}

const TRAMPOLINE_CODE: [u8; 47] = [
    0xCC, 0xBE, 0x00, 0x10, 0x00, 0x00, 0xBB, 0x00, 0x00, 0x10, 0x00, 0x33, 0xC9, 0xBA, 0x01,
    0x00, 0x00, 0x00, 0x8B, 0xC6, 0xF2, 0x0F, 0x01, 0xFF, 0x72, 0xE6, 0x48, 0x85, 0xC0, 0x75,
    0xE1, 0x81, 0xC6, 0x00, 0x10, 0x00, 0x00, 0x3B, 0xF3, 0x72, 0xE9, 0xFF, 0x25, 0xC9, 0xFF,
    0xFF, 0xFF,
];

#[test]
fn trampoline_page() {
    let page = build_trampoline(0x1122_3344_5566_7788);
    assert_eq!(page.len(), 4096);
    assert_eq!(PAGE_SIZE, 4096);
    assert_eq!(
        page[..8],
        [0x88, 0x77, 0x66, 0x55, 0x44, 0x33, 0x22, 0x11]
    );
    assert_eq!(page[8..55], TRAMPOLINE_CODE);
    assert!(page[55..].iter().all(|b| *b == 0));
    assert_eq!(BREAK_OFFSET, 8);
    assert_eq!(ENTRY_OFFSET, 9);
    assert_eq!(page[BREAK_OFFSET], 0xCC);
    assert_eq!(u64_le_bytes(1), [1, 0, 0, 0, 0, 0, 0, 0]);
    assert_eq!(u64_le_bytes(u64::MAX), [0xff; 8]);

    // The jumps land where they are meant to.
    let target = |at: usize| (at as i64 + 2 + i64::from(page[at + 1] as i8)) as usize;
    assert_eq!(target(32), BREAK_OFFSET);
    assert_eq!(target(37), BREAK_OFFSET);
    assert_eq!(target(47), 26);
    let relative = i32::from_le_bytes([page[51], page[52], page[53], page[54]]);
    assert_eq!(55 + i64::from(relative), 0);
}

#[test]
fn enlightened_context_comes_with_a_trampoline() {
    let mut context = SnpHardwareContext::new(Vtl::Vtl0, true, 0, InjectionType::Restricted);
    context.import_register(X86Register::Rip(0xffff_fff0));
    context.set_vp_context_memory(3, BootPageAcceptance::VpContext);
    let states = context.finalize();
    assert_eq!(states.len(), 2);
    match &states[0] {
        VpContextState::Page(page) => {
            assert_eq!(page.page_base, 0);
            assert_eq!(page.page_count, 1);
            assert_eq!(page.acceptance, BootPageAcceptance::Exclusive);
            assert_eq!(page.data, PageData::Bytes(build_trampoline(0xffff_fff0)));
        }
    }
    let (page, acceptance, vmsa) = vmsa_of(&states, 1);
    assert_eq!(page, 3);
    assert_eq!(acceptance, BootPageAcceptance::VpContext);
    assert_eq!(vmsa.rip, 9);
}

#[test]
fn builder_for_vtl0() {
    let mut builder =
        SnpVpContextBuilder::<Recorded>::new(Vtl::Vtl0, false, 0x1000, InjectionType::Normal)
            .ok()
            .unwrap();
    assert!(builder.can_import(Vtl::Vtl0, X86Register::Rip(1)));
    assert!(!builder.can_import(Vtl::Vtl0, X86Register::Rsp(1)));
    assert!(!builder.can_import(Vtl::Vtl1, X86Register::Rip(1)));
    assert!(!builder.can_import(Vtl::Vtl2, X86Register::Rip(1)));
    assert!(builder.can_set_memory(Vtl::Vtl0, BootPageAcceptance::VpContext));
    assert!(!builder.can_set_memory(Vtl::Vtl0, BootPageAcceptance::Shared));
    assert!(!builder.can_set_memory(Vtl::Vtl2, BootPageAcceptance::VpContext));
    assert_eq!(
        builder.vp_context_page(Vtl::Vtl0),
        Err(ContextError::NoAcceptance)
    );
    assert_eq!(
        builder.vp_context_page(Vtl::Vtl1),
        Err(ContextError::NoContext)
    );
    assert_eq!(
        builder.vp_context_page(Vtl::Vtl2),
        Err(ContextError::NoContext)
    );
    builder.import_vp_register(Vtl::Vtl0, X86Register::Rip(0x100));
    builder.set_vp_context_memory(Vtl::Vtl0, 4, BootPageAcceptance::VpContext);
    assert_eq!(builder.vp_context_page(Vtl::Vtl0), Ok(4));
    let states = builder.finalize();
    assert_eq!(states.len(), 1);
    let (page, _, vmsa) = vmsa_of(&states, 0);
    assert_eq!(page, 4);
    assert_eq!(vmsa.rip, 0x100);
    assert_eq!(vmsa.virtual_tom, 0x1000);
}

#[test]
fn builder_for_vtl1_is_refused() {
    let r = SnpVpContextBuilder::<Recorded>::new(Vtl::Vtl1, false, 0, InjectionType::Normal);
    assert_eq!(r.err(), Some(BuilderError::Vtl1NotSupported));
    let r = SnpVpContextBuilder::<Recorded>::new(Vtl::Vtl1, true, 0, InjectionType::Normal);
    assert_eq!(r.err(), Some(BuilderError::Vtl1NotSupported));
}

#[test]
fn builder_for_vtl2() {
    let mut builder =
        SnpVpContextBuilder::<Recorded>::new(Vtl::Vtl2, false, 0x1000, InjectionType::Restricted)
            .ok()
            .unwrap();
    // The lower VTL takes any register.
    assert!(builder.can_import(Vtl::Vtl0, X86Register::Rsp(1)));
    assert!(!builder.can_import(Vtl::Vtl1, X86Register::Rip(1)));
    assert!(!builder.can_import(Vtl::Vtl2, X86Register::Rflags(1)));
    assert_eq!(
        builder.vp_context_page(Vtl::Vtl0),
        Err(ContextError::LowerVtl)
    );
    builder.import_vp_register(Vtl::Vtl0, X86Register::Rsp(1));
    builder.import_vp_register(Vtl::Vtl0, X86Register::Rip(2));
    builder.import_vp_register(Vtl::Vtl2, X86Register::Rip(0x200));
    builder.set_vp_context_memory(Vtl::Vtl2, 8, BootPageAcceptance::VpContext);
    builder.set_vp_context_memory(Vtl::Vtl0, 6, BootPageAcceptance::Exclusive);
    assert_eq!(builder.vp_context_page(Vtl::Vtl0), Ok(6));
    assert_eq!(builder.vp_context_page(Vtl::Vtl2), Ok(8));
    let states = builder.finalize();
    assert_eq!(states.len(), 2);
    assert_eq!(
        states[0],
        VpContextState::Page(VpContextPageState {
            page_base: 6,
            page_count: 1,
            acceptance: BootPageAcceptance::Exclusive,
            data: PageData::Bytes(vec![0, 2]),
        })
    );
    let (page, _, vmsa) = vmsa_of(&states, 1);
    assert_eq!(page, 8);
    assert_eq!(vmsa.rip, 0x200);
    assert_eq!(vmsa.virtual_tom, 0);
}

#[test]
fn unused_context() {
    let context: SnpVpContext<Recorded> = SnpVpContext::Unused;
    assert!(!context.can_import(X86Register::Rip(0)));
    assert!(!context.can_set_memory(BootPageAcceptance::VpContext));
    assert_eq!(context.vp_context_page(), Err(ContextError::NoContext));
    assert!(context.finalize().is_empty());
}
