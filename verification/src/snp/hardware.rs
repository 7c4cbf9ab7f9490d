//! The context of the VTL that runs on the hardware's own save area.

use super::trampoline::build_trampoline;
use super::trampoline::trampoline_page;
use super::trampoline::ENTRY_OFFSET;
use super::BootPageAcceptance;
use super::ContextError;
use super::InjectionType;
use super::PageData;
use super::SegmentRegister;
use super::SevFeatures;
use super::SevSelector;
use super::SevVmsa;
use super::TableRegister;
use super::VpContextPageState;
use super::VpContextState;
use super::X86Register;
use super::X64_EFER_SVME;
use crate::synic::Vtl;
use vstd::prelude::*;

verus! {

/// A selector with every field zero.
pub open spec fn zero_selector() -> SevSelector {
    SevSelector { selector: 0, attrib: 0, limit: 0, base: 0 }
}

/// The features of the first save area of `vtl`.
///
/// With enlightened firmware and no paravisor, injection is restricted so
/// that the firmware receives `#HV`. Otherwise a VTL below the paravisor's
/// uses alternate injection, and the paravisor's VTL uses restricted
/// injection, each only if `injection_type` asks for restriction; the
/// paravisor's VTL also gets the isolation features and no virtual top of
/// memory.
pub open spec fn initial_features(
    vtl: Vtl,
    enlightened_uefi: bool,
    injection_type: InjectionType,
) -> SevFeatures {
    let restricted = injection_type == InjectionType::Restricted;
    let secure = vtl.level() >= Vtl::Vtl2.level();
    SevFeatures {
        snp: true,
        vtom: enlightened_uefi || !secure,
        restrict_injection: enlightened_uefi || (secure && restricted),
        alternate_injection: !enlightened_uefi && !secure && restricted,
        debug_swap: true,
        prevent_host_ibs: !enlightened_uefi && secure,
        snp_btb_isolation: !enlightened_uefi && secure,
        vmsa_reg_prot: !enlightened_uefi && secure,
    }
}

/// The first save area of `vtl`: zero but for EFER.SVME, the features,
/// the virtual top of memory where it is in use, and the legacy x87 bit of
/// XCR0.
pub open spec fn initial_vmsa(
    vtl: Vtl,
    enlightened_uefi: bool,
    shared_gpa_boundary: u64,
    injection_type: InjectionType,
) -> SevVmsa {
    let features = initial_features(vtl, enlightened_uefi, injection_type);
    SevVmsa {
        es: zero_selector(),
        cs: zero_selector(),
        ss: zero_selector(),
        ds: zero_selector(),
        fs: zero_selector(),
        gs: zero_selector(),
        gdtr: zero_selector(),
        tr: zero_selector(),
        efer: X64_EFER_SVME,
        cr4: 0,
        cr3: 0,
        cr0: 0,
        rip: 0,
        rbp: 0,
        rsi: 0,
        r8: 0,
        r9: 0,
        r10: 0,
        r11: 0,
        r12: 0,
        pat: 0,
        xcr0: 1,
        virtual_tom: if features.vtom {
            shared_gpa_boundary
        } else {
            0
        },
        sev_features: features,
    }
}

/// A descriptor table register as the save area holds it.
pub open spec fn table_selector(reg: TableRegister) -> SevSelector {
    SevSelector { selector: 0, attrib: 0, limit: reg.limit as u32, base: reg.base }
}

/// A segment register as the save area holds it: the attributes lose the
/// four bits above the low byte.
pub open spec fn segment_selector(reg: SegmentRegister) -> SevSelector {
    SevSelector {
        selector: reg.selector,
        attrib: (reg.attributes & 0xFF) | ((reg.attributes >> 4) & 0xF00),
        limit: reg.limit,
        base: reg.base,
    }
}

/// Whether a save area can take the register. IDTR, RSP and RFLAGS have no
/// place in the first save area.
pub open spec fn spec_is_importable(register: X86Register) -> bool {
    !(register is Idtr || register is Rsp || register is Rflags)
}

/// Whether a save area can take the register.
#[verifier::when_used_as_spec(spec_is_importable)]
pub fn is_importable(register: X86Register) -> (r: bool)
    ensures
        r == spec_is_importable(register),
{
    match register {
        X86Register::Idtr(_) => false,
        X86Register::Rsp(_) => false,
        X86Register::Rflags(_) => false,
        _ => true,
    }
}

/// The save area after `register` is imported. EFER always keeps SVME; the
/// memory type range registers are ignored.
pub open spec fn imported(vmsa: SevVmsa, register: X86Register) -> SevVmsa {
    match register {
        X86Register::Gdtr(reg) => SevVmsa { gdtr: table_selector(reg), ..vmsa },
        X86Register::Ds(reg) => SevVmsa { ds: segment_selector(reg), ..vmsa },
        X86Register::Es(reg) => SevVmsa { es: segment_selector(reg), ..vmsa },
        X86Register::Fs(reg) => SevVmsa { fs: segment_selector(reg), ..vmsa },
        X86Register::Gs(reg) => SevVmsa { gs: segment_selector(reg), ..vmsa },
        X86Register::Ss(reg) => SevVmsa { ss: segment_selector(reg), ..vmsa },
        X86Register::Cs(reg) => SevVmsa { cs: segment_selector(reg), ..vmsa },
        X86Register::Tr(reg) => SevVmsa { tr: segment_selector(reg), ..vmsa },
        X86Register::Cr0(reg) => SevVmsa { cr0: reg, ..vmsa },
        X86Register::Cr3(reg) => SevVmsa { cr3: reg, ..vmsa },
        X86Register::Cr4(reg) => SevVmsa { cr4: reg, ..vmsa },
        X86Register::Efer(reg) => SevVmsa { efer: reg | X64_EFER_SVME, ..vmsa },
        X86Register::Pat(reg) => SevVmsa { pat: reg, ..vmsa },
        X86Register::Rbp(reg) => SevVmsa { rbp: reg, ..vmsa },
        X86Register::Rip(reg) => SevVmsa { rip: reg, ..vmsa },
        X86Register::Rsi(reg) => SevVmsa { rsi: reg, ..vmsa },
        X86Register::R8(reg) => SevVmsa { r8: reg, ..vmsa },
        X86Register::R9(reg) => SevVmsa { r9: reg, ..vmsa },
        X86Register::R10(reg) => SevVmsa { r10: reg, ..vmsa },
        X86Register::R11(reg) => SevVmsa { r11: reg, ..vmsa },
        X86Register::R12(reg) => SevVmsa { r12: reg, ..vmsa },
        _ => vmsa,
    }
}

/// Whether `state` is one page at `page_base`, accepted as `acceptance`,
/// that holds the bytes `bytes`.
pub open spec fn is_byte_page(
    state: VpContextState,
    page_base: u64,
    acceptance: BootPageAcceptance,
    bytes: Seq<u8>,
) -> bool {
    match state {
        VpContextState::Page(page) => {
            &&& page.page_base == page_base
            &&& page.page_count == 1
            &&& page.acceptance == acceptance
            &&& page.data matches PageData::Bytes(data) && data@ == bytes
        },
    }
}

/// Whether `state` is one page at `page_base`, accepted as `acceptance`,
/// that holds the save area `vmsa`.
pub open spec fn is_vmsa_page(
    state: VpContextState,
    page_base: u64,
    acceptance: BootPageAcceptance,
    vmsa: SevVmsa,
) -> bool {
    match state {
        VpContextState::Page(page) => {
            &&& page.page_base == page_base
            &&& page.page_count == 1
            &&& page.acceptance == acceptance
            &&& page.data == PageData::Vmsa(vmsa)
        },
    }
}

/// A hardware SNP VP context, that is imported as a VMSA.
pub struct SnpHardwareContext {
    /// If an assembly stub to accept the lower 1mb should be imported as page
    /// data.
    accept_lower_1mb: bool,
    /// The acceptance to import this vp context as.
    acceptance: Option<BootPageAcceptance>,
    /// The page number to import this vp context at.
    page_number: u64,
    /// The VMSA for this VP.
    vmsa: SevVmsa,
}

impl SnpHardwareContext {
    #[verifier::type_invariant]
    spec fn well_formed(self) -> bool {
        self.acceptance matches Some(acceptance) ==> acceptance == BootPageAcceptance::VpContext
    }

    /// The save area as it stands.
    pub closed spec fn vmsa(self) -> SevVmsa {
        self.vmsa
    }

    /// The page at which the save area is imported, once it is set.
    pub closed spec fn page(self) -> Option<u64> {
        match self.acceptance {
            Some(_) => Some(self.page_number),
            None => None,
        }
    }

    /// The page at which the save area is imported, or why there is none.
    pub open spec fn page_or_error(self) -> Result<u64, ContextError> {
        match self.page() {
            Some(page) => Ok(page),
            None => Err(ContextError::NoAcceptance),
        }
    }

    /// Whether the context comes with a page that accepts the low megabyte.
    pub closed spec fn accepts_lower_1mb(self) -> bool {
        self.accept_lower_1mb
    }

    /// Whether `state` lists the pages of the context.
    ///
    /// A context whose memory was never set has none. Otherwise the save
    /// area is one page. If the low megabyte is to be accepted, a
    /// trampoline page comes first, at page 0: it continues at the
    /// imported RIP, and the save area starts in the trampoline instead.
    pub open spec fn pages(self, state: Seq<VpContextState>) -> bool {
        match self.page() {
            None => state.len() == 0,
            Some(page) => if self.accepts_lower_1mb() {
                &&& state.len() == 2
                &&& is_byte_page(
                    state[0],
                    0,
                    BootPageAcceptance::Exclusive,
                    trampoline_page(self.vmsa().rip),
                )
                &&& is_vmsa_page(
                    state[1],
                    page,
                    BootPageAcceptance::VpContext,
                    SevVmsa { rip: ENTRY_OFFSET as u64, ..self.vmsa() },
                )
            } else {
                &&& state.len() == 1
                &&& is_vmsa_page(state[0], page, BootPageAcceptance::VpContext, self.vmsa())
            },
        }
    }

    /// The context of `vtl` before any register is imported.
    pub fn new(
        vtl: Vtl,
        enlightened_uefi: bool,
        shared_gpa_boundary: u64,
        injection_type: InjectionType,
    ) -> (r: Self)
        requires
            enlightened_uefi ==> injection_type == InjectionType::Restricted,
        ensures
            r.vmsa() == initial_vmsa(vtl, enlightened_uefi, shared_gpa_boundary, injection_type),
            r.page() is None,
            r.accepts_lower_1mb() == enlightened_uefi,
    {
        let zero = SevSelector { selector: 0, attrib: 0, limit: 0, base: 0 };
        let restricted = match injection_type {
            InjectionType::Restricted => true,
            InjectionType::Normal => false,
        };
        // Fill in boilerplate fields of the vmsa.
        let mut features = SevFeatures {
            snp: true,
            vtom: true,
            restrict_injection: false,
            alternate_injection: false,
            debug_swap: true,
            prevent_host_ibs: false,
            snp_btb_isolation: false,
            vmsa_reg_prot: false,
        };
        let mut virtual_tom = shared_gpa_boundary;
        if enlightened_uefi {
            // Enlightened UEFI requires restricted injection to be set, in
            // order to receive #HV interrupts.
            features.restrict_injection = true;
        } else {
            // Lower VTLs are alternate injection, while the paravisor's VTL
            // is restricted injection and is responsible for the isolation
            // properties of any additional VMSAs.
            if !vtl.at_least(Vtl::Vtl2) {
                features.alternate_injection = restricted;
            } else {
                features.restrict_injection = restricted;
                features.snp_btb_isolation = true;
                features.prevent_host_ibs = true;
                features.vmsa_reg_prot = true;
                features.vtom = false;
                virtual_tom = 0;
            }
        }
        let vmsa = SevVmsa {
            es: zero,
            cs: zero,
            ss: zero,
            ds: zero,
            fs: zero,
            gs: zero,
            gdtr: zero,
            tr: zero,
            // Fill in reset values that are needed for consistency.
            efer: X64_EFER_SVME,
            cr4: 0,
            cr3: 0,
            cr0: 0,
            rip: 0,
            rbp: 0,
            rsi: 0,
            r8: 0,
            r9: 0,
            r10: 0,
            r11: 0,
            r12: 0,
            pat: 0,
            // The hardware reset value: the legacy x87 bit.
            xcr0: 0x1,
            virtual_tom,
            sev_features: features,
        };
        SnpHardwareContext {
            accept_lower_1mb: enlightened_uefi,
            acceptance: None,
            page_number: 0,
            vmsa,
        }
    }

    /// Imports `register` into the save area.
    pub fn import_register(&mut self, register: X86Register)
        requires
            is_importable(register),
        ensures
            final(self).vmsa() == imported(old(self).vmsa(), register),
            final(self).page() == old(self).page(),
            final(self).accepts_lower_1mb() == old(self).accepts_lower_1mb(),
    {
        proof {
            use_type_invariant(&*self);
        }
        match register {
            X86Register::Gdtr(reg) => {
                self.vmsa.gdtr =
                SevSelector { selector: 0, attrib: 0, limit: reg.limit as u32, base: reg.base };
            },
            X86Register::Ds(reg) => {
                self.vmsa.ds = vmsa_segment_register(reg);
            },
            X86Register::Es(reg) => {
                self.vmsa.es = vmsa_segment_register(reg);
            },
            X86Register::Fs(reg) => {
                self.vmsa.fs = vmsa_segment_register(reg);
            },
            X86Register::Gs(reg) => {
                self.vmsa.gs = vmsa_segment_register(reg);
            },
            X86Register::Ss(reg) => {
                self.vmsa.ss = vmsa_segment_register(reg);
            },
            X86Register::Cs(reg) => {
                self.vmsa.cs = vmsa_segment_register(reg);
            },
            X86Register::Tr(reg) => {
                self.vmsa.tr = vmsa_segment_register(reg);
            },
            X86Register::Cr0(reg) => {
                self.vmsa.cr0 = reg;
            },
            X86Register::Cr3(reg) => {
                self.vmsa.cr3 = reg;
            },
            X86Register::Cr4(reg) => {
                self.vmsa.cr4 = reg;
            },
            X86Register::Efer(reg) => {
                // All SEV guests require EFER.SVME for the VMSA to be valid.
                self.vmsa.efer = reg | X64_EFER_SVME;
            },
            X86Register::Pat(reg) => {
                self.vmsa.pat = reg;
            },
            X86Register::Rbp(reg) => {
                self.vmsa.rbp = reg;
            },
            X86Register::Rip(reg) => {
                self.vmsa.rip = reg;
            },
            X86Register::Rsi(reg) => {
                self.vmsa.rsi = reg;
            },
            X86Register::R8(reg) => {
                self.vmsa.r8 = reg;
            },
            X86Register::R9(reg) => {
                self.vmsa.r9 = reg;
            },
            X86Register::R10(reg) => {
                self.vmsa.r10 = reg;
            },
            X86Register::R11(reg) => {
                self.vmsa.r11 = reg;
            },
            X86Register::R12(reg) => {
                self.vmsa.r12 = reg;
            },
            _ => {},
        }
    }

    /// The page at which the save area is imported.
    pub fn vp_context_page(&self) -> (r: Result<u64, ContextError>)
        ensures
            r == self.page_or_error(),
    {
        match self.acceptance {
            None => Err(ContextError::NoAcceptance),
            Some(_) => Ok(self.page_number),
        }
    }

    /// Whether the memory of the context can be set to pages accepted as
    /// `acceptance`: only once, and only as a VP context.
    pub fn can_set_vp_context_memory(&self, acceptance: BootPageAcceptance) -> (r: bool)
        ensures
            r == (self.page() is None && acceptance == BootPageAcceptance::VpContext),
    {
        let unset = match self.acceptance {
            None => true,
            Some(_) => false,
        };
        let vp_context = match acceptance {
            BootPageAcceptance::VpContext => true,
            _ => false,
        };
        unset && vp_context
    }

    /// Sets the page at which the save area is imported.
    pub fn set_vp_context_memory(&mut self, page_base: u64, acceptance: BootPageAcceptance)
        requires
            old(self).page() is None,
            acceptance == BootPageAcceptance::VpContext,
        ensures
            final(self).page() == Some(page_base),
            final(self).vmsa() == old(self).vmsa(),
            final(self).accepts_lower_1mb() == old(self).accepts_lower_1mb(),
    {
        self.page_number = page_base;
        self.acceptance = Some(acceptance);
    }

    /// The pages of the context.
    pub fn finalize(self) -> (state: Vec<VpContextState>)
        ensures
            self.pages(state@),
    {
        proof {
            use_type_invariant(&self);
        }
        let mut state: Vec<VpContextState> = Vec::new();
        let acceptance = match self.acceptance {
            None => {
                return state;
            },
            Some(acceptance) => acceptance,
        };
        let mut vmsa = self.vmsa;

        // If no paravisor is present, then generate a trampoline page to
        // perform validation of the low 1 MB of memory. This is expected by
        // UEFI and normally performed by the HCL.
        if self.accept_lower_1mb {
            let trampoline_page = build_trampoline(vmsa.rip);
            // Set RIP to the trampoline page.
            vmsa.rip = ENTRY_OFFSET as u64;
            state.push(
                VpContextState::Page(
                    VpContextPageState {
                        page_base: 0,
                        page_count: 1,
                        acceptance: BootPageAcceptance::Exclusive,
                        data: PageData::Bytes(trampoline_page),
                    },
                ),
            );
        }
        state.push(
            VpContextState::Page(
                VpContextPageState {
                    page_base: self.page_number,
                    page_count: 1,
                    acceptance,
                    data: PageData::Vmsa(vmsa),
                },
            ),
        );
        state
    }
}

/// A segment register as the save area holds it.
pub fn vmsa_segment_register(reg: SegmentRegister) -> (r: SevSelector)
    ensures
        r == segment_selector(reg),
{
    SevSelector {
        limit: reg.limit,
        base: reg.base,
        selector: reg.selector,
        attrib: (reg.attributes & 0xFF) | ((reg.attributes >> 4) & 0xF00),
    }
}

} // verus!
