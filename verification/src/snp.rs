//! The initial processor context of a guest under AMD SEV-SNP isolation.

use crate::synic::Vtl;
use vstd::prelude::*;

pub mod builder;
pub mod hardware;
pub mod trampoline;

verus! {

/// The interrupt injection type to use for the VMSA of the highest VMPL.
#[derive(Debug, Copy, Clone, PartialEq, Eq)]
pub enum InjectionType {
    /// Normal.
    Normal,
    /// Restricted injection.
    Restricted,
}

/// A descriptor table register.
#[derive(Debug, Copy, Clone, PartialEq, Eq)]
pub struct TableRegister {
    pub base: u64,
    pub limit: u16,
}

/// A segment register.
#[derive(Debug, Copy, Clone, PartialEq, Eq)]
pub struct SegmentRegister {
    pub base: u64,
    pub limit: u32,
    pub selector: u16,
    pub attributes: u16,
}

/// A register of the initial processor state, with its value.
#[derive(Debug, Copy, Clone, PartialEq, Eq)]
pub enum X86Register {
    Gdtr(TableRegister),
    Idtr(TableRegister),
    Ds(SegmentRegister),
    Es(SegmentRegister),
    Fs(SegmentRegister),
    Gs(SegmentRegister),
    Ss(SegmentRegister),
    Cs(SegmentRegister),
    Tr(SegmentRegister),
    Cr0(u64),
    Cr3(u64),
    Cr4(u64),
    Efer(u64),
    Pat(u64),
    Rbp(u64),
    Rip(u64),
    Rsi(u64),
    Rsp(u64),
    R8(u64),
    R9(u64),
    R10(u64),
    R11(u64),
    R12(u64),
    Rflags(u64),
    MtrrDefType(u64),
    MtrrPhysBase0(u64),
    MtrrPhysMask0(u64),
    MtrrPhysBase1(u64),
    MtrrPhysMask1(u64),
    MtrrPhysBase2(u64),
    MtrrPhysMask2(u64),
    MtrrPhysBase3(u64),
    MtrrPhysMask3(u64),
    MtrrPhysBase4(u64),
    MtrrPhysMask4(u64),
    MtrrFix64k00000(u64),
    MtrrFix16k80000(u64),
    MtrrFix4kE0000(u64),
    MtrrFix4kE8000(u64),
    MtrrFix4kF0000(u64),
    MtrrFix4kF8000(u64),
}

/// How a page of the initial image is accepted into the guest.
#[derive(Debug, Copy, Clone, PartialEq, Eq)]
pub enum BootPageAcceptance {
    Exclusive,
    ExclusiveUnmeasured,
    VpContext,
    ErrorPage,
    SecretsPage,
    CpuidPage,
    CpuidExtendedStatePage,
    Shared,
}

/// A segment register as the VMSA holds it.
#[derive(Debug, Copy, Clone, PartialEq, Eq)]
pub struct SevSelector {
    pub selector: u16,
    pub attrib: u16,
    pub limit: u32,
    pub base: u64,
}

/// The features of SEV that are set in a VMSA.
#[derive(Debug, Copy, Clone, PartialEq, Eq)]
pub struct SevFeatures {
    pub snp: bool,
    pub vtom: bool,
    pub restrict_injection: bool,
    pub alternate_injection: bool,
    pub debug_swap: bool,
    pub prevent_host_ibs: bool,
    pub snp_btb_isolation: bool,
    pub vmsa_reg_prot: bool,
}

/// The fields of a VM save area that the initial context sets. Every other
/// field of the save area is zero.
#[derive(Debug, Copy, Clone, PartialEq, Eq)]
pub struct SevVmsa {
    pub es: SevSelector,
    pub cs: SevSelector,
    pub ss: SevSelector,
    pub ds: SevSelector,
    pub fs: SevSelector,
    pub gs: SevSelector,
    pub gdtr: SevSelector,
    pub tr: SevSelector,
    pub efer: u64,
    pub cr4: u64,
    pub cr3: u64,
    pub cr0: u64,
    pub rip: u64,
    pub rbp: u64,
    pub rsi: u64,
    pub r8: u64,
    pub r9: u64,
    pub r10: u64,
    pub r11: u64,
    pub r12: u64,
    pub pat: u64,
    pub xcr0: u64,
    pub virtual_tom: u64,
    pub sev_features: SevFeatures,
}

/// What a page of the initial context holds.
#[derive(Debug, PartialEq, Eq)]
pub enum PageData {
    /// The bytes of the page.
    Bytes(Vec<u8>),
    /// A VM save area.
    Vmsa(SevVmsa),
}

/// A run of pages of the initial context.
#[derive(Debug, PartialEq, Eq)]
pub struct VpContextPageState {
    /// The number of the first page.
    pub page_base: u64,
    /// The number of pages.
    pub page_count: u64,
    /// How the pages are accepted.
    pub acceptance: BootPageAcceptance,
    /// What the pages hold.
    pub data: PageData,
}

/// A piece of the initial context of a processor.
#[derive(Debug, PartialEq, Eq)]
pub enum VpContextState {
    /// Pages to import as they are.
    Page(VpContextPageState),
}

/// Why a context has no page.
#[derive(Debug, Copy, Clone, PartialEq, Eq)]
pub enum ContextError {
    /// The VTL has no context.
    NoContext,
    /// The memory of the context was never set.
    NoAcceptance,
    /// A context of the lower VTL could not tell its page.
    LowerVtl,
}

/// Why a builder could not be made.
#[derive(Debug, Copy, Clone, PartialEq, Eq)]
pub enum BuilderError {
    /// The state of VTL1 cannot be imported under SNP.
    Vtl1NotSupported,
}

/// The bit of EFER that enables secure virtual machines.
pub const X64_EFER_SVME: u64 = 0x1000;

/// The VTL in which the paravisor runs.
pub open spec fn hcl_secure_vtl() -> Vtl {
    Vtl::Vtl2
}

} // verus!
