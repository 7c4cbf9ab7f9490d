//! The builder of the initial context, one context per VTL.

use super::hardware::imported;
use super::hardware::initial_vmsa;
use super::hardware::is_importable;
use super::hardware::spec_is_importable;
use super::hardware::SnpHardwareContext;
use super::BootPageAcceptance;
use super::BuilderError;
use super::ContextError;
use super::InjectionType;
use super::VpContextState;
use super::X86Register;
use crate::synic::Vtl;
use vstd::prelude::*;

verus! {

/// The context of a VTL whose state is imported as page data in the format
/// of virtualization-based security, not as a save area.
pub trait VbsContext: Sized {
    /// The empty context of `vtl`.
    fn new(vtl: u8) -> Self;

    /// Imports `register`.
    fn import_vp_register(&mut self, register: X86Register);

    /// The page at which the context is imported.
    fn vp_context_page(&self) -> Result<u64, ContextError>;

    /// Sets the page at which the context is imported.
    fn set_vp_context_memory(&mut self, page_base: u64, acceptance: BootPageAcceptance);

    /// The page of the context, if it has one.
    fn finalize(self) -> Option<VpContextState>;
}

/// The context of one VTL.
pub enum SnpVpContext<V> {
    /// The VTL is not in use.
    Unused,
    /// The VTL starts from a save area.
    Hardware(SnpHardwareContext),
    /// The VTL starts from page data.
    Vbs(V),
}

impl<V: VbsContext> SnpVpContext<V> {
    /// Whether `register` can be imported into this context.
    pub open spec fn accepts_register(self, register: X86Register) -> bool {
        match self {
            SnpVpContext::Unused => false,
            SnpVpContext::Hardware(_) => spec_is_importable(register),
            SnpVpContext::Vbs(_) => true,
        }
    }

    /// Whether the memory of this context can be set to `acceptance`.
    pub open spec fn accepts_memory(self, acceptance: BootPageAcceptance) -> bool {
        match self {
            SnpVpContext::Unused => false,
            SnpVpContext::Hardware(hardware) => hardware.page() is None && acceptance
                == BootPageAcceptance::VpContext,
            SnpVpContext::Vbs(_) => true,
        }
    }

    /// Whether `after` is this context with `register` imported: a save
    /// area takes the register and keeps its page; page data stays page
    /// data.
    pub open spec fn imports(self, register: X86Register, after: Self) -> bool {
        match self {
            SnpVpContext::Unused => after is Unused,
            SnpVpContext::Hardware(before) => {
                &&& after matches SnpVpContext::Hardware(hardware)
                &&& hardware.vmsa() == imported(before.vmsa(), register)
                &&& hardware.page() == before.page()
                &&& hardware.accepts_lower_1mb() == before.accepts_lower_1mb()
            },
            SnpVpContext::Vbs(_) => after is Vbs,
        }
    }

    /// Whether `after` is this context with its memory set to `page_base`:
    /// a save area keeps all but its page; page data stays page data.
    pub open spec fn places(self, page_base: u64, after: Self) -> bool {
        match self {
            SnpVpContext::Unused => after is Unused,
            SnpVpContext::Hardware(before) => {
                &&& after matches SnpVpContext::Hardware(hardware)
                &&& hardware.vmsa() == before.vmsa()
                &&& hardware.page() == Some(page_base)
                &&& hardware.accepts_lower_1mb() == before.accepts_lower_1mb()
            },
            SnpVpContext::Vbs(_) => after is Vbs,
        }
    }

    /// Whether `register` can be imported into this context.
    pub fn can_import(&self, register: X86Register) -> (r: bool)
        ensures
            r == self.accepts_register(register),
    {
        match self {
            SnpVpContext::Unused => false,
            SnpVpContext::Hardware(_) => is_importable(register),
            SnpVpContext::Vbs(_) => true,
        }
    }

    /// Whether the memory of this context can be set to `acceptance`.
    pub fn can_set_memory(&self, acceptance: BootPageAcceptance) -> (r: bool)
        ensures
            r == self.accepts_memory(acceptance),
    {
        match self {
            SnpVpContext::Unused => false,
            SnpVpContext::Hardware(hardware) => hardware.can_set_vp_context_memory(acceptance),
            SnpVpContext::Vbs(_) => true,
        }
    }

    /// Imports `register` into the context.
    pub fn import_vp_register(&mut self, register: X86Register)
        requires
            old(self).accepts_register(register),
        ensures
            old(self).imports(register, *final(self)),
    {
        match self {
            SnpVpContext::Unused => {},
            SnpVpContext::Hardware(hardware_context) => hardware_context.import_register(register),
            SnpVpContext::Vbs(vbs_context) => vbs_context.import_vp_register(register),
        }
    }

    /// The page at which the context is imported.
    pub fn vp_context_page(&self) -> (r: Result<u64, ContextError>)
        ensures
            self is Unused ==> r == Err::<u64, ContextError>(ContextError::NoContext),
            self matches SnpVpContext::Hardware(hardware) ==> r == hardware.page_or_error(),
    {
        match self {
            SnpVpContext::Unused => Err(ContextError::NoContext),
            SnpVpContext::Hardware(hardware_context) => hardware_context.vp_context_page(),
            SnpVpContext::Vbs(vbs_context) => vbs_context.vp_context_page(),
        }
    }

    /// Sets the page at which the context is imported.
    pub fn set_vp_context_memory(&mut self, page_base: u64, acceptance: BootPageAcceptance)
        requires
            old(self).accepts_memory(acceptance),
        ensures
            old(self).places(page_base, *final(self)),
    {
        match self {
            SnpVpContext::Unused => {},
            SnpVpContext::Hardware(hardware_context) => {
                hardware_context.set_vp_context_memory(page_base, acceptance)
            },
            SnpVpContext::Vbs(vbs_context) => {
                vbs_context.set_vp_context_memory(page_base, acceptance)
            },
        }
    }

    /// Whether `state` lists the pages of the context: none for a VTL that
    /// is not in use, those of the save area, or at most one page of page
    /// data.
    pub open spec fn pages(self, state: Seq<VpContextState>) -> bool {
        match self {
            SnpVpContext::Unused => state.len() == 0,
            SnpVpContext::Hardware(hardware) => hardware.pages(state),
            SnpVpContext::Vbs(_) => state.len() <= 1,
        }
    }

    /// The pages of the context.
    pub fn finalize(self) -> (state: Vec<VpContextState>)
        ensures
            self.pages(state@),
    {
        match self {
            SnpVpContext::Unused => Vec::new(),
            SnpVpContext::Hardware(hardware_context) => hardware_context.finalize(),
            SnpVpContext::Vbs(vbs_context) => match vbs_context.finalize() {
                None => Vec::new(),
                Some(state) => {
                    let mut states = Vec::new();
                    states.push(state);
                    states
                },
            },
        }
    }
}

/// Builds the initial context of a processor on a platform with AMD
/// SEV-SNP isolation.
///
/// Only the highest VTL starts from a save area; a lower VTL is imported
/// as page data.
pub struct SnpVpContextBuilder<V> {
    vtl0: SnpVpContext<V>,
    vtl1: SnpVpContext<V>,
    vtl2: SnpVpContext<V>,
}

impl<V: VbsContext> SnpVpContextBuilder<V> {
    /// The context of `vtl`.
    pub closed spec fn context(self, vtl: Vtl) -> SnpVpContext<V> {
        match vtl {
            Vtl::Vtl0 => self.vtl0,
            Vtl::Vtl1 => self.vtl1,
            Vtl::Vtl2 => self.vtl2,
        }
    }

    /// A builder for a guest whose highest VTL is `max_vtl`.
    ///
    /// `enlightened_uefi` tells that the firmware is enlightened; the
    /// context then comes with a page that accepts the low megabyte, and
    /// the injection type must be restricted. VTL1 cannot be the highest
    /// VTL.
    pub fn new(
        max_vtl: Vtl,
        enlightened_uefi: bool,
        shared_gpa_boundary: u64,
        injection_type: InjectionType,
    ) -> (r: Result<Self, BuilderError>)
        requires
            max_vtl != Vtl::Vtl1 && enlightened_uefi ==> injection_type == InjectionType::Restricted,
        ensures
            max_vtl == Vtl::Vtl1 <==> r is Err,
            r matches Err(e) ==> e == BuilderError::Vtl1NotSupported,
            r matches Ok(builder) ==> {
                &&& builder.context(Vtl::Vtl1) is Unused
                &&& builder.context(max_vtl) matches SnpVpContext::Hardware(hardware)
                    && hardware.vmsa() == initial_vmsa(
                    max_vtl,
                    enlightened_uefi,
                    shared_gpa_boundary,
                    injection_type,
                ) && hardware.page() is None && hardware.accepts_lower_1mb() == enlightened_uefi
                &&& max_vtl == Vtl::Vtl0 ==> builder.context(Vtl::Vtl2) is Unused
                &&& max_vtl == Vtl::Vtl2 ==> builder.context(Vtl::Vtl0) is Vbs
            },
    {
        match max_vtl {
            Vtl::Vtl0 => Ok(
                SnpVpContextBuilder {
                    vtl0: SnpVpContext::Hardware(
                        SnpHardwareContext::new(
                            Vtl::Vtl0,
                            enlightened_uefi,
                            shared_gpa_boundary,
                            injection_type,
                        ),
                    ),
                    vtl1: SnpVpContext::Unused,
                    vtl2: SnpVpContext::Unused,
                },
            ),
            Vtl::Vtl1 => Err(BuilderError::Vtl1NotSupported),
            Vtl::Vtl2 => Ok(
                SnpVpContextBuilder {
                    // Treat VTL0 as the VBS format.
                    vtl0: SnpVpContext::Vbs(V::new(0)),
                    vtl1: SnpVpContext::Unused,
                    vtl2: SnpVpContext::Hardware(
                        SnpHardwareContext::new(
                            Vtl::Vtl2,
                            enlightened_uefi,
                            shared_gpa_boundary,
                            injection_type,
                        ),
                    ),
                },
            ),
        }
    }

    /// Whether `register` can be imported into the context of `vtl`.
    pub fn can_import(&self, vtl: Vtl, register: X86Register) -> (r: bool)
        ensures
            r == self.context(vtl).accepts_register(register),
    {
        match vtl {
            Vtl::Vtl0 => self.vtl0.can_import(register),
            Vtl::Vtl1 => self.vtl1.can_import(register),
            Vtl::Vtl2 => self.vtl2.can_import(register),
        }
    }

    /// Whether the memory of the context of `vtl` can be set to
    /// `acceptance`.
    pub fn can_set_memory(&self, vtl: Vtl, acceptance: BootPageAcceptance) -> (r: bool)
        ensures
            r == self.context(vtl).accepts_memory(acceptance),
    {
        match vtl {
            Vtl::Vtl0 => self.vtl0.can_set_memory(acceptance),
            Vtl::Vtl1 => self.vtl1.can_set_memory(acceptance),
            Vtl::Vtl2 => self.vtl2.can_set_memory(acceptance),
        }
    }

    /// Imports `register` into the context of `vtl`. The contexts of the
    /// other VTLs stay as they are.
    pub fn import_vp_register(&mut self, vtl: Vtl, register: X86Register)
        requires
            old(self).context(vtl).accepts_register(register),
        ensures
            forall|other: Vtl|
                other != vtl ==> final(self).context(other) == old(self).context(other),
            old(self).context(vtl).imports(register, final(self).context(vtl)),
    {
        match vtl {
            Vtl::Vtl0 => self.vtl0.import_vp_register(register),
            Vtl::Vtl1 => self.vtl1.import_vp_register(register),
            Vtl::Vtl2 => self.vtl2.import_vp_register(register),
        }
    }

    /// The page at which the context of `vtl` is imported.
    pub fn vp_context_page(&self, vtl: Vtl) -> (r: Result<u64, ContextError>)
        ensures
            self.context(vtl) is Unused ==> r == Err::<u64, ContextError>(ContextError::NoContext),
            self.context(vtl) matches SnpVpContext::Hardware(hardware) ==> r
                == hardware.page_or_error(),
    {
        match vtl {
            Vtl::Vtl0 => self.vtl0.vp_context_page(),
            Vtl::Vtl1 => self.vtl1.vp_context_page(),
            Vtl::Vtl2 => self.vtl2.vp_context_page(),
        }
    }

    /// Sets the page at which the context of `vtl` is imported. The
    /// contexts of the other VTLs stay as they are.
    pub fn set_vp_context_memory(
        &mut self,
        vtl: Vtl,
        page_base: u64,
        acceptance: BootPageAcceptance,
    )
        requires
            old(self).context(vtl).accepts_memory(acceptance),
        ensures
            forall|other: Vtl|
                other != vtl ==> final(self).context(other) == old(self).context(other),
            old(self).context(vtl).places(page_base, final(self).context(vtl)),
    {
        match vtl {
            Vtl::Vtl0 => self.vtl0.set_vp_context_memory(page_base, acceptance),
            Vtl::Vtl1 => self.vtl1.set_vp_context_memory(page_base, acceptance),
            Vtl::Vtl2 => self.vtl2.set_vp_context_memory(page_base, acceptance),
        }
    }

    /// The pages of all contexts: those of VTL0, then of VTL1, then of
    /// VTL2.
    pub fn finalize(self) -> (state: Vec<VpContextState>)
        ensures
            exists|
                low: Seq<VpContextState>,
                middle: Seq<VpContextState>,
                high: Seq<VpContextState>,
            |
                #![trigger low + middle + high]
                {
                    &&& state@ == low + middle + high
                    &&& self.context(Vtl::Vtl0).pages(low)
                    &&& self.context(Vtl::Vtl1).pages(middle)
                    &&& self.context(Vtl::Vtl2).pages(high)
                },
    {
        let mut state = self.vtl0.finalize();
        let mut middle = self.vtl1.finalize();
        let mut last = self.vtl2.finalize();
        state.append(&mut middle);
        state.append(&mut last);
        state
    }
}

} // verus!
