//! The rules for configuring virtual secure mode (VSM) for a partition.
//!
//! A lower VTL asks, through a register write that the hypervisor hands
//! on, for default protections on its memory. The request is checked against
//! what the partition has agreed to before, and the partition's state moves
//! in steps: the request is accepted, the protections are applied, and only
//! then is protection marked as enabled.

use crate::synic::Vtl;
use vstd::prelude::*;

verus! {

/// The protection bit that allows reading.
pub const MAP_GPA_READABLE: u32 = 0x1;

/// The protection bit that allows writing.
pub const MAP_GPA_WRITABLE: u32 = 0x2;

/// What the partition has agreed to.
#[derive(Debug, Clone, Copy, PartialEq, Eq)]
pub enum GuestVsmState {
    /// The platform has no VSM for the guest.
    NotPlatformSupported,
    /// The guest has not enabled VSM.
    NotGuestEnabled,
    /// VSM is enabled for VTL1.
    Enabled {
        /// Whether VTL protection is on. It cannot be turned off again.
        enable_vtl_protection: bool,
        /// The default protections, once they are set. They cannot change.
        default_vtl_protections: Option<u32>,
    },
}

/// A request to configure VSM.
#[derive(Debug, Clone, Copy, PartialEq, Eq)]
pub struct VsmPartitionConfig {
    /// Whether VTL protection is to be on.
    pub enable_vtl_protection: bool,
    /// The default protections for lower VTLs.
    pub default_vtl_protection_mask: u32,
    /// Bits that must be zero.
    pub reserved: u64,
}

/// Why a request is refused.
#[derive(Debug, Clone, Copy, PartialEq, Eq)]
pub enum VsmError {
    /// The request does not come for VTL1.
    InvalidParameter,
    /// VTL1 is not enabled.
    InvalidVtlState,
    /// The platform has no VSM for the guest.
    AccessDenied,
    /// The requested configuration is not acceptable.
    InvalidRegisterValue,
}

/// The state in which a request is looked at: a guest that had not enabled
/// VSM has it enabled by asking, without protection so far.
pub open spec fn opened(state: GuestVsmState) -> GuestVsmState {
    match state {
        GuestVsmState::NotGuestEnabled => GuestVsmState::Enabled {
            enable_vtl_protection: false,
            default_vtl_protections: None,
        },
        _ => state,
    }
}

/// Whether protection is on in `state`.
pub open spec fn protection_enabled(state: GuestVsmState) -> bool {
    state matches GuestVsmState::Enabled { enable_vtl_protection, .. } && enable_vtl_protection
}

/// Whether `protections` allow reading and writing.
pub open spec fn readable_and_writable(protections: u32) -> bool {
    protections & MAP_GPA_READABLE != 0 && protections & MAP_GPA_WRITABLE != 0
}

/// Whether a request is an unexpected one: it turns protection off where
/// it was never on, which the hypervisor handles by itself and never
/// hands on.
pub open spec fn is_unexpected(
    state: GuestVsmState,
    value: VsmPartitionConfig,
    vtl: Vtl,
    vtl1_enabled: bool,
) -> bool {
    &&& vtl == Vtl::Vtl1
    &&& vtl1_enabled
    &&& !(state is NotPlatformSupported)
    &&& value.reserved == 0
    &&& !value.enable_vtl_protection
    &&& !protection_enabled(state)
}

/// Why a request is refused, if it is. The checks come in this order: the
/// VTL, whether VTL1 is enabled, the platform, the reserved bits, an
/// attempt to turn protection off, the protections as such, and a change
/// of protections that were set before.
pub open spec fn refusal(
    state: GuestVsmState,
    value: VsmPartitionConfig,
    vtl: Vtl,
    vtl1_enabled: bool,
    protections_valid: bool,
) -> Option<VsmError>
    recommends
        !is_unexpected(state, value, vtl, vtl1_enabled),
{
    if vtl != Vtl::Vtl1 {
        Some(VsmError::InvalidParameter)
    } else if !vtl1_enabled {
        Some(VsmError::InvalidVtlState)
    } else if state is NotPlatformSupported {
        Some(VsmError::AccessDenied)
    } else if value.reserved != 0 {
        Some(VsmError::InvalidRegisterValue)
    } else if !value.enable_vtl_protection {
        Some(VsmError::InvalidRegisterValue)
    } else if !protections_valid {
        Some(VsmError::InvalidRegisterValue)
    } else if !readable_and_writable(value.default_vtl_protection_mask) {
        Some(VsmError::InvalidRegisterValue)
    } else if opened(state) matches GuestVsmState::Enabled {
        default_vtl_protections: Some(current),
        ..
    } && current != value.default_vtl_protection_mask {
        Some(VsmError::InvalidRegisterValue)
    } else {
        None
    }
}

/// The state after a request was looked at. A request that gets as far as
/// the platform check enables VSM; an accepted request sets the default
/// protections. Protection itself is not yet on.
pub open spec fn after_request(
    state: GuestVsmState,
    value: VsmPartitionConfig,
    vtl: Vtl,
    vtl1_enabled: bool,
    protections_valid: bool,
) -> GuestVsmState {
    if vtl != Vtl::Vtl1 || !vtl1_enabled {
        state
    } else if refusal(state, value, vtl, vtl1_enabled, protections_valid) is Some {
        opened(state)
    } else {
        GuestVsmState::Enabled {
            enable_vtl_protection: protection_enabled(state),
            default_vtl_protections: Some(value.default_vtl_protection_mask),
        }
    }
}

/// Whether a request is an unexpected one.
pub fn check_unexpected(
    state: &GuestVsmState,
    value: VsmPartitionConfig,
    vtl: Vtl,
    vtl1_enabled: bool,
) -> (r: bool)
    ensures
        r == is_unexpected(*state, value, vtl, vtl1_enabled),
{
    let for_vtl1 = match vtl {
        Vtl::Vtl1 => true,
        _ => false,
    };
    let (supported, enabled) = match state {
        GuestVsmState::NotPlatformSupported => (false, false),
        GuestVsmState::NotGuestEnabled => (true, false),
        GuestVsmState::Enabled { enable_vtl_protection, .. } => (true, *enable_vtl_protection),
    };
    for_vtl1 && vtl1_enabled && supported && value.reserved == 0 && !value.enable_vtl_protection
        && !enabled
}

/// Looks at a request to configure VSM. Returns the protections to apply
/// to the memory of the lower VTLs, or why the request is refused.
///
/// `protections_valid` tells whether the platform can apply the requested
/// protections at all.
pub fn request_vsm_partition_config(
    state: &mut GuestVsmState,
    value: VsmPartitionConfig,
    vtl: Vtl,
    vtl1_enabled: bool,
    protections_valid: bool,
) -> (r: Result<u32, VsmError>)
    requires
        !is_unexpected(*old(state), value, vtl, vtl1_enabled),
    ensures
        r == match refusal(*old(state), value, vtl, vtl1_enabled, protections_valid) {
            Some(e) => Err::<u32, VsmError>(e),
            None => Ok::<u32, VsmError>(value.default_vtl_protection_mask),
        },
        *final(state) == after_request(*old(state), value, vtl, vtl1_enabled, protections_valid),
{
    match vtl {
        Vtl::Vtl1 => {},
        _ => {
            return Err(VsmError::InvalidParameter);
        },
    }
    if !vtl1_enabled {
        return Err(VsmError::InvalidVtlState);
    }
    // Initialize the state if necessary.
    let (enabled, current) = match *state {
        GuestVsmState::NotPlatformSupported => {
            return Err(VsmError::AccessDenied);
        },
        GuestVsmState::NotGuestEnabled => {
            *state =
            GuestVsmState::Enabled { enable_vtl_protection: false, default_vtl_protections: None };
            (false, None)
        },
        GuestVsmState::Enabled { enable_vtl_protection, default_vtl_protections } => (
            enable_vtl_protection,
            default_vtl_protections,
        ),
    };
    let protections = value.default_vtl_protection_mask;
    if value.reserved != 0 {
        return Err(VsmError::InvalidRegisterValue);
    }
    // VTL protection cannot be disabled once enabled. A guest could change
    // its request in memory while it is being handled; this covers that.
    if !value.enable_vtl_protection {
        return Err(VsmError::InvalidRegisterValue);
    }
    if !protections_valid {
        return Err(VsmError::InvalidRegisterValue);
    }
    // Default VTL protection mask must include read and write.
    if !(protections & MAP_GPA_READABLE != 0 && protections & MAP_GPA_WRITABLE != 0) {
        return Err(VsmError::InvalidRegisterValue);
    }
    // Don't allow changing existing protections once set.
    match current {
        Some(current_protections) => {
            if protections != current_protections {
                return Err(VsmError::InvalidRegisterValue);
            }
        },
        None => {},
    }
    *state =
    GuestVsmState::Enabled {
        enable_vtl_protection: enabled,
        default_vtl_protections: Some(protections),
    };
    Ok(protections)
}

/// Marks protection as enabled, once the protections are applied and the
/// hypervisor has taken the configuration.
pub fn commit_vsm_partition_config(state: &mut GuestVsmState)
    requires
        *old(state) is Enabled,
    ensures
        *final(state) == (GuestVsmState::Enabled {
            enable_vtl_protection: true,
            default_vtl_protections: old(state)->default_vtl_protections,
        }),
{
    match *state {
        GuestVsmState::Enabled { enable_vtl_protection: _, default_vtl_protections } => {
            *state =
            GuestVsmState::Enabled { enable_vtl_protection: true, default_vtl_protections };
        },
        _ => {},
    }
}

/// Once protection is on, no request turns it off or changes the default
/// protections, and an accepted request never leaves protections that
/// forbid reading or writing.
pub proof fn lemma_protection_is_kept(
    state: GuestVsmState,
    value: VsmPartitionConfig,
    vtl: Vtl,
    vtl1_enabled: bool,
    protections_valid: bool,
)
    requires
        !is_unexpected(state, value, vtl, vtl1_enabled),
    ensures
        ({
            let after = after_request(state, value, vtl, vtl1_enabled, protections_valid);
            &&& protection_enabled(state) ==> protection_enabled(after)
            &&& state matches GuestVsmState::Enabled { default_vtl_protections: Some(current), .. }
                ==> after matches GuestVsmState::Enabled {
                default_vtl_protections: Some(kept),
                ..
            } && kept == current
            &&& refusal(state, value, vtl, vtl1_enabled, protections_valid) is None
                ==> readable_and_writable(value.default_vtl_protection_mask)
        }),
{
}

} // verus!
