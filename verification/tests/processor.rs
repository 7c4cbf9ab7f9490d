use vmm_core::processor::emulate::TranslateControl;
use vmm_core::processor::emulate::TranslateMode;
use vmm_core::processor::emulate::is_monitor_page_write;
use vmm_core::processor::emulate::needs_execute_check;
use vmm_core::processor::emulate::translate_control;
use vmm_core::processor::emulate::translated_address;
use vmm_core::processor::intercept::MsrError;
use vmm_core::processor::intercept::MsrOutcome;
use vmm_core::processor::intercept::hypercall_control;
use vmm_core::processor::intercept::msr_read_outcome;
use vmm_core::processor::intercept::msr_read_result;
use vmm_core::processor::intercept::msr_write_outcome;
use vmm_core::processor::intercept::msr_write_value;
use vmm_core::processor::intercept::next_rip;
use vmm_core::processor::saved_state::ProcessorSavedState;
use vmm_core::processor::saved_state::RestoreError;
use vmm_core::processor::saved_state::StartupSuspend;
use vmm_core::processor::saved_state::shared_register_count;
use vmm_core::processor::vsm::GuestVsmState;
use vmm_core::processor::vsm::VsmError;
use vmm_core::processor::vsm::VsmPartitionConfig;
use vmm_core::processor::vsm::check_unexpected;
use vmm_core::processor::vsm::commit_vsm_partition_config;
use vmm_core::processor::vsm::request_vsm_partition_config;
use vmm_core::synic::Vtl;

fn gps() -> [u64; 16] {
    [
        10, 11, 12, 13, 14, 15, 16, 17, 18, 19, 20, 21, 22, 23, 24, 25,
    ]
}

#[test]
fn capture_places_the_registers() {
    let s = ProcessorSavedState::capture(gps(), vec![1, 2, 3], [1, 2, 3, 4, 6], true, Some(true));
    assert_eq!(s.rax, 10);
    assert_eq!(s.rcx, 11);
    assert_eq!(s.rdx, 12);
    assert_eq!(s.rbx, 13);
    assert_eq!(s.cr2, 14);
    assert_eq!(s.rbp, 15);
    assert_eq!(s.rsi, 16);
    assert_eq!(s.rdi, 17);
    assert_eq!(s.r8, 18);
    assert_eq!(s.r15, 25);
    assert_eq!(s.fx_state, vec![1, 2, 3]);
    assert_eq!((s.dr0, s.dr1, s.dr2, s.dr3), (1, 2, 3, 4));
    assert_eq!(s.dr6, Some(6));
    assert_eq!(s.startup_suspend, Some(true));
    assert_eq!(s.gps(), gps());
    assert_eq!(s.shared_values(), [1, 2, 3, 4, 6]);
}

#[test]
fn dr6_is_kept_only_where_shared() {
    let s = ProcessorSavedState::capture(gps(), vec![], [1, 2, 3, 4, 6], false, None);
    assert_eq!(s.dr6, None);
    assert_eq!(s.shared_values(), [1, 2, 3, 4, 0]);
    assert_eq!(shared_register_count(true), 5);
    assert_eq!(shared_register_count(false), 4);
}

#[test]
fn validation_of_saved_state() {
    let with = ProcessorSavedState::capture(gps(), vec![0; 512], [0; 5], true, None);
    let without = ProcessorSavedState::capture(gps(), vec![0; 512], [0; 5], false, None);
    assert_eq!(with.validate(512, true), Ok(()));
    assert_eq!(without.validate(512, false), Ok(()));
    assert_eq!(with.validate(512, false), Err(RestoreError::Dr6StateMismatch));
    assert_eq!(without.validate(512, true), Err(RestoreError::Dr6StateMismatch));
    assert_eq!(with.validate(511, true), Err(RestoreError::InvalidFpuState));
    // The size of the floating point state is looked at first.
    assert_eq!(with.validate(0, false), Err(RestoreError::InvalidFpuState));
}

#[test]
fn startup_suspend_on_restore() {
    let state = |startup_suspend| {
        ProcessorSavedState::capture(gps(), vec![], [0; 5], false, startup_suspend)
    };
    assert_eq!(
        state(Some(true)).startup_suspend_on_restore(true),
        StartupSuspend::Inject
    );
    assert_eq!(
        state(Some(true)).startup_suspend_on_restore(false),
        StartupSuspend::Inject
    );
    assert_eq!(
        state(Some(false)).startup_suspend_on_restore(false),
        StartupSuspend::Keep
    );
    assert_eq!(state(None).startup_suspend_on_restore(true), StartupSuspend::Keep);
    assert_eq!(
        state(None).startup_suspend_on_restore(false),
        StartupSuspend::Unknown
    );
}

#[test]
fn rip_advances_and_wraps() {
    assert_eq!(next_rip(0x1000, 3), 0x1003);
    assert_eq!(next_rip(0, 0), 0);
    assert_eq!(next_rip(u64::MAX, 1), 0);
    assert_eq!(next_rip(u64::MAX - 1, 15), 13);
}

#[test]
fn msr_values() {
    assert_eq!(
        msr_write_value(0xaaaa_bbbb_1234_5678, 0xcccc_dddd_9abc_def0),
        0x9abc_def0_1234_5678
    );
    assert_eq!(msr_write_value(0, 0), 0);
    assert_eq!(
        msr_read_result(0x9abc_def0_1234_5678),
        (0x1234_5678, 0x9abc_def0)
    );
    let (rax, rdx) = msr_read_result(u64::MAX);
    assert_eq!(msr_write_value(rax, rdx), u64::MAX);
}

#[test]
fn hypercall_control_word() {
    assert_eq!(hypercall_control(true, 7, 8, 9), 7);
    assert_eq!(
        hypercall_control(false, 7, 0x1_0000_0008, 0xffff_ffff_0000_0009),
        0x0000_0008_0000_0009
    );
}

#[test]
fn msr_outcomes() {
    assert_eq!(
        msr_read_outcome(Ok(0x1_0000_0002)),
        MsrOutcome::Complete {
            registers: Some((2, 1))
        }
    );
    assert_eq!(
        msr_read_outcome(Err(MsrError::Unknown)),
        MsrOutcome::Complete {
            registers: Some((0, 0))
        }
    );
    assert_eq!(
        msr_read_outcome(Err(MsrError::InvalidAccess)),
        MsrOutcome::Fault
    );
    assert_eq!(
        msr_write_outcome(Ok(())),
        MsrOutcome::Complete { registers: None }
    );
    assert_eq!(
        msr_write_outcome(Err(MsrError::Unknown)),
        MsrOutcome::Complete { registers: None }
    );
    assert_eq!(
        msr_write_outcome(Err(MsrError::InvalidAccess)),
        MsrOutcome::Fault
    );
}

#[test]
fn translation_control() {
    let base = TranslateControl {
        validate_read: false,
        validate_write: false,
        validate_execute: false,
        privilege_exempt: false,
        set_page_table_bits: true,
        tlb_flush_inhibit: true,
        input_vtl: Vtl::Vtl0,
    };
    assert_eq!(
        translate_control(TranslateMode::Read, Vtl::Vtl0),
        TranslateControl {
            validate_read: true,
            ..base
        }
    );
    assert_eq!(
        translate_control(TranslateMode::Write, Vtl::Vtl1),
        TranslateControl {
            validate_read: true,
            validate_write: true,
            input_vtl: Vtl::Vtl1,
            ..base
        }
    );
    assert_eq!(
        translate_control(TranslateMode::Execute, Vtl::Vtl0),
        TranslateControl {
            validate_execute: true,
            ..base
        }
    );
}

#[test]
fn translated_addresses() {
    assert_eq!(translated_address(0, 0), 0);
    assert_eq!(translated_address(5, 0x7fff_1234), 0x5234);
    assert_eq!(translated_address(0x1234, 0xfff), 0x1234fff);
    assert_eq!(
        translated_address(0xf_ffff_ffff_ffff, u64::MAX),
        u64::MAX
    );
    assert_eq!(translated_address(0x10_0000_0000_0001, 1), 0x1001);
}

#[test]
fn execute_checks_and_monitor_page_writes() {
    assert!(needs_execute_check(TranslateMode::Execute, Vtl::Vtl0, true));
    assert!(!needs_execute_check(TranslateMode::Execute, Vtl::Vtl0, false));
    assert!(!needs_execute_check(TranslateMode::Execute, Vtl::Vtl1, true));
    assert!(!needs_execute_check(TranslateMode::Read, Vtl::Vtl0, true));
    assert!(!needs_execute_check(TranslateMode::Write, Vtl::Vtl0, true));

    assert!(is_monitor_page_write(0x5000, true, Some(0x5000)));
    assert!(is_monitor_page_write(0x5fff, true, Some(0x5000)));
    assert!(!is_monitor_page_write(0x6000, true, Some(0x5000)));
    assert!(!is_monitor_page_write(0x5008, false, Some(0x5000)));
    assert!(!is_monitor_page_write(0x5008, true, None));
    assert!(!is_monitor_page_write(0x5008, true, Some(0x5008)));
}


const RW: u32 = 0x3;

fn config(enable: bool, mask: u32) -> VsmPartitionConfig {
    VsmPartitionConfig {
        enable_vtl_protection: enable,
        default_vtl_protection_mask: mask,
        reserved: 0,
    }
}

const UNPROTECTED: GuestVsmState = GuestVsmState::Enabled {
    enable_vtl_protection: false,
    default_vtl_protections: None,
};

#[test]
fn vsm_is_enabled_in_steps() {
    let mut state = GuestVsmState::NotGuestEnabled;
    let r = request_vsm_partition_config(&mut state, config(true, RW | 4), Vtl::Vtl1, true, true);
    assert_eq!(r, Ok(RW | 4));
    assert_eq!(
        state,
        GuestVsmState::Enabled {
            enable_vtl_protection: false,
            default_vtl_protections: Some(RW | 4),
        }
    );
    commit_vsm_partition_config(&mut state);
    let enabled = GuestVsmState::Enabled {
        enable_vtl_protection: true,
        default_vtl_protections: Some(RW | 4),
    };
    assert_eq!(state, enabled);

    // The same request again is fine; another mask, or turning protection
    // off, is not.
    let r = request_vsm_partition_config(&mut state, config(true, RW | 4), Vtl::Vtl1, true, true);
    assert_eq!(r, Ok(RW | 4));
    assert_eq!(state, enabled);
    let r = request_vsm_partition_config(&mut state, config(true, RW), Vtl::Vtl1, true, true);
    assert_eq!(r, Err(VsmError::InvalidRegisterValue));
    assert_eq!(state, enabled);
    assert!(!check_unexpected(&state, config(false, RW | 4), Vtl::Vtl1, true));
    let r = request_vsm_partition_config(&mut state, config(false, RW | 4), Vtl::Vtl1, true, true);
    assert_eq!(r, Err(VsmError::InvalidRegisterValue));
    assert_eq!(state, enabled);
}

#[test]
fn vsm_requests_are_refused_in_order() {
    let request = |state: GuestVsmState, value, vtl, vtl1_enabled, valid| {
        let mut state = state;
        let r = request_vsm_partition_config(&mut state, value, vtl, vtl1_enabled, valid);
        (r, state)
    };
    let bad = VsmPartitionConfig {
        enable_vtl_protection: true,
        default_vtl_protection_mask: 0,
        reserved: 1,
    };
    assert_eq!(
        request(GuestVsmState::NotPlatformSupported, bad, Vtl::Vtl0, false, false),
        (
            Err(VsmError::InvalidParameter),
            GuestVsmState::NotPlatformSupported
        )
    );
    assert_eq!(
        request(GuestVsmState::NotGuestEnabled, bad, Vtl::Vtl2, true, true),
        (Err(VsmError::InvalidParameter), GuestVsmState::NotGuestEnabled)
    );
    assert_eq!(
        request(GuestVsmState::NotPlatformSupported, bad, Vtl::Vtl1, false, false),
        (
            Err(VsmError::InvalidVtlState),
            GuestVsmState::NotPlatformSupported
        )
    );
    assert_eq!(
        request(GuestVsmState::NotPlatformSupported, bad, Vtl::Vtl1, true, false),
        (
            Err(VsmError::AccessDenied),
            GuestVsmState::NotPlatformSupported
        )
    );
    // From here on a guest that had not enabled VSM has it enabled.
    assert_eq!(
        request(GuestVsmState::NotGuestEnabled, bad, Vtl::Vtl1, true, false),
        (Err(VsmError::InvalidRegisterValue), UNPROTECTED)
    );
    assert_eq!(
        request(GuestVsmState::NotGuestEnabled, config(true, RW), Vtl::Vtl1, true, false),
        (Err(VsmError::InvalidRegisterValue), UNPROTECTED)
    );
    for mask in [0, 1, 2, 4, 0xc] {
        assert_eq!(
            request(GuestVsmState::NotGuestEnabled, config(true, mask), Vtl::Vtl1, true, true),
            (Err(VsmError::InvalidRegisterValue), UNPROTECTED)
        );
    }
    assert_eq!(
        request(UNPROTECTED, config(true, RW), Vtl::Vtl1, true, true),
        (
            Ok(RW),
            GuestVsmState::Enabled {
                enable_vtl_protection: false,
                default_vtl_protections: Some(RW),
            }
        )
    );
}

#[test]
fn unexpected_vsm_requests() {
    let off = config(false, RW);
    assert!(check_unexpected(&GuestVsmState::NotGuestEnabled, off, Vtl::Vtl1, true));
    assert!(check_unexpected(&UNPROTECTED, off, Vtl::Vtl1, true));
    assert!(!check_unexpected(&UNPROTECTED, off, Vtl::Vtl0, true));
    assert!(!check_unexpected(&UNPROTECTED, off, Vtl::Vtl1, false));
    assert!(!check_unexpected(&UNPROTECTED, config(true, RW), Vtl::Vtl1, true));
    assert!(!check_unexpected(
        &GuestVsmState::NotPlatformSupported,
        off,
        Vtl::Vtl1,
        true
    ));
    assert!(!check_unexpected(
        &UNPROTECTED,
        VsmPartitionConfig { reserved: 8, ..off },
        Vtl::Vtl1,
        true
    ));
}
