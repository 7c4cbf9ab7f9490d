//! What instruction emulation asks of address translation.

use crate::synic::Vtl;
use vstd::prelude::*;

verus! {

/// The size of a page.
pub const HV_PAGE_SIZE: u64 = 4096;

/// The number of bits of an address inside a page.
pub const HV_PAGE_SHIFT: u64 = 12;

/// The kind of access that an address is translated for.
#[derive(Debug, Clone, Copy, PartialEq, Eq)]
pub enum TranslateMode {
    Read,
    Write,
    Execute,
}

/// What a translation validates and does besides.
#[derive(Debug, Clone, Copy, PartialEq, Eq)]
pub struct TranslateControl {
    pub validate_read: bool,
    pub validate_write: bool,
    pub validate_execute: bool,
    /// The translation is executed without privilege checks.
    pub privilege_exempt: bool,
    /// The accessed and dirty bits of the page tables are set.
    pub set_page_table_bits: bool,
    /// The translation stays usable until the processor runs again.
    pub tlb_flush_inhibit: bool,
    /// The VTL whose page tables are walked.
    pub input_vtl: Vtl,
}

/// The control of a translation for `mode` in `target_vtl`. A write also
/// validates reading. The translation is going to be used, so the page
/// table bits are set and flushes are held back; privileges are checked.
pub fn translate_control(mode: TranslateMode, target_vtl: Vtl) -> (r: TranslateControl)
    ensures
        r == (TranslateControl {
            validate_read: mode != TranslateMode::Execute,
            validate_write: mode == TranslateMode::Write,
            validate_execute: mode == TranslateMode::Execute,
            privilege_exempt: false,
            set_page_table_bits: true,
            tlb_flush_inhibit: true,
            input_vtl: target_vtl,
        }),
{
    let (validate_read, validate_write, validate_execute) = match mode {
        TranslateMode::Read => (true, false, false),
        TranslateMode::Write => (true, true, false),
        TranslateMode::Execute => (false, false, true),
    };
    TranslateControl {
        validate_read,
        validate_write,
        validate_execute,
        privilege_exempt: false,
        set_page_table_bits: true,
        tlb_flush_inhibit: true,
        input_vtl: target_vtl,
    }
}

/// The physical address that `gva` translates to when its page translates
/// to page `gpa_page`: the offset of `gva` in its page, in that page. The
/// bits of the page number that an address cannot hold are dropped.
pub fn translated_address(gpa_page: u64, gva: u64) -> (gpa: u64)
    ensures
        gpa == (gpa_page % 0x10_0000_0000_0000) * HV_PAGE_SIZE + gva % HV_PAGE_SIZE,
{
    assert((gpa_page << 12) == (gpa_page % 0x10_0000_0000_0000) * 4096 && (gpa_page << 12)
        <= 0xffff_ffff_ffff_f000) by (bit_vector);
    assert(gva & 4095 == gva % 4096 && gva & 4095 <= 4095) by (bit_vector);
    (gpa_page << HV_PAGE_SHIFT) + (gva & (HV_PAGE_SIZE - 1))
}

/// Whether the right to execute must be checked before code at an address
/// is emulated: only for VTL0, and only where VTL1 can take the right
/// away. Reading and writing are guarded elsewhere.
pub fn needs_execute_check(mode: TranslateMode, last_vtl: Vtl, vtl1_supported: bool) -> (r: bool)
    ensures
        r == (mode == TranslateMode::Execute && last_vtl == Vtl::Vtl0 && vtl1_supported),
{
    let execute = match mode {
        TranslateMode::Execute => true,
        _ => false,
    };
    let vtl0 = match last_vtl {
        Vtl::Vtl0 => true,
        _ => false,
    };
    execute && vtl0 && vtl1_supported
}

/// Whether an intercepted access is a write to the monitor page at
/// `monitor_page`.
pub fn is_monitor_page_write(gpa: u64, write: bool, monitor_page: Option<u64>) -> (r: bool)
    ensures
        r == (write && monitor_page == Some((gpa - gpa % HV_PAGE_SIZE) as u64)),
{
    assert(gpa & !4095u64 == gpa - gpa % 4096) by (bit_vector);
    match monitor_page {
        Some(page) => write && page == gpa & !(HV_PAGE_SIZE - 1),
        None => false,
    }
}

} // verus!
