//! How the registers of an intercept message are read and answered.

use vstd::prelude::*;

verus! {

/// The address of the instruction after the one that was intercepted.
pub fn next_rip(rip: u64, instruction_len: u8) -> (r: u64)
    ensures
        r == (rip + instruction_len) % 0x1_0000_0000_0000_0000,
{
    rip.wrapping_add(instruction_len as u64)
}

/// The two halves of a 64-bit value in EDX:EAX.
pub open spec fn edx_eax(rdx: u64, rax: u64) -> u64 {
    (rdx << 32) | (rax & 0xffff_ffff)
}

/// The value that a `wrmsr` writes: EDX:EAX.
pub fn msr_write_value(rax: u64, rdx: u64) -> (value: u64)
    ensures
        value == edx_eax(rdx, rax),
{
    let value = (rax & 0xffff_ffff) | (rdx << 32);
    assert((rax & 0xffff_ffff) | (rdx << 32) == (rdx << 32) | (rax & 0xffff_ffff)) by (bit_vector);
    value
}

/// The values of RAX and RDX after a `rdmsr` that read `value`.
pub fn msr_read_result(value: u64) -> (r: (u64, u64))
    ensures
        r.0 == value & 0xffff_ffff,
        r.1 == value >> 32,
        edx_eax(r.1, r.0) == value,
{
    assert(((value >> 32) << 32) | ((value & 0xffff_ffff) & 0xffff_ffff) == value)
        by (bit_vector);
    (value & 0xffff_ffff, value >> 32)
}

/// The control word of a hypercall: RCX in 64-bit mode, EDX:EAX otherwise.
pub fn hypercall_control(is_64bit: bool, rcx: u64, rdx: u64, rax: u64) -> (control: u64)
    ensures
        control == if is_64bit {
            rcx
        } else {
            edx_eax(rdx, rax)
        },
{
    if is_64bit {
        rcx
    } else {
        (rdx << 32) | (rax & 0xffff_ffff)
    }
}

/// Why an access to a model specific register failed.
#[derive(Debug, Clone, Copy, PartialEq, Eq)]
pub enum MsrError {
    /// Nothing emulates the register.
    Unknown,
    /// The access is not allowed.
    InvalidAccess,
}

/// How an intercepted access to a model specific register ends.
#[derive(Debug, Clone, Copy, PartialEq, Eq)]
pub enum MsrOutcome {
    /// The instruction completes: RAX and RDX get new values after a read,
    /// and RIP moves on.
    Complete { registers: Option<(u64, u64)> },
    /// The guest gets a general protection fault; RIP stays.
    Fault,
}

/// How an intercepted `rdmsr` ends. An unknown register reads as zero.
pub fn msr_read_outcome(read: Result<u64, MsrError>) -> (r: MsrOutcome)
    ensures
        r == match read {
            Ok(value) => MsrOutcome::Complete {
                registers: Some((value & 0xffff_ffff, value >> 32)),
            },
            Err(MsrError::Unknown) => MsrOutcome::Complete { registers: Some((0u64, 0u64)) },
            Err(MsrError::InvalidAccess) => MsrOutcome::Fault,
        },
{
    let value = match read {
        Ok(value) => value,
        Err(MsrError::Unknown) => 0,
        Err(MsrError::InvalidAccess) => {
            return MsrOutcome::Fault;
        },
    };
    assert(0u64 & 0xffff_ffff == 0 && 0u64 >> 32 == 0) by (bit_vector);
    MsrOutcome::Complete { registers: Some(msr_read_result(value)) }
}

/// How an intercepted `wrmsr` ends. A write to an unknown register is
/// dropped.
pub fn msr_write_outcome(write: Result<(), MsrError>) -> (r: MsrOutcome)
    ensures
        r == match write {
            Ok(()) => MsrOutcome::Complete { registers: None },
            Err(MsrError::Unknown) => MsrOutcome::Complete { registers: None },
            Err(MsrError::InvalidAccess) => MsrOutcome::Fault,
        },
{
    match write {
        Ok(()) => MsrOutcome::Complete { registers: None },
        Err(MsrError::Unknown) => MsrOutcome::Complete { registers: None },
        Err(MsrError::InvalidAccess) => MsrOutcome::Fault,
    }
}

} // verus!
