//! The saved state of a virtual processor.

use vstd::prelude::*;

verus! {

/// The number of general purpose slots in the processor context.
pub const GP_COUNT: usize = 16;

/// The number of debug registers that are shared between the VTLs: DR0 to
/// DR3, and DR6 where the platform shares it.
pub const SHARED_REGISTER_COUNT: usize = 5;

/// The saved state of a virtual processor.
#[derive(Debug, PartialEq, Eq)]
pub struct ProcessorSavedState {
    pub rax: u64,
    pub rcx: u64,
    pub rdx: u64,
    pub rbx: u64,
    pub cr2: u64,
    pub rbp: u64,
    pub rsi: u64,
    pub rdi: u64,
    pub r8: u64,
    pub r9: u64,
    pub r10: u64,
    pub r11: u64,
    pub r12: u64,
    pub r13: u64,
    pub r14: u64,
    pub r15: u64,
    pub fx_state: Vec<u8>,
    pub dr0: u64,
    pub dr1: u64,
    pub dr2: u64,
    pub dr3: u64,
    /// Only set when DR6 is shared.
    pub dr6: Option<u64>,
    /// If VTL0 should be in the startup suspend state. Older versions do
    /// not save this property.
    pub startup_suspend: Option<bool>,
}

/// Why a saved state cannot be restored.
#[derive(Debug, Clone, Copy, PartialEq, Eq)]
pub enum RestoreError {
    /// The floating point state has the wrong size.
    InvalidFpuState,
    /// The state holds DR6 and the platform does not share it, or the
    /// other way round.
    Dr6StateMismatch,
}

/// What to do about startup suspend when a state is restored.
#[derive(Debug, Clone, Copy, PartialEq, Eq)]
pub enum StartupSuspend {
    /// Put the processor back into startup suspend.
    Inject,
    /// The state does not tell and the processor is not the first one:
    /// record that the state may be wrong.
    Unknown,
    /// Leave the processor as it is.
    Keep,
}

/// How many of the shared debug registers are read and written.
pub fn shared_register_count(dr6_shared: bool) -> (n: usize)
    ensures
        n == if dr6_shared {
            5int
        } else {
            4int
        },
{
    if dr6_shared {
        SHARED_REGISTER_COUNT
    } else {
        SHARED_REGISTER_COUNT - 1
    }
}

impl ProcessorSavedState {
    /// The general purpose slots of the state, in the order of the
    /// processor context: RAX, RCX, RDX, RBX, CR2, RBP, RSI, RDI, R8 to R15.
    pub open spec fn spec_gps(&self) -> Seq<u64> {
        seq![
            self.rax,
            self.rcx,
            self.rdx,
            self.rbx,
            self.cr2,
            self.rbp,
            self.rsi,
            self.rdi,
            self.r8,
            self.r9,
            self.r10,
            self.r11,
            self.r12,
            self.r13,
            self.r14,
            self.r15,
        ]
    }

    /// The shared debug registers of the state: DR0 to DR3, then DR6 or
    /// zero.
    pub open spec fn spec_shared_values(&self) -> Seq<u64> {
        seq![
            self.dr0,
            self.dr1,
            self.dr2,
            self.dr3,
            match self.dr6 {
                Some(dr6) => dr6,
                None => 0,
            },
        ]
    }

    /// The state of a processor whose context holds `gps` and `fx_state`
    /// and whose shared debug registers hold `shared`. DR6 is kept only
    /// where it is shared.
    pub fn capture(
        gps: [u64; 16],
        fx_state: Vec<u8>,
        shared: [u64; 5],
        dr6_shared: bool,
        startup_suspend: Option<bool>,
    ) -> (state: ProcessorSavedState)
        ensures
            state.spec_gps() == gps@,
            state.fx_state == fx_state,
            state.dr0 == shared[0],
            state.dr1 == shared[1],
            state.dr2 == shared[2],
            state.dr3 == shared[3],
            state.dr6 == if dr6_shared {
                Some(shared[4])
            } else {
                None
            },
            state.startup_suspend == startup_suspend,
    {
        let state = ProcessorSavedState {
            rax: gps[0],
            rcx: gps[1],
            rdx: gps[2],
            rbx: gps[3],
            cr2: gps[4],
            rbp: gps[5],
            rsi: gps[6],
            rdi: gps[7],
            r8: gps[8],
            r9: gps[9],
            r10: gps[10],
            r11: gps[11],
            r12: gps[12],
            r13: gps[13],
            r14: gps[14],
            r15: gps[15],
            fx_state,
            dr0: shared[0],
            dr1: shared[1],
            dr2: shared[2],
            dr3: shared[3],
            dr6: if dr6_shared {
                Some(shared[4])
            } else {
                None
            },
            startup_suspend,
        };
        state
    }

    /// The general purpose slots to restore.
    pub fn gps(&self) -> (r: [u64; 16])
        ensures
            r@ == self.spec_gps(),
    {
        let r = [
            self.rax,
            self.rcx,
            self.rdx,
            self.rbx,
            self.cr2,
            self.rbp,
            self.rsi,
            self.rdi,
            self.r8,
            self.r9,
            self.r10,
            self.r11,
            self.r12,
            self.r13,
            self.r14,
            self.r15,
        ];
        r
    }

    /// The shared debug registers to restore.
    pub fn shared_values(&self) -> (r: [u64; 5])
        ensures
            r@ == self.spec_shared_values(),
    {
        let dr6 = match self.dr6 {
            Some(dr6) => dr6,
            None => 0,
        };
        let r = [self.dr0, self.dr1, self.dr2, self.dr3, dr6];
        r
    }

    /// Whether the state fits a processor whose floating point state has
    /// `fx_state_len` bytes and that shares DR6 or not.
    pub fn validate(&self, fx_state_len: usize, dr6_shared: bool) -> (r: Result<(), RestoreError>)
        ensures
            r == if self.fx_state@.len() != fx_state_len {
                Err::<(), RestoreError>(RestoreError::InvalidFpuState)
            } else if dr6_shared != (self.dr6 is Some) {
                Err::<(), RestoreError>(RestoreError::Dr6StateMismatch)
            } else {
                Ok::<(), RestoreError>(())
            },
    {
        if self.fx_state.len() != fx_state_len {
            return Err(RestoreError::InvalidFpuState);
        }
        if dr6_shared != self.dr6.is_some() {
            return Err(RestoreError::Dr6StateMismatch);
        }
        Ok(())
    }

    /// What to do about startup suspend on restore.
    ///
    /// A processor saved in startup suspend goes back into it. A state
    /// that does not tell is taken to mean that the processor runs.
    pub fn startup_suspend_on_restore(&self, is_bsp: bool) -> (r: StartupSuspend)
        ensures
            r == match self.startup_suspend {
                Some(true) => StartupSuspend::Inject,
                Some(false) => StartupSuspend::Keep,
                None => if is_bsp {
                    StartupSuspend::Keep
                } else {
                    StartupSuspend::Unknown
                },
            },
    {
        match self.startup_suspend {
            Some(true) => StartupSuspend::Inject,
            None => {
                if !is_bsp {
                    StartupSuspend::Unknown
                } else {
                    StartupSuspend::Keep
                }
            },
            Some(false) => StartupSuspend::Keep,
        }
    }
}

} // verus!
