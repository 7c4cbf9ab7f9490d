//! Rules for the state of an x86-64 virtual processor that a
//! hypervisor-backed partition runs.

pub mod emulate;
pub mod intercept;
pub mod saved_state;
pub mod vsm;
