//! Types and constants specified by the PCI specification.

pub mod caps;
pub mod cfg_space;
pub mod hwid;
