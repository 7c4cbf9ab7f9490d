//! Building blocks of a virtual machine monitor, with their rules proved.
//!
//! - [`synic`]: the registry of connection ports through which a guest's
//!   `post message` and `signal event` hypercalls reach their handlers.
//! - [`protofile`]: descriptions of protobuf messages and the text of the
//!   `.proto` files that declare them.
//! - [`pci_spec`]: types and constants of the PCI specification.
//! - [`disk_file`]: the geometry of a disk that is backed by a file.
//! - [`snp`]: the initial processor context of a guest under AMD SEV-SNP.
//! - [`processor`]: rules for the state of a virtual processor.

pub mod disk_file;
pub mod pci_spec;
pub mod processor;
pub mod protofile;
pub mod snp;
pub mod synic;
