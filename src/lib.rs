//! Post-build helpers for embedded firmware: the size of the non-volatile
//! data region read from an ELF image's symbols, and the command lines of
//! the object-copy, size and device-provisioning tools.
pub mod elf_image;
pub mod command;
pub mod error;
pub mod region;

pub use error::BuildError;
pub use region::retrieve_data_size;
