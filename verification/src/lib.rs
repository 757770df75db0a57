//! A minimal register-based virtual machine with a verified
//! fetch-decode-execute loop.

pub mod encoding;
pub mod instruction;
pub mod laws;
pub mod state;
pub mod vm;
