//! Parts of the guest language's standard library.

pub mod monitor;
pub mod strscan;
