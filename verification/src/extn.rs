//! The classes and modules that the bridge itself defines in the VM: parts of
//! the guest language's core library, and of its standard library under
//! `stdlib`.

pub mod error;
pub mod kernel;
pub mod matchdata;
pub mod regexp;
pub mod stdlib;
pub mod string;
