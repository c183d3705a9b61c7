//! A typed bridge between a host program and an embedded, garbage-collected
//! scripting virtual machine.
//!
//! The crate holds the parts of the bridge that decide things: how host values
//! map to tagged VM values and back, how a native method reads its arguments
//! from a call frame, how host objects embedded in VM values are kept alive,
//! and how `require` resolves and loads a module at most once. The VM itself
//! (parsing, evaluation, collection) stays outside: every function here works
//! on plain values, and the embedding program carries out the evaluations and
//! native hooks that the library asks for.

pub mod args;
pub mod chars;
pub mod convert;
pub mod decimal;
pub mod def;
pub mod embed;
pub mod error;
pub mod extn;
pub mod fs;
pub mod load;
pub mod range;
pub mod registry;
pub mod state;
pub mod types;
pub mod value;

pub use error::ArtichokeError;
pub use state::interpreter;
