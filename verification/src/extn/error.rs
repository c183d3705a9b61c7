//! The exceptions that native methods raise in the VM.

use vstd::prelude::*;
use vstd::string::StringExecFns;

verus! {

/// The class of an exception.
#[derive(Clone, Copy, Debug, PartialEq, Eq, Hash, Structural)]
pub enum ExceptionClass {
    ArgumentError,
    RuntimeError,
    TypeError,
}

/// An exception that a native method asks the VM to raise.
#[derive(Debug, PartialEq, Eq)]
pub struct Exception {
    pub class: ExceptionClass,
    pub message: String,
}

/// The model of an exception.
pub ghost struct ExceptionView {
    pub class: ExceptionClass,
    pub message: Seq<char>,
}

impl View for Exception {
    type V = ExceptionView;

    open spec fn view(&self) -> ExceptionView {
        ExceptionView { class: self.class, message: self.message@ }
    }
}

impl ExceptionClass {
    /// The exception of this class with the given message.
    pub fn raise(self, message: &str) -> (exception: Exception)
        ensures
            exception@ == (ExceptionView { class: self, message: message@ }),
    {
        Exception { class: self, message: String::from_str(message) }
    }
}

} // verus!
