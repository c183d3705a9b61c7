//! Conversions between host values and VM values.
//!
//! Each convertible host type states, over its deep view, which VM value it
//! becomes ([`Convert::encode`]) and which VM values it can be read back from
//! ([`Convert::decode`]). Going to the VM never fails; coming back inspects the
//! value's tag and fails with the pair of types that did not fit.

use vstd::prelude::*;
use crate::types::{Ruby, Rust};
use crate::value::{Term, Value};

pub mod collection;
pub mod scalar;
pub mod text;

verus! {

/// A conversion that was attempted and did not apply: the type that was
/// found and the type that was asked for.
#[derive(Clone, Copy, Debug, PartialEq, Eq, Hash, Structural)]
pub struct Error<F, T> {
    pub from: F,
    pub to: T,
}

/// The error of reading a VM value with tag `from` as the host type `to`.
pub open spec fn mismatch(from: Ruby, to: Rust) -> Error<Ruby, Rust> {
    Error { from, to }
}

/// A host type that has a VM representation.
pub trait Convert: DeepView + Sized {
    /// The host values that the VM holds without loss.
    spec fn representable(host: Self::V) -> bool;

    /// The VM value that a host value becomes.
    spec fn encode(host: Self::V) -> Term;

    /// The host value that a VM value is read as, or the conversion error.
    spec fn decode(term: Term) -> Result<Self::V, Error<Ruby, Rust>>;

    /// Whatever is written to the VM reads back, and writing what was read
    /// gives the same VM value again.
    proof fn lemma_round_trip(host: Self::V)
        requires
            Self::representable(host),
        ensures
            Self::decode(Self::encode(host)) is Ok,
            Self::representable(Self::decode(Self::encode(host))->Ok_0),
            Self::encode(Self::decode(Self::encode(host))->Ok_0) == Self::encode(host),
    ;

    /// Converts a host value to a VM value.
    fn convert(&self) -> (value: Value)
        requires
            Self::representable(self.deep_view()),
        ensures
            value@ == Self::encode(self.deep_view()),
    ;

    /// Converts a VM value to a host value, if its tag and payload fit.
    fn try_convert(value: &Value) -> (result: Result<Self, Error<Ruby, Rust>>)
        ensures
            match result {
                Ok(host) => Self::decode(value@) == Ok::<Self::V, Error<Ruby, Rust>>(
                    host.deep_view(),
                ),
                Err(error) => Self::decode(value@) == Err::<Self::V, Error<Ruby, Rust>>(error),
            },
    ;
}

impl DeepView for Value {
    type V = Term;

    open spec fn deep_view(&self) -> Term {
        self@
    }
}

impl Convert for Value {
    open spec fn representable(host: Term) -> bool {
        true
    }

    open spec fn encode(host: Term) -> Term {
        host
    }

    open spec fn decode(term: Term) -> Result<Term, Error<Ruby, Rust>> {
        Ok(term)
    }

    proof fn lemma_round_trip(host: Term) {
    }

    fn convert(&self) -> (value: Value) {
        self.clone()
    }

    fn try_convert(value: &Value) -> (result: Result<Self, Error<Ruby, Rust>>) {
        Ok(value.clone())
    }
}

} // verus!
