//! Booleans, integers and optional values.

use vstd::prelude::*;
use crate::convert::{mismatch, Convert, Error};
use crate::types::{Ruby, Rust};
use crate::value::{Term, Value};

verus! {

impl Convert for bool {
    open spec fn representable(host: bool) -> bool {
        true
    }

    open spec fn encode(host: bool) -> Term {
        Term::Bool(host)
    }

    open spec fn decode(term: Term) -> Result<bool, Error<Ruby, Rust>> {
        match term {
            Term::Bool(b) => Ok(b),
            _ => Err(mismatch(term.ruby_type(), Rust::Bool)),
        }
    }

    proof fn lemma_round_trip(host: bool) {
    }

    fn convert(&self) -> (value: Value) {
        Value::Bool(*self)
    }

    fn try_convert(value: &Value) -> (result: Result<Self, Error<Ruby, Rust>>) {
        match value {
            Value::Bool(b) => Ok(*b),
            _ => Err(Error { from: value.ruby_type(), to: Rust::Bool }),
        }
    }
}

impl Convert for i64 {
    open spec fn representable(host: i64) -> bool {
        true
    }

    open spec fn encode(host: i64) -> Term {
        Term::Fixnum(host)
    }

    open spec fn decode(term: Term) -> Result<i64, Error<Ruby, Rust>> {
        match term {
            Term::Fixnum(i) => Ok(i),
            _ => Err(mismatch(term.ruby_type(), Rust::SignedInt)),
        }
    }

    proof fn lemma_round_trip(host: i64) {
    }

    fn convert(&self) -> (value: Value) {
        Value::Fixnum(*self)
    }

    fn try_convert(value: &Value) -> (result: Result<Self, Error<Ruby, Rust>>) {
        match value {
            Value::Fixnum(i) => Ok(*i),
            _ => Err(Error { from: value.ruby_type(), to: Rust::SignedInt }),
        }
    }
}

impl Convert for i32 {
    open spec fn representable(host: i32) -> bool {
        true
    }

    open spec fn encode(host: i32) -> Term {
        Term::Fixnum(host as i64)
    }

    open spec fn decode(term: Term) -> Result<i32, Error<Ruby, Rust>> {
        match term {
            Term::Fixnum(i) => if i32::MIN <= i <= i32::MAX {
                Ok(i as i32)
            } else {
                Err(mismatch(Ruby::Fixnum, Rust::SignedInt))
            },
            _ => Err(mismatch(term.ruby_type(), Rust::SignedInt)),
        }
    }

    proof fn lemma_round_trip(host: i32) {
    }

    fn convert(&self) -> (value: Value) {
        Value::Fixnum(*self as i64)
    }

    fn try_convert(value: &Value) -> (result: Result<Self, Error<Ruby, Rust>>) {
        match value {
            Value::Fixnum(i) => if *i >= i32::MIN as i64 && *i <= i32::MAX as i64 {
                Ok(*i as i32)
            } else {
                Err(Error { from: Ruby::Fixnum, to: Rust::SignedInt })
            },
            _ => Err(Error { from: value.ruby_type(), to: Rust::SignedInt }),
        }
    }
}

impl Convert for u32 {
    open spec fn representable(host: u32) -> bool {
        true
    }

    open spec fn encode(host: u32) -> Term {
        Term::Fixnum(host as i64)
    }

    open spec fn decode(term: Term) -> Result<u32, Error<Ruby, Rust>> {
        match term {
            Term::Fixnum(i) => if 0 <= i <= u32::MAX {
                Ok(i as u32)
            } else {
                Err(mismatch(Ruby::Fixnum, Rust::UnsignedInt))
            },
            _ => Err(mismatch(term.ruby_type(), Rust::UnsignedInt)),
        }
    }

    proof fn lemma_round_trip(host: u32) {
    }

    fn convert(&self) -> (value: Value) {
        Value::Fixnum(*self as i64)
    }

    fn try_convert(value: &Value) -> (result: Result<Self, Error<Ruby, Rust>>) {
        match value {
            Value::Fixnum(i) => if *i >= 0 && *i <= u32::MAX as i64 {
                Ok(*i as u32)
            } else {
                Err(Error { from: Ruby::Fixnum, to: Rust::UnsignedInt })
            },
            _ => Err(Error { from: value.ruby_type(), to: Rust::UnsignedInt }),
        }
    }
}

impl Convert for u64 {
    open spec fn representable(host: u64) -> bool {
        host <= i64::MAX
    }

    open spec fn encode(host: u64) -> Term {
        Term::Fixnum(host as i64)
    }

    open spec fn decode(term: Term) -> Result<u64, Error<Ruby, Rust>> {
        match term {
            Term::Fixnum(i) => if 0 <= i {
                Ok(i as u64)
            } else {
                Err(mismatch(Ruby::Fixnum, Rust::UnsignedInt))
            },
            _ => Err(mismatch(term.ruby_type(), Rust::UnsignedInt)),
        }
    }

    proof fn lemma_round_trip(host: u64) {
    }

    fn convert(&self) -> (value: Value) {
        Value::Fixnum(*self as i64)
    }

    fn try_convert(value: &Value) -> (result: Result<Self, Error<Ruby, Rust>>) {
        match value {
            Value::Fixnum(i) => if *i >= 0 {
                Ok(*i as u64)
            } else {
                Err(Error { from: Ruby::Fixnum, to: Rust::UnsignedInt })
            },
            _ => Err(Error { from: value.ruby_type(), to: Rust::UnsignedInt }),
        }
    }
}

impl Convert for usize {
    open spec fn representable(host: usize) -> bool {
        host <= i64::MAX
    }

    open spec fn encode(host: usize) -> Term {
        Term::Fixnum(host as i64)
    }

    open spec fn decode(term: Term) -> Result<usize, Error<Ruby, Rust>> {
        match term {
            Term::Fixnum(i) => if 0 <= i <= usize::MAX {
                Ok(i as usize)
            } else {
                Err(mismatch(Ruby::Fixnum, Rust::UnsignedInt))
            },
            _ => Err(mismatch(term.ruby_type(), Rust::UnsignedInt)),
        }
    }

    proof fn lemma_round_trip(host: usize) {
    }

    fn convert(&self) -> (value: Value) {
        Value::Fixnum(*self as i64)
    }

    fn try_convert(value: &Value) -> (result: Result<Self, Error<Ruby, Rust>>) {
        match value {
            Value::Fixnum(i) => if *i >= 0 && *i as u64 <= usize::MAX as u64 {
                Ok(*i as usize)
            } else {
                Err(Error { from: Ruby::Fixnum, to: Rust::UnsignedInt })
            },
            _ => Err(Error { from: value.ruby_type(), to: Rust::UnsignedInt }),
        }
    }
}

/// A 64-bit float of the host, held as its IEEE 754 bit pattern.
#[derive(Clone, Copy, Debug, PartialEq, Eq, Hash, Structural)]
pub struct Float {
    pub bits: u64,
}

impl DeepView for Float {
    type V = u64;

    open spec fn deep_view(&self) -> u64 {
        self.bits
    }
}

impl Convert for Float {
    open spec fn representable(host: u64) -> bool {
        true
    }

    open spec fn encode(host: u64) -> Term {
        Term::Float(host)
    }

    open spec fn decode(term: Term) -> Result<u64, Error<Ruby, Rust>> {
        match term {
            Term::Float(bits) => Ok(bits),
            _ => Err(mismatch(term.ruby_type(), Rust::Float)),
        }
    }

    proof fn lemma_round_trip(host: u64) {
    }

    fn convert(&self) -> (value: Value) {
        Value::Float(self.bits)
    }

    fn try_convert(value: &Value) -> (result: Result<Self, Error<Ruby, Rust>>) {
        match value {
            Value::Float(bits) => Ok(Float { bits: *bits }),
            _ => Err(Error { from: value.ruby_type(), to: Rust::Float }),
        }
    }
}

impl<T: Convert> Convert for Option<T> {
    open spec fn representable(host: Option<T::V>) -> bool {
        match host {
            Some(inner) => T::representable(inner),
            None => true,
        }
    }

    open spec fn encode(host: Option<T::V>) -> Term {
        match host {
            Some(inner) => T::encode(inner),
            None => Term::Nil,
        }
    }

    open spec fn decode(term: Term) -> Result<Option<T::V>, Error<Ruby, Rust>> {
        match term {
            Term::Nil => Ok(None),
            _ => match T::decode(term) {
                Ok(inner) => Ok(Some(inner)),
                Err(error) => Err(error),
            },
        }
    }

    proof fn lemma_round_trip(host: Option<T::V>) {
        match host {
            Some(inner) => {
                T::lemma_round_trip(inner);
            },
            None => {},
        }
    }

    fn convert(&self) -> (value: Value) {
        match self {
            Some(inner) => inner.convert(),
            None => Value::Nil,
        }
    }

    fn try_convert(value: &Value) -> (result: Result<Self, Error<Ruby, Rust>>) {
        match value {
            Value::Nil => Ok(None),
            _ => match T::try_convert(value) {
                Ok(inner) => Ok(Some(inner)),
                Err(error) => Err(error),
            },
        }
    }
}

} // verus!
