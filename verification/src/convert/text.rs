//! Strings and byte strings.

use vstd::prelude::*;
use vstd::string::StrSliceExecFns;
use vstd::utf8::{decode_utf8, encode_utf8, valid_utf8};
use crate::convert::{mismatch, Convert, Error};
use crate::types::{Ruby, Rust};
use crate::value::{Term, Value};

verus! {

/// `String::from_utf8` of std: the string whose bytes are `bytes`, if and
/// only if they are valid UTF-8.
#[verifier::external_body]
fn string_from_utf8(bytes: Vec<u8>) -> (text: Option<String>)
    ensures
        text is Some <==> valid_utf8(bytes@),
        text matches Some(s) ==> encode_utf8(s@) == bytes@,
{
    match String::from_utf8(bytes) {
        Ok(text) => Some(text),
        Err(_) => None,
    }
}

impl Convert for String {
    open spec fn representable(host: Seq<char>) -> bool {
        true
    }

    open spec fn encode(host: Seq<char>) -> Term {
        Term::String(encode_utf8(host))
    }

    open spec fn decode(term: Term) -> Result<Seq<char>, Error<Ruby, Rust>> {
        match term {
            Term::String(bytes) => if valid_utf8(bytes) {
                Ok(decode_utf8(bytes))
            } else {
                Err(mismatch(Ruby::String, Rust::String))
            },
            _ => Err(mismatch(term.ruby_type(), Rust::String)),
        }
    }

    proof fn lemma_round_trip(host: Seq<char>) {
        vstd::utf8::encode_utf8_valid_utf8(host);
        vstd::utf8::encode_utf8_decode_utf8(host);
    }

    fn convert(&self) -> (value: Value) {
        Value::String(self.as_str().as_bytes_vec())
    }

    fn try_convert(value: &Value) -> (result: Result<Self, Error<Ruby, Rust>>) {
        match value {
            Value::String(bytes) => match string_from_utf8(bytes.clone()) {
                Some(text) => {
                    proof {
                        vstd::utf8::encode_utf8_decode_utf8(text@);
                    }
                    Ok(text)
                },
                None => Err(Error { from: Ruby::String, to: Rust::String }),
            },
            _ => Err(Error { from: value.ruby_type(), to: Rust::String }),
        }
    }
}

impl Convert for Vec<u8> {
    open spec fn representable(host: Seq<u8>) -> bool {
        true
    }

    open spec fn encode(host: Seq<u8>) -> Term {
        Term::String(host)
    }

    open spec fn decode(term: Term) -> Result<Seq<u8>, Error<Ruby, Rust>> {
        match term {
            Term::String(bytes) => Ok(bytes),
            _ => Err(mismatch(term.ruby_type(), Rust::Bytes)),
        }
    }

    proof fn lemma_round_trip(host: Seq<u8>) {
    }

    fn convert(&self) -> (value: Value) {
        assert(self.deep_view() =~= self@);
        Value::String(self.clone())
    }

    fn try_convert(value: &Value) -> (result: Result<Self, Error<Ruby, Rust>>) {
        match value {
            Value::String(bytes) => {
                let host = bytes.clone();
                assert(host.deep_view() =~= bytes@);
                Ok(host)
            },
            _ => Err(Error { from: value.ruby_type(), to: Rust::Bytes }),
        }
    }
}

} // verus!
