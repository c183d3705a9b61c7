//! Arguments of the methods of `Kernel`.

use vstd::prelude::*;
use crate::args::{ArgSpec, Frame};
use crate::convert::Convert;
use crate::error::{ArtichokeError, Failure};
use crate::value::Term;

verus! {

/// The argument of `require`: the name of a file.
pub struct Require {
    pub filename: String,
}

impl Require {
    /// What the arguments of a call are read as: exactly one argument, which
    /// is a string of valid UTF-8.
    pub open spec fn extract_spec(args: Seq<Term>) -> Result<Seq<char>, Failure> {
        if args.len() != 1 {
            Err(
                Failure::ArgCount {
                    given: args.len() as usize,
                    required: 1,
                    admitted: Some(1usize),
                },
            )
        } else {
            match String::decode(args[0]) {
                Ok(filename) => Ok(filename),
                Err(error) => Err(Failure::ConvertToRust(error)),
            }
        }
    }

    /// Reads the file name from the frame of a call.
    pub fn extract(frame: &Frame) -> (result: Result<Self, ArtichokeError>)
        ensures
            match result {
                Ok(args) => Self::extract_spec(frame.arg_terms()) == Ok::<Seq<char>, Failure>(
                    args.filename@,
                ),
                Err(error) => Self::extract_spec(frame.arg_terms()) == Err::<Seq<char>, Failure>(
                    error@,
                ),
            },
    {
        let args = match ArgSpec::new().required(1).extract(frame) {
            Ok(args) => args,
            Err(error) => {
                return Err(error);
            },
        };
        assert(args@.required.len() == 1 && args@.required[0] == frame.arg_terms()[0]);
        match String::try_convert(&args.required[0]) {
            Ok(filename) => Ok(Require { filename }),
            Err(error) => Err(ArtichokeError::ConvertToRust(error)),
        }
    }
}

} // verus!
