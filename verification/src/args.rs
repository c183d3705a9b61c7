//! Reading the arguments of a native method from a call frame.
//!
//! An [`ArgSpec`] describes the shape of the arguments that a native method
//! takes. [`ArgSpec::extract`] reads a [`Frame`] against it: required values
//! first, then optional values with an explicit marker for those that were not
//! given, then the remaining values, then the block.

use vstd::prelude::*;
use crate::error::ArtichokeError;
use crate::value::{Term, Value};

verus! {

/// Format specifier of one argument of any type: `o`.
pub const OBJECT: u8 = 0x6f;

/// Format specifier after which arguments are optional: a vertical bar.
pub const FOLLOWING_ARGS_OPTIONAL: u8 = 0x7c;

/// Format specifier of the flag that says whether the optional argument
/// before it was given: `?`.
pub const PREVIOUS_OPTIONAL_ARG_GIVEN: u8 = 0x3f;

/// Format specifier of the capture of all remaining arguments: `*`.
pub const REST: u8 = 0x2a;

/// Format specifier of the block: `&`.
pub const BLOCK: u8 = 0x26;

/// The largest number of arguments that a call into the VM may give.
pub const FUNCALL_ARGC_MAX: usize = 16;

/// Checks the number of arguments of a call into the VM.
pub fn check_funcall_args(given: usize) -> (result: Result<(), ArtichokeError>)
    ensures
        given <= FUNCALL_ARGC_MAX ==> result is Ok,
        given > FUNCALL_ARGC_MAX ==> result == Err::<(), ArtichokeError>(
            ArtichokeError::TooManyArgs { given, max: FUNCALL_ARGC_MAX },
        ),
{
    if given > FUNCALL_ARGC_MAX {
        Err(ArtichokeError::TooManyArgs { given, max: FUNCALL_ARGC_MAX })
    } else {
        Ok(())
    }
}

/// The arguments of one call of a native method, as the VM holds them.
#[derive(Debug, PartialEq, Eq)]
pub struct Frame {
    /// The positional arguments, in call order.
    pub args: Vec<Value>,
    /// The block that the call was given, if any.
    pub block: Option<Value>,
}

/// The shape of the arguments of a native method.
#[derive(Clone, Copy, Debug, PartialEq, Eq, Structural)]
pub struct ArgSpec {
    /// The number of leading arguments that a call must give.
    pub required: usize,
    /// The number of arguments after those that a call may give.
    pub optional: usize,
    /// Whether all further arguments are captured.
    pub rest: bool,
    /// Whether the method takes a block.
    pub block: bool,
}

/// What [`ArgSpec::extract`] read from a frame.
#[derive(Debug, PartialEq, Eq)]
pub struct Args {
    /// The required arguments, in order.
    pub required: Vec<Value>,
    /// One entry for each optional argument of the descriptor: the value that
    /// was given, or `None` where the call gave none.
    pub optional: Vec<Option<Value>>,
    /// The arguments after the required and optional ones, where the
    /// descriptor captures them; empty where it does not.
    pub rest: Vec<Value>,
    /// The block, where the descriptor takes one and the call gave one.
    pub block: Option<Value>,
}

/// The models of a list of values.
pub open spec fn terms(values: Seq<Value>) -> Seq<Term> {
    Seq::new(values.len(), |i: int| values[i]@)
}

/// The model of an optional value.
pub open spec fn optional_term(value: Option<Value>) -> Option<Term> {
    match value {
        Some(value) => Some(value@),
        None => None,
    }
}

impl Frame {
    /// The models of the positional arguments.
    pub open spec fn arg_terms(self) -> Seq<Term> {
        terms(self.args@)
    }

    /// The model of the block.
    pub open spec fn block_term(self) -> Option<Term> {
        optional_term(self.block)
    }
}

/// The model of what was read from a frame.
pub ghost struct ArgTerms {
    pub required: Seq<Term>,
    pub optional: Seq<Option<Term>>,
    pub rest: Seq<Term>,
    pub block: Option<Term>,
}

impl View for Args {
    type V = ArgTerms;

    open spec fn view(&self) -> ArgTerms {
        ArgTerms {
            required: terms(self.required@),
            optional: Seq::new(self.optional@.len(), |i: int| optional_term(self.optional@[i])),
            rest: terms(self.rest@),
            block: optional_term(self.block),
        }
    }
}

impl ArgSpec {
    /// The largest number of arguments that a call may give, or `None` where
    /// there is no bound that the machine can count.
    pub open spec fn max_args(self) -> Option<usize> {
        if self.rest || self.required + self.optional > usize::MAX {
            None
        } else {
            Some((self.required + self.optional) as usize)
        }
    }

    /// Whether a call with `argc` arguments fits this descriptor.
    pub open spec fn admits(self, argc: nat) -> bool {
        self.required <= argc && (self.rest || argc <= self.required + self.optional)
    }

    /// What a frame that fits the descriptor is read as.
    pub open spec fn read(self, args: Seq<Term>, block: Option<Term>) -> ArgTerms {
        ArgTerms {
            required: args.take(self.required as int),
            optional: Seq::new(
                self.optional as nat,
                |i: int|
                    if self.required + i < args.len() {
                        Some(args[self.required + i])
                    } else {
                        None
                    },
            ),
            rest: if self.rest && self.required + self.optional < args.len() {
                args.skip(self.required + self.optional)
            } else {
                Seq::empty()
            },
            block: if self.block {
                block
            } else {
                None
            },
        }
    }

    /// The VM's format string for this shape: one `o` for each required
    /// argument; then, where there are optional arguments, `|` and `o?` for
    /// each; then `*` for the rest and `&` for the block; then a NUL.
    pub open spec fn format_spec(self) -> Seq<u8> {
        Seq::new(self.required as nat, |i: int| OBJECT) + (if self.optional > 0 {
            seq![FOLLOWING_ARGS_OPTIONAL] + Seq::new(
                2 * self.optional as nat,
                |i: int|
                    if i % 2 == 0 {
                        OBJECT
                    } else {
                        PREVIOUS_OPTIONAL_ARG_GIVEN
                    },
            )
        } else {
            Seq::empty()
        }) + (if self.rest {
            seq![REST]
        } else {
            Seq::empty()
        }) + (if self.block {
            seq![BLOCK]
        } else {
            Seq::empty()
        }) + seq![0u8]
    }

    /// The shape as the VM encodes it in one word: the number of required
    /// arguments in five bits from bit 18, the number of optional arguments in
    /// five bits from bit 13, the capture of the rest in bit 12 and the block
    /// in bit 0. A number that does not fit in five bits is cut to them.
    pub open spec fn aspec_spec(self) -> u32 {
        (((self.required & 0x1f) as u32) << 18) | (((self.optional & 0x1f) as u32) << 13) | (
        if self.rest {
            0x1000u32
        } else {
            0u32
        }) | (if self.block {
            1u32
        } else {
            0u32
        })
    }

    /// The shape of a method that takes no arguments.
    pub fn new() -> (spec: ArgSpec)
        ensures
            spec == (ArgSpec { required: 0, optional: 0, rest: false, block: false }),
    {
        ArgSpec { required: 0, optional: 0, rest: false, block: false }
    }

    /// Sets the number of required arguments.
    pub fn required(self, count: usize) -> (spec: ArgSpec)
        ensures
            spec == (ArgSpec { required: count, ..self }),
    {
        ArgSpec { required: count, ..self }
    }

    /// Sets the number of optional arguments.
    pub fn optional(self, count: usize) -> (spec: ArgSpec)
        ensures
            spec == (ArgSpec { optional: count, ..self }),
    {
        ArgSpec { optional: count, ..self }
    }

    /// Captures the arguments after the required and optional ones.
    pub fn rest(self) -> (spec: ArgSpec)
        ensures
            spec == (ArgSpec { rest: true, ..self }),
    {
        ArgSpec { rest: true, ..self }
    }

    /// Takes the block.
    pub fn block(self) -> (spec: ArgSpec)
        ensures
            spec == (ArgSpec { block: true, ..self }),
    {
        ArgSpec { block: true, ..self }
    }

    /// Encodes the shape in one word, as the VM takes it when a native
    /// method is defined.
    pub fn aspec(&self) -> (word: u32)
        ensures
            word == self.aspec_spec(),
    {
        let all_required = self.required;
        let all_optional = self.optional;
        let required = all_required & 0x1f;
        let optional = all_optional & 0x1f;
        assert(required <= 0x1f) by (bit_vector)
            requires
                required == all_required & 0x1f,
        ;
        assert(optional <= 0x1f) by (bit_vector)
            requires
                optional == all_optional & 0x1f,
        ;
        let rest: u32 = if self.rest {
            0x1000
        } else {
            0
        };
        let block: u32 = if self.block {
            1
        } else {
            0
        };
        ((required as u32) << 18) | ((optional as u32) << 13) | rest | block
    }

    /// Renders the descriptor as the VM's format string.
    pub fn format(&self) -> (bytes: Vec<u8>)
        ensures
            bytes@ == self.format_spec(),
    {
        let mut bytes: Vec<u8> = Vec::new();
        let mut i: usize = 0;
        while i < self.required
            invariant
                i <= self.required,
                bytes@ == Seq::new(i as nat, |j: int| OBJECT),
            decreases self.required - i,
        {
            bytes.push(OBJECT);
            i += 1;
            assert(bytes@ =~= Seq::new(i as nat, |j: int| OBJECT));
        }
        let ghost head = bytes@;
        if self.optional > 0 {
            bytes.push(FOLLOWING_ARGS_OPTIONAL);
            let mut i: usize = 0;
            while i < self.optional
                invariant
                    i <= self.optional,
                    bytes@ == head + seq![FOLLOWING_ARGS_OPTIONAL] + Seq::new(
                        2 * i as nat,
                        |j: int|
                            if j % 2 == 0 {
                                OBJECT
                            } else {
                                PREVIOUS_OPTIONAL_ARG_GIVEN
                            },
                    ),
                decreases self.optional - i,
            {
                bytes.push(OBJECT);
                bytes.push(PREVIOUS_OPTIONAL_ARG_GIVEN);
                i += 1;
                assert(bytes@ =~= head + seq![FOLLOWING_ARGS_OPTIONAL] + Seq::new(
                    2 * i as nat,
                    |j: int|
                        if j % 2 == 0 {
                            OBJECT
                        } else {
                            PREVIOUS_OPTIONAL_ARG_GIVEN
                        },
                ));
            }
        }
        if self.rest {
            bytes.push(REST);
        }
        if self.block {
            bytes.push(BLOCK);
        }
        bytes.push(0u8);
        assert(bytes@ =~= self.format_spec());
        bytes
    }

    /// Reads a frame against this descriptor.
    ///
    /// The call fails with [`ArtichokeError::ArgCount`] exactly when the frame
    /// holds fewer arguments than are required, or more than the required and
    /// optional ones where the rest is not captured. Otherwise it gives the
    /// required values, one entry for each optional slot, the captured rest and
    /// the block.
    pub fn extract(self, frame: &Frame) -> (result: Result<Args, ArtichokeError>)
        ensures
            self.admits(frame.args@.len()) ==> (result matches Ok(args) && args@ == self.read(
                frame.arg_terms(),
                frame.block_term(),
            )),
            !self.admits(frame.args@.len()) ==> result == Err::<Args, ArtichokeError>(
                ArtichokeError::ArgCount {
                    given: frame.args@.len() as usize,
                    required: self.required,
                    admitted: self.max_args(),
                },
            ),
    {
        let argc = frame.args.len();
        let max = if self.rest {
            None
        } else {
            self.required.checked_add(self.optional)
        };
        let required = self.required;
        if argc < required {
            return Err(ArtichokeError::ArgCount { given: argc, required, admitted: max });
        }
        let given = argc - self.required;
        if !self.rest && given > self.optional {
            return Err(ArtichokeError::ArgCount { given: argc, required, admitted: max });
        }
        let ghost all = frame.arg_terms();
        let mut required: Vec<Value> = Vec::new();
        let mut i: usize = 0;
        while i < self.required
            invariant
                i <= self.required <= argc,
                argc == frame.args.len(),
                required.len() == i,
                forall|j: int| 0 <= j < i ==> required[j]@ == frame.args[j]@,
            decreases self.required - i,
        {
            required.push(frame.args[i].clone());
            i += 1;
        }
        assert(terms(required@) =~= all.take(self.required as int));
        let mut optional: Vec<Option<Value>> = Vec::new();
        let mut i: usize = 0;
        while i < self.optional
            invariant
                i <= self.optional,
                self.required <= argc,
                given == argc - self.required,
                argc == frame.args.len(),
                all == frame.arg_terms(),
                optional.len() == i,
                forall|j: int|
                    0 <= j < i ==> optional_term(#[trigger] optional[j]) == (if self.required + j
                        < argc {
                        Some(all[self.required + j])
                    } else {
                        None
                    }),
            decreases self.optional - i,
        {
            if i < given {
                optional.push(Some(frame.args[self.required + i].clone()));
            } else {
                optional.push(None);
            }
            i += 1;
        }
        let mut rest: Vec<Value> = Vec::new();
        if self.rest && given > self.optional {
            let start = self.required + self.optional;
            let mut i: usize = start;
            while i < argc
                invariant
                    start <= i <= argc,
                    argc == frame.args.len(),
                    rest.len() == i - start,
                    forall|j: int| 0 <= j < i - start ==> rest[j]@ == frame.args[start + j]@,
                decreases argc - i,
            {
                rest.push(frame.args[i].clone());
                i += 1;
            }
            assert(terms(rest@) =~= all.skip(start as int));
        }
        let block = if self.block {
            match &frame.block {
                Some(block) => Some(block.clone()),
                None => None,
            }
        } else {
            None
        };
        let args = Args { required, optional, rest, block };
        assert(args@.optional =~= self.read(all, frame.block_term()).optional);
        assert(args@.rest =~= self.read(all, frame.block_term()).rest);
        assert(args@.required == self.read(all, frame.block_term()).required);
        assert(args@.block == self.read(all, frame.block_term()).block);
        Ok(args)
    }
}

} // verus!
