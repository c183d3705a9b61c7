//! The errors that the bridge returns.

use vstd::prelude::*;
use vstd::std_specs::cmp::PartialEqSpecImpl;
use vstd::string::StringExecFns;
use crate::convert::Error;
use crate::decimal::{decimal, push_decimal};
use crate::types::{Ruby, Rust, VType};

verus! {

impl Error<Rust, Ruby> {
    /// The text of a failed conversion to the VM.
    pub open spec fn message(self) -> Seq<char> {
        "failed to convert from rust "@ + self.from.name_spec() + " to ruby "@
            + self.to.name_spec()
    }

    pub fn to_string(&self) -> (text: String)
        ensures
            text@ == self.message(),
    {
        let mut text = String::from_str("failed to convert from rust ");
        text.append(self.from.name());
        text.append(" to ruby ");
        text.append(self.to.name());
        text
    }
}

impl Error<Ruby, Rust> {
    /// The text of a failed conversion to the host.
    pub open spec fn message(self) -> Seq<char> {
        "failed to convert from ruby "@ + self.from.name_spec() + " to rust "@
            + self.to.name_spec()
    }

    pub fn to_string(&self) -> (text: String)
        ensures
            text@ == self.message(),
    {
        let mut text = String::from_str("failed to convert from ruby ");
        text.append(self.from.name());
        text.append(" to rust ");
        text.append(self.to.name());
        text
    }
}

/// Errors returned by the bridge.
#[derive(Debug)]
pub enum ArtichokeError {
    /// An argument descriptor could not be rendered for the VM.
    ArgSpec,
    /// A call frame holds fewer arguments than the native method requires, or
    /// more than it admits. `admitted` is `None` where the method takes any
    /// number of trailing arguments.
    ArgCount { given: usize, required: usize, admitted: Option<usize> },
    /// A host value could not be converted to a VM value.
    ConvertToRuby(Error<Rust, Ruby>),
    /// A VM value could not be converted to a host value.
    ConvertToRust(Error<Ruby, Rust>),
    /// An exception was raised while the VM evaluated code; the text is its
    /// backtrace.
    Exec(String),
    /// The VM could not be created.
    New,
    /// No class or module of this name is defined.
    NotDefined(String),
    /// No source is registered under this path.
    SourceNotFound(String),
    /// A call into the VM was given more arguments than it admits.
    TooManyArgs { given: usize, max: usize },
    /// The interpreter state could not be recovered from a call context.
    Uninitialized,
    /// The VM handed out a value that is internal to it.
    UnreachableValue(VType),
    /// The virtual filesystem refused an operation; the text says why.
    Vfs(String),
}

/// The model of an error: the same cases, with each text as a sequence of
/// characters.
pub ghost enum Failure {
    ArgSpec,
    ArgCount { given: usize, required: usize, admitted: Option<usize> },
    ConvertToRuby(Error<Rust, Ruby>),
    ConvertToRust(Error<Ruby, Rust>),
    Exec(Seq<char>),
    New,
    NotDefined(Seq<char>),
    SourceNotFound(Seq<char>),
    TooManyArgs { given: usize, limit: usize },
    Uninitialized,
    UnreachableValue(VType),
    Vfs(Seq<char>),
}

impl View for ArtichokeError {
    type V = Failure;

    open spec fn view(&self) -> Failure {
        match self {
            ArtichokeError::ArgSpec => Failure::ArgSpec,
            ArtichokeError::ArgCount { given, required, admitted } => Failure::ArgCount {
                given: *given,
                required: *required,
                admitted: *admitted,
            },
            ArtichokeError::ConvertToRuby(inner) => Failure::ConvertToRuby(*inner),
            ArtichokeError::ConvertToRust(inner) => Failure::ConvertToRust(*inner),
            ArtichokeError::Exec(backtrace) => Failure::Exec(backtrace@),
            ArtichokeError::New => Failure::New,
            ArtichokeError::NotDefined(fqname) => Failure::NotDefined(fqname@),
            ArtichokeError::SourceNotFound(source) => Failure::SourceNotFound(source@),
            ArtichokeError::TooManyArgs { given, max } => Failure::TooManyArgs {
                given: *given,
                limit: *max,
            },
            ArtichokeError::Uninitialized => Failure::Uninitialized,
            ArtichokeError::UnreachableValue(tt) => Failure::UnreachableValue(*tt),
            ArtichokeError::Vfs(err) => Failure::Vfs(err@),
        }
    }
}

impl Failure {
    /// The part of an `ArgCount` message that says how many arguments are
    /// admitted: the one count, a range of counts, or a least count.
    pub open spec fn expected(required: nat, admitted: Option<usize>) -> Seq<char> {
        match admitted {
            None => decimal(required) + "+"@,
            Some(most) => if most == required {
                decimal(required)
            } else {
                decimal(required) + ".."@ + decimal(most as nat)
            },
        }
    }

    /// The text that describes this error.
    pub open spec fn message(self) -> Seq<char> {
        match self {
            Failure::ArgSpec => "could not generate argspec"@,
            Failure::ArgCount { given, required, admitted } => "wrong number of arguments (given "@
                + decimal(given as nat) + ", expected "@ + Self::expected(required as nat, admitted)
                + ")"@,
            Failure::ConvertToRuby(inner) => "conversion error: "@ + inner.message(),
            Failure::ConvertToRust(inner) => "conversion error: "@ + inner.message(),
            Failure::Exec(backtrace) => backtrace,
            Failure::New => "failed to create mrb interpreter"@,
            Failure::NotDefined(fqname) => fqname + " not defined"@,
            Failure::SourceNotFound(source) => "Could not load Ruby source "@ + source,
            Failure::TooManyArgs { given, limit } => "Too many args for funcall. Gave "@ + decimal(
                given as nat,
            ) + ", but max is "@ + decimal(limit as nat),
            Failure::Uninitialized => "mrb interpreter not initialized"@,
            Failure::UnreachableValue(tt) => "extracted unreachable type "@ + tt.name_spec()
                + " from interpreter"@,
            Failure::Vfs(err) => "mrb vfs io error: "@ + err,
        }
    }

    /// The text of the error that caused this one, if another error did.
    pub open spec fn cause(self) -> Option<Seq<char>> {
        match self {
            Failure::ConvertToRuby(inner) => Some(inner.message()),
            Failure::ConvertToRust(inner) => Some(inner.message()),
            Failure::Vfs(inner) => Some(inner),
            _ => None,
        }
    }
}

impl ArtichokeError {
    /// Renders the error as text.
    pub fn to_string(&self) -> (text: String)
        ensures
            text@ == self@.message(),
    {
        match self {
            ArtichokeError::ArgSpec => String::from_str("could not generate argspec"),
            ArtichokeError::ArgCount { given, required, admitted } => {
                let mut text = String::from_str("wrong number of arguments (given ");
                push_decimal(&mut text, *given);
                text.append(", expected ");
                let ghost head = text@;
                let min = required;
                push_decimal(&mut text, *min);
                match admitted {
                    None => {
                        text.append("+");
                    },
                    Some(max) => {
                        if *max != *min {
                            text.append("..");
                            push_decimal(&mut text, *max);
                        }
                    },
                }
                assert(text@ =~= head + Failure::expected(*required as nat, *admitted));
                text.append(")");
                text
            },
            ArtichokeError::ConvertToRuby(inner) => {
                let text = String::from_str("conversion error: ");
                text.concat(inner.to_string().as_str())
            },
            ArtichokeError::ConvertToRust(inner) => {
                let text = String::from_str("conversion error: ");
                text.concat(inner.to_string().as_str())
            },
            ArtichokeError::Exec(backtrace) => backtrace.clone(),
            ArtichokeError::New => String::from_str("failed to create mrb interpreter"),
            ArtichokeError::NotDefined(fqname) => fqname.clone().concat(" not defined"),
            ArtichokeError::SourceNotFound(source) => {
                let text = String::from_str("Could not load Ruby source ");
                text.concat(source.as_str())
            },
            ArtichokeError::TooManyArgs { given, max } => {
                let mut text = String::from_str("Too many args for funcall. Gave ");
                push_decimal(&mut text, *given);
                text.append(", but max is ");
                push_decimal(&mut text, *max);
                text
            },
            ArtichokeError::Uninitialized => String::from_str("mrb interpreter not initialized"),
            ArtichokeError::UnreachableValue(tt) => {
                let mut text = String::from_str("extracted unreachable type ");
                text.append(tt.name());
                text.append(" from interpreter");
                text
            },
            ArtichokeError::Vfs(err) => {
                let text = String::from_str("mrb vfs io error: ");
                text.concat(err.as_str())
            },
        }
    }

    /// A short description that is the same for every error.
    pub fn description(&self) -> (text: &'static str)
        ensures
            text@ == "artichoke interpreter error"@,
    {
        "artichoke interpreter error"
    }

    /// The text of the underlying error, for the errors that wrap one.
    pub fn cause(&self) -> (inner: Option<String>)
        ensures
            inner is Some <==> self@.cause() is Some,
            inner matches Some(text) ==> self@.cause() == Some(text@),
    {
        match self {
            ArtichokeError::ConvertToRuby(inner) => Some(inner.to_string()),
            ArtichokeError::ConvertToRust(inner) => Some(inner.to_string()),
            ArtichokeError::Vfs(inner) => Some(inner.clone()),
            _ => None,
        }
    }
}

impl PartialEq for ArtichokeError {
    /// Two errors are equal when they read the same.
    fn eq(&self, other: &Self) -> (equal: bool) {
        self.to_string() == other.to_string()
    }
}

impl Eq for ArtichokeError {

}

impl PartialEqSpecImpl for ArtichokeError {
    open spec fn obeys_eq_spec() -> bool {
        true
    }

    open spec fn eq_spec(&self, other: &Self) -> bool {
        self@.message() == other@.message()
    }
}

} // verus!
