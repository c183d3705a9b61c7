//! The VM's tagged values, as the bridge sees them.

use vstd::prelude::*;
use crate::error::{ArtichokeError, Failure};
use crate::types::{Ruby, VType};

verus! {

/// The mathematical model of a VM value: a closed set of tags, each with the
/// payload that the bridge reads.
pub ghost enum Term {
    Nil,
    Bool(bool),
    Fixnum(i64),
    Float(u64),
    String(Seq<u8>),
    Array(Seq<Term>),
    Hash(Seq<(Term, Term)>),
    Range { begin: i64, end: i64, exclusive: bool },
    Data { class: u32, slot: usize },
    Proc(u64),
    Object { tt: VType, id: u64 },
}

/// A VM value.
///
/// A `Value` owns no VM memory. Collections hold their elements in the order
/// in which the VM presents them; a `Hash` is its list of pairs, and may hold
/// one key more than once.
#[derive(Debug, PartialEq, Eq)]
pub enum Value {
    Nil,
    Bool(bool),
    Fixnum(i64),
    /// A float, held as its IEEE 754 bit pattern.
    Float(u64),
    /// A string of bytes, UTF-8 or not.
    String(Vec<u8>),
    Array(Vec<Value>),
    Hash(Vec<(Value, Value)>),
    Range { begin: i64, end: i64, exclusive: bool },
    /// A host object embedded in the VM: the class marker it was wrapped
    /// under, and its slot in the heap of embedded objects.
    Data { class: u32, slot: usize },
    /// A block or lambda of the guest program, named by its identity.
    Proc(u64),
    /// A value with any other tag, named by its identity: a symbol, a class,
    /// an exception, an object of the guest program, or a value that is
    /// internal to the VM.
    Object { tt: VType, id: u64 },
}

impl Value {
    /// The model of this value.
    pub open spec fn term(self) -> Term
        decreases self,
    {
        match self {
            Value::Nil => Term::Nil,
            Value::Bool(b) => Term::Bool(b),
            Value::Fixnum(i) => Term::Fixnum(i),
            Value::Float(bits) => Term::Float(bits),
            Value::String(bytes) => Term::String(bytes@),
            Value::Array(items) => Term::Array(
                Seq::new(
                    items.len() as nat,
                    |i: int|
                        if 0 <= i < items.len() {
                            items[i].term()
                        } else {
                            Term::Nil
                        },
                ),
            ),
            Value::Hash(pairs) => Term::Hash(
                Seq::new(
                    pairs.len() as nat,
                    |i: int|
                        if 0 <= i < pairs.len() {
                            (pairs[i].0.term(), pairs[i].1.term())
                        } else {
                            (Term::Nil, Term::Nil)
                        },
                ),
            ),
            Value::Range { begin, end, exclusive } => Term::Range { begin, end, exclusive },
            Value::Data { class, slot } => Term::Data { class, slot },
            Value::Proc(id) => Term::Proc(id),
            Value::Object { tt, id } => Term::Object { tt, id },
        }
    }
}

impl View for Value {
    type V = Term;

    open spec fn view(&self) -> Term {
        self.term()
    }
}

impl Term {
    /// The type tag of a value.
    pub open spec fn ruby_type(self) -> Ruby {
        match self {
            Term::Nil => Ruby::Nil,
            Term::Bool(_) => Ruby::Bool,
            Term::Fixnum(_) => Ruby::Fixnum,
            Term::Float(_) => Ruby::Float,
            Term::String(_) => Ruby::String,
            Term::Array(_) => Ruby::Array,
            Term::Hash(_) => Ruby::Hash,
            Term::Range { .. } => Ruby::Range,
            Term::Data { .. } => Ruby::Data,
            Term::Proc(_) => Ruby::Proc,
            Term::Object { tt, .. } => tt.ruby_type_spec(false),
        }
    }

    /// The error of handing out this value, where it is internal to the VM.
    pub open spec fn reachable(self) -> Result<Term, Failure> {
        match self {
            Term::Object { tt, .. } => if tt.ruby_type_spec(false) == Ruby::Unreachable {
                Err(Failure::UnreachableValue(tt))
            } else {
                Ok(self)
            },
            _ => Ok(self),
        }
    }
}

impl Value {
    /// The type tag of this value.
    pub fn ruby_type(&self) -> (tag: Ruby)
        ensures
            tag == self@.ruby_type(),
    {
        match self {
            Value::Nil => Ruby::Nil,
            Value::Bool(_) => Ruby::Bool,
            Value::Fixnum(_) => Ruby::Fixnum,
            Value::Float(_) => Ruby::Float,
            Value::String(_) => Ruby::String,
            Value::Array(_) => Ruby::Array,
            Value::Hash(_) => Ruby::Hash,
            Value::Range { .. } => Ruby::Range,
            Value::Data { .. } => Ruby::Data,
            Value::Proc(_) => Ruby::Proc,
            Value::Object { tt, .. } => tt.ruby_type(false),
        }
    }

    /// Whether this value is internal to the VM.
    pub fn is_unreachable(&self) -> (unreachable: bool)
        ensures
            unreachable == (self@.ruby_type() == Ruby::Unreachable),
    {
        match self.ruby_type() {
            Ruby::Unreachable => true,
            _ => false,
        }
    }

    /// Hands out a value that the VM returned, unless it is internal to the
    /// VM.
    pub fn reachable(self) -> (result: Result<Value, ArtichokeError>)
        ensures
            match result {
                Ok(value) => self@.reachable() == Ok::<Term, Failure>(value@) && value@ == self@,
                Err(error) => self@.reachable() == Err::<Term, Failure>(error@),
            },
    {
        match &self {
            Value::Object { tt, .. } => {
                let tt = *tt;
                match tt.ruby_type(false) {
                    Ruby::Unreachable => Err(ArtichokeError::UnreachableValue(tt)),
                    _ => Ok(self),
                }
            },
            _ => Ok(self),
        }
    }
}

impl Clone for Value {
    #[verifier::loop_isolation(false)]
    fn clone(&self) -> (copy: Self)
        ensures
            copy@ == self@,
        decreases self,
    {
        match self {
            Value::Nil => Value::Nil,
            Value::Bool(b) => Value::Bool(*b),
            Value::Fixnum(i) => Value::Fixnum(*i),
            Value::Float(bits) => Value::Float(*bits),
            Value::String(bytes) => Value::String(bytes.clone()),
            Value::Array(items) => {
                let mut copy: Vec<Value> = Vec::new();
                let mut i: usize = 0;
                while i < items.len()
                    invariant
                        i <= items.len(),
                        copy.len() == i,
                        forall|j: int| 0 <= j < i ==> copy[j]@ == items[j]@,
                    decreases items.len() - i,
                {
                    copy.push(items[i].clone());
                    i += 1;
                }
                assert(Value::Array(copy)@->Array_0 =~= self@->Array_0);
                Value::Array(copy)
            },
            Value::Hash(pairs) => {
                let mut copy: Vec<(Value, Value)> = Vec::new();
                let mut i: usize = 0;
                while i < pairs.len()
                    invariant
                        i <= pairs.len(),
                        copy.len() == i,
                        forall|j: int|
                            0 <= j < i ==> copy[j].0@ == pairs[j].0@ && copy[j].1@ == pairs[j].1@,
                    decreases pairs.len() - i,
                {
                    copy.push((pairs[i].0.clone(), pairs[i].1.clone()));
                    i += 1;
                }
                assert(Value::Hash(copy)@->Hash_0 =~= self@->Hash_0);
                Value::Hash(copy)
            },
            Value::Range { begin, end, exclusive } => Value::Range {
                begin: *begin,
                end: *end,
                exclusive: *exclusive,
            },
            Value::Data { class, slot } => Value::Data { class: *class, slot: *slot },
            Value::Proc(id) => Value::Proc(*id),
            Value::Object { tt, id } => Value::Object { tt: *tt, id: *id },
        }
    }
}

} // verus!
