//! What the host has registered of a class or module of the VM.

use vstd::prelude::*;
use vstd::string::StringExecFns;
use crate::registry::{lookup, put, Registry};

verus! {

/// Whether a specification is that of a class or of a module.
#[derive(Clone, Copy, Debug, PartialEq, Eq, Hash, Structural)]
pub enum Kind {
    Class,
    Module,
}

/// The specification of a class or module: its name and its native methods,
/// each with the encoded shape of its arguments.
pub struct Spec {
    name: String,
    kind: Kind,
    methods: Registry<u32>,
}

/// The model of a specification.
pub ghost struct SpecView {
    pub name: Seq<char>,
    pub kind: Kind,
    pub methods: Seq<(Seq<char>, u32)>,
}

impl View for Spec {
    type V = SpecView;

    closed spec fn view(&self) -> SpecView {
        SpecView { name: self.name@, kind: self.kind, methods: self.methods@ }
    }
}

impl SpecView {
    /// The specification of a class or module without methods.
    pub open spec fn fresh(name: Seq<char>, kind: Kind) -> SpecView {
        SpecView { name, kind, methods: Seq::empty() }
    }

    /// The specification with one native method more, or with the shape of
    /// a method of that name replaced.
    pub open spec fn add_method(self, name: Seq<char>, aspec: u32) -> SpecView {
        SpecView { methods: put(self.methods, name, aspec), ..self }
    }
}

impl Spec {
    /// The specification of a class or module without methods.
    pub fn new(name: &str, kind: Kind) -> (spec: Spec)
        ensures
            spec@ == SpecView::fresh(name@, kind),
    {
        Spec { name: String::from_str(name), kind, methods: Registry::new() }
    }

    /// The name of the class or module.
    pub fn name(&self) -> (name: &str)
        ensures
            name@ == self@.name,
    {
        self.name.as_str()
    }

    /// Whether this is a class or a module.
    pub fn kind(&self) -> (kind: Kind)
        ensures
            kind == self@.kind,
    {
        self.kind
    }

    /// Registers a native method under `name`, with the encoded shape of its
    /// arguments.
    pub fn add_method(&mut self, name: &str, aspec: u32)
        ensures
            final(self)@ == old(self)@.add_method(name@, aspec),
    {
        self.methods.insert(String::from_str(name), aspec);
    }

    /// The encoded argument shape of the native method `name`.
    pub fn method(&self, name: &str) -> (aspec: Option<u32>)
        ensures
            aspec == lookup(self@.methods, name@),
    {
        match self.methods.get(name) {
            Some(aspec) => Some(*aspec),
            None => None,
        }
    }

    /// The name and the encoded argument shape of the native method at
    /// `index`, in the order in which the methods were first added.
    pub fn method_at(&self, index: usize) -> (method: (&str, u32))
        requires
            index < self@.methods.len(),
        ensures
            (method.0@, method.1) == self@.methods[index as int],
    {
        let (name, aspec) = self.methods.entry(index);
        (name.as_str(), *aspec)
    }

    /// The number of native methods.
    pub fn method_count(&self) -> (count: usize)
        ensures
            count == self@.methods.len(),
    {
        self.methods.len()
    }
}

} // verus!
