//! Type tags that name the two sides of a conversion.

use vstd::prelude::*;

verus! {

/// The runtime type of a VM value, as far as the bridge tells types apart.
#[derive(Clone, Copy, Debug, PartialEq, Eq, Hash, Structural)]
pub enum Ruby {
    Array,
    Bool,
    Class,
    CPointer,
    Data,
    Exception,
    Fiber,
    Fixnum,
    Float,
    Hash,
    InlineStruct,
    Module,
    Nil,
    Object,
    Proc,
    Range,
    SingletonClass,
    String,
    Symbol,
    /// The tag of a value that is internal to the VM.
    Unreachable,
}

/// The host type that a conversion produces or consumes.
#[derive(Clone, Copy, Debug, PartialEq, Eq, Hash, Structural)]
pub enum Rust {
    Bool,
    Bytes,
    Float,
    Pairs,
    Object,
    SignedInt,
    String,
    UnsignedInt,
    Vec,
}

impl Ruby {
    /// The name of the VM class of values with this tag.
    pub open spec fn name_spec(self) -> Seq<char> {
        match self {
            Ruby::Array => "Array"@,
            Ruby::Bool => "Boolean"@,
            Ruby::Class => "Class"@,
            Ruby::CPointer => "C Pointer"@,
            Ruby::Data => "Rust-backed Ruby instance"@,
            Ruby::Exception => "Exception"@,
            Ruby::Fiber => "Fiber"@,
            Ruby::Fixnum => "Fixnum"@,
            Ruby::Float => "Float"@,
            Ruby::Hash => "Hash"@,
            Ruby::InlineStruct => "Inline Struct"@,
            Ruby::Module => "Module"@,
            Ruby::Nil => "NilClass"@,
            Ruby::Object => "Object"@,
            Ruby::Proc => "Proc"@,
            Ruby::Range => "Range"@,
            Ruby::SingletonClass => "Singleton (anonymous) class"@,
            Ruby::String => "String"@,
            Ruby::Symbol => "Symbol"@,
            Ruby::Unreachable => "internal and unreachable"@,
        }
    }

    pub fn name(self) -> (r: &'static str)
        ensures
            r@ == self.name_spec(),
    {
        match self {
            Ruby::Array => "Array",
            Ruby::Bool => "Boolean",
            Ruby::Class => "Class",
            Ruby::CPointer => "C Pointer",
            Ruby::Data => "Rust-backed Ruby instance",
            Ruby::Exception => "Exception",
            Ruby::Fiber => "Fiber",
            Ruby::Fixnum => "Fixnum",
            Ruby::Float => "Float",
            Ruby::Hash => "Hash",
            Ruby::InlineStruct => "Inline Struct",
            Ruby::Module => "Module",
            Ruby::Nil => "NilClass",
            Ruby::Object => "Object",
            Ruby::Proc => "Proc",
            Ruby::Range => "Range",
            Ruby::SingletonClass => "Singleton (anonymous) class",
            Ruby::String => "String",
            Ruby::Symbol => "Symbol",
            Ruby::Unreachable => "internal and unreachable",
        }
    }
}

impl Rust {
    /// The name of the host type.
    pub open spec fn name_spec(self) -> Seq<char> {
        match self {
            Rust::Bool => "bool"@,
            Rust::Bytes => "Vec<u8>"@,
            Rust::Float => "f64"@,
            Rust::Pairs => "Vec<(K, V)>"@,
            Rust::Object => "struct"@,
            Rust::SignedInt => "i64"@,
            Rust::String => "String"@,
            Rust::UnsignedInt => "usize"@,
            Rust::Vec => "Vec"@,
        }
    }

    pub fn name(self) -> (r: &'static str)
        ensures
            r@ == self.name_spec(),
    {
        match self {
            Rust::Bool => "bool",
            Rust::Bytes => "Vec<u8>",
            Rust::Float => "f64",
            Rust::Pairs => "Vec<(K, V)>",
            Rust::Object => "struct",
            Rust::SignedInt => "i64",
            Rust::String => "String",
            Rust::UnsignedInt => "usize",
            Rust::Vec => "Vec",
        }
    }
}

/// The raw type tag that the VM stores in a value, including the tags of
/// values that never reach the host.
#[derive(Clone, Copy, Debug, PartialEq, Eq, Hash, Structural)]
pub enum VType {
    False,
    Free,
    True,
    Fixnum,
    Symbol,
    Undef,
    Float,
    CPtr,
    Object,
    Class,
    Module,
    IClass,
    SClass,
    Proc,
    Array,
    Hash,
    String,
    Range,
    Exception,
    File,
    Env,
    Data,
    Fiber,
    IStruct,
    Break,
    MaxDefine,
}

impl VType {
    /// The type of the values that carry this tag. The tag of `false` is
    /// also that of `nil`, which `nil` tells apart. The tags that the VM
    /// keeps to itself give `Unreachable`.
    pub open spec fn ruby_type_spec(self, nil: bool) -> Ruby {
        match self {
            VType::False => if nil {
                Ruby::Nil
            } else {
                Ruby::Bool
            },
            VType::Free => Ruby::Unreachable,
            VType::True => Ruby::Bool,
            VType::Fixnum => Ruby::Fixnum,
            VType::Symbol => Ruby::Symbol,
            VType::Undef => Ruby::Unreachable,
            VType::Float => Ruby::Float,
            VType::CPtr => Ruby::CPointer,
            VType::Object => Ruby::Object,
            VType::Class => Ruby::Class,
            VType::Module => Ruby::Module,
            VType::IClass => Ruby::Unreachable,
            VType::SClass => Ruby::SingletonClass,
            VType::Proc => Ruby::Proc,
            VType::Array => Ruby::Array,
            VType::Hash => Ruby::Hash,
            VType::String => Ruby::String,
            VType::Range => Ruby::Range,
            VType::Exception => Ruby::Exception,
            VType::File => Ruby::Unreachable,
            VType::Env => Ruby::Unreachable,
            VType::Data => Ruby::Data,
            VType::Fiber => Ruby::Fiber,
            VType::IStruct => Ruby::InlineStruct,
            VType::Break => Ruby::Unreachable,
            VType::MaxDefine => Ruby::Unreachable,
        }
    }

    /// The type of the values that carry this tag.
    pub fn ruby_type(self, nil: bool) -> (tag: Ruby)
        ensures
            tag == self.ruby_type_spec(nil),
    {
        match self {
            VType::False => if nil {
                Ruby::Nil
            } else {
                Ruby::Bool
            },
            VType::Free => Ruby::Unreachable,
            VType::True => Ruby::Bool,
            VType::Fixnum => Ruby::Fixnum,
            VType::Symbol => Ruby::Symbol,
            VType::Undef => Ruby::Unreachable,
            VType::Float => Ruby::Float,
            VType::CPtr => Ruby::CPointer,
            VType::Object => Ruby::Object,
            VType::Class => Ruby::Class,
            VType::Module => Ruby::Module,
            VType::IClass => Ruby::Unreachable,
            VType::SClass => Ruby::SingletonClass,
            VType::Proc => Ruby::Proc,
            VType::Array => Ruby::Array,
            VType::Hash => Ruby::Hash,
            VType::String => Ruby::String,
            VType::Range => Ruby::Range,
            VType::Exception => Ruby::Exception,
            VType::File => Ruby::Unreachable,
            VType::Env => Ruby::Unreachable,
            VType::Data => Ruby::Data,
            VType::Fiber => Ruby::Fiber,
            VType::IStruct => Ruby::InlineStruct,
            VType::Break => Ruby::Unreachable,
            VType::MaxDefine => Ruby::Unreachable,
        }
    }

    /// The tag's name in the VM's own headers.
    pub open spec fn name_spec(self) -> Seq<char> {
        match self {
            VType::False => "MRB_TT_FALSE"@,
            VType::Free => "MRB_TT_FREE"@,
            VType::True => "MRB_TT_TRUE"@,
            VType::Fixnum => "MRB_TT_FIXNUM"@,
            VType::Symbol => "MRB_TT_SYMBOL"@,
            VType::Undef => "MRB_TT_UNDEF"@,
            VType::Float => "MRB_TT_FLOAT"@,
            VType::CPtr => "MRB_TT_CPTR"@,
            VType::Object => "MRB_TT_OBJECT"@,
            VType::Class => "MRB_TT_CLASS"@,
            VType::Module => "MRB_TT_MODULE"@,
            VType::IClass => "MRB_TT_ICLASS"@,
            VType::SClass => "MRB_TT_SCLASS"@,
            VType::Proc => "MRB_TT_PROC"@,
            VType::Array => "MRB_TT_ARRAY"@,
            VType::Hash => "MRB_TT_HASH"@,
            VType::String => "MRB_TT_STRING"@,
            VType::Range => "MRB_TT_RANGE"@,
            VType::Exception => "MRB_TT_EXCEPTION"@,
            VType::File => "MRB_TT_FILE"@,
            VType::Env => "MRB_TT_ENV"@,
            VType::Data => "MRB_TT_DATA"@,
            VType::Fiber => "MRB_TT_FIBER"@,
            VType::IStruct => "MRB_TT_ISTRUCT"@,
            VType::Break => "MRB_TT_BREAK"@,
            VType::MaxDefine => "MRB_TT_MAXDEFINE"@,
        }
    }

    pub fn name(self) -> (r: &'static str)
        ensures
            r@ == self.name_spec(),
    {
        match self {
            VType::False => "MRB_TT_FALSE",
            VType::Free => "MRB_TT_FREE",
            VType::True => "MRB_TT_TRUE",
            VType::Fixnum => "MRB_TT_FIXNUM",
            VType::Symbol => "MRB_TT_SYMBOL",
            VType::Undef => "MRB_TT_UNDEF",
            VType::Float => "MRB_TT_FLOAT",
            VType::CPtr => "MRB_TT_CPTR",
            VType::Object => "MRB_TT_OBJECT",
            VType::Class => "MRB_TT_CLASS",
            VType::Module => "MRB_TT_MODULE",
            VType::IClass => "MRB_TT_ICLASS",
            VType::SClass => "MRB_TT_SCLASS",
            VType::Proc => "MRB_TT_PROC",
            VType::Array => "MRB_TT_ARRAY",
            VType::Hash => "MRB_TT_HASH",
            VType::String => "MRB_TT_STRING",
            VType::Range => "MRB_TT_RANGE",
            VType::Exception => "MRB_TT_EXCEPTION",
            VType::File => "MRB_TT_FILE",
            VType::Env => "MRB_TT_ENV",
            VType::Data => "MRB_TT_DATA",
            VType::Fiber => "MRB_TT_FIBER",
            VType::IStruct => "MRB_TT_ISTRUCT",
            VType::Break => "MRB_TT_BREAK",
            VType::MaxDefine => "MRB_TT_MAXDEFINE",
        }
    }
}

} // verus!
