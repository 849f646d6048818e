//! Values that are to be created in the engine.

use vstd::prelude::*;
use vstd::slice::slice_to_vec;
use crate::tcl::TclEnvironment;

verus! {

/// A value for the engine as a mathematical value: the kind it was made as,
/// and what it was made from.
pub enum Value {
    Untyped,
    Boolean(bool),
    Integer(i32),
    Long(i64),
    Double(u64),
    String(Seq<char>),
    ByteArray(Seq<u8>),
}

/// A value for the engine, tagged by the kind it was made as. This layer
/// keeps what the value was made from and reads nothing else into it.
#[derive(Debug, PartialEq, Eq)]
pub enum Object {
    /// A new value of no particular kind.
    Untyped,
    /// A boolean value.
    Boolean(bool),
    /// An integer value.
    Integer(i32),
    /// A long integer value.
    Long(i64),
    /// A double-precision value, held as its IEEE 754 bit pattern.
    Double(u64),
    /// A string value.
    String(String),
    /// A byte array value.
    ByteArray(Vec<u8>),
}

impl View for Object {
    type V = Value;

    open spec fn view(&self) -> Value {
        match self {
            Object::Untyped => Value::Untyped,
            Object::Boolean(val) => Value::Boolean(*val),
            Object::Integer(val) => Value::Integer(*val),
            Object::Long(val) => Value::Long(*val),
            Object::Double(bits) => Value::Double(*bits),
            Object::String(val) => Value::String(val@),
            Object::ByteArray(val) => Value::ByteArray(val@),
        }
    }
}

impl Object {
    /// An untyped value.
    pub fn new(env: &TclEnvironment) -> (object: Object)
        ensures
            object@ == Value::Untyped,
    {
        Object::Untyped
    }

    /// A boolean value.
    pub fn new_boolean(env: &TclEnvironment, val: bool) -> (object: Object)
        ensures
            object@ == Value::Boolean(val),
    {
        Object::Boolean(val)
    }

    /// An integer value.
    pub fn new_integer(env: &TclEnvironment, val: i32) -> (object: Object)
        ensures
            object@ == Value::Integer(val),
    {
        Object::Integer(val)
    }

    /// A long integer value.
    pub fn new_long(env: &TclEnvironment, val: i64) -> (object: Object)
        ensures
            object@ == Value::Long(val),
    {
        Object::Long(val)
    }

    /// A double-precision value, given by its IEEE 754 bit pattern.
    pub fn new_double(env: &TclEnvironment, bits: u64) -> (object: Object)
        ensures
            object@ == Value::Double(bits),
    {
        Object::Double(bits)
    }

    /// A string value holding a copy of `val`.
    pub fn new_string(env: &TclEnvironment, val: &str) -> (object: Object)
        ensures
            object@ == Value::String(val@),
    {
        Object::String(String::from_str(val))
    }

    /// A byte array value holding a copy of `val`.
    pub fn new_byte_array(env: &TclEnvironment, val: &[u8]) -> (object: Object)
        ensures
            object@ == Value::ByteArray(val@),
    {
        Object::ByteArray(slice_to_vec(val))
    }
}

} // verus!
