//! Small native helpers exported alongside every library: the string
//! utilities of the extended helper types, and the scalar tags of the
//! native calling convention.
use vstd::prelude::*;

verus! {

/// The string utilities behind the script side's owned string wrapper.
pub struct RustString;

impl RustString {
    /// A new empty string.
    pub fn new() -> (r: String)
        ensures
            r@.len() == 0,
    {
        String::new()
    }

    /// Releases the string.
    pub fn drop(string: String) {
    }
}

/// The adder that the benchmarks export.
pub fn add(left: u64, right: u64) -> (r: u64)
    requires
        left + right <= u64::MAX,
    ensures
        r == left + right,
{
    left + right
}

/// A scalar type of the native calling convention.
#[derive(Debug, PartialEq, Eq)]
pub enum Native {
    Void,
    Bool,
    U8,
    I8,
    U16,
    I16,
    U32,
    I32,
    U64,
    I64,
    USize,
    ISize,
    F32,
    F64,
    /// A thin pointer.
    Pointer,
    /// A pointer to a slice.
    Buffer(Box<Native>),
    /// A function pointer.
    Function,
}

impl Native {
    /// Whether the tag is a plain number (or `void` or a boolean), as opposed
    /// to a pointer.
    pub fn is_numeric(&self) -> (r: bool)
        ensures
            r == !(self is Pointer || self is Buffer || self is Function),
    {
        match self {
            Native::Pointer | Native::Buffer(_) | Native::Function => false,
            _ => true,
        }
    }
}

} // verus!
