//! Binding generator core: a typed model of native signatures, the lowering
//! of those types to C-ABI tags and script-side wrapper types, and the
//! emitters for the native shims and the script module.
use vstd::prelude::*;

pub mod attr;
pub mod cli;
pub mod error;
pub mod ffi;
pub mod format;
pub mod generate;
pub mod item;
pub mod laws;
pub mod lex;
pub mod lower;
pub mod module;
pub mod parse;
pub mod print;
pub mod runtime;
pub mod shim;
pub mod template;
pub mod ty;

verus! {

} // verus!
