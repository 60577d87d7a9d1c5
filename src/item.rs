//! The parsed items: functions, associated blocks, structs and modules.
use vstd::prelude::*;
use crate::attr::Attribute;
use crate::ty::{Type, TypeModel, models};

verus! {

/// How an associated function relates to its enclosing type, read from the
/// shape of its receiver.
#[derive(Clone, Copy, Debug, PartialEq, Eq, Structural)]
pub enum Association {
    /// No receiver.
    Static,
    /// `&self`
    Instance,
    /// `&mut self`
    InstanceMut,
    /// `self`, which the function consumes.
    Destructor,
    /// No receiver, marked as the constructor and returning the enclosing type.
    Constructor,
}

/// The marshalling of a shim: the names of its C-ABI arguments, the
/// statements that turn them into native values before the call, and the
/// statement that turns the result into a C-ABI value after it.
#[derive(Clone, Debug, PartialEq, Eq)]
pub struct Block {
    pub args: Vec<String>,
    pub in_stmts: Vec<String>,
    pub out_stmt: Option<String>,
    /// The enclosing type of an associated function.
    pub self_ty: Option<String>,
}

impl Block {
    pub fn new() -> (r: Self)
        ensures
            r.args@.len() == 0,
            r.in_stmts@.len() == 0,
            r.out_stmt is None,
            r.self_ty is None,
    {
        Block { args: Vec::new(), in_stmts: Vec::new(), out_stmt: None, self_ty: None }
    }
}

/// An exported function or associated function.
#[derive(Debug, PartialEq, Eq)]
pub struct ItemFn {
    pub attr: Attribute,
    /// The visibility as written, empty when private.
    pub vis: String,
    pub const_: bool,
    pub unsafe_: bool,
    pub ident: String,
    /// The parameter types, the receiver first if there is one.
    pub inputs: Vec<Type>,
    pub output: Type,
    /// `None` for a free function.
    pub assoc: Option<Association>,
    pub block: Block,
}

impl ItemFn {
    /// The models of the parameter types.
    pub open spec fn input_models(&self) -> Seq<TypeModel> {
        models(self.inputs, self.inputs.len() as nat)
    }
}

/// An associated block `impl Type { ... }`.
#[derive(Debug, PartialEq, Eq)]
pub struct ItemImpl {
    pub attr: Attribute,
    pub unsafe_: bool,
    pub self_ty: String,
    pub items: Vec<ItemFn>,
}

/// A struct declaration; its fields are not read.
#[derive(Clone, Debug, PartialEq, Eq)]
pub struct ItemStruct {
    pub attr: Attribute,
    pub ident: String,
}

/// A module and the supported items in it.
#[derive(Debug, PartialEq, Eq)]
pub struct ItemMod {
    pub attr: Attribute,
    pub ident: String,
    pub items: Vec<Item>,
}

#[derive(Debug, PartialEq, Eq)]
pub enum Item {
    Fn(ItemFn),
    Impl(ItemImpl),
    Mod(ItemMod),
    Struct(ItemStruct),
}

/// A source file: its inner attributes and its items.
#[derive(Debug, PartialEq, Eq)]
pub struct File {
    pub attr: Attribute,
    pub items: Vec<Item>,
}

/// The views of a vector of strings.
pub open spec fn strs(v: Vec<String>) -> Seq<Seq<char>> {
    v@.map_values(|s: String| s@)
}

pub open spec fn opt_str(o: Option<String>) -> Option<Seq<char>> {
    match o {
        Some(s) => Some(s@),
        None => None,
    }
}

} // verus!
