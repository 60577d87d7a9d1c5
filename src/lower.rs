//! Lowering of native types: each type becomes a C-ABI tag and a script-side
//! wrapper type, and the traversal records which runtime helper types and
//! which user-defined types the module will need.
use vstd::prelude::*;
use crate::ffi::FfiType;
use crate::ty::{Type, TypeModel, TypeNumeric, models, lemma_models, str_eq};

verus! {

broadcast use vstd::std_specs::vec::group_vec_axioms;

/// Numeric wrapper types of the script runtime.
#[derive(Clone, Copy, Debug, PartialEq, Eq, Structural)]
pub enum RustTypeNumeric {
    U8,
    U16,
    U32,
    I8,
    I16,
    I32,
    F32,
    F64,
    U64,
    I64,
    Usize,
    Isize,
}

/// The script-side representation of a lowered native type.
#[derive(Debug, PartialEq, Eq)]
pub enum RustType {
    Void,
    Numeric(RustTypeNumeric),
    Boolean,
    Char,
    FnPtr(String),
    Ptr(Box<RustType>),
    PtrMut(Box<RustType>),
    Ref(Box<RustType>),
    RefMut(Box<RustType>),
    Box(Box<RustType>),
    Str,
    String,
    Slice(Box<RustType>),
    Vec(Box<RustType>),
    Tuple(Vec<RustType>),
    UserDefined(String),
    Unsupported,
}

/// The mathematical value of a [`RustType`].
pub enum RustTypeModel {
    Void,
    Numeric(RustTypeNumeric),
    Boolean,
    Char,
    FnPtr(Seq<char>),
    Ptr(Box<RustTypeModel>),
    PtrMut(Box<RustTypeModel>),
    Ref(Box<RustTypeModel>),
    RefMut(Box<RustTypeModel>),
    Box(Box<RustTypeModel>),
    Str,
    String,
    Slice(Box<RustTypeModel>),
    Vec(Box<RustTypeModel>),
    Tuple(Seq<RustTypeModel>),
    UserDefined(Seq<char>),
    Unsupported,
}

impl RustType {
    pub open spec fn model(self) -> RustTypeModel
        decreases self, 0nat,
    {
        match self {
            RustType::Void => RustTypeModel::Void,
            RustType::Numeric(k) => RustTypeModel::Numeric(k),
            RustType::Boolean => RustTypeModel::Boolean,
            RustType::Char => RustTypeModel::Char,
            RustType::FnPtr(s) => RustTypeModel::FnPtr(s@),
            RustType::Ptr(e) => RustTypeModel::Ptr(Box::new((*e).model())),
            RustType::PtrMut(e) => RustTypeModel::PtrMut(Box::new((*e).model())),
            RustType::Ref(e) => RustTypeModel::Ref(Box::new((*e).model())),
            RustType::RefMut(e) => RustTypeModel::RefMut(Box::new((*e).model())),
            RustType::Box(e) => RustTypeModel::Box(Box::new((*e).model())),
            RustType::Str => RustTypeModel::Str,
            RustType::String => RustTypeModel::String,
            RustType::Slice(e) => RustTypeModel::Slice(Box::new((*e).model())),
            RustType::Vec(e) => RustTypeModel::Vec(Box::new((*e).model())),
            RustType::Tuple(v) => RustTypeModel::Tuple(rust_models(v, v.len() as nat)),
            RustType::UserDefined(s) => RustTypeModel::UserDefined(s@),
            RustType::Unsupported => RustTypeModel::Unsupported,
        }
    }
}

/// The models of the first `n` entries of `v`.
pub open spec fn rust_models(v: Vec<RustType>, n: nat) -> Seq<RustTypeModel>
    decreases v, n,
{
    if n == 0 || n > v.len() {
        Seq::empty()
    } else {
        rust_models(v, (n - 1) as nat).push(v[n - 1].model())
    }
}

pub proof fn lemma_rust_models(v: Vec<RustType>, n: nat)
    requires
        n <= v.len(),
    ensures
        rust_models(v, n).len() == n,
        forall|i: int| 0 <= i < n ==> #[trigger] rust_models(v, n)[i] == v[i].model(),
    decreases n,
{
    if n > 0 {
        lemma_rust_models(v, (n - 1) as nat);
    }
}

/// The runtime helper types that a generated module may need.
#[derive(Clone, Copy, Debug, PartialEq, Eq, Structural)]
pub enum RustTypeList {
    U8,
    U16,
    U32,
    I8,
    I16,
    I32,
    F32,
    F64,
    U64,
    Usize,
    I64,
    Isize,
    Char,
    FnPtr,
    Ptr,
    PtrMut,
    Ref,
    RefMut,
    Box,
    Str,
    String,
    Slice,
    Vec,
    Tuple,
    Unsupported,
}

/* ------------------------------------------------------------------------ */

pub open spec fn ffi_numeric(k: TypeNumeric) -> FfiType {
    match k {
        TypeNumeric::U8 => FfiType::U8,
        TypeNumeric::U16 => FfiType::U16,
        TypeNumeric::U32 => FfiType::U32,
        TypeNumeric::U64 => FfiType::U64,
        TypeNumeric::Usize => FfiType::Usize,
        TypeNumeric::I8 => FfiType::I8,
        TypeNumeric::I16 => FfiType::I16,
        TypeNumeric::I32 => FfiType::I32,
        TypeNumeric::I64 => FfiType::I64,
        TypeNumeric::Isize => FfiType::Isize,
        TypeNumeric::F32 => FfiType::F32,
        TypeNumeric::F64 => FfiType::F64,
    }
}

pub open spec fn rust_numeric(k: TypeNumeric) -> RustTypeNumeric {
    match k {
        TypeNumeric::U8 => RustTypeNumeric::U8,
        TypeNumeric::U16 => RustTypeNumeric::U16,
        TypeNumeric::U32 => RustTypeNumeric::U32,
        TypeNumeric::U64 => RustTypeNumeric::U64,
        TypeNumeric::Usize => RustTypeNumeric::Usize,
        TypeNumeric::I8 => RustTypeNumeric::I8,
        TypeNumeric::I16 => RustTypeNumeric::I16,
        TypeNumeric::I32 => RustTypeNumeric::I32,
        TypeNumeric::I64 => RustTypeNumeric::I64,
        TypeNumeric::Isize => RustTypeNumeric::Isize,
        TypeNumeric::F32 => RustTypeNumeric::F32,
        TypeNumeric::F64 => RustTypeNumeric::F64,
    }
}

pub open spec fn numeric_tag(k: TypeNumeric) -> RustTypeList {
    match k {
        TypeNumeric::U8 => RustTypeList::U8,
        TypeNumeric::U16 => RustTypeList::U16,
        TypeNumeric::U32 => RustTypeList::U32,
        TypeNumeric::U64 => RustTypeList::U64,
        TypeNumeric::Usize => RustTypeList::Usize,
        TypeNumeric::I8 => RustTypeList::I8,
        TypeNumeric::I16 => RustTypeList::I16,
        TypeNumeric::I32 => RustTypeList::I32,
        TypeNumeric::I64 => RustTypeList::I64,
        TypeNumeric::Isize => RustTypeList::Isize,
        TypeNumeric::F32 => RustTypeList::F32,
        TypeNumeric::F64 => RustTypeList::F64,
    }
}

/// The C-ABI tag of a type: scalars keep their width, a `char` travels as
/// its 32-bit scalar value, and everything else is an opaque pointer.
pub open spec fn ffi_of(t: TypeModel) -> FfiType {
    match t {
        TypeModel::Void => FfiType::Void,
        TypeModel::Numeric(k) => ffi_numeric(k),
        TypeModel::Bool => FfiType::Bool,
        TypeModel::Char => FfiType::U32,
        TypeModel::FnPtr(_) => FfiType::FnPointer,
        _ => FfiType::Pointer,
    }
}

/// The script-side type of a native type. One level of indirection over a
/// `str` or a slice collapses into that string or slice wrapper.
pub open spec fn lower(t: TypeModel) -> RustTypeModel
    decreases t, 0nat,
{
    match t {
        TypeModel::Void => RustTypeModel::Void,
        TypeModel::Numeric(k) => RustTypeModel::Numeric(rust_numeric(k)),
        TypeModel::Bool => RustTypeModel::Boolean,
        TypeModel::Char => RustTypeModel::Char,
        TypeModel::FnPtr(s) => RustTypeModel::FnPtr(s),
        TypeModel::Ptr(e) => indirect_lower(*e, RustTypeList::Ptr),
        TypeModel::PtrMut(e) => indirect_lower(*e, RustTypeList::PtrMut),
        TypeModel::Ref(e) => indirect_lower(*e, RustTypeList::Ref),
        TypeModel::RefMut(e) => indirect_lower(*e, RustTypeList::RefMut),
        TypeModel::Box(e) => indirect_lower(*e, RustTypeList::Box),
        TypeModel::Str => RustTypeModel::Str,
        TypeModel::String => RustTypeModel::String,
        TypeModel::Slice(e) => RustTypeModel::Slice(Box::new(lower(*e))),
        TypeModel::Array(_, _) => RustTypeModel::Unsupported,
        TypeModel::Vec(e) => RustTypeModel::Vec(Box::new(lower(*e))),
        TypeModel::UserDefined(n) => RustTypeModel::UserDefined(n),
        TypeModel::Tuple(s) => RustTypeModel::Tuple(lower_list(s)),
        TypeModel::Unsupported(_) => RustTypeModel::Unsupported,
    }
}

/// The wrapper that one level of indirection tagged `tag` puts around `r`.
pub open spec fn wrap_model(tag: RustTypeList, r: RustTypeModel) -> RustTypeModel {
    match tag {
        RustTypeList::Ptr => RustTypeModel::Ptr(Box::new(r)),
        RustTypeList::PtrMut => RustTypeModel::PtrMut(Box::new(r)),
        RustTypeList::Ref => RustTypeModel::Ref(Box::new(r)),
        RustTypeList::RefMut => RustTypeModel::RefMut(Box::new(r)),
        _ => RustTypeModel::Box(Box::new(r)),
    }
}

/// The script-side type behind one level of indirection tagged `tag`.
pub open spec fn indirect_lower(e: TypeModel, tag: RustTypeList) -> RustTypeModel
    decreases e, 1nat,
{
    match e {
        TypeModel::Str => RustTypeModel::Str,
        TypeModel::Slice(x) => RustTypeModel::Slice(Box::new(lower(*x))),
        _ => wrap_model(tag, lower(e)),
    }
}

pub open spec fn lower_list(s: Seq<TypeModel>) -> Seq<RustTypeModel>
    decreases s,
{
    if s.len() == 0 {
        Seq::empty()
    } else {
        lower_list(s.drop_last()).push(lower(s.last()))
    }
}

/// The helper types recorded behind one level of indirection, which is
/// tagged `tag` unless it points at a `str` or a slice.
pub open spec fn indirect_helpers(e: TypeModel, tag: RustTypeList) -> Set<RustTypeList>
    decreases e, 1nat,
{
    match e {
        TypeModel::Str => set![RustTypeList::Str],
        TypeModel::Slice(x) => set![RustTypeList::Slice] + helpers(*x),
        _ => set![tag] + helpers(e),
    }
}

/// The runtime helper types that lowering `t` records.
pub open spec fn helpers(t: TypeModel) -> Set<RustTypeList>
    decreases t, 0nat,
{
    match t {
        TypeModel::Void => Set::empty(),
        TypeModel::Numeric(k) => set![numeric_tag(k)],
        TypeModel::Bool => Set::empty(),
        TypeModel::Char => set![RustTypeList::Char],
        TypeModel::FnPtr(_) => set![RustTypeList::FnPtr],
        TypeModel::Ptr(e) => indirect_helpers(*e, RustTypeList::Ptr),
        TypeModel::PtrMut(e) => indirect_helpers(*e, RustTypeList::PtrMut),
        TypeModel::Ref(e) => indirect_helpers(*e, RustTypeList::Ref),
        TypeModel::RefMut(e) => indirect_helpers(*e, RustTypeList::RefMut),
        TypeModel::Box(e) => indirect_helpers(*e, RustTypeList::Box),
        TypeModel::Str => set![RustTypeList::Str],
        TypeModel::String => set![RustTypeList::String],
        TypeModel::Slice(e) => set![RustTypeList::Slice] + helpers(*e),
        TypeModel::Array(_, _) => set![RustTypeList::Unsupported],
        TypeModel::Vec(e) => set![RustTypeList::Vec] + helpers(*e),
        TypeModel::UserDefined(_) => Set::empty(),
        TypeModel::Tuple(s) => set![RustTypeList::Tuple] + helpers_list(s),
        TypeModel::Unsupported(_) => set![RustTypeList::Unsupported],
    }
}

pub open spec fn helpers_list(s: Seq<TypeModel>) -> Set<RustTypeList>
    decreases s,
{
    if s.len() == 0 {
        Set::empty()
    } else {
        helpers_list(s.drop_last()) + helpers(s.last())
    }
}

/// The names of the user-defined types that lowering `t` records. The
/// element of an array is not looked into: the array is opaque.
pub open spec fn user_types(t: TypeModel) -> Set<Seq<char>>
    decreases t, 0nat,
{
    match t {
        TypeModel::Ptr(e) => user_types(*e),
        TypeModel::PtrMut(e) => user_types(*e),
        TypeModel::Ref(e) => user_types(*e),
        TypeModel::RefMut(e) => user_types(*e),
        TypeModel::Box(e) => user_types(*e),
        TypeModel::Slice(e) => user_types(*e),
        TypeModel::Vec(e) => user_types(*e),
        TypeModel::UserDefined(n) => set![n],
        TypeModel::Tuple(s) => user_types_list(s),
        _ => Set::empty(),
    }
}

pub open spec fn user_types_list(s: Seq<TypeModel>) -> Set<Seq<char>>
    decreases s,
{
    if s.len() == 0 {
        Set::empty()
    } else {
        user_types_list(s.drop_last()) + user_types(s.last())
    }
}

/* ------------------------------------------------------------------------ */

/// The runtime helper types referenced by a module.
#[derive(Debug)]
pub struct RustTypeDefs {
    pub store: Vec<RustTypeList>,
    /// Whether the extended helper types, which carry methods that call into
    /// the native library, are used.
    pub extended: bool,
}

impl RustTypeDefs {
    pub open spec fn wf(&self) -> bool {
        self.store@.no_duplicates()
    }

    /// The helper types recorded so far.
    pub open spec fn tags(&self) -> Set<RustTypeList> {
        Set::new(|t: RustTypeList| self.store@.contains(t))
    }

    pub fn new() -> (r: Self)
        ensures
            r.wf(),
            r.tags() == Set::<RustTypeList>::empty(),
            !r.extended,
    {
        let r = RustTypeDefs { store: Vec::new(), extended: false };
        assert(r.tags() =~= Set::<RustTypeList>::empty());
        r
    }

    pub fn contains(&self, ty: RustTypeList) -> (r: bool)
        ensures
            r == self.tags().contains(ty),
    {
        let mut i: usize = 0;
        while i < self.store.len()
            invariant
                i <= self.store.len(),
                forall|j: int| 0 <= j < i ==> self.store@[j] != ty,
            decreases self.store.len() - i,
        {
            if self.store[i] == ty {
                return true;
            }
            i = i + 1;
        }
        false
    }

    /// Records a helper type.
    pub fn insert(&mut self, ty: RustTypeList)
        requires
            old(self).wf(),
        ensures
            final(self).wf(),
            final(self).tags() == old(self).tags().insert(ty),
            final(self).extended == old(self).extended,
    {
        if !self.contains(ty) {
            self.store.push(ty);
            proof {
                assert forall|t: RustTypeList|
                    self.store@.contains(t) <==> (old(self).store@.contains(t) || t == ty) by {
                    if old(self).store@.contains(t) {
                        let k = choose|k: int| 0 <= k < old(self).store@.len() && old(self).store@[k] == t;
                        assert(self.store@[k] == t);
                    }
                    if t == ty {
                        assert(self.store@[self.store@.len() - 1] == ty);
                    }
                    if self.store@.contains(t) && t != ty {
                        let k = choose|k: int| 0 <= k < self.store@.len() && self.store@[k] == t;
                        assert(old(self).store@[k] == t);
                    }
                }
            }
        }
        assert(self.tags() =~= old(self).tags().insert(ty));
    }
}

impl Default for RustTypeDefs {
    fn default() -> (r: Self)
        ensures
            r.wf(),
            r.tags() == Set::<RustTypeList>::empty(),
            !r.extended,
    {
        RustTypeDefs::new()
    }
}

/// The user-defined types referenced by a module.
#[derive(Debug)]
pub struct UserDefinedDefs {
    pub store: Vec<String>,
}

impl UserDefinedDefs {
    pub open spec fn wf(&self) -> bool {
        forall|i: int, j: int|
            0 <= i < j < self.store.len() ==> self.store[i]@ != self.store[j]@
    }

    /// The names recorded so far.
    pub open spec fn names(&self) -> Set<Seq<char>> {
        Set::new(|n: Seq<char>| exists|i: int| 0 <= i < self.store.len() && self.store[i]@ == n)
    }

    pub fn new() -> (r: Self)
        ensures
            r.wf(),
            r.names() == Set::<Seq<char>>::empty(),
    {
        let r = UserDefinedDefs { store: Vec::new() };
        assert(r.names() =~= Set::<Seq<char>>::empty());
        r
    }

    pub fn contains(&self, name: &str) -> (r: bool)
        ensures
            r == self.names().contains(name@),
    {
        let mut i: usize = 0;
        while i < self.store.len()
            invariant
                i <= self.store.len(),
                forall|j: int| 0 <= j < i ==> self.store[j]@ != name@,
            decreases self.store.len() - i,
        {
            if str_eq(self.store[i].as_str(), name) {
                return true;
            }
            i = i + 1;
        }
        false
    }

    /// Records a user-defined type.
    pub fn insert(&mut self, name: String)
        requires
            old(self).wf(),
        ensures
            final(self).wf(),
            final(self).names() == old(self).names().insert(name@),
    {
        let ghost n = name@;
        if !self.contains(name.as_str()) {
            self.store.push(name);
            proof {
                assert forall|m: Seq<char>|
                    self.names().contains(m) <==> (old(self).names().contains(m) || m == n) by {
                    if old(self).names().contains(m) {
                        let k = choose|k: int| 0 <= k < old(self).store.len() && old(self).store[k]@ == m;
                        assert(self.store[k]@ == m);
                    }
                    if m == n {
                        assert(self.store[self.store.len() - 1]@ == n);
                    }
                    if self.names().contains(m) && m != n {
                        let k = choose|k: int| 0 <= k < self.store.len() && self.store[k]@ == m;
                        assert(old(self).store[k]@ == m);
                    }
                }
            }
        }
        assert(self.names() =~= old(self).names().insert(n));
    }

    /// The recorded names, in the order they were first seen.
    pub fn list(&self) -> (r: &Vec<String>)
        ensures
            r.len() == self.store.len(),
            forall|n: Seq<char>| self.names().contains(n) <==> exists|i: int| 0 <= i < r.len() && r[i]@ == n,
    {
        &self.store
    }
}

impl Default for UserDefinedDefs {
    fn default() -> (r: Self)
        ensures
            r.wf(),
            r.names() == Set::<Seq<char>>::empty(),
    {
        UserDefinedDefs::new()
    }
}

/* ------------------------------------------------------------------------ */

impl Type {
    /// The C-ABI tag of this type.
    pub fn ffi_type(&self) -> (r: FfiType)
        ensures
            r == ffi_of(self.model()),
    {
        match self {
            Type::Void => FfiType::Void,
            Type::Numeric(k) => match k {
                TypeNumeric::U8 => FfiType::U8,
                TypeNumeric::U16 => FfiType::U16,
                TypeNumeric::U32 => FfiType::U32,
                TypeNumeric::U64 => FfiType::U64,
                TypeNumeric::Usize => FfiType::Usize,
                TypeNumeric::I8 => FfiType::I8,
                TypeNumeric::I16 => FfiType::I16,
                TypeNumeric::I32 => FfiType::I32,
                TypeNumeric::I64 => FfiType::I64,
                TypeNumeric::Isize => FfiType::Isize,
                TypeNumeric::F32 => FfiType::F32,
                TypeNumeric::F64 => FfiType::F64,
            },
            Type::Bool => FfiType::Bool,
            Type::Char => FfiType::U32,
            Type::FnPtr(_) => FfiType::FnPointer,
            _ => FfiType::Pointer,
        }
    }

    /// Lowers this type: its C-ABI tag, its script-side type, and the helper
    /// and user-defined types it references, added to the two registries.
    pub fn lower_into(&self, type_defs: &mut RustTypeDefs, user_defs: &mut UserDefinedDefs) -> (r: (
        FfiType,
        RustType,
    ))
        requires
            old(type_defs).wf(),
            old(user_defs).wf(),
        ensures
            r.0 == ffi_of(self.model()),
            r.1.model() == lower(self.model()),
            final(type_defs).wf(),
            final(type_defs).tags() == old(type_defs).tags() + helpers(self.model()),
            final(type_defs).extended == old(type_defs).extended,
            final(user_defs).wf(),
            final(user_defs).names() == old(user_defs).names() + user_types(self.model()),
    {
        let f = self.ffi_type();
        let r = self.lower_rust(type_defs, user_defs);
        (f, r)
    }

    fn lower_rust(&self, type_defs: &mut RustTypeDefs, user_defs: &mut UserDefinedDefs) -> (r: RustType)
        requires
            old(type_defs).wf(),
            old(user_defs).wf(),
        ensures
            r.model() == lower(self.model()),
            final(type_defs).wf(),
            final(type_defs).tags() == old(type_defs).tags() + helpers(self.model()),
            final(type_defs).extended == old(type_defs).extended,
            final(user_defs).wf(),
            final(user_defs).names() == old(user_defs).names() + user_types(self.model()),
        decreases self, 0nat,
    {
        let ghost t = self.model();
        let r = match self {
            Type::Void => RustType::Void,
            Type::Numeric(k) => {
                let (tag, n) = match k {
                    TypeNumeric::U8 => (RustTypeList::U8, RustTypeNumeric::U8),
                    TypeNumeric::U16 => (RustTypeList::U16, RustTypeNumeric::U16),
                    TypeNumeric::U32 => (RustTypeList::U32, RustTypeNumeric::U32),
                    TypeNumeric::U64 => (RustTypeList::U64, RustTypeNumeric::U64),
                    TypeNumeric::Usize => (RustTypeList::Usize, RustTypeNumeric::Usize),
                    TypeNumeric::I8 => (RustTypeList::I8, RustTypeNumeric::I8),
                    TypeNumeric::I16 => (RustTypeList::I16, RustTypeNumeric::I16),
                    TypeNumeric::I32 => (RustTypeList::I32, RustTypeNumeric::I32),
                    TypeNumeric::I64 => (RustTypeList::I64, RustTypeNumeric::I64),
                    TypeNumeric::Isize => (RustTypeList::Isize, RustTypeNumeric::Isize),
                    TypeNumeric::F32 => (RustTypeList::F32, RustTypeNumeric::F32),
                    TypeNumeric::F64 => (RustTypeList::F64, RustTypeNumeric::F64),
                };
                type_defs.insert(tag);
                RustType::Numeric(n)
            },
            Type::Bool => RustType::Boolean,
            Type::Char => {
                type_defs.insert(RustTypeList::Char);
                RustType::Char
            },
            Type::FnPtr(sig) => {
                type_defs.insert(RustTypeList::FnPtr);
                RustType::FnPtr(sig.clone())
            },
            Type::Ptr(e) => lower_indirect(e, RustTypeList::Ptr, type_defs, user_defs),
            Type::PtrMut(e) => lower_indirect(e, RustTypeList::PtrMut, type_defs, user_defs),
            Type::Ref(e) => lower_indirect(e, RustTypeList::Ref, type_defs, user_defs),
            Type::RefMut(e) => lower_indirect(e, RustTypeList::RefMut, type_defs, user_defs),
            Type::Box(e) => lower_indirect(e, RustTypeList::Box, type_defs, user_defs),
            Type::Str => {
                type_defs.insert(RustTypeList::Str);
                RustType::Str
            },
            Type::String => {
                type_defs.insert(RustTypeList::String);
                RustType::String
            },
            Type::Slice(e) => {
                type_defs.insert(RustTypeList::Slice);
                let inner = e.lower_rust(type_defs, user_defs);
                RustType::Slice(Box::new(inner))
            },
            Type::Array(_) => {
                type_defs.insert(RustTypeList::Unsupported);
                RustType::Unsupported
            },
            Type::Vec(e) => {
                type_defs.insert(RustTypeList::Vec);
                let inner = e.lower_rust(type_defs, user_defs);
                RustType::Vec(Box::new(inner))
            },
            Type::UserDefined(name) => {
                user_defs.insert(name.clone());
                RustType::UserDefined(name.clone())
            },
            Type::Tuple(v) => {
                type_defs.insert(RustTypeList::Tuple);
                let ghost td0 = type_defs.tags();
                let ghost ud0 = user_defs.names();
                let mut out: Vec<RustType> = Vec::new();
                let mut i: usize = 0;
                while i < v.len()
                    invariant
                        *self is Tuple,
                        (*self)->Tuple_0 == *v,
                        i <= v.len(),
                        out.len() == i,
                        rust_models(out, i as nat) == lower_list(models(*v, i as nat)),
                        type_defs.wf(),
                        user_defs.wf(),
                        type_defs.tags() == td0 + helpers_list(models(*v, i as nat)),
                        type_defs.extended == old(type_defs).extended,
                        user_defs.names() == ud0 + user_types_list(models(*v, i as nat)),
                    decreases v.len() - i,
                {
                    proof {
                        vstd::std_specs::vec::axiom_vec_index_decreases(*v, i as int);
                        assert(decreases_to!(*self => (*self)->Tuple_0));
                        assert(decreases_to!(*self => v[i as int]));
                        lemma_models(*v, (i + 1) as nat);
                        assert(models(*v, (i + 1) as nat).drop_last() =~= models(*v, i as nat));
                    }
                    let ghost out0 = out;
                    let e = v[i].lower_rust(type_defs, user_defs);
                    out.push(e);
                    proof {
                        lemma_rust_models(out0, i as nat);
                        lemma_rust_models(out, (i + 1) as nat);
                        lemma_rust_models(out, i as nat);
                        assert(forall|j: int| 0 <= j < i ==> out[j] == out0[j]);
                        assert(rust_models(out, i as nat) =~= rust_models(out0, i as nat));
                        assert(type_defs.tags() =~= td0 + helpers_list(models(*v, (i + 1) as nat)));
                        assert(user_defs.names() =~= ud0 + user_types_list(models(*v, (i + 1) as nat)));
                    }
                    i = i + 1;
                }
                RustType::Tuple(out)
            },
            Type::Unsupported(_) => {
                type_defs.insert(RustTypeList::Unsupported);
                RustType::Unsupported
            },
        };
        proof {
            assert(type_defs.tags() =~= old(type_defs).tags() + helpers(t));
            assert(user_defs.names() =~= old(user_defs).names() + user_types(t));
        }
        r
    }
}

/// Lowers the target `e` of one level of indirection tagged `tag`.
fn lower_indirect(
    e: &Type,
    tag: RustTypeList,
    type_defs: &mut RustTypeDefs,
    user_defs: &mut UserDefinedDefs,
) -> (r: RustType)
    requires
        old(type_defs).wf(),
        old(user_defs).wf(),
        tag == RustTypeList::Ptr || tag == RustTypeList::PtrMut || tag == RustTypeList::Ref
            || tag == RustTypeList::RefMut || tag == RustTypeList::Box,
    ensures
        r.model() == indirect_lower(e.model(), tag),
        final(type_defs).wf(),
        final(type_defs).tags() == old(type_defs).tags() + indirect_helpers(e.model(), tag),
        final(type_defs).extended == old(type_defs).extended,
        final(user_defs).wf(),
        final(user_defs).names() == old(user_defs).names() + user_types(e.model()),
    decreases e, 1nat,
{
    let r = match e {
        Type::Str => {
            type_defs.insert(RustTypeList::Str);
            RustType::Str
        },
        Type::Slice(x) => {
            type_defs.insert(RustTypeList::Slice);
            let inner = x.lower_rust(type_defs, user_defs);
            RustType::Slice(Box::new(inner))
        },
        _ => {
            type_defs.insert(tag);
            let inner = Box::new(e.lower_rust(type_defs, user_defs));
            match tag {
                RustTypeList::Ptr => RustType::Ptr(inner),
                RustTypeList::PtrMut => RustType::PtrMut(inner),
                RustTypeList::Ref => RustType::Ref(inner),
                RustTypeList::RefMut => RustType::RefMut(inner),
                _ => RustType::Box(inner),
            }
        },
    };
    proof {
        assert(type_defs.tags() =~= old(type_defs).tags() + indirect_helpers(e.model(), tag));
        assert(user_defs.names() =~= old(user_defs).names() + user_types(e.model()));
    }
    r
}

} // verus!
