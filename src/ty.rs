//! The native type model: what a parameter or a return type of an exported
//! function can be, and how such a type is written back in a shim.
use vstd::prelude::*;

verus! {

broadcast use vstd::std_specs::vec::group_vec_axioms;

/// The numeric primitives.
#[derive(Clone, Copy, Debug, PartialEq, Eq, Structural)]
pub enum TypeNumeric {
    U8,
    U16,
    U32,
    U64,
    Usize,
    I8,
    I16,
    I32,
    I64,
    Isize,
    F32,
    F64,
}

/// A fixed size array `[T; n]`.
#[derive(Debug, PartialEq, Eq)]
pub struct TypeArray {
    pub elem: Box<Type>,
    pub len: usize,
}

/// A native type as it appears in an exported signature.
#[derive(Debug, PartialEq, Eq)]
pub enum Type {
    /// The unit type `()`.
    Void,
    Numeric(TypeNumeric),
    Bool,
    Char,
    /// A bare function pointer, kept as its source text.
    FnPtr(String),
    /// `*const T`
    Ptr(Box<Type>),
    /// `*mut T`
    PtrMut(Box<Type>),
    /// `&T`
    Ref(Box<Type>),
    /// `&mut T`
    RefMut(Box<Type>),
    Box(Box<Type>),
    Str,
    String,
    Slice(Box<Type>),
    Array(TypeArray),
    Vec(Box<Type>),
    /// A type of the user's crate, named by a bare identifier.
    UserDefined(String),
    Tuple(Vec<Type>),
    /// Any other type, kept as its source text and passed as an opaque pointer.
    Unsupported(String),
}

/// The mathematical value of a [`Type`].
pub enum TypeModel {
    Void,
    Numeric(TypeNumeric),
    Bool,
    Char,
    FnPtr(Seq<char>),
    Ptr(Box<TypeModel>),
    PtrMut(Box<TypeModel>),
    Ref(Box<TypeModel>),
    RefMut(Box<TypeModel>),
    Box(Box<TypeModel>),
    Str,
    String,
    Slice(Box<TypeModel>),
    Array(Box<TypeModel>, nat),
    Vec(Box<TypeModel>),
    UserDefined(Seq<char>),
    Tuple(Seq<TypeModel>),
    Unsupported(Seq<char>),
}

impl Type {
    pub open spec fn model(self) -> TypeModel
        decreases self, 0nat,
    {
        match self {
            Type::Void => TypeModel::Void,
            Type::Numeric(k) => TypeModel::Numeric(k),
            Type::Bool => TypeModel::Bool,
            Type::Char => TypeModel::Char,
            Type::FnPtr(s) => TypeModel::FnPtr(s@),
            Type::Ptr(e) => TypeModel::Ptr(Box::new((*e).model())),
            Type::PtrMut(e) => TypeModel::PtrMut(Box::new((*e).model())),
            Type::Ref(e) => TypeModel::Ref(Box::new((*e).model())),
            Type::RefMut(e) => TypeModel::RefMut(Box::new((*e).model())),
            Type::Box(e) => TypeModel::Box(Box::new((*e).model())),
            Type::Str => TypeModel::Str,
            Type::String => TypeModel::String,
            Type::Slice(e) => TypeModel::Slice(Box::new((*e).model())),
            Type::Array(a) => TypeModel::Array(Box::new((*a.elem).model()), a.len as nat),
            Type::Vec(e) => TypeModel::Vec(Box::new((*e).model())),
            Type::UserDefined(s) => TypeModel::UserDefined(s@),
            Type::Tuple(v) => TypeModel::Tuple(models(v, v.len() as nat)),
            Type::Unsupported(s) => TypeModel::Unsupported(s@),
        }
    }
}

/// The models of the first `n` types of `v`.
pub open spec fn models(v: Vec<Type>, n: nat) -> Seq<TypeModel>
    decreases v, n,
{
    if n == 0 || n > v.len() {
        Seq::empty()
    } else {
        models(v, (n - 1) as nat).push(v[n - 1].model())
    }
}

pub proof fn lemma_models(v: Vec<Type>, n: nat)
    requires
        n <= v.len(),
    ensures
        models(v, n).len() == n,
        forall|i: int| 0 <= i < n ==> #[trigger] models(v, n)[i] == v[i].model(),
    decreases n,
{
    if n > 0 {
        lemma_models(v, (n - 1) as nat);
    }
}

/// Two sequences of types with the same models element by element have the
/// same model.
pub proof fn lemma_models_same(a: Vec<Type>, b: Vec<Type>, n: nat)
    requires
        n <= a.len(),
        n <= b.len(),
        forall|i: int| 0 <= i < n ==> #[trigger] a[i].model() == b[i].model(),
    ensures
        models(a, n) == models(b, n),
{
    lemma_models(a, n);
    lemma_models(b, n);
    assert(models(a, n) =~= models(b, n));
}

pub open spec fn numeric_name(k: TypeNumeric) -> Seq<char> {
    match k {
        TypeNumeric::U8 => "u8"@,
        TypeNumeric::U16 => "u16"@,
        TypeNumeric::U32 => "u32"@,
        TypeNumeric::U64 => "u64"@,
        TypeNumeric::Usize => "usize"@,
        TypeNumeric::I8 => "i8"@,
        TypeNumeric::I16 => "i16"@,
        TypeNumeric::I32 => "i32"@,
        TypeNumeric::I64 => "i64"@,
        TypeNumeric::Isize => "isize"@,
        TypeNumeric::F32 => "f32"@,
        TypeNumeric::F64 => "f64"@,
    }
}

impl TypeNumeric {
    /// The primitive's name, as in `u8`.
    pub fn name(&self) -> (r: &'static str)
        ensures
            r@ == numeric_name(*self),
    {
        match self {
            TypeNumeric::U8 => "u8",
            TypeNumeric::U16 => "u16",
            TypeNumeric::U32 => "u32",
            TypeNumeric::U64 => "u64",
            TypeNumeric::Usize => "usize",
            TypeNumeric::I8 => "i8",
            TypeNumeric::I16 => "i16",
            TypeNumeric::I32 => "i32",
            TypeNumeric::I64 => "i64",
            TypeNumeric::Isize => "isize",
            TypeNumeric::F32 => "f32",
            TypeNumeric::F64 => "f64",
        }
    }
}

pub open spec fn digit_char(d: nat) -> char {
    if d == 0 { '0' } else if d == 1 { '1' } else if d == 2 { '2' } else if d == 3 { '3' }
    else if d == 4 { '4' } else if d == 5 { '5' } else if d == 6 { '6' } else if d == 7 { '7' }
    else if d == 8 { '8' } else { '9' }
}

/// The decimal digits of `n`.
pub open spec fn decimal(n: nat) -> Seq<char>
    decreases n,
{
    if n < 10 {
        seq![digit_char(n)]
    } else {
        decimal(n / 10).push(digit_char(n % 10))
    }
}

fn digit_str(d: usize) -> (r: &'static str)
    requires
        d < 10,
    ensures
        r@ == seq![digit_char(d as nat)],
{
    proof {
        reveal_strlit("0");
        reveal_strlit("1");
        reveal_strlit("2");
        reveal_strlit("3");
        reveal_strlit("4");
        reveal_strlit("5");
        reveal_strlit("6");
        reveal_strlit("7");
        reveal_strlit("8");
        reveal_strlit("9");
    }
    let r = if d == 0 { "0" } else if d == 1 { "1" } else if d == 2 { "2" } else if d == 3 { "3" }
    else if d == 4 { "4" } else if d == 5 { "5" } else if d == 6 { "6" } else if d == 7 { "7" }
    else if d == 8 { "8" } else { "9" };
    assert(r@ =~= seq![digit_char(d as nat)]);
    r
}

/// Writes `n` in decimal.
pub fn decimal_string(n: usize) -> (r: String)
    ensures
        r@ == decimal(n as nat),
    decreases n,
{
    if n < 10 {
        String::from_str(digit_str(n))
    } else {
        let mut s = decimal_string(n / 10);
        s.append(digit_str(n % 10));
        assert(s@ =~= decimal(n as nat));
        s
    }
}

/// How a type is written in a native shim, every path spelled out in full.
pub open spec fn native_text(t: TypeModel) -> Seq<char>
    decreases t, 0nat,
{
    match t {
        TypeModel::Void => "()"@,
        TypeModel::Numeric(k) => "std::primitive::"@ + numeric_name(k),
        TypeModel::Bool => "std::primitive::bool"@,
        TypeModel::Char => "std::primitive::char"@,
        TypeModel::FnPtr(s) => s,
        TypeModel::Ptr(e) => "*const "@ + native_text(*e),
        TypeModel::PtrMut(e) => "*mut "@ + native_text(*e),
        TypeModel::Ref(e) => "&"@ + native_text(*e),
        TypeModel::RefMut(e) => "&mut "@ + native_text(*e),
        TypeModel::Box(e) => "std::boxed::Box<"@ + native_text(*e) + ">"@,
        TypeModel::Str => "std::primitive::str"@,
        TypeModel::String => "std::string::String"@,
        TypeModel::Slice(e) => "["@ + native_text(*e) + "]"@,
        TypeModel::Array(e, n) => "["@ + native_text(*e) + "; "@ + decimal(n) + "]"@,
        TypeModel::Vec(e) => "std::vec::Vec<"@ + native_text(*e) + ">"@,
        TypeModel::UserDefined(s) => s,
        TypeModel::Tuple(s) => "("@ + native_list(s) + ")"@,
        TypeModel::Unsupported(s) => s,
    }
}

/// The native texts of `s`, separated by `, `.
pub open spec fn native_list(s: Seq<TypeModel>) -> Seq<char>
    decreases s,
{
    if s.len() == 0 {
        Seq::empty()
    } else if s.len() == 1 {
        native_text(s[0])
    } else {
        native_list(s.drop_last()) + ", "@ + native_text(s.last())
    }
}

impl Type {
    /// A copy of this type.
    pub fn duplicate(&self) -> (r: Type)
        ensures
            r.model() == self.model(),
        decreases self,
    {
        match self {
            Type::Void => Type::Void,
            Type::Numeric(k) => Type::Numeric(*k),
            Type::Bool => Type::Bool,
            Type::Char => Type::Char,
            Type::FnPtr(s) => Type::FnPtr(s.clone()),
            Type::Ptr(e) => Type::Ptr(Box::new(e.duplicate())),
            Type::PtrMut(e) => Type::PtrMut(Box::new(e.duplicate())),
            Type::Ref(e) => Type::Ref(Box::new(e.duplicate())),
            Type::RefMut(e) => Type::RefMut(Box::new(e.duplicate())),
            Type::Box(e) => Type::Box(Box::new(e.duplicate())),
            Type::Str => Type::Str,
            Type::String => Type::String,
            Type::Slice(e) => Type::Slice(Box::new(e.duplicate())),
            Type::Array(a) => Type::Array(TypeArray { elem: Box::new(a.elem.duplicate()), len: a.len }),
            Type::Vec(e) => Type::Vec(Box::new(e.duplicate())),
            Type::UserDefined(s) => Type::UserDefined(s.clone()),
            Type::Tuple(v) => {
                let mut out: Vec<Type> = Vec::new();
                let mut i: usize = 0;
                while i < v.len()
                    invariant
                        *self is Tuple,
                        (*self)->Tuple_0 == *v,
                        i <= v.len(),
                        out.len() == i,
                        forall|j: int| 0 <= j < i ==> #[trigger] out[j].model() == v[j].model(),
                    decreases v.len() - i,
                {
                    proof {
                        vstd::std_specs::vec::axiom_vec_index_decreases(*v, i as int);
                        assert(decreases_to!(*self => (*self)->Tuple_0));
                        assert(decreases_to!(*self => v[i as int]));
                    }
                    let e = v[i].duplicate();
                    out.push(e);
                    i = i + 1;
                }
                proof {
                    lemma_models_same(out, *v, v.len() as nat);
                }
                Type::Tuple(out)
            },
            Type::Unsupported(s) => Type::Unsupported(s.clone()),
        }
    }

    /// Whether this type is the user-defined type named `self_ty`.
    pub fn is_self_ty(&self, self_ty: &str) -> (r: bool)
        ensures
            r == (self.model() == TypeModel::UserDefined(self_ty@)),
    {
        match self {
            Type::UserDefined(s) => str_eq(s.as_str(), self_ty),
            _ => false,
        }
    }

    /// This type written as in a native shim.
    pub fn native_text(&self) -> (r: String)
        ensures
            r@ == native_text(self.model()),
        decreases self,
    {
        match self {
            Type::Void => String::from_str("()"),
            Type::Numeric(k) => {
                let mut s = String::from_str("std::primitive::");
                s.append(k.name());
                s
            },
            Type::Bool => String::from_str("std::primitive::bool"),
            Type::Char => String::from_str("std::primitive::char"),
            Type::FnPtr(s) => s.clone(),
            Type::Ptr(e) => String::from_str("*const ").concat(e.native_text().as_str()),
            Type::PtrMut(e) => String::from_str("*mut ").concat(e.native_text().as_str()),
            Type::Ref(e) => String::from_str("&").concat(e.native_text().as_str()),
            Type::RefMut(e) => String::from_str("&mut ").concat(e.native_text().as_str()),
            Type::Box(e) => String::from_str("std::boxed::Box<").concat(e.native_text().as_str()).concat(">"),
            Type::Str => String::from_str("std::primitive::str"),
            Type::String => String::from_str("std::string::String"),
            Type::Slice(e) => String::from_str("[").concat(e.native_text().as_str()).concat("]"),
            Type::Array(a) => String::from_str("[").concat(a.elem.native_text().as_str()).concat("; ").concat(
                decimal_string(a.len).as_str(),
            ).concat("]"),
            Type::Vec(e) => String::from_str("std::vec::Vec<").concat(e.native_text().as_str()).concat(">"),
            Type::UserDefined(s) => s.clone(),
            Type::Tuple(v) => {
                let mut s = String::new();
                let mut i: usize = 0;
                while i < v.len()
                    invariant
                        *self is Tuple,
                        (*self)->Tuple_0 == *v,
                        i <= v.len(),
                        s@ == native_list(models(*v, i as nat)),
                    decreases v.len() - i,
                {
                    proof {
                        lemma_models(*v, (i + 1) as nat);
                        assert(models(*v, (i + 1) as nat).drop_last() =~= models(*v, i as nat));
                    }
                    if i > 0 {
                        s.append(", ");
                    }
                    proof {
                        vstd::std_specs::vec::axiom_vec_index_decreases(*v, i as int);
                        assert(decreases_to!(*self => (*self)->Tuple_0));
                        assert(decreases_to!(*self => v[i as int]));
                    }
                    let t = v[i].native_text();
                    s.append(t.as_str());
                    proof {
                        if i == 0 {
                            assert(s@ =~= native_list(models(*v, 1)));
                        }
                    }
                    i = i + 1;
                }
                String::from_str("(").concat(s.as_str()).concat(")")
            },
            Type::Unsupported(s) => s.clone(),
        }
    }
}

/// Character-wise equality of two strings.
pub fn str_eq(a: &str, b: &str) -> (r: bool)
    ensures
        r == (a@ == b@),
{
    let n = a.unicode_len();
    if n != b.unicode_len() {
        return false;
    }
    let mut i: usize = 0;
    while i < n
        invariant
            n == a@.len(),
            n == b@.len(),
            i <= n,
            forall|j: int| 0 <= j < i ==> a@[j] == b@[j],
        decreases n - i,
    {
        if a.get_char(i) != b.get_char(i) {
            return false;
        }
        i = i + 1;
    }
    assert(a@ =~= b@);
    true
}

} // verus!
