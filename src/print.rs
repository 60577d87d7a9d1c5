//! Printing of the script module: the script-side type names, the wrapper
//! functions and methods, and the class declarations.
use vstd::prelude::*;
use crate::error::InternalError;
use crate::item::{Association, strs};
use crate::lower::{RustType, RustTypeModel, RustTypeNumeric, UserDefinedDefs, lemma_rust_models, rust_models};
use crate::module::{ClassDefs, FunctionDefs, TsClass, TsMethod};
use crate::shim::{join, join_strs};
use crate::ty::{decimal, decimal_string};
use crate::attr::Marker;

verus! {

broadcast use vstd::std_specs::vec::group_vec_axioms;

pub open spec fn numeric_ts(k: RustTypeNumeric) -> Seq<char> {
    match k {
        RustTypeNumeric::U8 => "RustU8"@,
        RustTypeNumeric::U16 => "RustU16"@,
        RustTypeNumeric::U32 => "RustU32"@,
        RustTypeNumeric::I8 => "RustI8"@,
        RustTypeNumeric::I16 => "RustI16"@,
        RustTypeNumeric::I32 => "RustI32"@,
        RustTypeNumeric::F32 => "RustF32"@,
        RustTypeNumeric::F64 => "RustF64"@,
        RustTypeNumeric::U64 => "RustU64"@,
        RustTypeNumeric::I64 => "RustI64"@,
        RustTypeNumeric::Usize => "RustUsize"@,
        RustTypeNumeric::Isize => "RustIsize"@,
    }
}

fn numeric_ts_of(k: RustTypeNumeric) -> (r: &'static str)
    ensures
        r@ == numeric_ts(k),
{
    match k {
        RustTypeNumeric::U8 => "RustU8",
        RustTypeNumeric::U16 => "RustU16",
        RustTypeNumeric::U32 => "RustU32",
        RustTypeNumeric::I8 => "RustI8",
        RustTypeNumeric::I16 => "RustI16",
        RustTypeNumeric::I32 => "RustI32",
        RustTypeNumeric::F32 => "RustF32",
        RustTypeNumeric::F64 => "RustF64",
        RustTypeNumeric::U64 => "RustU64",
        RustTypeNumeric::I64 => "RustI64",
        RustTypeNumeric::Usize => "RustUsize",
        RustTypeNumeric::Isize => "RustIsize",
    }
}

/// The script type of a wrapper behind an indirection named `wrapper`; a
/// string or slice behind it is shown as that string or slice.
pub open spec fn indirect_ts(e: RustTypeModel, wrapper: Seq<char>) -> Seq<char>
    decreases e, 1nat,
{
    match e {
        RustTypeModel::Str => "RustStr"@,
        RustTypeModel::Slice(x) => "RustSlice<"@ + ts_type(*x) + ">"@,
        _ => wrapper + "<"@ + ts_type(e) + ">"@,
    }
}

/// The script type name of a lowered type.
pub open spec fn ts_type(t: RustTypeModel) -> Seq<char>
    decreases t, 0nat,
{
    match t {
        RustTypeModel::Void => "void"@,
        RustTypeModel::Numeric(k) => numeric_ts(k),
        RustTypeModel::Boolean => "boolean"@,
        RustTypeModel::Char => "RustChar"@,
        RustTypeModel::FnPtr(sig) => "RustFnPtr<\""@ + sig + "\">"@,
        RustTypeModel::Ptr(e) => indirect_ts(*e, "RustPtr"@),
        RustTypeModel::PtrMut(e) => indirect_ts(*e, "RustPtrMut"@),
        RustTypeModel::Ref(e) => indirect_ts(*e, "RustRef"@),
        RustTypeModel::RefMut(e) => indirect_ts(*e, "RustRefMut"@),
        RustTypeModel::Box(e) => indirect_ts(*e, "RustBox"@),
        RustTypeModel::Str => "RustStr"@,
        RustTypeModel::String => "RustString"@,
        RustTypeModel::Slice(e) => "RustSlice<"@ + ts_type(*e) + ">"@,
        RustTypeModel::Vec(e) => "RustVec<"@ + ts_type(*e) + ">"@,
        RustTypeModel::Tuple(s) => "RustTuple<["@ + ts_list(s) + "]>"@,
        RustTypeModel::UserDefined(n) => n,
        RustTypeModel::Unsupported => "RustUnsupportedType"@,
    }
}

pub open spec fn ts_list(s: Seq<RustTypeModel>) -> Seq<char>
    decreases s,
{
    if s.len() == 0 {
        Seq::empty()
    } else if s.len() == 1 {
        ts_type(s[0])
    } else {
        ts_list(s.drop_last()) + ", "@ + ts_type(s.last())
    }
}

impl RustType {
    /// The script type name of this type.
    pub fn print(&self) -> (r: String)
        ensures
            r@ == ts_type(self.model()),
        decreases self, 0nat,
    {
        match self {
            RustType::Void => String::from_str("void"),
            RustType::Numeric(k) => String::from_str(numeric_ts_of(*k)),
            RustType::Boolean => String::from_str("boolean"),
            RustType::Char => String::from_str("RustChar"),
            RustType::FnPtr(sig) => String::from_str("RustFnPtr<\"").concat(sig.as_str()).concat("\">"),
            RustType::Ptr(e) => print_indirect(e, "RustPtr"),
            RustType::PtrMut(e) => print_indirect(e, "RustPtrMut"),
            RustType::Ref(e) => print_indirect(e, "RustRef"),
            RustType::RefMut(e) => print_indirect(e, "RustRefMut"),
            RustType::Box(e) => print_indirect(e, "RustBox"),
            RustType::Str => String::from_str("RustStr"),
            RustType::String => String::from_str("RustString"),
            RustType::Slice(e) => String::from_str("RustSlice<").concat(e.print().as_str()).concat(">"),
            RustType::Vec(e) => String::from_str("RustVec<").concat(e.print().as_str()).concat(">"),
            RustType::Tuple(v) => {
                let mut s = String::new();
                let mut i: usize = 0;
                while i < v.len()
                    invariant
                        *self is Tuple,
                        (*self)->Tuple_0 == *v,
                        i <= v.len(),
                        s@ == ts_list(rust_models(*v, i as nat)),
                    decreases v.len() - i,
                {
                    proof {
                        vstd::std_specs::vec::axiom_vec_index_decreases(*v, i as int);
                        assert(decreases_to!(*self => (*self)->Tuple_0));
                        assert(decreases_to!(*self => v[i as int]));
                        lemma_rust_models(*v, (i + 1) as nat);
                        assert(rust_models(*v, (i + 1) as nat).drop_last() =~= rust_models(*v, i as nat));
                    }
                    if i > 0 {
                        s.append(", ");
                    }
                    let t = v[i].print();
                    s.append(t.as_str());
                    proof {
                        if i == 0 {
                            assert(s@ =~= ts_list(rust_models(*v, 1)));
                        }
                    }
                    i = i + 1;
                }
                String::from_str("RustTuple<[").concat(s.as_str()).concat("]>")
            },
            RustType::UserDefined(n) => n.clone(),
            RustType::Unsupported => String::from_str("RustUnsupportedType"),
        }
    }
}

fn print_indirect(e: &RustType, wrapper: &str) -> (r: String)
    ensures
        r@ == indirect_ts(e.model(), wrapper@),
    decreases e, 1nat,
{
    match e {
        RustType::Str => String::from_str("RustStr"),
        RustType::Slice(x) => String::from_str("RustSlice<").concat(x.print().as_str()).concat(">"),
        _ => String::from_str(wrapper).concat("<").concat(e.print().as_str()).concat(">"),
    }
}

/* ------------------------------------------------------------------------ */

/// Whether a result of this type is handed to the caller as it comes.
pub open spec fn is_plain(t: RustTypeModel) -> bool {
    match t {
        RustTypeModel::Numeric(_) | RustTypeModel::Boolean | RustTypeModel::FnPtr(_) | RustTypeModel::Ptr(_)
        | RustTypeModel::PtrMut(_) | RustTypeModel::Ref(_) | RustTypeModel::RefMut(_)
        | RustTypeModel::Unsupported => true,
        _ => false,
    }
}

fn plain(t: &RustType) -> (r: bool)
    ensures
        r == is_plain(t.model()),
{
    match t {
        RustType::Numeric(_) | RustType::Boolean | RustType::FnPtr(_) | RustType::Ptr(_) | RustType::PtrMut(_)
        | RustType::Ref(_) | RustType::RefMut(_) | RustType::Unsupported => true,
        _ => false,
    }
}

/// The script parameters of a method: the non-`void` inputs, without the
/// receiver of an instance method or destructor.
pub open spec fn visible_inputs(m: TsMethod) -> Seq<RustTypeModel> {
    let ins = m.input_models().filter(|t: RustTypeModel| !(t is Void));
    if takes_handle(m.assoc) && ins.len() > 0 {
        ins.drop_first()
    } else {
        ins
    }
}

/// Whether the method passes the wrapper's native handle first.
pub open spec fn takes_handle(assoc: Option<Association>) -> bool {
    match assoc {
        Some(Association::Instance) | Some(Association::InstanceMut) | Some(Association::Destructor) => true,
        _ => false,
    }
}

pub open spec fn param_text(i: nat, t: RustTypeModel) -> Seq<char> {
    "arg_"@ + decimal(i) + ": "@ + ts_type(t)
}

/// How argument `i` of type `t` is handed to the symbol: scalars and
/// pointers as they are, a character by its scalar value, anything else by
/// taking its native handle.
pub open spec fn pass_text(i: nat, t: RustTypeModel) -> Seq<char> {
    if is_plain(t) {
        "arg_"@ + decimal(i)
    } else if t is Char {
        "arg_"@ + decimal(i) + ".get()"@
    } else {
        "arg_"@ + decimal(i) + ".take()"@
    }
}

pub open spec fn params_of(s: Seq<RustTypeModel>) -> Seq<Seq<char>> {
    Seq::new(s.len(), |i: int| param_text(i as nat, s[i]))
}

pub open spec fn passes_of(s: Seq<RustTypeModel>) -> Seq<Seq<char>> {
    Seq::new(s.len(), |i: int| pass_text(i as nat, s[i]))
}

/// The statement that returns the result: plain results are returned as
/// they are, others wrapped in their class.
pub open spec fn return_text(t: RustTypeModel) -> Seq<char> {
    if t is Void {
        Seq::empty()
    } else if is_plain(t) {
        "return out! as "@ + ts_type(t) + ";\n"@
    } else {
        "return new "@ + ts_type(t) + "(out!) as "@ + ts_type(t) + ";\n"@
    }
}

/// The body of a wrapper: the call through the symbol table, shaped by the
/// association, then the return statement.
pub open spec fn body_text(m: TsMethod) -> Seq<char> {
    let out = m.output.model();
    let call = if out is Void {
        "symbols."@ + m.ffi_ident@
    } else if m.attr.has(Marker::NonBlocking) {
        "const out = await symbols."@ + m.ffi_ident@
    } else {
        "const out = symbols."@ + m.ffi_ident@
    };
    let args = join(passes_of(visible_inputs(m)), ", "@);
    let stmts = match m.assoc {
        Some(Association::Instance) => call + "(this.ptr, "@ + args + ");\n"@,
        Some(Association::InstanceMut) => "const ptr = this.ptr;\nthis.ptr = null;\n"@ + call + "(ptr, "@ + args
            + ")!;\nthis.ptr = ptr;\n"@,
        Some(Association::Destructor) => "const ptr = this.ptr;\nthis.ptr = null;\n"@ + call + "(ptr, "@ + args
            + ");\n"@,
        _ => call + "("@ + args + ");\n"@,
    };
    stmts + return_text(out)
}

/// The signature of a wrapper: `static` for an associated function without
/// receiver, `async` with a `Promise` result for a non-blocking one.
pub open spec fn head_text(m: TsMethod, free: bool) -> Seq<char> {
    let out = m.output.model();
    let stat = match m.assoc {
        Some(Association::Static) | Some(Association::Constructor) => "static "@,
        _ => Seq::empty(),
    };
    let asy = if !free && !(out is Void) && m.attr.has(Marker::NonBlocking) {
        "async "@
    } else {
        Seq::empty()
    };
    let ret = if out is Void {
        Seq::empty()
    } else if m.attr.has(Marker::NonBlocking) {
        ": Promise<"@ + ts_type(out) + ">"@
    } else {
        ": "@ + ts_type(out)
    };
    stat + asy + m.ident@ + "("@ + join(params_of(visible_inputs(m)), ", "@) + ")"@ + ret
}

/// A wrapper method; as a free function (`free`) its `async` goes before
/// `function` instead.
pub open spec fn method_text(m: TsMethod, free: bool) -> Seq<char> {
    head_text(m, free) + " {\n"@ + body_text(m) + "}\n"@
}

/// An exported free function.
pub open spec fn function_text(m: TsMethod) -> Seq<char> {
    "export "@ + (if m.attr.has(Marker::NonBlocking) { "async "@ } else { Seq::empty() }) + "function "@
        + method_text(m, true)
}

pub open spec fn functions_text(s: Seq<TsMethod>) -> Seq<char>
    decreases s.len(),
{
    if s.len() == 0 {
        Seq::empty()
    } else {
        functions_text(s.drop_last()) + function_text(s.last())
    }
}

pub open spec fn methods_text(s: Seq<TsMethod>) -> Seq<char>
    decreases s.len(),
{
    if s.len() == 0 {
        Seq::empty()
    } else {
        methods_text(s.drop_last()) + method_text(s.last(), false)
    }
}

/// An exported class with its methods.
pub open spec fn class_text(c: TsClass) -> Seq<char> {
    "export class "@ + c.ident@ + " extends RustPrototype<"@ + c.ident@ + "> {\n"@ + methods_text(c.methods@)
        + "}\n"@
}

pub open spec fn classes_text(s: Seq<TsClass>) -> Seq<char>
    decreases s.len(),
{
    if s.len() == 0 {
        Seq::empty()
    } else {
        classes_text(s.drop_last()) + class_text(s.last())
    }
}

/// An opaque placeholder class for a type without methods.
pub open spec fn placeholder_text(n: Seq<char>) -> Seq<char> {
    "export class "@ + n + " extends RustPrototype<"@ + n + "> {}\n"@
}

pub open spec fn placeholders_text(s: Seq<Seq<char>>) -> Seq<char>
    decreases s.len(),
{
    if s.len() == 0 {
        Seq::empty()
    } else {
        placeholders_text(s.drop_last()) + placeholder_text(s.last())
    }
}

/// Whether every method has the enclosing type its association needs.
pub open spec fn printable(s: Seq<TsMethod>) -> bool {
    forall|i: int| 0 <= i < s.len() ==> !((#[trigger] s[i]).assoc is Some && s[i].self_ty is None)
}

impl TsMethod {
    /// The non-`void` inputs that the script caller passes.
    fn visible(&self) -> (r: Vec<&RustType>)
        ensures
            r@.map_values(|t: &RustType| t.model()) == visible_inputs(*self),
    {
        let n = self.inputs.len();
        proof {
            lemma_rust_models(self.inputs, n as nat);
        }
        let ghost ins = self.input_models();
        let mut out: Vec<&RustType> = Vec::new();
        let mut i: usize = 0;
        while i < n
            invariant
                n == self.inputs.len(),
                ins == self.input_models(),
                ins.len() == n,
                forall|j: int| 0 <= j < n ==> #[trigger] ins[j] == self.inputs[j].model(),
                i <= n,
                out@.map_values(|t: &RustType| t.model()) == ins.subrange(0, i as int).filter(
                    |t: RustTypeModel| !(t is Void),
                ),
            decreases n - i,
        {
            proof {
                let sub = ins.subrange(0, i + 1);
                assert(sub.drop_last() =~= ins.subrange(0, i as int));
                assert(sub.last() == ins[i as int]);
                reveal(Seq::filter);
            }
            let ghost o0 = out@;
            match &self.inputs[i] {
                RustType::Void => {},
                t => {
                    out.push(t);
                },
            }
            proof {
                assert(out@.map_values(|t: &RustType| t.model()) =~= ins.subrange(0, i + 1).filter(
                    |t: RustTypeModel| !(t is Void),
                ));
            }
            i = i + 1;
        }
        proof {
            assert(ins.subrange(0, n as int) =~= ins);
        }
        let handle = match self.assoc {
            Some(Association::Instance) | Some(Association::InstanceMut) | Some(Association::Destructor) => true,
            _ => false,
        };
        if handle && out.len() > 0 {
            let ghost o0 = out@;
            out.remove(0);
            proof {
                assert(out@.map_values(|t: &RustType| t.model()) =~= o0.map_values(|t: &RustType| t.model()).drop_first());
            }
        }
        out
    }

    fn head(&self, vis: &Vec<&RustType>, free: bool) -> (r: String)
        requires
            vis@.map_values(|t: &RustType| t.model()) == visible_inputs(*self),
        ensures
            r@ == head_text(*self, free),
    {
        let ghost vs = visible_inputs(*self);
        let mut params: Vec<String> = Vec::new();
        let mut i: usize = 0;
        while i < vis.len()
            invariant
                vis@.map_values(|t: &RustType| t.model()) == vs,
                i <= vis.len(),
                strs(params) == params_of(vs).subrange(0, i as int),
            decreases vis.len() - i,
        {
            let p = String::from_str("arg_").concat(decimal_string(i).as_str()).concat(": ").concat(
                vis[i].print().as_str(),
            );
            let ghost p0 = params;
            params.push(p);
            proof {
                assert(vs[i as int] == vis@[i as int].model());
                assert(p@ == param_text(i as nat, vs[i as int]));
                assert(strs(params) =~= strs(p0).push(p@));
                assert(strs(params) =~= params_of(vs).subrange(0, i + 1));
            }
            i = i + 1;
        }
        proof {
            assert(params_of(vs).subrange(0, vis.len() as int) =~= params_of(vs));
        }
        let out_void = match self.output {
            RustType::Void => true,
            _ => false,
        };
        let nb = self.attr.has_non_blocking();
        let mut r = String::new();
        match self.assoc {
            Some(Association::Static) | Some(Association::Constructor) => r.append("static "),
            _ => {},
        }
        if !free && !out_void && nb {
            r.append("async ");
        }
        r.append(self.ident.as_str());
        r.append("(");
        r.append(join_strs(&params, ", ").as_str());
        r.append(")");
        if !out_void {
            if nb {
                r.append(": Promise<");
                r.append(self.output.print().as_str());
                r.append(">");
            } else {
                r.append(": ");
                r.append(self.output.print().as_str());
            }
        }
        assert(r@ =~= head_text(*self, free));
        r
    }

    fn body(&self, vis: &Vec<&RustType>) -> (r: String)
        requires
            vis@.map_values(|t: &RustType| t.model()) == visible_inputs(*self),
        ensures
            r@ == body_text(*self),
    {
        let ghost vs = visible_inputs(*self);
        let mut passes: Vec<String> = Vec::new();
        let mut i: usize = 0;
        while i < vis.len()
            invariant
                vis@.map_values(|t: &RustType| t.model()) == vs,
                i <= vis.len(),
                strs(passes) == passes_of(vs).subrange(0, i as int),
            decreases vis.len() - i,
        {
            let name = String::from_str("arg_").concat(decimal_string(i).as_str());
            let t = vis[i];
            let p = if plain(t) {
                name
            } else {
                match t {
                    RustType::Char => name.concat(".get()"),
                    _ => name.concat(".take()"),
                }
            };
            let ghost q0 = passes;
            let ghost pv = p@;
            params_push(&mut passes, p);
            proof {
                assert(vs[i as int] == vis@[i as int].model());
                assert(pv == pass_text(i as nat, vs[i as int]));
                assert(strs(passes) =~= strs(q0).push(pv));
                assert(strs(passes) =~= passes_of(vs).subrange(0, i + 1));
            }
            i = i + 1;
        }
        proof {
            assert(passes_of(vs).subrange(0, vis.len() as int) =~= passes_of(vs));
        }
        let args = join_strs(&passes, ", ");
        let out_void = match self.output {
            RustType::Void => true,
            _ => false,
        };
        let call = if out_void {
            String::from_str("symbols.").concat(self.ffi_ident.as_str())
        } else if self.attr.has_non_blocking() {
            String::from_str("const out = await symbols.").concat(self.ffi_ident.as_str())
        } else {
            String::from_str("const out = symbols.").concat(self.ffi_ident.as_str())
        };
        let mut r = String::new();
        match self.assoc {
            Some(Association::Instance) => {
                r.append(call.as_str());
                r.append("(this.ptr, ");
                r.append(args.as_str());
                r.append(");\n");
            },
            Some(Association::InstanceMut) => {
                r.append("const ptr = this.ptr;\nthis.ptr = null;\n");
                r.append(call.as_str());
                r.append("(ptr, ");
                r.append(args.as_str());
                r.append(")!;\nthis.ptr = ptr;\n");
            },
            Some(Association::Destructor) => {
                r.append("const ptr = this.ptr;\nthis.ptr = null;\n");
                r.append(call.as_str());
                r.append("(ptr, ");
                r.append(args.as_str());
                r.append(");\n");
            },
            _ => {
                r.append(call.as_str());
                r.append("(");
                r.append(args.as_str());
                r.append(");\n");
            },
        }
        let ret = self.return_stmt();
        r.append(ret.as_str());
        assert(r@ =~= body_text(*self));
        r
    }

    fn return_stmt(&self) -> (r: String)
        ensures
            r@ == return_text(self.output.model()),
    {
        match self.output {
            RustType::Void => String::new(),
            _ => {
                let t = self.output.print();
                if plain(&self.output) {
                    String::from_str("return out! as ").concat(t.as_str()).concat(";\n")
                } else {
                    String::from_str("return new ").concat(t.as_str()).concat("(out!) as ").concat(t.as_str()).concat(
                        ";\n",
                    )
                }
            },
        }
    }

    /// The wrapper method. A method with an association but no enclosing
    /// type is an internal error.
    pub fn print(&self) -> (r: Result<String, InternalError>)
        ensures
            self.assoc is Some && self.self_ty is None ==> r == Err::<String, InternalError>(
                InternalError::MissingSelfType,
            ),
            !(self.assoc is Some && self.self_ty is None) ==> (r matches Ok(t) && t@ == method_text(*self, false)),
    {
        self.print_as(false)
    }

    fn print_as(&self, free: bool) -> (r: Result<String, InternalError>)
        ensures
            self.assoc is Some && self.self_ty is None ==> r == Err::<String, InternalError>(
                InternalError::MissingSelfType,
            ),
            !(self.assoc is Some && self.self_ty is None) ==> (r matches Ok(t) && t@ == method_text(*self, free)),
    {
        if self.assoc.is_some() && self.self_ty.is_none() {
            return Err(InternalError::MissingSelfType);
        }
        let vis = self.visible();
        let head = self.head(&vis, free);
        let body = self.body(&vis);
        let mut r = head;
        r.append(" {\n");
        r.append(body.as_str());
        r.append("}\n");
        Ok(r)
    }
}

impl FunctionDefs {
    /// The exported free functions.
    pub fn print(&self) -> (r: Result<String, InternalError>)
        ensures
            r is Ok <==> printable(self.functions@),
            r matches Ok(t) ==> t@ == functions_text(self.functions@),
    {
        let mut r = String::new();
        let mut i: usize = 0;
        while i < self.functions.len()
            invariant
                i <= self.functions.len(),
                printable(self.functions@.subrange(0, i as int)),
                r@ == functions_text(self.functions@.subrange(0, i as int)),
            decreases self.functions.len() - i,
        {
            let m = &self.functions[i];
            proof {
                assert(self.functions@.subrange(0, i + 1).drop_last() =~= self.functions@.subrange(0, i as int));
            }
            let t = match m.print_as(true) {
                Ok(t) => t,
                Err(e) => {
                    proof {
                        assert(!printable(self.functions@)) by {
                            assert(self.functions@[i as int] == *m);
                        }
                    }
                    return Err(e);
                },
            };
            r.append("export ");
            if m.attr.has_non_blocking() {
                r.append("async ");
            }
            r.append("function ");
            r.append(t.as_str());
            proof {
                assert(printable(self.functions@.subrange(0, i + 1))) by {
                    assert forall|j: int| 0 <= j < i + 1 implies !((#[trigger] self.functions@.subrange(0, i + 1)[j]).assoc is Some
                        && self.functions@.subrange(0, i + 1)[j].self_ty is None) by {
                        if j < i {
                            assert(self.functions@.subrange(0, i + 1)[j] == self.functions@.subrange(0, i as int)[j]);
                        }
                    }
                }
            }
            i = i + 1;
        }
        assert(self.functions@.subrange(0, self.functions.len() as int) =~= self.functions@);
        Ok(r)
    }
}

impl TsClass {
    pub fn print(&self) -> (r: Result<String, InternalError>)
        ensures
            r is Ok <==> printable(self.methods@),
            r matches Ok(t) ==> t@ == class_text(*self),
    {
        let mut body = String::new();
        let mut i: usize = 0;
        while i < self.methods.len()
            invariant
                i <= self.methods.len(),
                printable(self.methods@.subrange(0, i as int)),
                body@ == methods_text(self.methods@.subrange(0, i as int)),
            decreases self.methods.len() - i,
        {
            let m = &self.methods[i];
            proof {
                assert(self.methods@.subrange(0, i + 1).drop_last() =~= self.methods@.subrange(0, i as int));
            }
            let t = match m.print() {
                Ok(t) => t,
                Err(e) => {
                    proof {
                        assert(!printable(self.methods@)) by {
                            assert(self.methods@[i as int] == *m);
                        }
                    }
                    return Err(e);
                },
            };
            body.append(t.as_str());
            proof {
                assert(printable(self.methods@.subrange(0, i + 1))) by {
                    assert forall|j: int| 0 <= j < i + 1 implies !((#[trigger] self.methods@.subrange(0, i + 1)[j]).assoc is Some
                        && self.methods@.subrange(0, i + 1)[j].self_ty is None) by {
                        if j < i {
                            assert(self.methods@.subrange(0, i + 1)[j] == self.methods@.subrange(0, i as int)[j]);
                        }
                    }
                }
            }
            i = i + 1;
        }
        assert(self.methods@.subrange(0, self.methods.len() as int) =~= self.methods@);
        let mut r = String::from_str("export class ");
        r.append(self.ident.as_str());
        r.append(" extends RustPrototype<");
        r.append(self.ident.as_str());
        r.append("> {\n");
        r.append(body.as_str());
        r.append("}\n");
        Ok(r)
    }
}

impl ClassDefs {
    /// The exported classes.
    pub fn print(&self) -> (r: Result<String, InternalError>)
        ensures
            r is Ok <==> forall|i: int| 0 <= i < self.store.len() ==> printable((#[trigger] self.store[i]).methods@),
            r matches Ok(t) ==> t@ == classes_text(self.store@),
    {
        let mut r = String::new();
        let mut i: usize = 0;
        while i < self.store.len()
            invariant
                i <= self.store.len(),
                forall|j: int| 0 <= j < i ==> printable((#[trigger] self.store[j]).methods@),
                r@ == classes_text(self.store@.subrange(0, i as int)),
            decreases self.store.len() - i,
        {
            proof {
                assert(self.store@.subrange(0, i + 1).drop_last() =~= self.store@.subrange(0, i as int));
            }
            let t = self.store[i].print()?;
            r.append(t.as_str());
            i = i + 1;
        }
        assert(self.store@.subrange(0, self.store.len() as int) =~= self.store@);
        Ok(r)
    }
}

impl UserDefinedDefs {
    /// The placeholder classes of the types without methods.
    pub fn print(&self) -> (r: String)
        ensures
            r@ == placeholders_text(strs(self.store)),
    {
        let mut r = String::new();
        let mut i: usize = 0;
        while i < self.store.len()
            invariant
                i <= self.store.len(),
                r@ == placeholders_text(strs(self.store).subrange(0, i as int)),
            decreases self.store.len() - i,
        {
            proof {
                assert(strs(self.store).subrange(0, i + 1).drop_last() =~= strs(self.store).subrange(0, i as int));
            }
            let n = &self.store[i];
            r.append("export class ");
            r.append(n.as_str());
            r.append(" extends RustPrototype<");
            r.append(n.as_str());
            r.append("> {}\n");
            i = i + 1;
        }
        assert(strs(self.store).subrange(0, self.store.len() as int) =~= strs(self.store));
        r
    }
}

fn params_push(v: &mut Vec<String>, s: String)
    ensures
        final(v)@ == old(v)@.push(s),
{
    v.push(s);
}

} // verus!
