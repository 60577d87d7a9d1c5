//! The native shim of an exported function: a C-ABI function that turns its
//! flat arguments into native values, calls the original, and turns the
//! result back into a C-ABI value.
use vstd::prelude::*;
use crate::attr::Marker;
use crate::error::{ExpandError, InternalError};
use crate::item::{Item, ItemFn, ItemImpl, ItemStruct, strs, opt_str};
use crate::lex::{Token, TokenModel, lex_spec, token_models};
use crate::parse::{ItemParse, item_parse};
use crate::error::ParseError;
use crate::ty::{Type, TypeModel, decimal, decimal_string, lemma_models, models, native_text};

verus! {

broadcast use vstd::std_specs::vec::group_vec_axioms;

/// The exported symbol of a function: `__<Type>__<fn>` for an associated
/// function, `__<fn>` for a free one. Shim and interface entry share it.
pub open spec fn symbol_name(self_ty: Option<Seq<char>>, ident: Seq<char>) -> Seq<char> {
    match self_ty {
        Some(t) => "__"@ + t + "__"@ + ident,
        None => "__"@ + ident,
    }
}

pub fn symbol_name_of(self_ty: &Option<String>, ident: &str) -> (r: String)
    ensures
        r@ == symbol_name(opt_str(*self_ty), ident@),
{
    let mut r = String::from_str("__");
    match self_ty {
        Some(t) => {
            r.append(t.as_str());
            r.append("__");
        },
        None => {},
    }
    r.append(ident);
    r
}

/// The name of the `i`-th C-ABI argument.
pub open spec fn arg_name(i: nat) -> Seq<char> {
    "arg_"@ + decimal(i)
}

pub fn arg_name_of(i: usize) -> (r: String)
    ensures
        r@ == arg_name(i as nat),
{
    String::from_str("arg_").concat(decimal_string(i).as_str())
}

/// Whether a value of this type crosses the boundary as it is.
pub open spec fn passes_through(t: TypeModel) -> bool {
    match t {
        TypeModel::Void | TypeModel::Numeric(_) | TypeModel::Bool | TypeModel::Char | TypeModel::Ptr(_)
        | TypeModel::PtrMut(_) | TypeModel::FnPtr(_) => true,
        _ => false,
    }
}

/// The C-ABI type of a shim parameter: references become raw pointers, a box
/// becomes the raw pointer it owns, and any other aggregate is received as a
/// raw pointer to a boxed value.
pub open spec fn shim_input(t: TypeModel) -> TypeModel {
    if passes_through(t) {
        t
    } else {
        match t {
            TypeModel::Ref(e) => TypeModel::Ptr(e),
            TypeModel::RefMut(e) => TypeModel::PtrMut(e),
            TypeModel::Box(e) => TypeModel::PtrMut(e),
            _ => TypeModel::PtrMut(Box::new(t)),
        }
    }
}

/// The statement that rebuilds the native value of argument `arg`.
pub open spec fn in_stmt(t: TypeModel, arg: Seq<char>) -> Option<Seq<char>> {
    if passes_through(t) {
        None
    } else {
        match t {
            TypeModel::Ref(_) => Some("let "@ + arg + " = unsafe { &*"@ + arg + " };"@),
            TypeModel::RefMut(_) => Some("let "@ + arg + " = unsafe { &mut *"@ + arg + " };"@),
            TypeModel::Box(_) => Some("let "@ + arg + " = unsafe { std::boxed::Box::from_raw("@ + arg + ") };"@),
            _ => Some("let "@ + arg + " = unsafe { *std::boxed::Box::from_raw("@ + arg + ") };"@),
        }
    }
}

/// The statements for parameters of types `s`, in order.
pub open spec fn in_stmts(s: Seq<TypeModel>) -> Seq<Seq<char>>
    decreases s.len(),
{
    if s.len() == 0 {
        Seq::empty()
    } else {
        let prev = in_stmts(s.drop_last());
        match in_stmt(s.last(), arg_name((s.len() - 1) as nat)) {
            Some(x) => prev.push(x),
            None => prev,
        }
    }
}

/// The C-ABI return type of a shim.
pub open spec fn shim_output(t: TypeModel) -> TypeModel {
    if passes_through(t) {
        t
    } else {
        match t {
            TypeModel::Ref(e) => TypeModel::Ptr(e),
            TypeModel::RefMut(e) => TypeModel::PtrMut(e),
            TypeModel::Box(e) => TypeModel::Ptr(e),
            _ => TypeModel::Ptr(Box::new(t)),
        }
    }
}

/// The expression that turns the native result `out` into its C-ABI value.
pub open spec fn out_stmt(t: TypeModel) -> Option<Seq<char>> {
    if passes_through(t) {
        None
    } else {
        match t {
            TypeModel::Ref(_) => Some("&raw const *out"@),
            TypeModel::RefMut(_) => Some("&raw mut *out"@),
            TypeModel::Box(_) => Some("std::boxed::Box::into_raw(out)"@),
            _ => Some("std::boxed::Box::into_raw(std::boxed::Box::from(out))"@),
        }
    }
}

/// Rewrites one parameter type; returns the C-ABI type and the statement.
fn transform_input(t: &Type, arg: &String) -> (r: (Type, Option<String>))
    ensures
        r.0.model() == shim_input(t.model()),
        opt_str(r.1) == in_stmt(t.model(), arg@),
{
    match t {
        Type::Void | Type::Numeric(_) | Type::Bool | Type::Char | Type::Ptr(_) | Type::PtrMut(_)
        | Type::FnPtr(_) => (t.duplicate(), None),
        Type::Ref(e) => {
            let s = String::from_str("let ").concat(arg.as_str()).concat(" = unsafe { &*").concat(
                arg.as_str(),
            ).concat(" };");
            (Type::Ptr(Box::new(e.duplicate())), Some(s))
        },
        Type::RefMut(e) => {
            let s = String::from_str("let ").concat(arg.as_str()).concat(" = unsafe { &mut *").concat(
                arg.as_str(),
            ).concat(" };");
            (Type::PtrMut(Box::new(e.duplicate())), Some(s))
        },
        Type::Box(e) => {
            let s = String::from_str("let ").concat(arg.as_str()).concat(
                " = unsafe { std::boxed::Box::from_raw(",
            ).concat(arg.as_str()).concat(") };");
            (Type::PtrMut(Box::new(e.duplicate())), Some(s))
        },
        _ => {
            let s = String::from_str("let ").concat(arg.as_str()).concat(
                " = unsafe { *std::boxed::Box::from_raw(",
            ).concat(arg.as_str()).concat(") };");
            (Type::PtrMut(Box::new(t.duplicate())), Some(s))
        },
    }
}

fn transform_output(t: &Type) -> (r: (Type, Option<String>))
    ensures
        r.0.model() == shim_output(t.model()),
        opt_str(r.1) == out_stmt(t.model()),
{
    match t {
        Type::Void | Type::Numeric(_) | Type::Bool | Type::Char | Type::Ptr(_) | Type::PtrMut(_)
        | Type::FnPtr(_) => (t.duplicate(), None),
        Type::Ref(e) => (Type::Ptr(Box::new(e.duplicate())), Some(String::from_str("&raw const *out"))),
        Type::RefMut(e) => (Type::PtrMut(Box::new(e.duplicate())), Some(String::from_str("&raw mut *out"))),
        Type::Box(e) => (
            Type::Ptr(Box::new(e.duplicate())),
            Some(String::from_str("std::boxed::Box::into_raw(out)")),
        ),
        _ => (
            Type::Ptr(Box::new(t.duplicate())),
            Some(String::from_str("std::boxed::Box::into_raw(std::boxed::Box::from(out))")),
        ),
    }
}

/// Everything the shim transformation does to a function `f`, giving `g`.
pub open spec fn transformed(f: ItemFn, g: ItemFn) -> bool {
    &&& g.input_models() == f.input_models().map_values(|t: TypeModel| shim_input(t))
    &&& strs(g.block.args) == strs(f.block.args) + Seq::new(f.inputs.len() as nat, |i: int| arg_name(i as nat))
    &&& strs(g.block.in_stmts) == strs(f.block.in_stmts) + in_stmts(f.input_models())
    &&& g.output.model() == shim_output(f.output.model())
    &&& opt_str(g.block.out_stmt) == out_stmt(f.output.model())
    &&& g.block.self_ty == f.block.self_ty
    &&& g.ident == f.ident
    &&& g.attr == f.attr
    &&& g.assoc == f.assoc
    &&& g.vis == f.vis
    &&& g.const_ == f.const_
    &&& g.unsafe_ == f.unsafe_
    &&& shim_printable(g)
}

impl ItemFn {
    /// Computes the marshalling of the shim: each parameter gets the name
    /// `arg_<i>` and its C-ABI type, with the statement that rebuilds its
    /// native value; the result gets its C-ABI type and out statement.
    pub fn transform(&mut self)
        ensures
            final(self).input_models() == old(self).input_models().map_values(|t: TypeModel| shim_input(t)),
            strs(final(self).block.args) == strs(old(self).block.args) + Seq::new(
                old(self).inputs.len() as nat,
                |i: int| arg_name(i as nat),
            ),
            strs(final(self).block.in_stmts) == strs(old(self).block.in_stmts) + in_stmts(old(self).input_models()),
            final(self).output.model() == shim_output(old(self).output.model()),
            opt_str(final(self).block.out_stmt) == out_stmt(old(self).output.model()),
            final(self).block.self_ty == old(self).block.self_ty,
            final(self).ident == old(self).ident,
            final(self).attr == old(self).attr,
            final(self).assoc == old(self).assoc,
            final(self).vis == old(self).vis,
            final(self).const_ == old(self).const_,
            final(self).unsafe_ == old(self).unsafe_,
            shim_printable(*final(self)),
            transformed(*old(self), *final(self)),
    {
        let ghost ins = old(self).input_models();
        let ghost args0 = strs(self.block.args);
        let ghost stmts0 = strs(self.block.in_stmts);
        let n = self.inputs.len();
        let mut new_inputs: Vec<Type> = Vec::new();
        let mut i: usize = 0;
        proof {
            lemma_models(self.inputs, n as nat);
        }
        while i < n
            invariant
                n == self.inputs.len(),
                ins == models(self.inputs, n as nat),
                ins.len() == n,
                forall|j: int| 0 <= j < n ==> #[trigger] ins[j] == self.inputs[j].model(),
                i <= n,
                new_inputs.len() == i,
                forall|j: int| 0 <= j < i ==> #[trigger] new_inputs[j].model() == shim_input(ins[j]),
                strs(self.block.args) == args0 + Seq::new(i as nat, |k: int| arg_name(k as nat)),
                strs(self.block.in_stmts) == stmts0 + in_stmts(ins.subrange(0, i as int)),
                self.output == old(self).output,
                self.block.self_ty == old(self).block.self_ty,
                self.block.out_stmt == old(self).block.out_stmt,
                self.ident == old(self).ident,
                self.attr == old(self).attr,
                self.assoc == old(self).assoc,
                self.vis == old(self).vis,
                self.const_ == old(self).const_,
                self.unsafe_ == old(self).unsafe_,
            decreases n - i,
        {
            let arg = arg_name_of(i);
            let (t, stmt) = transform_input(&self.inputs[i], &arg);
            new_inputs.push(t);
            let ghost a_before = self.block.args;
            let ghost s_before = self.block.in_stmts;
            proof {
                let sub = ins.subrange(0, i + 1);
                assert(sub.drop_last() =~= ins.subrange(0, i as int));
                assert(sub.last() == ins[i as int]);
            }
            match stmt {
                Some(s) => {
                    self.block.in_stmts.push(s);
                    proof {
                        assert(strs(self.block.in_stmts) =~= strs(s_before).push(s@));
                    }
                },
                None => {
                    assert(strs(self.block.in_stmts) =~= strs(s_before));
                },
            }
            self.block.args.push(arg);
            proof {
                assert(ins.subrange(0, i + 1).drop_last() =~= ins.subrange(0, i as int));
                assert(strs(self.block.args) =~= strs(a_before).push(arg_name(i as nat)));
                assert(strs(self.block.args) =~= args0 + Seq::new((i + 1) as nat, |k: int| arg_name(k as nat)));
                assert(strs(self.block.in_stmts) =~= stmts0 + in_stmts(ins.subrange(0, i + 1)));
            }
            i = i + 1;
        }
        let (out_ty, out) = transform_output(&self.output);
        self.output = out_ty;
        self.block.out_stmt = out;
        self.inputs = new_inputs;
        proof {
            assert(ins.subrange(0, n as int) =~= ins);
            lemma_models(self.inputs, n as nat);
            assert(self.input_models() =~= ins.map_values(|t: TypeModel| shim_input(t)));
            assert(strs(self.block.args).len() == self.block.args.len());
        }
    }
}

/* ------------------------------------------------------------------------ */

/// The strings of `s`, separated by `sep`.
pub open spec fn join(s: Seq<Seq<char>>, sep: Seq<char>) -> Seq<char>
    decreases s.len(),
{
    if s.len() == 0 {
        Seq::empty()
    } else if s.len() == 1 {
        s[0]
    } else {
        join(s.drop_last(), sep) + sep + s.last()
    }
}

/// The strings of `s`, each followed by a line break.
pub open spec fn lines(s: Seq<Seq<char>>) -> Seq<char>
    decreases s.len(),
{
    if s.len() == 0 {
        Seq::empty()
    } else {
        lines(s.drop_last()) + s.last() + "\n"@
    }
}

pub fn join_strs(v: &Vec<String>, sep: &str) -> (r: String)
    ensures
        r@ == join(strs(*v), sep@),
{
    let mut r = String::new();
    let mut i: usize = 0;
    while i < v.len()
        invariant
            i <= v.len(),
            r@ == join(strs(*v).subrange(0, i as int), sep@),
        decreases v.len() - i,
    {
        proof {
            assert(strs(*v).subrange(0, i + 1).drop_last() =~= strs(*v).subrange(0, i as int));
        }
        if i > 0 {
            r.append(sep);
        }
        r.append(v[i].as_str());
        proof {
            if i == 0 {
                assert(r@ =~= join(strs(*v).subrange(0, 1), sep@));
            }
        }
        i = i + 1;
    }
    assert(strs(*v).subrange(0, v.len() as int) =~= strs(*v));
    r
}

pub fn lines_of(v: &Vec<String>) -> (r: String)
    ensures
        r@ == lines(strs(*v)),
{
    let mut r = String::new();
    let mut i: usize = 0;
    while i < v.len()
        invariant
            i <= v.len(),
            r@ == lines(strs(*v).subrange(0, i as int)),
        decreases v.len() - i,
    {
        proof {
            assert(strs(*v).subrange(0, i + 1).drop_last() =~= strs(*v).subrange(0, i as int));
        }
        r.append(v[i].as_str());
        r.append("\n");
        i = i + 1;
    }
    assert(strs(*v).subrange(0, v.len() as int) =~= strs(*v));
    r
}

/// The shim's parameter list: `arg_<i>: <type>` for each parameter that is
/// not `()`, which the script side has no way to pass.
pub open spec fn shim_params(ins: Seq<TypeModel>, args: Seq<Seq<char>>) -> Seq<Seq<char>>
    decreases ins.len(),
{
    if ins.len() == 0 {
        Seq::empty()
    } else {
        let prev = shim_params(ins.drop_last(), args);
        if ins.last() is Void {
            prev
        } else {
            prev.push(args[ins.len() - 1] + ": "@ + native_text(ins.last()))
        }
    }
}

/// The arguments of the call to the original function; a `()` parameter
/// gets the unit value.
pub open spec fn call_args(ins: Seq<TypeModel>, args: Seq<Seq<char>>) -> Seq<Seq<char>> {
    Seq::new(ins.len(), |i: int| if ins[i] is Void { "()"@ } else { args[i] })
}

pub open spec fn callee(self_ty: Option<Seq<char>>, ident: Seq<char>) -> Seq<char> {
    match self_ty {
        Some(t) => t + "::"@ + ident,
        None => ident,
    }
}

pub open spec fn qualifiers(vis: Seq<char>, const_: bool, unsafe_: bool) -> Seq<char> {
    (if vis.len() > 0 { vis + " "@ } else { Seq::empty() }) + (if const_ { "const "@ } else { Seq::empty() })
        + (if unsafe_ { "unsafe "@ } else { Seq::empty() })
}

/// The statements after the argument conversions: the call, and the
/// conversion of its result when there is one.
pub open spec fn call_stmts(f: ItemFn) -> Seq<char> {
    let call = callee(opt_str(f.block.self_ty), f.ident@) + "("@ + join(
        call_args(f.input_models(), strs(f.block.args)),
        ", "@,
    ) + ")"@;
    if f.output.model() is Void {
        call + ";\n"@
    } else {
        match f.block.out_stmt {
            Some(o) => "let out = "@ + call + ";\n"@ + o@ + "\n"@,
            None => call + "\n"@,
        }
    }
}

/// The return part of the shim's signature; absent for `()`.
pub open spec fn ret_text(t: TypeModel) -> Seq<char> {
    if t is Void {
        Seq::empty()
    } else {
        " -> "@ + native_text(t)
    }
}

/// The symbol under which the shim of `f` is exported.
pub open spec fn shim_symbol(f: ItemFn) -> Seq<char> {
    symbol_name(opt_str(f.block.self_ty), f.ident@)
}

/// The signature line of the shim.
pub open spec fn shim_signature(f: ItemFn) -> Seq<char> {
    "#[unsafe(no_mangle)]\n"@ + qualifiers(f.vis@, f.const_, f.unsafe_) + "extern \"C\" fn "@ + shim_symbol(f)
        + "("@ + join(shim_params(f.input_models(), strs(f.block.args)), ", "@) + ")"@ + ret_text(
        f.output.model(),
    )
}

/// The full text of the shim of a transformed function.
pub open spec fn shim_text(f: ItemFn) -> Seq<char> {
    shim_signature(f) + " {\n"@ + lines(strs(f.block.in_stmts)) + call_stmts(f) + "}\n"@
}

impl ItemFn {
    /// The name of the shim's symbol.
    pub fn shim_name(&self) -> (r: String)
        ensures
            r@ == symbol_name(opt_str(self.block.self_ty), self.ident@),
    {
        symbol_name_of(&self.block.self_ty, self.ident.as_str())
    }

    /// The shim's parameter list and the arguments of the inner call.
    fn shim_lists(&self) -> (r: (Vec<String>, Vec<String>))
        requires
            self.block.args.len() >= self.inputs.len(),
        ensures
            strs(r.0) == shim_params(self.input_models(), strs(self.block.args)),
            strs(r.1) == call_args(self.input_models(), strs(self.block.args)),
    {
        let n = self.inputs.len();
        let ghost ins = self.input_models();
        let ghost args = strs(self.block.args);
        proof {
            lemma_models(self.inputs, n as nat);
        }
        let mut params: Vec<String> = Vec::new();
        let mut call: Vec<String> = Vec::new();
        let mut i: usize = 0;
        while i < n
            invariant
                n == self.inputs.len(),
                n <= self.block.args.len(),
                ins == self.input_models(),
                args == strs(self.block.args),
                ins.len() == n,
                forall|j: int| 0 <= j < n ==> #[trigger] ins[j] == self.inputs[j].model(),
                i <= n,
                strs(params) == shim_params(ins.subrange(0, i as int), args),
                strs(call) == call_args(ins, args).subrange(0, i as int),
            decreases n - i,
        {
            proof {
                assert(ins.subrange(0, i + 1).drop_last() =~= ins.subrange(0, i as int));
            }
            let ghost p0 = params;
            let ghost c0 = call;
            match &self.inputs[i] {
                Type::Void => {
                    call.push(String::from_str("()"));
                    proof {
                        assert(ins[i as int] is Void);
                        assert(strs(call) =~= strs(c0).push("()"@));
                        assert(strs(params) =~= shim_params(ins.subrange(0, i + 1), args));
                    }
                },
                t => {
                    let entry = self.block.args[i].clone().concat(": ").concat(t.native_text().as_str());
                    params.push(entry);
                    call.push(self.block.args[i].clone());
                    proof {
                        assert(!(ins[i as int] is Void));
                        assert(strs(params) =~= strs(p0).push(entry@));
                        assert(strs(call) =~= strs(c0).push(args[i as int]));
                        assert(strs(params) =~= shim_params(ins.subrange(0, i + 1), args));
                    }
                },
            }
            proof {
                assert(strs(call) =~= call_args(ins, args).subrange(0, i + 1));
            }
            i = i + 1;
        }
        proof {
            assert(ins.subrange(0, n as int) =~= ins);
            assert(call_args(ins, args).subrange(0, n as int) =~= call_args(ins, args));
        }
        (params, call)
    }

    fn signature(&self) -> (r: String)
        requires
            self.block.args.len() >= self.inputs.len(),
        ensures
            r@ == shim_signature(*self),
    {
        let (params, _) = self.shim_lists();
        let mut r = String::from_str("#[unsafe(no_mangle)]\n");
        if self.vis.unicode_len() > 0 {
            r.append(self.vis.as_str());
            r.append(" ");
        }
        if self.const_ {
            r.append("const ");
        }
        if self.unsafe_ {
            r.append("unsafe ");
        }
        r.append("extern \"C\" fn ");
        r.append(self.shim_name().as_str());
        r.append("(");
        r.append(join_strs(&params, ", ").as_str());
        r.append(")");
        match self.output {
            Type::Void => {},
            _ => {
                r.append(" -> ");
                r.append(self.output.native_text().as_str());
            },
        }
        assert(r@ =~= shim_signature(*self));
        r
    }

    fn call_stmts(&self) -> (r: String)
        requires
            self.block.args.len() >= self.inputs.len(),
        ensures
            r@ == call_stmts(*self),
    {
        let (_, call) = self.shim_lists();
        let mut c = match &self.block.self_ty {
            Some(t) => t.clone().concat("::").concat(self.ident.as_str()),
            None => self.ident.clone(),
        };
        c.append("(");
        c.append(join_strs(&call, ", ").as_str());
        c.append(")");
        let mut r = String::new();
        match self.output {
            Type::Void => {
                r.append(c.as_str());
                r.append(";\n");
            },
            _ => match &self.block.out_stmt {
                Some(o) => {
                    r.append("let out = ");
                    r.append(c.as_str());
                    r.append(";\n");
                    r.append(o.as_str());
                    r.append("\n");
                },
                None => {
                    r.append(c.as_str());
                    r.append("\n");
                },
            },
        }
        assert(r@ =~= call_stmts(*self));
        r
    }

    /// The text of the shim. Its parameters must have been named by
    /// `transform`; an out statement on a function that returns `()` means
    /// the result lowering and the statement generation disagree.
    pub fn print_shim(&self) -> (r: Result<String, InternalError>)
        ensures
            self.block.args.len() < self.inputs.len() ==> r == Err::<String, InternalError>(
                InternalError::ArgsNotNamed,
            ),
            self.block.args.len() >= self.inputs.len() && self.output.model() is Void
                && self.block.out_stmt is Some ==> r == Err::<String, InternalError>(
                InternalError::OutStmtOnVoid,
            ),
            r is Ok <==> (self.block.args.len() >= self.inputs.len() && !(self.output.model() is Void
                && self.block.out_stmt is Some)),
            r matches Ok(t) ==> t@ == shim_text(*self),
    {
        let n = self.inputs.len();
        if self.block.args.len() < n {
            return Err(InternalError::ArgsNotNamed);
        }
        let out_void = match self.output {
            Type::Void => true,
            _ => false,
        };
        if out_void && self.block.out_stmt.is_some() {
            return Err(InternalError::OutStmtOnVoid);
        }
        let sig = self.signature();
        let stmts = self.call_stmts();
        let mut r = sig;
        r.append(" {\n");
        r.append(lines_of(&self.block.in_stmts).as_str());
        r.append(stmts.as_str());
        r.append("}\n");
        assert(r@ =~= shim_text(*self));
        Ok(r)
    }
}

/* ------------------------------------------------------------------------ */

/// The destructor shim and trait marker emitted for an exported struct.
pub open spec fn struct_shim_text(ident: Seq<char>) -> Seq<char> {
    "impl deno_bindgen2::DenoBindgen for "@ + ident + " {}\n#[unsafe(no_mangle)]\nextern \"C\" fn "@
        + symbol_name(Some(ident), "drop"@) + "(arg_0: *mut "@ + ident + ") {\nstd::mem::drop(Box::from(arg_0));\n}\n"@
}

impl ItemStruct {
    /// The destructor shim `__<Type>__drop` of the struct.
    pub fn print(&self) -> (r: String)
        ensures
            r@ == struct_shim_text(self.ident@),
    {
        let name = symbol_name_of(&Some(self.ident.clone()), "drop");
        let mut r = String::from_str("impl deno_bindgen2::DenoBindgen for ");
        r.append(self.ident.as_str());
        r.append(" {}\n#[unsafe(no_mangle)]\nextern \"C\" fn ");
        r.append(name.as_str());
        r.append("(arg_0: *mut ");
        r.append(self.ident.as_str());
        r.append(") {\nstd::mem::drop(Box::from(arg_0));\n}\n");
        r
    }
}

/// Whether the shim of a function can be printed: its parameters are
/// named and the out statement agrees with the result type.
pub open spec fn shim_printable(f: ItemFn) -> bool {
    f.block.args.len() >= f.inputs.len() && !(f.output.model() is Void && f.block.out_stmt is Some)
}

pub open spec fn shims_text(s: Seq<ItemFn>) -> Seq<char>
    decreases s.len(),
{
    if s.len() == 0 {
        Seq::empty()
    } else {
        shims_text(s.drop_last()) + shim_text(s.last())
    }
}

/// The compile-time check that an implementing type carries the marker trait.
pub open spec fn impl_check_text(self_ty: Seq<char>) -> Seq<char> {
    "const _: () = {\nconst fn assert_impl<T: ::deno_bindgen2::DenoBindgen>() {}\nassert_impl::<"@ + self_ty
        + ">();\n};\n"@
}

impl ItemImpl {
    /// Computes the marshalling of every method's shim.
    pub fn transform(&mut self)
        ensures
            final(self).items.len() == old(self).items.len(),
            final(self).self_ty == old(self).self_ty,
            forall|j: int|
                0 <= j < old(self).items.len() ==> #[trigger] final(self).items[j].input_models() == old(
                    self,
                ).items[j].input_models().map_values(|t: TypeModel| shim_input(t)),
            forall|j: int| 0 <= j < final(self).items.len() ==> shim_printable(#[trigger] final(self).items[j]),
            forall|j: int| 0 <= j < old(self).items.len() ==> transformed(old(self).items[j], #[trigger] final(self).items[j]),
            final(self).attr == old(self).attr,
            final(self).unsafe_ == old(self).unsafe_,
    {
        let n = self.items.len();
        let mut out: Vec<ItemFn> = Vec::new();
        let mut i: usize = 0;
        let ghost items0 = self.items@;
        while i < n
            invariant
                n == items0.len(),
                i <= n,
                self.items@ == items0.subrange(i as int, n as int),
                out.len() == i,
                self.self_ty == old(self).self_ty,
                items0 == old(self).items@,
                forall|j: int|
                    0 <= j < i ==> #[trigger] out[j].input_models() == items0[j].input_models().map_values(
                        |t: TypeModel| shim_input(t),
                    ),
                forall|j: int| 0 <= j < i ==> transformed(items0[j], #[trigger] out[j]),
                self.attr == old(self).attr,
                self.unsafe_ == old(self).unsafe_,
                forall|j: int| 0 <= j < i ==> shim_printable(#[trigger] out[j]),
            decreases n - i,
        {
            let mut f = self.items.remove(0);
            assert(f == items0[i as int]);
            f.transform();
            out.push(f);
            assert(self.items@ =~= items0.subrange(i + 1, n as int));
            i = i + 1;
        }
        self.items = out;
    }

    /// The shims of every method, then a compile-time check that the type
    /// implements the marker trait.
    pub fn print(&self) -> (r: Result<String, InternalError>)
        ensures
            r is Ok <==> forall|j: int| 0 <= j < self.items.len() ==> shim_printable(#[trigger] self.items[j]),
            r matches Ok(t) ==> t@ == shims_text(self.items@) + impl_check_text(self.self_ty@),
    {
        let mut r = String::new();
        let mut i: usize = 0;
        while i < self.items.len()
            invariant
                i <= self.items.len(),
                forall|j: int| 0 <= j < i ==> shim_printable(#[trigger] self.items[j]),
                r@ == shims_text(self.items@.subrange(0, i as int)),
            decreases self.items.len() - i,
        {
            proof {
                assert(self.items@.subrange(0, i + 1).drop_last() =~= self.items@.subrange(0, i as int));
            }
            let t = self.items[i].print_shim()?;
            r.append(t.as_str());
            i = i + 1;
        }
        assert(self.items@.subrange(0, self.items.len() as int) =~= self.items@);
        r.append("const _: () = {\nconst fn assert_impl<T: ::deno_bindgen2::DenoBindgen>() {}\nassert_impl::<");
        r.append(self.self_ty.as_str());
        r.append(">();\n};\n");
        Ok(r)
    }
}

impl Item {
    /// Computes the shims' marshalling of an exported function or block.
    pub fn transform(&mut self)
        ensures
            *old(self) is Fn ==> (*final(self) matches Item::Fn(f) && shim_printable(f)),
            *old(self) is Impl ==> (*final(self) matches Item::Impl(i) && forall|j: int|
                0 <= j < i.items.len() ==> shim_printable(#[trigger] i.items[j])),
            *old(self) matches Item::Fn(f0) ==> (*final(self) matches Item::Fn(f) && transformed(f0, f)),
            *old(self) matches Item::Impl(i0) ==> (*final(self) matches Item::Impl(i) && i.self_ty == i0.self_ty
                && i.attr == i0.attr && i.items.len() == i0.items.len() && forall|j: int|
                0 <= j < i0.items.len() ==> transformed(i0.items[j], #[trigger] i.items[j])),
            (*old(self) is Mod || *old(self) is Struct) ==> *final(self) == *old(self),
    {
        match self {
            Item::Fn(f) => f.transform(),
            Item::Impl(i) => i.transform(),
            _ => {},
        }
    }

    /// The native code emitted for an exported item; modules emit nothing.
    pub fn print(&self) -> (r: Result<String, InternalError>)
        ensures
            self matches Item::Fn(f) ==> (r matches Ok(t) ==> t@ == shim_text(*f)),
            self matches Item::Struct(s) ==> (r matches Ok(t) && t@ == struct_shim_text(s.ident@)),
            r is Ok <==> item_native_text(*self) is Some,
            r matches Ok(t) ==> item_native_text(*self) == Some(t@),
    {
        match self {
            Item::Fn(f) => f.print_shim(),
            Item::Impl(i) => i.print(),
            Item::Struct(s) => Ok(s.print()),
            Item::Mod(_) => Ok(String::new()),
        }
    }
}

/// The native code of an item, or `None` when a shim cannot be printed.
pub open spec fn item_native_text(it: Item) -> Option<Seq<char>> {
    match it {
        Item::Fn(f) => if shim_printable(f) { Some(shim_text(f)) } else { None },
        Item::Impl(i) => if forall|j: int| 0 <= j < i.items.len() ==> shim_printable(#[trigger] i.items[j]) {
            Some(shims_text(i.items@) + impl_check_text(i.self_ty@))
        } else {
            None
        },
        Item::Struct(s) => Some(struct_shim_text(s.ident@)),
        Item::Mod(_) => Some(Seq::empty()),
    }
}

/// Whether `src` reads, in some tokenization, as exactly one item.
pub open spec fn parses_as_item(src: Seq<char>) -> bool {
    exists|ts: Seq<Token>|
        lex_spec(src) == Ok::<Seq<TokenModel>, ParseError>(#[trigger] token_models(ts)) && (item_parse(ts, 0, false)
            matches ItemParse::Parsed(_, e) && e == ts.len())
}

/// Whether `src` lexes and, in some tokenization, is not exactly one item.
pub open spec fn fails_as_item(src: Seq<char>) -> bool {
    lex_spec(src) is Err || exists|ts: Seq<Token>|
        lex_spec(src) == Ok::<Seq<TokenModel>, ParseError>(#[trigger] token_models(ts)) && !(item_parse(ts, 0, false)
            matches ItemParse::Parsed(_, e) && e == ts.len())
}

/// The persisted form of the export attribute, which survives expansion.
pub open spec fn export_prefix() -> Seq<char> {
    "#[cfg_attr(not(deno_bindgen), doc = \"deno_bindgen\")]\n"@
}

/// The persisted form of the non-blocking attribute.
pub open spec fn non_blocking_prefix() -> Seq<char> {
    "#[cfg_attr(not(deno_bindgen), doc = \"deno_bindgen_non_blocking\")]\n"@
}

impl Marker {
    /// Expands the export attribute on the item `input`: the item is kept,
    /// marked with the persisted export sentinel, and followed by its
    /// native shims.
    pub fn deno_bindgen(input: &str) -> (r: Result<String, ExpandError>)
        ensures
            r matches Ok(t) ==> (t@.len() >= export_prefix().len() + input@.len() && t@.subrange(
                0,
                (export_prefix().len() + input@.len()) as int,
            ) == export_prefix() + input@),
            r matches Ok(t) ==> parses_as_item(input@) && exists|it: Item|
                (#[trigger] item_native_text(it) matches Some(n) && t@ == export_prefix() + input@ + "\n"@ + n),
            r matches Err(e) ==> (e is Parse && fails_as_item(input@)),
    {
        let mut item = match Item::parse_str(input) {
            Ok(i) => i,
            Err(d) => {
                return Err(ExpandError::Parse(d));
            },
        };
        let ghost parsed = item;
        item.transform();
        let shims = match item.print() {
            Ok(s) => s,
            Err(e) => {
                return Err(ExpandError::Internal(e));
            },
        };
        let mut r = String::from_str("#[cfg_attr(not(deno_bindgen), doc = \"deno_bindgen\")]\n");
        r.append(input);
        let ghost head = r@;
        r.append("\n");
        r.append(shims.as_str());
        assert(r@.subrange(0, head.len() as int) =~= head);
        assert(item_native_text(item) == Some(shims@));
        assert(r@ == export_prefix() + input@ + "\n"@ + shims@);
        Ok(r)
    }

    /// Expands the non-blocking attribute: the item, marked with the
    /// persisted non-blocking sentinel.
    pub fn non_blocking(input: &str) -> (r: String)
        ensures
            r@ == non_blocking_prefix() + input@,
    {
        let mut r = String::from_str("#[cfg_attr(not(deno_bindgen), doc = \"deno_bindgen_non_blocking\")]\n");
        r.append(input);
        r
    }
}

} // verus!
