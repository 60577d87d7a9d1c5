//! The script module builder: folds lowered items into the symbol table,
//! the exported functions and the exported classes.
use vstd::prelude::*;
use crate::attr::{Attribute, Marker};
use crate::ffi::{FfiFunction, FfiLib, FfiSymbol, FfiType};
use crate::item::{Association, ItemFn, ItemImpl, opt_str};
use crate::lower::{
    RustType, RustTypeDefs, RustTypeModel, UserDefinedDefs, ffi_of, helpers, helpers_list, lemma_rust_models,
    lower, lower_list, rust_models, user_types, user_types_list,
};
use crate::shim::{symbol_name, symbol_name_of};
use crate::ty::{TypeModel, lemma_models, str_eq};

verus! {

broadcast use vstd::std_specs::vec::group_vec_axioms;

/// A lowered function or method, ready to be printed as a script function.
#[derive(Debug)]
pub struct TsMethod {
    pub attr: Attribute,
    pub ident: String,
    pub inputs: Vec<RustType>,
    pub output: RustType,
    pub assoc: Option<Association>,
    /// The native symbol the wrapper calls.
    pub ffi_ident: String,
    pub self_ty: Option<String>,
}

impl TsMethod {
    pub open spec fn input_models(&self) -> Seq<RustTypeModel> {
        rust_models(self.inputs, self.inputs.len() as nat)
    }
}

/// The exported free functions, in declaration order.
#[derive(Debug)]
pub struct FunctionDefs {
    pub functions: Vec<TsMethod>,
}

impl FunctionDefs {
    pub fn new() -> (r: Self)
        ensures
            r.functions@.len() == 0,
    {
        FunctionDefs { functions: Vec::new() }
    }

    /// Adds a function at the end.
    pub fn push(&mut self, method: TsMethod)
        ensures
            final(self).functions@ == old(self).functions@.push(method),
    {
        self.functions.push(method);
    }
}

/// An exported class: a user-defined type with its methods.
#[derive(Debug)]
pub struct TsClass {
    pub ident: String,
    pub methods: Vec<TsMethod>,
}

/// The exported classes, one per type name.
#[derive(Debug)]
pub struct ClassDefs {
    pub store: Vec<TsClass>,
}

impl ClassDefs {
    pub open spec fn wf(&self) -> bool {
        forall|i: int, j: int|
            0 <= i < j < self.store.len() ==> self.store[i].ident@ != self.store[j].ident@
    }

    /// The names of the classes.
    pub open spec fn names(&self) -> Set<Seq<char>> {
        Set::new(|n: Seq<char>| exists|i: int| 0 <= i < self.store.len() && self.store[i].ident@ == n)
    }

    pub fn new() -> (r: Self)
        ensures
            r.wf(),
            r.names() == Set::<Seq<char>>::empty(),
            r.store@.len() == 0,
    {
        let r = ClassDefs { store: Vec::new() };
        assert(r.names() =~= Set::<Seq<char>>::empty());
        r
    }

    /// The index of the class named `name`.
    pub fn find(&self, name: &str) -> (r: Option<usize>)
        ensures
            r matches Some(i) ==> i < self.store.len() && self.store[i as int].ident@ == name@,
            r is None <==> !self.names().contains(name@),
    {
        let mut i: usize = 0;
        while i < self.store.len()
            invariant
                i <= self.store.len(),
                forall|j: int| 0 <= j < i ==> self.store[j].ident@ != name@,
            decreases self.store.len() - i,
        {
            if str_eq(self.store[i].ident.as_str(), name) {
                return Some(i);
            }
            i = i + 1;
        }
        None
    }
}

impl UserDefinedDefs {
    /// Removes every type that has a class: a type with methods is never
    /// also emitted as a bare placeholder.
    pub fn dedup(&mut self, class_defs: &ClassDefs)
        requires
            old(self).wf(),
        ensures
            final(self).wf(),
            final(self).names() == old(self).names().difference(class_defs.names()),
    {
        let mut kept: Vec<String> = Vec::new();
        let mut i: usize = 0;
        while i < self.store.len()
            invariant
                i <= self.store.len(),
                self.wf(),
                self.store == old(self).store,
                forall|a: int, b: int| 0 <= a < b < kept.len() ==> kept[a]@ != kept[b]@,
                forall|a: int| 0 <= a < kept.len() ==> prefix_names(self.store, i as int).contains(#[trigger] kept[a]@),
                prefix_names(kept, kept.len() as int) == prefix_names(self.store, i as int).difference(class_defs.names()),
            decreases self.store.len() - i,
        {
            let ghost k0 = kept;
            proof {
                assert forall|a: int| 0 <= a < k0.len() implies #[trigger] k0[a]@ != self.store[i as int]@ by {
                    assert(prefix_names(self.store, i as int).contains(k0[a]@));
                    let c = choose|c: int| 0 <= c < i && self.store[c]@ == k0[a]@;
                    assert(c != i);
                }
            }
            if class_defs.find(self.store[i].as_str()).is_none() {
                kept.push(self.store[i].clone());
            }
            proof {
                assert(prefix_names(kept, kept.len() as int) =~= prefix_names(self.store, i + 1).difference(class_defs.names())) by {
                    assert forall|n: Seq<char>| prefix_names(kept, kept.len() as int).contains(n) implies prefix_names(self.store, i + 1).difference(class_defs.names()).contains(n) by {
                        let a = choose|a: int| 0 <= a < kept.len() && kept[a]@ == n;
                        if a < k0.len() {
                            assert(prefix_names(k0, k0.len() as int).contains(n));
                        } else {
                            assert(self.store[i as int]@ == n);
                        }
                    }
                    assert forall|n: Seq<char>| prefix_names(self.store, i + 1).difference(class_defs.names()).contains(n) implies prefix_names(kept, kept.len() as int).contains(n) by {
                        let b = choose|b: int| 0 <= b < i + 1 && self.store[b]@ == n;
                        if b == i {
                            assert(kept[kept.len() - 1]@ == n);
                        } else {
                            assert(prefix_names(self.store, i as int).contains(n));
                            assert(prefix_names(k0, k0.len() as int).contains(n));
                            let a = choose|a: int| 0 <= a < k0.len() && k0[a]@ == n;
                            assert(kept[a]@ == n);
                        }
                    }
                }
                assert forall|a: int| 0 <= a < kept.len() implies prefix_names(self.store, i + 1).contains(#[trigger] kept[a]@) by {
                    if a < k0.len() {
                        assert(prefix_names(self.store, i as int).contains(k0[a]@));
                        let c = choose|c: int| 0 <= c < i && self.store[c]@ == k0[a]@;
                        assert(self.store[c]@ == kept[a]@);
                    } else {
                        assert(self.store[i as int]@ == kept[a]@);
                    }
                }
            }
            i = i + 1;
        }
        proof {
            assert(prefix_names(self.store, self.store.len() as int) =~= old(self).names());
        }
        self.store = kept;
        assert(self.names() =~= old(self).names().difference(class_defs.names()));
    }
}

/// The views of the first `n` strings of `v`.
pub open spec fn prefix_names(v: Vec<String>, n: int) -> Set<Seq<char>> {
    Set::new(|s: Seq<char>| exists|i: int| 0 <= i < n && v[i]@ == s)
}

/// Options that shape the generated module.
#[derive(Clone, Debug)]
pub struct CodegenOpts {
    pub file_name: String,
    pub dylib_path: String,
    pub lazy: bool,
    /// Use the extended helper types, which carry methods.
    pub extended: bool,
    /// Where the extended helper types load their symbols from, when they
    /// live in their own file.
    pub embedded: Option<String>,
}

/// The script module being built.
#[derive(Debug)]
pub struct TsModule {
    pub ffi_lib: FfiLib,
    pub type_defs: RustTypeDefs,
    pub user_defs: UserDefinedDefs,
    pub functions: FunctionDefs,
    pub class_defs: ClassDefs,
}

impl TsModule {
    pub open spec fn wf(&self) -> bool {
        self.type_defs.wf() && self.user_defs.wf() && self.class_defs.wf()
    }

    pub fn new_empty() -> (r: Self)
        ensures
            r.wf(),
            r.ffi_lib.interface.symbols@.len() == 0,
            r.type_defs.tags() == Set::<crate::lower::RustTypeList>::empty(),
            r.user_defs.names() == Set::<Seq<char>>::empty(),
            r.functions.functions@.len() == 0,
            r.class_defs.names() == Set::<Seq<char>>::empty(),
            r.class_defs.store@.len() == 0,
            !r.type_defs.extended,
            !r.ffi_lib.lazy,
            !r.ffi_lib.export,
    {
        TsModule {
            ffi_lib: FfiLib::new(),
            type_defs: RustTypeDefs::new(),
            user_defs: UserDefinedDefs::new(),
            functions: FunctionDefs::new(),
            class_defs: ClassDefs::new(),
        }
    }
}

impl Default for TsModule {
    fn default() -> (r: Self)
        ensures
            r.wf(),
            r.ffi_lib.interface.symbols@.len() == 0,
            r.type_defs.tags() == Set::<crate::lower::RustTypeList>::empty(),
            r.user_defs.names() == Set::<Seq<char>>::empty(),
            r.functions.functions@.len() == 0,
            r.class_defs.names() == Set::<Seq<char>>::empty(),
            r.class_defs.store@.len() == 0,
            !r.type_defs.extended,
            !r.ffi_lib.lazy,
            !r.ffi_lib.export,
    {
        TsModule::new_empty()
    }
}

/// The interface entry registered for a function with parameter types `ins`
/// and result type `out`.
pub open spec fn registered(
    s: FfiSymbol,
    name: Seq<char>,
    ins: Seq<TypeModel>,
    out: TypeModel,
    non_blocking: bool,
) -> bool {
    match s {
        FfiSymbol::Function(f) => f.ident@ == name && f.inputs@ == ins.map_values(|t: TypeModel| ffi_of(t))
            && f.output == ffi_of(out) && f.non_blocking == non_blocking,
    }
}

impl ItemFn {
    /// Lowers the signature, registers the function's symbol in the
    /// interface, and returns the script-side method.
    pub fn unwrap(self, module: &mut TsModule) -> (r: TsMethod)
        requires
            old(module).wf(),
        ensures
            final(module).wf(),
            r.ffi_ident@ == symbol_name(opt_str(self.block.self_ty), self.ident@),
            r.ident == self.ident,
            r.assoc == self.assoc,
            r.self_ty == self.block.self_ty,
            r.attr == self.attr,
            r.input_models() == self.input_models().map_values(|t: TypeModel| lower(t)),
            r.output.model() == lower(self.output.model()),
            final(module).ffi_lib.interface.symbols@.len() == old(module).ffi_lib.interface.symbols@.len() + 1,
            final(module).ffi_lib.interface.symbols@.drop_last() == old(module).ffi_lib.interface.symbols@,
            registered(
                final(module).ffi_lib.interface.symbols@.last(),
                r.ffi_ident@,
                self.input_models(),
                self.output.model(),
                self.attr.has(Marker::NonBlocking),
            ),
            final(module).type_defs.tags() == old(module).type_defs.tags() + helpers_list(self.input_models())
                + helpers(self.output.model()),
            final(module).user_defs.names() == old(module).user_defs.names() + user_types_list(
                self.input_models(),
            ) + user_types(self.output.model()),
            final(module).type_defs.extended == old(module).type_defs.extended,
            final(module).functions == old(module).functions,
            final(module).class_defs == old(module).class_defs,
            final(module).ffi_lib.dylib_path == old(module).ffi_lib.dylib_path,
            final(module).ffi_lib.lazy == old(module).ffi_lib.lazy,
            final(module).ffi_lib.export == old(module).ffi_lib.export,
    {
        let ghost ins = self.input_models();
        let n = self.inputs.len();
        proof {
            lemma_models(self.inputs, n as nat);
        }
        let mut ffi_inputs: Vec<FfiType> = Vec::new();
        let mut inputs: Vec<RustType> = Vec::new();
        let ghost td0 = module.type_defs.tags();
        let ghost ud0 = module.user_defs.names();
        let mut i: usize = 0;
        while i < n
            invariant
                n == self.inputs.len(),
                ins == self.input_models(),
                ins.len() == n,
                forall|j: int| 0 <= j < n ==> #[trigger] ins[j] == self.inputs[j].model(),
                i <= n,
                ffi_inputs@ == ins.subrange(0, i as int).map_values(|t: TypeModel| ffi_of(t)),
                inputs.len() == i,
                rust_models(inputs, i as nat) == lower_list(ins.subrange(0, i as int)),
                module.wf(),
                module.type_defs.tags() == td0 + helpers_list(ins.subrange(0, i as int)),
                module.user_defs.names() == ud0 + user_types_list(ins.subrange(0, i as int)),
                module.type_defs.extended == old(module).type_defs.extended,
                module.ffi_lib == old(module).ffi_lib,
                module.functions == old(module).functions,
                module.class_defs == old(module).class_defs,
            decreases n - i,
        {
            let ghost in0 = inputs;
            let (f, t) = self.inputs[i].lower_into(&mut module.type_defs, &mut module.user_defs);
            ffi_inputs.push(f);
            inputs.push(t);
            proof {
                let sub = ins.subrange(0, i + 1);
                assert(sub.drop_last() =~= ins.subrange(0, i as int));
                assert(sub.last() == ins[i as int]);
                assert(ffi_inputs@ =~= sub.map_values(|t: TypeModel| ffi_of(t)));
                lemma_rust_models(in0, i as nat);
                lemma_rust_models(inputs, i as nat);
                assert(forall|j: int| 0 <= j < i ==> inputs[j] == in0[j]);
                assert(rust_models(inputs, i as nat) =~= rust_models(in0, i as nat));
                assert(module.type_defs.tags() =~= td0 + helpers_list(sub));
                assert(module.user_defs.names() =~= ud0 + user_types_list(sub));
            }
            i = i + 1;
        }
        proof {
            assert(ins.subrange(0, n as int) =~= ins);
        }
        let (ffi_output, output) = self.output.lower_into(&mut module.type_defs, &mut module.user_defs);
        let ffi_ident = symbol_name_of(&self.block.self_ty, self.ident.as_str());
        let non_blocking = self.attr.has_non_blocking();
        module.ffi_lib.interface.push_fn(
            FfiFunction { ident: ffi_ident.clone(), inputs: ffi_inputs, output: ffi_output, non_blocking },
        );
        proof {
            lemma_rust_models(inputs, n as nat);
            lower_list_map(ins);
            assert(rust_models(inputs, inputs.len() as nat) =~= ins.map_values(|t: TypeModel| lower(t)));
            assert(module.ffi_lib.interface.symbols@.drop_last() =~= old(module).ffi_lib.interface.symbols@);
        }
        TsMethod {
            attr: self.attr,
            ident: self.ident,
            inputs,
            output,
            assoc: self.assoc,
            ffi_ident,
            self_ty: self.block.self_ty,
        }
    }
}

/// The name of the synthetic destructor of a type.
pub open spec fn drop_symbol(self_ty: Seq<char>) -> Seq<char> {
    symbol_name(Some(self_ty), "drop"@)
}

/// What registering an associated block of `self_ty` whose methods are
/// named `idents` does to the symbol table `before`: one symbol per method,
/// in order, and, when the type had no class yet, its destructor
/// `__<Type>__drop` taking one pointer.
pub open spec fn impl_registered(
    before: Seq<FfiSymbol>,
    after: Seq<FfiSymbol>,
    self_ty: Seq<char>,
    items: Seq<ItemFn>,
    was_class: bool,
) -> bool {
    &&& after.len() == before.len() + items.len() + (if was_class { 0int } else { 1int })
    &&& after.subrange(0, before.len() as int) == before
    &&& forall|j: int|
        0 <= j < items.len() ==> method_registered(#[trigger] after[before.len() + j], self_ty, items[j])
    &&& !was_class ==> {
        &&& after.last().name() == drop_symbol(self_ty)
        &&& after.last()->Function_0.inputs@ == seq![FfiType::Pointer]
        &&& after.last()->Function_0.output == FfiType::Void
        &&& !after.last()->Function_0.non_blocking
    }
}

/// The symbol table entry of method `f` of `self_ty`: named
/// `__<Type>__<fn>`, with the C-ABI tags of its signature.
pub open spec fn method_registered(s: FfiSymbol, self_ty: Seq<char>, f: ItemFn) -> bool {
    registered(
        s,
        symbol_name(Some(self_ty), f.ident@),
        f.input_models(),
        f.output.model(),
        f.attr.has(Marker::NonBlocking),
    )
}

/// Whether `m` is the lowered form of method `f` of `self_ty`.
pub open spec fn method_of(m: TsMethod, f: ItemFn, self_ty: Seq<char>) -> bool {
    &&& m.ident == f.ident
    &&& m.assoc == f.assoc
    &&& m.attr == f.attr
    &&& opt_str(m.self_ty) == Some(self_ty)
    &&& m.ffi_ident@ == symbol_name(Some(self_ty), f.ident@)
    &&& m.input_models() == f.input_models().map_values(|t: TypeModel| lower(t))
    &&& m.output.model() == lower(f.output.model())
}

/// The class of `self_ty` after its block of `items` is added: a new class
/// holding exactly the lowered methods, or the existing class with them
/// appended; every other class is unchanged.
pub open spec fn class_extended(before: Seq<TsClass>, after: Seq<TsClass>, self_ty: Seq<char>, items: Seq<ItemFn>)
    -> bool {
    if exists|c: int| 0 <= c < before.len() && before[c].ident@ == self_ty {
        &&& after.len() == before.len()
        &&& forall|c: int| 0 <= c < before.len() && before[c].ident@ != self_ty ==> #[trigger] after[c] == before[c]
        &&& forall|c: int|
            0 <= c < before.len() && #[trigger] before[c].ident@ == self_ty ==> {
                &&& after[c].ident == before[c].ident
                &&& after[c].methods.len() == before[c].methods.len() + items.len()
                &&& after[c].methods@.subrange(0, before[c].methods.len() as int) == before[c].methods@
                &&& forall|j: int|
                    0 <= j < items.len() ==> method_of(
                        #[trigger] after[c].methods[before[c].methods.len() + j],
                        items[j],
                        self_ty,
                    )
            }
    } else {
        &&& after.len() == before.len() + 1
        &&& after.subrange(0, before.len() as int) == before
        &&& after.last().ident@ == self_ty
        &&& after.last().methods.len() == items.len()
        &&& forall|j: int| 0 <= j < items.len() ==> method_of(#[trigger] after.last().methods[j], items[j], self_ty)
    }
}

impl ItemImpl {
    /// Lowers every method and adds them to the class of the type, creating
    /// the class, with its synthetic destructor symbol, on first sight.
    pub fn unwrap(self, module: &mut TsModule)
        requires
            old(module).wf(),
        ensures
            final(module).wf(),
            impl_registered(
                old(module).ffi_lib.interface.symbols@,
                final(module).ffi_lib.interface.symbols@,
                self.self_ty@,
                self.items@,
                old(module).class_defs.names().contains(self.self_ty@),
            ),
            class_extended(old(module).class_defs.store@, final(module).class_defs.store@, self.self_ty@, self.items@),
            final(module).class_defs.names() == old(module).class_defs.names().insert(self.self_ty@),
            final(module).functions == old(module).functions,
            final(module).ffi_lib.dylib_path == old(module).ffi_lib.dylib_path,
            final(module).ffi_lib.lazy == old(module).ffi_lib.lazy,
            final(module).ffi_lib.export == old(module).ffi_lib.export,
            final(module).type_defs.extended == old(module).type_defs.extended,
    {
        let ghost before = module.ffi_lib.interface.symbols@;
        let ghost items0 = self.items@;
        let ghost was_class = module.class_defs.names().contains(self.self_ty@);
        let ghost classes0 = module.class_defs.names();
        let mut items = self.items;
        let n = items.len();
        let mut methods: Vec<TsMethod> = Vec::new();
        let mut i: usize = 0;
        while i < n
            invariant
                i <= n,
                n == items0.len(),
                items@ == items0.subrange(i as int, n as int),
                module.wf(),
                methods.len() == i,
                forall|j: int| 0 <= j < i ==> method_of(#[trigger] methods[j], items0[j], self.self_ty@),
                module.ffi_lib.interface.symbols@.len() == before.len() + i,
                module.ffi_lib.interface.symbols@.subrange(0, before.len() as int) == before,
                forall|j: int|
                    0 <= j < i ==> method_registered(
                        #[trigger] module.ffi_lib.interface.symbols@[before.len() + j],
                        self.self_ty@,
                        items0[j],
                    ),
                module.class_defs == old(module).class_defs,
                module.functions == old(module).functions,
                module.ffi_lib.dylib_path == old(module).ffi_lib.dylib_path,
                module.ffi_lib.lazy == old(module).ffi_lib.lazy,
                module.ffi_lib.export == old(module).ffi_lib.export,
                module.type_defs.extended == old(module).type_defs.extended,
            decreases n - i,
        {
            let mut item = items.remove(0);
            let ghost syms0 = module.ffi_lib.interface.symbols@;
            proof {
                assert(item == items0[i as int]);
            }
            // every method belongs to the block's type, whatever it was parsed with
            item.block.self_ty = Some(self.self_ty.clone());
            assert(item.input_models() == items0[i as int].input_models());
            let m = item.unwrap(module);
            let ghost m0 = methods@;
            methods.push(m);
            proof {
                let syms = module.ffi_lib.interface.symbols@;
                assert(syms.drop_last() == syms0);
                assert(syms.subrange(0, before.len() as int) =~= syms0.subrange(0, before.len() as int));
                assert(method_of(methods[i as int], items0[i as int], self.self_ty@));
                assert forall|j: int| 0 <= j < i + 1 implies method_of(#[trigger] methods[j], items0[j], self.self_ty@) by {
                    if j < i {
                        assert(methods[j] == m0[j]);
                    }
                }
                assert forall|j: int| 0 <= j < i + 1 implies method_registered(
                    #[trigger] syms[before.len() + j],
                    self.self_ty@,
                    items0[j],
                ) by {
                    if j < i {
                        assert(syms[before.len() + j] == syms0[before.len() + j]);
                    } else {
                        assert(syms[before.len() + j] == syms.last());
                    }
                }
                assert(items@ =~= items0.subrange(i + 1, n as int));
            }
            i = i + 1;
        }
        match module.class_defs.find(self.self_ty.as_str()) {
            Some(k) => {
                let ghost store0 = module.class_defs.store@;
                let mut class = module.class_defs.store.remove(k);
                let ghost id0 = class.ident;
                let ghost old_methods = class.methods@;
                let ghost new_methods = methods@;
                class.methods.append(&mut methods);
                module.class_defs.store.insert(k, class);
                proof {
                    let after = module.class_defs.store@;
                    assert(after =~= store0.update(k as int, class));
                    assert(class.methods@ == old_methods + new_methods);
                    assert(old_methods == store0[k as int].methods@);
                    assert forall|c: int| 0 <= c < store0.len() && #[trigger] store0[c].ident@ == self.self_ty@ implies c
                        == k by {
                        if c != k {
                            assert(store0[c].ident@ == store0[k as int].ident@);
                        }
                    }
                    assert forall|j: int| 0 <= j < n implies method_of(
                        #[trigger] after[k as int].methods[store0[k as int].methods.len() + j],
                        items0[j],
                        self.self_ty@,
                    ) by {
                        assert(after[k as int].methods[store0[k as int].methods.len() + j] == new_methods[j]);
                    }
                    assert(after[k as int].methods@.subrange(0, store0[k as int].methods.len() as int)
                        =~= store0[k as int].methods@);
                    assert(class_extended(store0, after, self.self_ty@, items0));
                    assert(module.class_defs.store@ =~= store0.remove(k as int).insert(k as int, class));
                    assert(class.ident == id0);
                    assert(forall|j: int| 0 <= j < store0.len() ==> (#[trigger] module.class_defs.store@[j]).ident == store0[j].ident);
                    assert(classes0.contains(self.self_ty@));
                    assert forall|x: Seq<char>| module.class_defs.names().contains(x) <==> classes0.contains(x) by {
                        if module.class_defs.names().contains(x) {
                            let j = choose|j: int| 0 <= j < module.class_defs.store.len() && module.class_defs.store[j].ident@ == x;
                            assert(store0[j].ident@ == x);
                        }
                        if classes0.contains(x) {
                            let j = choose|j: int| 0 <= j < store0.len() && store0[j].ident@ == x;
                            assert(module.class_defs.store@[j].ident@ == x);
                        }
                    }
                    assert(module.class_defs.names() =~= classes0.insert(self.self_ty@));
                }
            },
            None => {
                let ghost syms0 = module.ffi_lib.interface.symbols@;
                let name = symbol_name_of(&Some(self.self_ty.clone()), "drop");
                let mut inputs: Vec<FfiType> = Vec::new();
                inputs.push(FfiType::Pointer);
                module.ffi_lib.interface.push_fn(
                    FfiFunction { ident: name, inputs, output: FfiType::Void, non_blocking: false },
                );
                proof {
                    let syms = module.ffi_lib.interface.symbols@;
                    assert(syms.subrange(0, before.len() as int) =~= syms0.subrange(0, before.len() as int));
                    assert forall|j: int| 0 <= j < n implies method_registered(
                        #[trigger] syms[before.len() + j],
                        self.self_ty@,
                        items0[j],
                    ) by {
                        assert(syms[before.len() + j] == syms0[before.len() + j]);
                    }
                    assert(inputs@ =~= seq![FfiType::Pointer]);
                }
                let ghost store0 = module.class_defs.store@;
                let ghost new_methods = methods;
                module.class_defs.store.push(TsClass { ident: self.self_ty, methods });
                proof {
                    assert(!(exists|c: int| 0 <= c < store0.len() && store0[c].ident@ == self.self_ty@)) by {
                        if exists|c: int| 0 <= c < store0.len() && store0[c].ident@ == self.self_ty@ {
                            let c = choose|c: int| 0 <= c < store0.len() && store0[c].ident@ == self.self_ty@;
                            assert(classes0.contains(self.self_ty@));
                        }
                    }
                    assert(module.class_defs.store@.subrange(0, store0.len() as int) =~= store0);
                    assert(module.class_defs.store@.last().methods == new_methods);
                    assert(module.class_defs.names() =~= classes0.insert(self.self_ty@)) by {
                        assert forall|x: Seq<char>| module.class_defs.names().contains(x) implies classes0.insert(self.self_ty@).contains(x) by {
                            let j = choose|j: int| 0 <= j < module.class_defs.store.len() && module.class_defs.store[j].ident@ == x;
                            if j < module.class_defs.store.len() - 1 {
                                assert(old(module).class_defs.store[j].ident@ == x);
                            }
                        }
                        assert forall|x: Seq<char>| classes0.insert(self.self_ty@).contains(x) implies module.class_defs.names().contains(x) by {
                            if x == self.self_ty@ {
                                assert(module.class_defs.store[module.class_defs.store.len() - 1].ident@ == x);
                            } else {
                                let j = choose|j: int| 0 <= j < old(module).class_defs.store.len() && old(module).class_defs.store[j].ident@ == x;
                                assert(module.class_defs.store[j].ident@ == x);
                            }
                        }
                    }
                }
            },
        }
    }
}

/// Lowering a sequence of types lowers each of them.
pub proof fn lower_list_map(s: Seq<TypeModel>)
    ensures
        lower_list(s) == s.map_values(|t: TypeModel| lower(t)),
    decreases s.len(),
{
    if s.len() > 0 {
        lower_list_map(s.drop_last());
        assert(lower_list(s) =~= s.map_values(|t: TypeModel| lower(t)));
    }
}

} // verus!
