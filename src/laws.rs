//! Properties that relate several parts of the generator.
use vstd::prelude::*;
use crate::ffi::FfiSymbol;
use crate::item::{Association, ItemFn, opt_str};
use crate::lex::Token;
use crate::lower::{RustTypeList, ffi_of, helpers, lower, user_types};
use crate::module::{drop_symbol, impl_registered, method_registered};
use crate::parse::{expected_assoc, is_kw, is_punct, receiver_kind};
use crate::shim::{out_stmt, ret_text, shim_input, shim_output, shim_params, shim_symbol, symbol_name};
use crate::ty::{Type, TypeModel, native_text};

verus! {

/// Lowering depends on the type alone: two types of the same value get the
/// same C-ABI tag and script-side type and record the same helper and user
/// types, and lowering a type a second time adds nothing to the registries.
pub proof fn lemma_lowering_deterministic(a: Type, b: Type, tags: Set<RustTypeList>, names: Set<Seq<char>>)
    requires
        a.model() == b.model(),
    ensures
        ffi_of(a.model()) == ffi_of(b.model()),
        lower(a.model()) == lower(b.model()),
        helpers(a.model()) == helpers(b.model()),
        user_types(a.model()) == user_types(b.model()),
        (tags + helpers(a.model())) + helpers(b.model()) == tags + helpers(a.model()),
        (names + user_types(a.model())) + user_types(b.model()) == names + user_types(a.model()),
{
    assert((tags + helpers(a.model())) + helpers(b.model()) =~= tags + helpers(a.model()));
    assert((names + user_types(a.model())) + user_types(b.model()) =~= names + user_types(a.model()));
}

/// The shim of a function and its symbol table entry carry the same name:
/// the entry is registered from the function as parsed, the shim is named
/// from the transformed function, and the transformation keeps the name and
/// the enclosing type.
pub proof fn lemma_symbol_names_agree(parsed: ItemFn, transformed: ItemFn, entry: FfiSymbol)
    requires
        transformed.ident == parsed.ident,
        transformed.block.self_ty == parsed.block.self_ty,
        entry.name() == symbol_name(opt_str(parsed.block.self_ty), parsed.ident@),
    ensures
        shim_symbol(transformed) == entry.name(),
{
}

/// A `()` parameter stays `()` through the transformation and is left out
/// of the shim's parameter list: every shim parameter stands for a non-`()`
/// input, one for one. A function returning `()` gets no out statement and
/// no return arrow.
pub proof fn lemma_void_omitted(ins: Seq<TypeModel>, args: Seq<Seq<char>>)
    ensures
        shim_input(TypeModel::Void) == TypeModel::Void,
        shim_params(ins, args).len() == ins.filter(|t: TypeModel| !(t is Void)).len(),
        forall|j: int|
            0 <= j < shim_params(ins, args).len() ==> exists|k: int|
                0 <= k < ins.len() && !(ins[k] is Void) && #[trigger] shim_params(ins, args)[j] == args[k] + ": "@
                    + native_text(ins[k]),
        out_stmt(TypeModel::Void) is None,
        shim_output(TypeModel::Void) == TypeModel::Void,
        ret_text(TypeModel::Void) == Seq::<char>::empty(),
    decreases ins.len(),
{
    reveal(Seq::filter);
    if ins.len() > 0 {
        lemma_void_omitted(ins.drop_last(), args);
        assert(ins.drop_last().filter(|t: TypeModel| !(t is Void)) == ins.filter(|t: TypeModel| !(t is Void)).take(
            ins.drop_last().filter(|t: TypeModel| !(t is Void)).len() as int,
        )) by {
            assert(ins.filter(|t: TypeModel| !(t is Void)) =~= if !(ins.last() is Void) {
                ins.drop_last().filter(|t: TypeModel| !(t is Void)).push(ins.last())
            } else {
                ins.drop_last().filter(|t: TypeModel| !(t is Void))
            });
        }
        let prev = shim_params(ins.drop_last(), args);
        assert forall|j: int| 0 <= j < shim_params(ins, args).len() implies exists|k: int|
            0 <= k < ins.len() && !(ins[k] is Void) && #[trigger] shim_params(ins, args)[j] == args[k] + ": "@
                + native_text(ins[k]) by {
            if j < prev.len() {
                let k = choose|k: int|
                    0 <= k < ins.drop_last().len() && !(ins.drop_last()[k] is Void) && #[trigger] prev[j] == args[k]
                        + ": "@ + native_text(ins.drop_last()[k]);
                assert(ins[k] == ins.drop_last()[k]);
            } else {
                assert(shim_params(ins, args)[j] == args[ins.len() - 1] + ": "@ + native_text(ins[ins.len() - 1]));
            }
        }
    }
}

/// The number of symbols of `s` named `n`.
pub open spec fn count_named(s: Seq<FfiSymbol>, n: Seq<char>) -> nat
    decreases s.len(),
{
    if s.len() == 0 {
        0
    } else {
        count_named(s.drop_last(), n) + (if s.last().name() == n { 1nat } else { 0nat })
    }
}

proof fn lemma_method_not_drop(t: Seq<char>, ident: Seq<char>)
    requires
        ident != "drop"@,
    ensures
        symbol_name(Some(t), ident) != drop_symbol(t),
{
    let a = symbol_name(Some(t), ident);
    let b = drop_symbol(t);
    let p = "__"@ + t + "__"@;
    assert(a == p + ident);
    assert(b == p + "drop"@);
    if a == b {
        assert(ident =~= a.subrange(p.len() as int, a.len() as int));
        assert("drop"@ =~= b.subrange(p.len() as int, b.len() as int));
    }
}

proof fn lemma_no_drop_among_methods(added: Seq<FfiSymbol>, t: Seq<char>, idents: Seq<Seq<char>>, k: int)
    requires
        0 <= k <= idents.len(),
        idents.len() <= added.len(),
        forall|j: int| 0 <= j < idents.len() ==> #[trigger] added[j].name() == symbol_name(Some(t), idents[j]),
        forall|j: int| 0 <= j < idents.len() ==> #[trigger] idents[j] != "drop"@,
    ensures
        count_named(added.subrange(0, k), drop_symbol(t)) == 0,
    decreases k,
{
    if k > 0 {
        lemma_no_drop_among_methods(added, t, idents, k - 1);
        assert(added.subrange(0, k).drop_last() =~= added.subrange(0, k - 1));
        lemma_method_not_drop(t, idents[k - 1]);
    }
}

/// The first associated block of a type adds exactly one destructor symbol
/// `__<Type>__drop` for it (none of its methods being named `drop`), and a
/// later block of the same type adds none: every exported type can be
/// released exactly one way from the script side.
pub proof fn lemma_destructor_registered_once(
    before: Seq<FfiSymbol>,
    after: Seq<FfiSymbol>,
    self_ty: Seq<char>,
    items: Seq<ItemFn>,
    was_class: bool,
)
    requires
        impl_registered(before, after, self_ty, items, was_class),
        forall|j: int| 0 <= j < items.len() ==> (#[trigger] items[j]).ident@ != "drop"@,
    ensures
        count_named(after.subrange(before.len() as int, after.len() as int), drop_symbol(self_ty)) == (if was_class {
            0nat
        } else {
            1nat
        }),
{
    let added = after.subrange(before.len() as int, after.len() as int);
    let idents = items.map_values(|f: ItemFn| f.ident@);
    assert forall|j: int| 0 <= j < idents.len() implies #[trigger] idents[j] != "drop"@ by {
        assert(idents[j] == items[j].ident@);
    }
    assert forall|j: int| 0 <= j < idents.len() implies #[trigger] added[j].name() == symbol_name(
        Some(self_ty),
        idents[j],
    ) by {
        assert(added[j] == after[before.len() + j]);
        assert(method_registered(after[before.len() + j], self_ty, items[j]));
    }
    lemma_no_drop_among_methods(added, self_ty, idents, idents.len() as int);
    if was_class {
        assert(added =~= added.subrange(0, idents.len() as int));
    } else {
        assert(added.drop_last() =~= added.subrange(0, idents.len() as int));
        assert(added.last() == after.last());
    }
}

/// A type with a class is never also a placeholder: after the
/// de-duplication the two sets of names are disjoint.
pub proof fn lemma_dedup_disjoint(placeholders: Set<Seq<char>>, classes: Set<Seq<char>>)
    ensures
        placeholders.difference(classes).disjoint(classes),
{
}

/// Association inference inside an associated block: `self` makes a
/// destructor (the parser also requires the function to be `unsafe`),
/// `&self` an instance method, `&mut self` a mutating instance method, and
/// no receiver a static function.
pub proof fn lemma_association_inference(toks: Seq<Token>, p: int)
    ensures
        is_kw(toks, p, "self"@) ==> expected_assoc(true, receiver_kind(toks, p), false) == Some(
            Association::Destructor,
        ),
        is_punct(toks, p, '&') && is_kw(toks, p + 1, "self"@) ==> expected_assoc(true, receiver_kind(toks, p), false)
            == Some(Association::Instance),
        is_punct(toks, p, '&') && is_kw(toks, p + 1, "mut"@) && is_kw(toks, p + 2, "self"@) ==> expected_assoc(
            true,
            receiver_kind(toks, p),
            false,
        ) == Some(Association::InstanceMut),
        receiver_kind(toks, p) is None ==> expected_assoc(true, receiver_kind(toks, p), false) == Some(
            Association::Static,
        ),
{
    reveal_strlit("mut");
    reveal_strlit("self");
    assert("mut"@.len() != "self"@.len());
}

} // verus!
