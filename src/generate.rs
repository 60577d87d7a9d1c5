//! Assembly of the script module: the symbol table load statement, the
//! helper type declarations the module needs, the placeholder classes, the
//! classes and the free functions.
use vstd::prelude::*;
use crate::error::InternalError;
use crate::ffi::{FfiInterface, FfiLib, FfiSymbol, lib_text_of};
use crate::format::{TsFormat, ts_formatted};
use crate::item::{File, Item, ItemImpl};
use crate::lower::{RustTypeDefs, RustTypeList};
use crate::module::{CodegenOpts, TsModule};
use crate::print::{classes_text, functions_text, placeholders_text, printable};
use crate::shim::{join, join_strs};
use crate::item::strs;
use crate::template::{FileStr, between, outside};

verus! {

broadcast use vstd::std_specs::vec::group_vec_axioms;

pub const CONTENT_START: &'static str = "// <!-- deno-bindgen2-content-start -->\n";
pub const CONTENT_END: &'static str = "// <!-- deno-bindgen2-content-end -->\n";
pub const ALT_START: &'static str = "// <!-- deno-bindgen2-alt-type-start -->\n";
pub const ALT_END: &'static str = "// <!-- deno-bindgen2-alt-type-end -->\n";
pub const IGNORE_START: &'static str = "// <!-- deno-bindgen2-ignore-start -->";
pub const IGNORE_END: &'static str = "// <!-- deno-bindgen2-ignore-end -->";
pub const SYMBOLS_START: &'static str = "    // <!-- deno-bindgen2-ffi-symbols-start -->\n";
pub const SYMBOLS_END: &'static str = "    // <!-- deno-bindgen2-ffi-symbols-end -->\n";

/// The persisted helper templates: the utilities, the core helper types
/// and the extended helper types.
pub struct Templates {
    pub util: String,
    pub core: String,
    pub extended: String,
}

pub open spec fn tag_name(t: RustTypeList) -> Seq<char> {
    match t {
        RustTypeList::U8 => "RustU8"@,
        RustTypeList::U16 => "RustU16"@,
        RustTypeList::U32 => "RustU32"@,
        RustTypeList::I8 => "RustI8"@,
        RustTypeList::I16 => "RustI16"@,
        RustTypeList::I32 => "RustI32"@,
        RustTypeList::F32 => "RustF32"@,
        RustTypeList::F64 => "RustF64"@,
        RustTypeList::U64 => "RustU64"@,
        RustTypeList::Usize => "RustUsize"@,
        RustTypeList::I64 => "RustI64"@,
        RustTypeList::Isize => "RustIsize"@,
        RustTypeList::Char => "RustChar"@,
        RustTypeList::FnPtr => "RustFnPtr"@,
        RustTypeList::Ptr => "RustPtr"@,
        RustTypeList::PtrMut => "RustPtrMut"@,
        RustTypeList::Ref => "RustRef"@,
        RustTypeList::RefMut => "RustRefMut"@,
        RustTypeList::Box => "RustBox"@,
        RustTypeList::Str => "RustStr"@,
        RustTypeList::String => "RustString"@,
        RustTypeList::Slice => "RustSlice"@,
        RustTypeList::Vec => "RustVec"@,
        RustTypeList::Tuple => "RustTuple"@,
        RustTypeList::Unsupported => "RustUnsupportedType"@,
    }
}

/// Helper types that are classes (imported as values); the others are
/// imported as types only.
pub open spec fn is_class_tag(t: RustTypeList) -> bool {
    match t {
        RustTypeList::Char | RustTypeList::Box | RustTypeList::Str | RustTypeList::String | RustTypeList::Slice
        | RustTypeList::Vec | RustTypeList::Tuple => true,
        _ => false,
    }
}

impl RustTypeList {
    pub fn name(&self) -> (r: &'static str)
        ensures
            r@ == tag_name(*self),
    {
        match self {
            RustTypeList::U8 => "RustU8",
            RustTypeList::U16 => "RustU16",
            RustTypeList::U32 => "RustU32",
            RustTypeList::I8 => "RustI8",
            RustTypeList::I16 => "RustI16",
            RustTypeList::I32 => "RustI32",
            RustTypeList::F32 => "RustF32",
            RustTypeList::F64 => "RustF64",
            RustTypeList::U64 => "RustU64",
            RustTypeList::Usize => "RustUsize",
            RustTypeList::I64 => "RustI64",
            RustTypeList::Isize => "RustIsize",
            RustTypeList::Char => "RustChar",
            RustTypeList::FnPtr => "RustFnPtr",
            RustTypeList::Ptr => "RustPtr",
            RustTypeList::PtrMut => "RustPtrMut",
            RustTypeList::Ref => "RustRef",
            RustTypeList::RefMut => "RustRefMut",
            RustTypeList::Box => "RustBox",
            RustTypeList::Str => "RustStr",
            RustTypeList::String => "RustString",
            RustTypeList::Slice => "RustSlice",
            RustTypeList::Vec => "RustVec",
            RustTypeList::Tuple => "RustTuple",
            RustTypeList::Unsupported => "RustUnsupportedType",
        }
    }

    fn is_class(&self) -> (r: bool)
        ensures
            r == is_class_tag(*self),
    {
        match self {
            RustTypeList::Char | RustTypeList::Box | RustTypeList::Str | RustTypeList::String
            | RustTypeList::Slice | RustTypeList::Vec | RustTypeList::Tuple => true,
            _ => false,
        }
    }
}

/// Every helper type, in declaration order.
pub open spec fn all_tags() -> Seq<RustTypeList> {
    seq![
        RustTypeList::U8, RustTypeList::U16, RustTypeList::U32, RustTypeList::I8, RustTypeList::I16,
        RustTypeList::I32, RustTypeList::F32, RustTypeList::F64, RustTypeList::U64, RustTypeList::Usize,
        RustTypeList::I64, RustTypeList::Isize, RustTypeList::Char, RustTypeList::FnPtr, RustTypeList::Ptr,
        RustTypeList::PtrMut, RustTypeList::Ref, RustTypeList::RefMut, RustTypeList::Box, RustTypeList::Str,
        RustTypeList::String, RustTypeList::Slice, RustTypeList::Vec, RustTypeList::Tuple,
        RustTypeList::Unsupported,
    ]
}

/// The names of the helper types of `s` that are in `tags` and are (or are
/// not, by `class`) classes, in order.
pub open spec fn names_where(s: Seq<RustTypeList>, tags: Set<RustTypeList>, class: bool) -> Seq<Seq<char>>
    decreases s.len(),
{
    if s.len() == 0 {
        Seq::empty()
    } else {
        let prev = names_where(s.drop_last(), tags, class);
        if tags.contains(s.last()) && is_class_tag(s.last()) == class {
            prev.push(tag_name(s.last()))
        } else {
            prev
        }
    }
}

/// The export declarations appended to a separate helper type file.
pub open spec fn exports_text(types: Seq<Seq<char>>, classes: Seq<Seq<char>>) -> Seq<char> {
    "export type { "@ + join(types, ", "@) + " };\nexport { "@ + join(classes.push("RustPrototype"@), ", "@)
        + " };\n"@
}

/// The import statements of the main module for a separate helper type file.
pub open spec fn imports_text(types: Seq<Seq<char>>, classes: Seq<Seq<char>>, file: Seq<char>) -> Seq<char> {
    "import type { "@ + join(types, ", "@) + " } from \"./"@ + file + "\";\nimport { "@ + join(
        classes.push("RustPrototype"@),
        ", "@,
    ) + " } from \"./"@ + file + "\";\n"@
}

impl RustTypeDefs {
    fn names(&self, class: bool) -> (r: Vec<String>)
        ensures
            strs(r) == names_where(all_tags(), self.tags(), class),
    {
        let all = [
            RustTypeList::U8, RustTypeList::U16, RustTypeList::U32, RustTypeList::I8, RustTypeList::I16,
            RustTypeList::I32, RustTypeList::F32, RustTypeList::F64, RustTypeList::U64, RustTypeList::Usize,
            RustTypeList::I64, RustTypeList::Isize, RustTypeList::Char, RustTypeList::FnPtr, RustTypeList::Ptr,
            RustTypeList::PtrMut, RustTypeList::Ref, RustTypeList::RefMut, RustTypeList::Box, RustTypeList::Str,
            RustTypeList::String, RustTypeList::Slice, RustTypeList::Vec, RustTypeList::Tuple,
            RustTypeList::Unsupported,
        ];
        assert(all@ =~= all_tags());
        let mut r: Vec<String> = Vec::new();
        let mut i: usize = 0;
        while i < 25
            invariant
                i <= 25,
                all@ == all_tags(),
                strs(r) == names_where(all_tags().subrange(0, i as int), self.tags(), class),
            decreases 25 - i,
        {
            proof {
                assert(all_tags().subrange(0, i + 1).drop_last() =~= all_tags().subrange(0, i as int));
            }
            let t = all[i];
            if self.contains(t) && t.is_class() == class {
                let ghost r0 = r;
                r.push(String::from_str(t.name()));
                assert(strs(r) =~= strs(r0).push(tag_name(t)));
            }
            i = i + 1;
        }
        assert(all_tags().subrange(0, 25) =~= all_tags());
        r
    }

    /// The declarations for a separate helper type file, appended to
    /// `type_defs`, and the statements that import them into the main
    /// module; both empty when no helper type is used.
    pub fn print_separate(&self, type_defs: String, type_defs_name: &str) -> (r: Result<
        (String, String),
        InternalError,
    >)
        ensures
            ({
                let types = names_where(all_tags(), self.tags(), false);
                let classes = names_where(all_tags(), self.tags(), true);
                &&& types.len() == 0 && classes.len() == 0 ==> (r matches Ok((d, i)) && d@.len() == 0 && i@.len()
                    == 0)
                &&& !(types.len() == 0 && classes.len() == 0) ==> (r is Ok <==> (ts_formatted(
                    exports_text(types, classes),
                ) is Some && ts_formatted(imports_text(types, classes, type_defs_name@)) is Some))
                &&& r matches Err(e) ==> e == InternalError::Format
                &&& !(types.len() == 0 && classes.len() == 0) ==> (r matches Ok((d, i)) ==> (ts_formatted(
                    exports_text(types, classes),
                ) is Some && d@ == type_defs@ + ts_formatted(exports_text(types, classes))->0 && ts_formatted(
                    imports_text(types, classes, type_defs_name@),
                ) == Some(i@)))
            }),
    {
        let types = self.names(false);
        let mut classes = self.names(true);
        if types.len() == 0 && classes.len() == 0 {
            return Ok((String::new(), String::new()));
        }
        let ghost c0 = classes;
        classes.push(String::from_str("RustPrototype"));
        assert(strs(classes) =~= strs(c0).push("RustPrototype"@));
        let t = join_strs(&types, ", ");
        let c = join_strs(&classes, ", ");
        let mut exports = String::from_str("export type { ");
        exports.append(t.as_str());
        exports.append(" };\nexport { ");
        exports.append(c.as_str());
        exports.append(" };\n");
        let mut imports = String::from_str("import type { ");
        imports.append(t.as_str());
        imports.append(" } from \"./");
        imports.append(type_defs_name);
        imports.append("\";\nimport { ");
        imports.append(c.as_str());
        imports.append(" } from \"./");
        imports.append(type_defs_name);
        imports.append("\";\n");
        let ex = TsFormat::format(exports.as_str())?;
        let im = TsFormat::format(imports.as_str())?;
        let mut d = type_defs;
        d.append(ex.as_str());
        Ok((d, im))
    }

    /// The helper type declarations inlined in the module: the utilities,
    /// the core types, and either the extended types (whose native symbols
    /// are returned for the symbol table) or the opaque alternatives.
    pub fn print_inline(&self, templates: &Templates) -> (r: Result<(String, FfiInterface), InternalError>)
        ensures
            !self.extended ==> (r matches Ok((t, i)) ==> (i.symbols@.len() == 0 && between(
                templates.util@,
                CONTENT_START@,
                CONTENT_END@,
            ) is Some && between(templates.core@, CONTENT_START@, CONTENT_END@) is Some && between(
                templates.core@,
                ALT_START@,
                ALT_END@,
            ) is Some && t@ == between(templates.util@, CONTENT_START@, CONTENT_END@)->0 + between(
                templates.core@,
                CONTENT_START@,
                CONTENT_END@,
            )->0 + between(templates.core@, ALT_START@, ALT_END@)->0)),
            !self.extended ==> (r is Ok <==> (between(templates.util@, CONTENT_START@, CONTENT_END@) is Some
                && between(templates.core@, CONTENT_START@, CONTENT_END@) is Some && between(
                templates.core@,
                ALT_START@,
                ALT_END@,
            ) is Some)),
            r is Err ==> r == Err::<(String, FfiInterface), InternalError>(InternalError::Template),
            self.extended ==> (r matches Ok((t, _)) ==> (between(templates.util@, CONTENT_START@, CONTENT_END@)
                is Some && between(templates.core@, CONTENT_START@, CONTENT_END@) is Some && between(
                templates.extended@,
                ALT_START@,
                ALT_END@,
            ) is Some && outside(between(templates.extended@, ALT_START@, ALT_END@)->0, IGNORE_START@, IGNORE_END@)
                is Some && t@ == between(templates.util@, CONTENT_START@, CONTENT_END@)->0 + between(
                templates.core@,
                CONTENT_START@,
                CONTENT_END@,
            )->0 + concat_all(
                outside(between(templates.extended@, ALT_START@, ALT_END@)->0, IGNORE_START@, IGNORE_END@)->0,
            ))),
            self.extended ==> ((between(templates.util@, CONTENT_START@, CONTENT_END@) is None || between(
                templates.core@,
                CONTENT_START@,
                CONTENT_END@,
            ) is None || between(templates.extended@, ALT_START@, ALT_END@) is None || between(
                templates.extended@,
                SYMBOLS_START@,
                SYMBOLS_END@,
            ) is None) ==> r is Err),
    {
        let util = match FileStr::new(templates.util.as_str()).slice_between(CONTENT_START, CONTENT_END) {
            Some(s) => s,
            None => {
                return Err(InternalError::Template);
            },
        };
        let core = match FileStr::new(templates.core.as_str()).slice_between(CONTENT_START, CONTENT_END) {
            Some(s) => s,
            None => {
                return Err(InternalError::Template);
            },
        };
        let mut module = util;
        module.append(core.as_str());
        if self.extended {
            let ext = match FileStr::new(templates.extended.as_str()).slice_between(ALT_START, ALT_END) {
                Some(s) => s,
                None => {
                    return Err(InternalError::Template);
                },
            };
            proof {
                reveal_strlit("// <!-- deno-bindgen2-ignore-start -->");
            }
            let pieces = match FileStr::new(ext.as_str()).slice_out(IGNORE_START, IGNORE_END) {
                Some(p) => p,
                None => {
                    return Err(InternalError::Template);
                },
            };
            let ghost head = module@;
            let mut i: usize = 0;
            while i < pieces.len()
                invariant
                    i <= pieces.len(),
                    module@ == head + concat_all(pieces@.map_values(|x: String| x@).subrange(0, i as int)),
                decreases pieces.len() - i,
            {
                proof {
                    let ps = pieces@.map_values(|x: String| x@);
                    assert(ps.subrange(0, i + 1).drop_last() =~= ps.subrange(0, i as int));
                }
                module.append(pieces[i].as_str());
                i = i + 1;
            }
            proof {
                let ps = pieces@.map_values(|x: String| x@);
                assert(ps.subrange(0, pieces.len() as int) =~= ps);
            }
            let symbols = match FileStr::new(templates.extended.as_str()).slice_between(SYMBOLS_START, SYMBOLS_END) {
                Some(s) => s,
                None => {
                    return Err(InternalError::Template);
                },
            };
            match FfiInterface::parse_str(symbols.as_str()) {
                Ok(iface) => Ok((module, iface)),
                Err(_) => Err(InternalError::Template),
            }
        } else {
            let alt = match FileStr::new(templates.core.as_str()).slice_between(ALT_START, ALT_END) {
                Some(s) => s,
                None => {
                    return Err(InternalError::Template);
                },
            };
            module.append(alt.as_str());
            Ok((module, FfiInterface::new()))
        }
    }
}

/// Whether the templates hold the sections of the opaque helper types.
pub open spec fn opaque_templates_ok(t: Templates) -> bool {
    between(t.util@, CONTENT_START@, CONTENT_END@) is Some && between(t.core@, CONTENT_START@, CONTENT_END@) is Some
        && between(t.core@, ALT_START@, ALT_END@) is Some
}

/// The strings of `s`, one after the other.
pub open spec fn concat_all(s: Seq<Seq<char>>) -> Seq<char>
    decreases s.len(),
{
    if s.len() == 0 {
        Seq::empty()
    } else {
        concat_all(s.drop_last()) + s.last()
    }
}

/// The helper type declarations inlined in a module without the extended
/// helper types.
pub open spec fn opaque_inline(t: Templates) -> Seq<char> {
    between(t.util@, CONTENT_START@, CONTENT_END@)->0 + between(t.core@, CONTENT_START@, CONTENT_END@)->0
        + between(t.core@, ALT_START@, ALT_END@)->0
}

impl TsModule {
    /// Folds items into the module, descending into modules.
    fn unwrap_items(&mut self, all: Vec<Item>)
        requires
            old(self).wf(),
        ensures
            final(self).wf(),
            final(self).ffi_lib.dylib_path == old(self).ffi_lib.dylib_path,
            final(self).ffi_lib.lazy == old(self).ffi_lib.lazy,
            final(self).ffi_lib.export == old(self).ffi_lib.export,
            final(self).type_defs.extended == old(self).type_defs.extended,
        decreases all,
    {
        let ghost items0 = all;
        let mut items = all;
        let n = items.len();
        let mut i: usize = 0;
        while i < n
            invariant
                self.wf(),
                n == items0.len(),
                items0 == all,
                i <= n,
                items@ == items0@.subrange(i as int, n as int),
                self.ffi_lib.dylib_path == old(self).ffi_lib.dylib_path,
                self.ffi_lib.lazy == old(self).ffi_lib.lazy,
                self.ffi_lib.export == old(self).ffi_lib.export,
                self.type_defs.extended == old(self).type_defs.extended,
            decreases n - i,
        {
            let item = items.remove(0);
            proof {
                assert(item == items0@[i as int]);
                vstd::std_specs::vec::axiom_vec_index_decreases(items0, i as int);
                assert(items@ =~= items0@.subrange(i + 1, n as int));
            }
            match item {
                Item::Fn(f) => {
                    let m = f.unwrap(self);
                    self.functions.push(m);
                },
                Item::Impl(im) => {
                    im.unwrap(self);
                },
                Item::Mod(m) => {
                    proof {
                        assert(decreases_to!(items0 => items0[i as int]));
                        assert(decreases_to!(items0[i as int] => (items0[i as int])->Mod_0));
                        assert(decreases_to!((items0[i as int])->Mod_0 => (items0[i as int])->Mod_0.items));
                        assert(decreases_to!(items0 => m.items));
                    }
                    self.unwrap_items(m.items);
                },
                Item::Struct(st) => {
                    // an exported struct gets its class and its destructor
                    // even when it has no methods
                    let block = ItemImpl { attr: st.attr, unsafe_: false, self_ty: st.ident, items: Vec::new() };
                    block.unwrap(self);
                },
            }
            i = i + 1;
        }
    }

    /// Builds the module of a parsed file: every exported function and
    /// associated block is lowered and registered; a type with a class is
    /// then dropped from the placeholder types.
    pub fn new(file: File, opts: &CodegenOpts) -> (r: TsModule)
        ensures
            r.wf(),
            r.user_defs.names().disjoint(r.class_defs.names()),
            r.ffi_lib.dylib_path@ == opts.dylib_path@,
            r.ffi_lib.lazy == opts.lazy,
            !r.ffi_lib.export,
    {
        let mut module = TsModule::new_empty();
        module.ffi_lib.dylib_path = opts.dylib_path.clone();
        module.ffi_lib.lazy = opts.lazy;
        module.unwrap_items(file.items);
        module.user_defs.dedup(&module.class_defs);
        module
    }

    /// The whole module as one formatted file, the helper types inlined.
    pub fn generate_single(self, opts: &CodegenOpts, templates: &Templates) -> (r: Result<String, InternalError>)
        requires
            self.wf(),
        ensures
            !opts.extended ==> (r matches Ok(t) ==> ts_formatted(
                "// deno-lint-ignore-file\n"@ + lib_text_of(
                    self.ffi_lib.interface.symbols@,
                    self.ffi_lib.dylib_path@,
                    self.ffi_lib.lazy,
                    self.ffi_lib.export,
                ) + opaque_inline(*templates) + placeholders_text(strs(self.user_defs.store)) + classes_text(
                    self.class_defs.store@,
                ) + functions_text(self.functions.functions@),
            ) == Some(t@)),
            !opts.extended ==> (r is Ok <==> (opaque_templates_ok(*templates) && (forall|i: int|
                0 <= i < self.class_defs.store.len() ==> printable((#[trigger] self.class_defs.store[i]).methods@))
                && printable(self.functions.functions@) && ts_formatted(
                "// deno-lint-ignore-file\n"@ + lib_text_of(
                    self.ffi_lib.interface.symbols@,
                    self.ffi_lib.dylib_path@,
                    self.ffi_lib.lazy,
                    self.ffi_lib.export,
                ) + opaque_inline(*templates) + placeholders_text(strs(self.user_defs.store)) + classes_text(
                    self.class_defs.store@,
                ) + functions_text(self.functions.functions@),
            ) is Some)),
            opts.extended ==> (r matches Ok(t) ==> exists|extra: Seq<FfiSymbol>, inline: Seq<char>|
                ts_formatted(
                    "// deno-lint-ignore-file\n"@ + lib_text_of(
                        self.ffi_lib.interface.symbols@ + extra,
                        self.ffi_lib.dylib_path@,
                        self.ffi_lib.lazy,
                        self.ffi_lib.export,
                    ) + inline + placeholders_text(strs(self.user_defs.store)) + classes_text(self.class_defs.store@)
                        + functions_text(self.functions.functions@),
                ) == Some(t@)),
            opts.extended ==> (!(between(templates.util@, CONTENT_START@, CONTENT_END@) is Some && between(
                templates.core@,
                CONTENT_START@,
                CONTENT_END@,
            ) is Some && between(templates.extended@, ALT_START@, ALT_END@) is Some && between(
                templates.extended@,
                SYMBOLS_START@,
                SYMBOLS_END@,
            ) is Some) ==> r is Err),
    {
        let TsModule { mut ffi_lib, mut type_defs, user_defs, functions, class_defs } = self;
        type_defs.extended = opts.extended;
        let (defs, mut syms) = type_defs.print_inline(templates)?;
        let ghost extra = syms.symbols@;
        ffi_lib.interface.append(&mut syms);
        proof {
            if !opts.extended {
                assert(ffi_lib.interface.symbols@ =~= self.ffi_lib.interface.symbols@);
            }
        }
        let classes = class_defs.print()?;
        let funcs = functions.print()?;
        let mut text = String::from_str("// deno-lint-ignore-file\n");
        text.append(ffi_lib.print().as_str());
        text.append(defs.as_str());
        text.append(user_defs.print().as_str());
        text.append(classes.as_str());
        text.append(funcs.as_str());
        proof {
            if opts.extended {
                assert(ffi_lib.interface.symbols@ == self.ffi_lib.interface.symbols@ + extra);
            }
        }
        TsFormat::format(text.as_str())
    }

    /// The module and a separate file of helper type declarations named
    /// `type_defs_name`, which the module imports.
    pub fn generate_multiple(self, opts: &CodegenOpts, templates: &Templates, type_defs_name: &str) -> (r: Result<
        (String, String),
        InternalError,
    >)
        requires
            self.wf(),
        ensures
            !opts.extended ==> (r matches Ok((m, d)) ==> ({
                let types = names_where(all_tags(), self.type_defs.tags(), false);
                let classes = names_where(all_tags(), self.type_defs.tags(), true);
                let none = types.len() == 0 && classes.len() == 0;
                let imports = if none {
                    Seq::<char>::empty()
                } else {
                    ts_formatted(imports_text(types, classes, type_defs_name@))->0
                };
                &&& ts_formatted(
                    imports + lib_text_of(
                        self.ffi_lib.interface.symbols@,
                        self.ffi_lib.dylib_path@,
                        self.ffi_lib.lazy,
                        self.ffi_lib.export,
                    ) + placeholders_text(strs(self.user_defs.store)) + classes_text(self.class_defs.store@)
                        + functions_text(self.functions.functions@),
                ) == Some(m@)
                &&& none ==> d@.len() == 0
                &&& !none ==> d@ == "// deno-lint-ignore-file\n"@ + opaque_inline(*templates) + ts_formatted(
                    exports_text(types, classes),
                )->0
            })),
    {
        let TsModule { mut ffi_lib, mut type_defs, user_defs, functions, class_defs } = self;
        type_defs.extended = opts.extended;
        let (raw_defs, mut syms) = type_defs.print_inline(templates)?;
        proof {
            assert(type_defs.tags() == self.type_defs.tags());
        }
        let mut builder = String::from_str("// deno-lint-ignore-file\n");
        if opts.extended {
            match &opts.embedded {
                Some(path) => {
                    let mut embedded = FfiLib::new();
                    embedded.dylib_path = path.clone();
                    embedded.interface.append(&mut syms);
                    let loaded = TsFormat::format(embedded.print().as_str())?;
                    builder.append(loaded.as_str());
                },
                None => {
                    ffi_lib.interface.append(&mut syms);
                    ffi_lib.export = true;
                    let mut import = String::from_str("import { symbols } from \"./");
                    import.append(opts.file_name.as_str());
                    import.append("\";\n");
                    let formatted = TsFormat::format(import.as_str())?;
                    builder.append(formatted.as_str());
                },
            }
        }
        builder.append(raw_defs.as_str());
        let (defs, imports) = type_defs.print_separate(builder, type_defs_name)?;
        let classes = class_defs.print()?;
        let funcs = functions.print()?;
        let mut text = imports;
        text.append(ffi_lib.print().as_str());
        text.append(user_defs.print().as_str());
        text.append(classes.as_str());
        text.append(funcs.as_str());
        let module = TsFormat::format(text.as_str())?;
        Ok((module, defs))
    }
}

} // verus!
