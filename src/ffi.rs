//! The foreign function interface descriptor: one entry per exported native
//! symbol, with its C-ABI parameter and result tags.
use vstd::prelude::*;

verus! {

/// A C-ABI type tag as the script runtime's foreign function interface names it.
#[derive(Clone, Copy, Debug, PartialEq, Eq, Structural)]
pub enum FfiType {
    U8,
    U16,
    U32,
    U64,
    Usize,
    I8,
    I16,
    I32,
    I64,
    Isize,
    F32,
    F64,
    Void,
    Bool,
    Pointer,
    Buffer,
    FnPointer,
}

pub open spec fn ffi_type_name(t: FfiType) -> Seq<char> {
    match t {
        FfiType::U8 => "\"u8\""@,
        FfiType::U16 => "\"u16\""@,
        FfiType::U32 => "\"u32\""@,
        FfiType::U64 => "\"u64\""@,
        FfiType::Usize => "\"usize\""@,
        FfiType::I8 => "\"i8\""@,
        FfiType::I16 => "\"i16\""@,
        FfiType::I32 => "\"i32\""@,
        FfiType::I64 => "\"i64\""@,
        FfiType::Isize => "\"isize\""@,
        FfiType::F32 => "\"f32\""@,
        FfiType::F64 => "\"f64\""@,
        FfiType::Void => "\"void\""@,
        FfiType::Bool => "\"bool\""@,
        FfiType::Pointer => "\"pointer\""@,
        FfiType::Buffer => "\"buffer\""@,
        FfiType::FnPointer => "\"function\""@,
    }
}

impl FfiType {
    /// The tag as a quoted script string literal, as in `"u8"`.
    pub fn print(&self) -> (r: &'static str)
        ensures
            r@ == ffi_type_name(*self),
    {
        match self {
            FfiType::U8 => "\"u8\"",
            FfiType::U16 => "\"u16\"",
            FfiType::U32 => "\"u32\"",
            FfiType::U64 => "\"u64\"",
            FfiType::Usize => "\"usize\"",
            FfiType::I8 => "\"i8\"",
            FfiType::I16 => "\"i16\"",
            FfiType::I32 => "\"i32\"",
            FfiType::I64 => "\"i64\"",
            FfiType::Isize => "\"isize\"",
            FfiType::F32 => "\"f32\"",
            FfiType::F64 => "\"f64\"",
            FfiType::Void => "\"void\"",
            FfiType::Bool => "\"bool\"",
            FfiType::Pointer => "\"pointer\"",
            FfiType::Buffer => "\"buffer\"",
            FfiType::FnPointer => "\"function\"",
        }
    }
}

/// One exported native function as the foreign function interface sees it.
#[derive(Clone, Debug, PartialEq, Eq)]
pub struct FfiFunction {
    pub ident: String,
    pub inputs: Vec<FfiType>,
    pub output: FfiType,
    /// Called through the runtime's asynchronous calling convention.
    pub non_blocking: bool,
}

#[derive(Clone, Debug, PartialEq, Eq)]
pub enum FfiSymbol {
    Function(FfiFunction),
}

impl FfiSymbol {
    pub open spec fn name(self) -> Seq<char> {
        match self {
            FfiSymbol::Function(f) => f.ident@,
        }
    }
}

/// The symbol table handed to the runtime's dynamic library loader.
#[derive(Clone, Debug, PartialEq, Eq)]
pub struct FfiInterface {
    pub symbols: Vec<FfiSymbol>,
}

/// How the generated module loads the native library.
#[derive(Clone, Debug, PartialEq, Eq)]
pub struct FfiLib {
    pub interface: FfiInterface,
    pub dylib_path: String,
    /// Load on an explicit call instead of when the module is imported.
    pub lazy: bool,
    /// Export the loaded symbols from the module.
    pub export: bool,
}

/// The parameter tags of a symbol entry: the tags of `s` that are not
/// `void`, separated by `, `.
pub open spec fn params_text(s: Seq<FfiType>) -> Seq<char>
    decreases s.len(),
{
    if s.len() == 0 {
        Seq::empty()
    } else if s.last() == FfiType::Void {
        params_text(s.drop_last())
    } else if params_text(s.drop_last()).len() == 0 {
        ffi_type_name(s.last())
    } else {
        params_text(s.drop_last()) + ", "@ + ffi_type_name(s.last())
    }
}

/// A symbol entry of the interface object literal.
pub open spec fn ffi_function_text(f: FfiFunction) -> Seq<char> {
    f.ident@ + ": { parameters: ["@ + params_text(f.inputs@) + "], result: "@ + ffi_type_name(f.output)
        + (if f.non_blocking { ", non_blocking: true"@ } else { Seq::empty() }) + " }"@
}

pub open spec fn symbols_text(s: Seq<FfiSymbol>) -> Seq<char>
    decreases s.len(),
{
    if s.len() == 0 {
        Seq::empty()
    } else if s.len() == 1 {
        symbol_text(s[0])
    } else {
        symbols_text(s.drop_last()) + ", "@ + symbol_text(s.last())
    }
}

pub open spec fn symbol_text(s: FfiSymbol) -> Seq<char> {
    match s {
        FfiSymbol::Function(f) => ffi_function_text(f),
    }
}

pub open spec fn interface_text(i: FfiInterface) -> Seq<char> {
    "{ "@ + symbols_text(i.symbols@) + " }"@
}

/// The statements that load the library at `path` with the symbol table
/// `syms` and bind `symbols`.
pub open spec fn lib_text_of(syms: Seq<FfiSymbol>, path: Seq<char>, lazy: bool, export: bool) -> Seq<char> {
    let iface = "{ "@ + symbols_text(syms) + " }"@;
    if lazy {
        "let symbols: any;\nexport function load(path: string = \""@ + path
            + "\") {\nconst { dlopen } = Deno;\nconst { symbols: symbols_ } = dlopen(path, "@ + iface
            + ");\nsymbols = symbols_;\n};\n"@
    } else {
        (if export { "export "@ } else { Seq::empty() }) + "const { symbols } = Deno.dlopen(\""@ + path + "\", "@
            + iface + ");\n"@
    }
}

pub open spec fn lib_text(l: FfiLib) -> Seq<char> {
    lib_text_of(l.interface.symbols@, l.dylib_path@, l.lazy, l.export)
}

impl FfiFunction {
    /// The symbol entry, as in `__f: { parameters: ["u8"], result: "void" }`.
    pub fn print(&self) -> (r: String)
        ensures
            r@ == ffi_function_text(*self),
    {
        let mut params = String::new();
        let mut i: usize = 0;
        while i < self.inputs.len()
            invariant
                i <= self.inputs.len(),
                params@ == params_text(self.inputs@.subrange(0, i as int)),
            decreases self.inputs.len() - i,
        {
            proof {
                assert(self.inputs@.subrange(0, i + 1).drop_last() =~= self.inputs@.subrange(0, i as int));
            }
            let t = self.inputs[i];
            if t != FfiType::Void {
                if params.unicode_len() > 0 {
                    params.append(", ");
                }
                params.append(t.print());
            }
            i = i + 1;
        }
        assert(self.inputs@.subrange(0, self.inputs.len() as int) =~= self.inputs@);
        let mut r = self.ident.clone();
        r.append(": { parameters: [");
        r.append(params.as_str());
        r.append("], result: ");
        r.append(self.output.print());
        if self.non_blocking {
            r.append(", non_blocking: true");
        }
        r.append(" }");
        assert(r@ =~= ffi_function_text(*self));
        r
    }
}

impl FfiSymbol {
    pub fn print(&self) -> (r: String)
        ensures
            r@ == symbol_text(*self),
    {
        match self {
            FfiSymbol::Function(f) => f.print(),
        }
    }
}

impl FfiInterface {
    pub fn new() -> (r: Self)
        ensures
            r.symbols@.len() == 0,
    {
        FfiInterface { symbols: Vec::new() }
    }

    /// Adds a function symbol at the end.
    pub fn push_fn(&mut self, ffi_function: FfiFunction)
        ensures
            final(self).symbols@ == old(self).symbols@.push(FfiSymbol::Function(ffi_function)),
    {
        self.symbols.push(FfiSymbol::Function(ffi_function));
    }

    /// Moves every symbol of `other` to the end of this interface.
    pub fn append(&mut self, other: &mut FfiInterface)
        ensures
            final(self).symbols@ == old(self).symbols@ + old(other).symbols@,
            final(other).symbols@.len() == 0,
    {
        self.symbols.append(&mut other.symbols);
    }

    /// The interface object literal, as in `{ __f: { ... }, __g: { ... } }`.
    pub fn print(&self) -> (r: String)
        ensures
            r@ == interface_text(*self),
    {
        let mut body = String::new();
        let mut i: usize = 0;
        while i < self.symbols.len()
            invariant
                i <= self.symbols.len(),
                body@ == symbols_text(self.symbols@.subrange(0, i as int)),
            decreases self.symbols.len() - i,
        {
            proof {
                assert(self.symbols@.subrange(0, i + 1).drop_last() =~= self.symbols@.subrange(0, i as int));
            }
            if i > 0 {
                body.append(", ");
            }
            let t = self.symbols[i].print();
            body.append(t.as_str());
            proof {
                if i == 0 {
                    assert(body@ =~= symbols_text(self.symbols@.subrange(0, 1)));
                }
            }
            i = i + 1;
        }
        assert(self.symbols@.subrange(0, self.symbols.len() as int) =~= self.symbols@);
        String::from_str("{ ").concat(body.as_str()).concat(" }")
    }
}

impl Default for FfiInterface {
    fn default() -> (r: Self)
        ensures
            r.symbols@.len() == 0,
    {
        FfiInterface::new()
    }
}

impl FfiLib {
    pub fn new() -> (r: Self)
        ensures
            r.interface.symbols@.len() == 0,
            r.dylib_path@.len() == 0,
            !r.lazy,
            !r.export,
    {
        FfiLib { interface: FfiInterface::new(), dylib_path: String::new(), lazy: false, export: false }
    }

    /// The statements that load the library and bind `symbols`.
    pub fn print(&self) -> (r: String)
        ensures
            r@ == lib_text(*self),
    {
        let iface = self.interface.print();
        let mut r = String::new();
        if self.lazy {
            r.append("let symbols: any;\nexport function load(path: string = \"");
            r.append(self.dylib_path.as_str());
            r.append("\") {\nconst { dlopen } = Deno;\nconst { symbols: symbols_ } = dlopen(path, ");
            r.append(iface.as_str());
            r.append(");\nsymbols = symbols_;\n};\n");
        } else {
            if self.export {
                r.append("export ");
            }
            r.append("const { symbols } = Deno.dlopen(\"");
            r.append(self.dylib_path.as_str());
            r.append("\", ");
            r.append(iface.as_str());
            r.append(");\n");
        }
        assert(r@ =~= lib_text(*self));
        r
    }
}

impl Default for FfiLib {
    fn default() -> (r: Self)
        ensures
            r.interface.symbols@.len() == 0,
            r.dylib_path@.len() == 0,
            !r.lazy,
            !r.export,
    {
        FfiLib::new()
    }
}

} // verus!
