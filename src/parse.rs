//! The source parser: a restricted item grammar over tokens. Functions,
//! associated blocks, structs and modules are read; generics, `where`
//! clauses, `async`, non-C ABIs, trait implementations and path-qualified
//! implementing types are rejected with a located diagnostic.
use vstd::prelude::*;
use crate::attr::{Attribute, Marker, Meta, sentinel};
use crate::error::{Diagnostic, ParseError};
use crate::item::{Association, Block, File, Item, ItemFn, ItemImpl, ItemMod, ItemStruct, opt_str};
use crate::ffi::{FfiFunction, FfiInterface, FfiSymbol, FfiType};
use crate::lex::{Token, TokenModel, lex, lex_spec, token_models};
use crate::ty::{Type, TypeArray, TypeModel, TypeNumeric, decimal_string, lemma_models, models, str_eq};

verus! {

pub open spec fn is_kw(toks: Seq<Token>, p: int, kw: Seq<char>) -> bool {
    0 <= p < toks.len() && (toks[p] matches Token::Ident(s) && s@ == kw)
}

pub open spec fn is_punct(toks: Seq<Token>, p: int, c: char) -> bool {
    0 <= p < toks.len() && toks[p] == Token::Punct(c)
}

pub open spec fn is_open(toks: Seq<Token>, p: int, c: char) -> bool {
    0 <= p < toks.len() && toks[p] == Token::Open(c)
}

fn kw_at(toks: &Vec<Token>, p: usize, kw: &str) -> (r: bool)
    ensures
        r == is_kw(toks@, p as int, kw@),
{
    if p < toks.len() {
        match &toks[p] {
            Token::Ident(s) => str_eq(s.as_str(), kw),
            _ => false,
        }
    } else {
        false
    }
}

fn punct_at(toks: &Vec<Token>, p: usize, c: char) -> (r: bool)
    ensures
        r == is_punct(toks@, p as int, c),
{
    if p < toks.len() {
        match &toks[p] {
            Token::Punct(d) => *d == c,
            _ => false,
        }
    } else {
        false
    }
}

fn open_at(toks: &Vec<Token>, p: usize, c: char) -> (r: bool)
    ensures
        r == is_open(toks@, p as int, c),
{
    if p < toks.len() {
        match &toks[p] {
            Token::Open(d) => *d == c,
            _ => false,
        }
    } else {
        false
    }
}

fn close_at(toks: &Vec<Token>, p: usize, c: char) -> (r: bool)
    ensures
        r == (p < toks.len() && toks@[p as int] == Token::Close(c)),
{
    if p < toks.len() {
        match &toks[p] {
            Token::Close(d) => *d == c,
            _ => false,
        }
    } else {
        false
    }
}

fn err<T>(error: ParseError, at: usize) -> (r: Result<T, Diagnostic>)
    ensures
        r == Err::<T, Diagnostic>(Diagnostic { error, at }),
{
    Err(Diagnostic { error, at })
}

/// Scans from `j` at nesting depth `depth` to the index after the
/// delimiter that closes the group.
pub open spec fn group_scan(toks: Seq<Token>, j: int, depth: nat) -> Option<int>
    decreases toks.len() - j,
{
    if j < 0 || j >= toks.len() {
        None
    } else {
        match toks[j] {
            Token::Open(_) => if depth >= usize::MAX {
                None
            } else {
                group_scan(toks, j + 1, depth + 1)
            },
            Token::Close(_) => if depth <= 1 {
                Some(j + 1)
            } else {
                group_scan(toks, j + 1, (depth - 1) as nat)
            },
            _ => group_scan(toks, j + 1, depth),
        }
    }
}

/// The index after the group that opens at `pos`.
pub open spec fn group_end(toks: Seq<Token>, pos: int) -> Option<int> {
    if 0 <= pos < toks.len() && toks[pos] is Open {
        group_scan(toks, pos + 1, 1)
    } else {
        None
    }
}

/// Skips a delimited group that opens at `pos`; returns the index after its
/// closing delimiter.
fn skip_group(toks: &Vec<Token>, pos: usize) -> (r: Result<usize, Diagnostic>)
    requires
        pos < toks.len(),
    ensures
        r matches Ok(end) ==> pos + 2 <= end <= toks.len(),
        r is Ok <==> group_end(toks@, pos as int) is Some,
        r matches Ok(end) ==> group_end(toks@, pos as int) == Some(end as int),
{
    match &toks[pos] {
        Token::Open(_) => {},
        _ => {
            return err(ParseError::Unexpected, pos);
        },
    }
    let mut depth: usize = 1;
    let mut i = pos + 1;
    while i < toks.len()
        invariant
            pos < i <= toks.len(),
            depth >= 1,
            group_end(toks@, pos as int) == group_scan(toks@, i as int, depth as nat),
        decreases toks.len() - i,
    {
        match &toks[i] {
            Token::Open(_) => {
                if depth == usize::MAX {
                    return err(ParseError::Unbalanced, i);
                }
                depth = depth + 1;
            },
            Token::Close(_) => {
                if depth == 1 {
                    return Ok(i + 1);
                }
                depth = depth - 1;
            },
            _ => {},
        }
        i = i + 1;
    }
    err(ParseError::UnexpectedEnd, pos)
}

fn is_word(t: &Token) -> (r: bool) {
    match t {
        Token::Ident(_) | Token::Lit(_) | Token::Int(_) | Token::Lifetime(_) => true,
        _ => false,
    }
}

/// The text of the tokens in `from..to`, with `Self` spelled as the
/// enclosing type.
fn render(toks: &Vec<Token>, from: usize, to: usize, self_ty: &Option<String>) -> (r: String)
    requires
        from <= to <= toks.len(),
{
    let mut r = String::new();
    let mut i = from;
    while i < to
        invariant
            from <= i <= to <= toks.len(),
        decreases to - i,
    {
        if i > from && is_word(&toks[i - 1]) && is_word(&toks[i]) {
            r.append(" ");
        }
        match &toks[i] {
            Token::Ident(s) => {
                let shown = match self_ty {
                    Some(t) => if str_eq(s.as_str(), "Self") {
                        t.as_str()
                    } else {
                        s.as_str()
                    },
                    None => s.as_str(),
                };
                r.append(shown);
            },
            Token::Punct(c) => {
                r.append(punct_str(*c));
            },
            Token::Lifetime(s) => {
                r.append("'");
                r.append(s.as_str());
            },
            Token::Lit(s) => {
                r.append("\"");
                r.append(s.as_str());
                r.append("\"");
            },
            Token::Int(n) => {
                r.append(decimal_string(*n).as_str());
            },
            Token::Open(c) => {
                r.append(if *c == '(' { "(" } else if *c == '[' { "[" } else { "{" });
            },
            Token::Close(c) => {
                r.append(if *c == ')' { ")" } else if *c == ']' { "]" } else { "}" });
            },
        }
        i = i + 1;
    }
    r
}

fn punct_str(c: char) -> &'static str {
    if c == '#' { "#" } else if c == '!' { "!" } else if c == ':' { ":" } else if c == ',' { "," }
    else if c == ';' { ";" } else if c == '<' { "<" } else if c == '>' { ">" } else if c == '&' { "&" }
    else if c == '*' { "*" } else if c == '-' { "-" } else if c == '=' { "=" } else if c == '.' { "." }
    else if c == '+' { "+" } else if c == '/' { "/" } else if c == '%' { "%" } else if c == '^' { "^" }
    else if c == '|' { "|" } else if c == '?' { "?" } else if c == '@' { "@" } else if c == '$' { "$" }
    else { "~" }
}

/// The single-identifier types: the numeric primitives, `bool`, `char`,
/// `str` and `String`.
pub open spec fn primitive(name: Seq<char>) -> Option<TypeModel> {
    if name == "u8"@ { Some(TypeModel::Numeric(TypeNumeric::U8)) }
    else if name == "u16"@ { Some(TypeModel::Numeric(TypeNumeric::U16)) }
    else if name == "u32"@ { Some(TypeModel::Numeric(TypeNumeric::U32)) }
    else if name == "u64"@ { Some(TypeModel::Numeric(TypeNumeric::U64)) }
    else if name == "usize"@ { Some(TypeModel::Numeric(TypeNumeric::Usize)) }
    else if name == "i8"@ { Some(TypeModel::Numeric(TypeNumeric::I8)) }
    else if name == "i16"@ { Some(TypeModel::Numeric(TypeNumeric::I16)) }
    else if name == "i32"@ { Some(TypeModel::Numeric(TypeNumeric::I32)) }
    else if name == "i64"@ { Some(TypeModel::Numeric(TypeNumeric::I64)) }
    else if name == "isize"@ { Some(TypeModel::Numeric(TypeNumeric::Isize)) }
    else if name == "f32"@ { Some(TypeModel::Numeric(TypeNumeric::F32)) }
    else if name == "f64"@ { Some(TypeModel::Numeric(TypeNumeric::F64)) }
    else if name == "bool"@ { Some(TypeModel::Bool) }
    else if name == "char"@ { Some(TypeModel::Char) }
    else if name == "str"@ { Some(TypeModel::Str) }
    else if name == "String"@ { Some(TypeModel::String) }
    else { None }
}

proof fn lemma_self_not_primitive()
    ensures
        primitive("Self"@) is None,
{
    reveal_strlit("Self");
    reveal_strlit("u8");
    reveal_strlit("u16");
    reveal_strlit("u32");
    reveal_strlit("u64");
    reveal_strlit("usize");
    reveal_strlit("i8");
    reveal_strlit("i16");
    reveal_strlit("i32");
    reveal_strlit("i64");
    reveal_strlit("isize");
    reveal_strlit("f32");
    reveal_strlit("f64");
    reveal_strlit("bool");
    reveal_strlit("char");
    reveal_strlit("str");
    reveal_strlit("String");
    assert("Self"@.len() != "u8"@.len());
    assert("Self"@.len() != "u16"@.len());
    assert("Self"@.len() != "u32"@.len());
    assert("Self"@.len() != "u64"@.len());
    assert("Self"@.len() != "usize"@.len());
    assert("Self"@.len() != "i8"@.len());
    assert("Self"@.len() != "i16"@.len());
    assert("Self"@.len() != "i32"@.len());
    assert("Self"@.len() != "i64"@.len());
    assert("Self"@.len() != "isize"@.len());
    assert("Self"@.len() != "f32"@.len());
    assert("Self"@.len() != "f64"@.len());
    assert("Self"@ != "bool"@) by {
        assert("Self"@[0] != "bool"@[0]);
    }
    assert("Self"@ != "char"@) by {
        assert("Self"@[0] != "char"@[0]);
    }
    assert("Self"@.len() != "str"@.len());
    assert("Self"@.len() != "String"@.len());
}

proof fn lemma_fn_keywords_not_types()
    ensures
        primitive("fn"@) is None,
        primitive("unsafe"@) is None,
        primitive("extern"@) is None,
        "Self"@ != "fn"@,
        "Self"@ != "unsafe"@,
        "Self"@ != "extern"@,
        "Box"@ != "fn"@ && "Box"@ != "unsafe"@ && "Box"@ != "extern"@,
        "Vec"@ != "fn"@ && "Vec"@ != "unsafe"@ && "Vec"@ != "extern"@,
{
    reveal_strlit("Box");
    reveal_strlit("Vec");
    assert("Box"@.len() == 3 && "Vec"@.len() == 3);
    reveal_strlit("u8");
    reveal_strlit("u16");
    reveal_strlit("u32");
    reveal_strlit("u64");
    reveal_strlit("usize");
    reveal_strlit("i8");
    reveal_strlit("i16");
    reveal_strlit("i32");
    reveal_strlit("i64");
    reveal_strlit("isize");
    reveal_strlit("f32");
    reveal_strlit("f64");
    reveal_strlit("bool");
    reveal_strlit("char");
    reveal_strlit("str");
    reveal_strlit("String");
    reveal_strlit("fn");
    reveal_strlit("unsafe");
    reveal_strlit("extern");
    reveal_strlit("Self");
    assert("fn"@[0] != "u8"@[0]);
    assert("fn"@.len() != "u16"@.len());
    assert("fn"@.len() != "u32"@.len());
    assert("fn"@.len() != "u64"@.len());
    assert("fn"@.len() != "usize"@.len());
    assert("fn"@[0] != "i8"@[0]);
    assert("fn"@.len() != "i16"@.len());
    assert("fn"@.len() != "i32"@.len());
    assert("fn"@.len() != "i64"@.len());
    assert("fn"@.len() != "isize"@.len());
    assert("fn"@.len() != "f32"@.len());
    assert("fn"@.len() != "f64"@.len());
    assert("fn"@.len() != "bool"@.len());
    assert("fn"@.len() != "char"@.len());
    assert("fn"@.len() != "str"@.len());
    assert("fn"@.len() != "String"@.len());
    assert("unsafe"@.len() != "u8"@.len());
    assert("unsafe"@.len() != "u16"@.len());
    assert("unsafe"@.len() != "u32"@.len());
    assert("unsafe"@.len() != "u64"@.len());
    assert("unsafe"@.len() != "usize"@.len());
    assert("unsafe"@.len() != "i8"@.len());
    assert("unsafe"@.len() != "i16"@.len());
    assert("unsafe"@.len() != "i32"@.len());
    assert("unsafe"@.len() != "i64"@.len());
    assert("unsafe"@.len() != "isize"@.len());
    assert("unsafe"@.len() != "f32"@.len());
    assert("unsafe"@.len() != "f64"@.len());
    assert("unsafe"@.len() != "bool"@.len());
    assert("unsafe"@.len() != "char"@.len());
    assert("unsafe"@.len() != "str"@.len());
    assert("unsafe"@[0] != "String"@[0]);
    assert("extern"@.len() != "u8"@.len());
    assert("extern"@.len() != "u16"@.len());
    assert("extern"@.len() != "u32"@.len());
    assert("extern"@.len() != "u64"@.len());
    assert("extern"@.len() != "usize"@.len());
    assert("extern"@.len() != "i8"@.len());
    assert("extern"@.len() != "i16"@.len());
    assert("extern"@.len() != "i32"@.len());
    assert("extern"@.len() != "i64"@.len());
    assert("extern"@.len() != "isize"@.len());
    assert("extern"@.len() != "f32"@.len());
    assert("extern"@.len() != "f64"@.len());
    assert("extern"@.len() != "bool"@.len());
    assert("extern"@.len() != "char"@.len());
    assert("extern"@.len() != "str"@.len());
    assert("extern"@[0] != "String"@[0]);
    assert("Self"@.len() != "fn"@.len());
    assert("Self"@.len() != "unsafe"@.len());
    assert("Self"@.len() != "extern"@.len());
}

fn primitive_of(name: &str) -> (r: Option<Type>)
    ensures
        r matches Some(t) ==> primitive(name@) == Some(t.model()),
        r is None ==> primitive(name@) is None,
{
    if str_eq(name, "u8") { Some(Type::Numeric(TypeNumeric::U8)) }
    else if str_eq(name, "u16") { Some(Type::Numeric(TypeNumeric::U16)) }
    else if str_eq(name, "u32") { Some(Type::Numeric(TypeNumeric::U32)) }
    else if str_eq(name, "u64") { Some(Type::Numeric(TypeNumeric::U64)) }
    else if str_eq(name, "usize") { Some(Type::Numeric(TypeNumeric::Usize)) }
    else if str_eq(name, "i8") { Some(Type::Numeric(TypeNumeric::I8)) }
    else if str_eq(name, "i16") { Some(Type::Numeric(TypeNumeric::I16)) }
    else if str_eq(name, "i32") { Some(Type::Numeric(TypeNumeric::I32)) }
    else if str_eq(name, "i64") { Some(Type::Numeric(TypeNumeric::I64)) }
    else if str_eq(name, "isize") { Some(Type::Numeric(TypeNumeric::Isize)) }
    else if str_eq(name, "f32") { Some(Type::Numeric(TypeNumeric::F32)) }
    else if str_eq(name, "f64") { Some(Type::Numeric(TypeNumeric::F64)) }
    else if str_eq(name, "bool") { Some(Type::Bool) }
    else if str_eq(name, "char") { Some(Type::Char) }
    else if str_eq(name, "str") { Some(Type::Str) }
    else if str_eq(name, "String") { Some(Type::String) }
    else { None }
}

/// Keywords that cannot name a type.
pub open spec fn reserved(n: Seq<char>) -> bool {
    n == "dyn"@ || n == "impl"@ || n == "fn"@ || n == "unsafe"@ || n == "extern"@ || n == "mut"@ || n == "const"@
        || n == "self"@ || n == "crate"@ || n == "super"@ || n == "where"@ || n == "for"@
}

fn is_reserved(name: &str) -> (r: bool)
    ensures
        r == reserved(name@),
{
    str_eq(name, "dyn") || str_eq(name, "impl") || str_eq(name, "fn") || str_eq(name, "unsafe") || str_eq(
        name,
        "extern",
    ) || str_eq(name, "mut") || str_eq(name, "const") || str_eq(name, "self") || str_eq(name, "crate")
        || str_eq(name, "super") || str_eq(name, "where") || str_eq(name, "for")
}

/// Scans an unmodelled type from `j` with `angle` angle brackets open: to
/// the next `,`, `;`, `=`, `{` or closing delimiter outside any of them.
pub open spec fn unsupported_scan(toks: Seq<Token>, j: int, angle: nat) -> Option<int>
    decreases toks.len() - j,
{
    if j < 0 || j >= toks.len() {
        Some(j)
    } else {
        match toks[j] {
            Token::Open(c) => if c == '{' && angle == 0 {
                Some(j)
            } else {
                match group_end(toks, j) {
                    Some(g) => if j < g <= toks.len() {
                        unsupported_scan(toks, g, angle)
                    } else {
                        None
                    },
                    None => None,
                }
            },
            Token::Close(_) => Some(j),
            Token::Punct(c) => if angle == 0 && (c == ',' || c == ';' || c == '=') {
                Some(j)
            } else if c == '-' && is_punct(toks, j + 1, '>') {
                unsupported_scan(toks, j + 2, angle)
            } else if c == '<' {
                if angle >= usize::MAX {
                    None
                } else {
                    unsupported_scan(toks, j + 1, angle + 1)
                }
            } else if c == '>' {
                if angle == 0 {
                    Some(j)
                } else {
                    unsupported_scan(toks, j + 1, (angle - 1) as nat)
                }
            } else {
                unsupported_scan(toks, j + 1, angle)
            },
            _ => unsupported_scan(toks, j + 1, angle),
        }
    }
}

/// The end of an unmodelled type that starts at `pos`; it must not be empty.
pub open spec fn unsupported_end(toks: Seq<Token>, pos: int) -> Option<int> {
    match unsupported_scan(toks, pos, 0) {
        Some(e) => if e == pos { None } else { Some(e) },
        None => None,
    }
}

/// Skips a type that the grammar does not model, up to the next `,`, `;`,
/// `=`, `{` or closing delimiter outside any angle brackets.
fn skip_unsupported(toks: &Vec<Token>, pos: usize) -> (r: Result<usize, Diagnostic>)
    requires
        pos <= toks.len(),
    ensures
        r matches Ok(end) ==> pos < end <= toks.len(),
        r is Ok <==> unsupported_end(toks@, pos as int) is Some,
        r matches Ok(end) ==> unsupported_end(toks@, pos as int) == Some(end as int),
{
    let mut angle: usize = 0;
    let mut i = pos;
    while i < toks.len()
        invariant
            pos <= i <= toks.len(),
            unsupported_scan(toks@, pos as int, 0) == unsupported_scan(toks@, i as int, angle as nat),
        ensures
            pos <= i <= toks.len(),
            unsupported_scan(toks@, pos as int, 0) == Some(i as int),
        decreases toks.len() - i,
    {
        match &toks[i] {
            Token::Open(c) => {
                if *c == '{' && angle == 0 {
                    break;
                }
                i = skip_group(toks, i)?;
            },
            Token::Close(_) => {
                break;
            },
            Token::Punct(c) => {
                if angle == 0 && (*c == ',' || *c == ';' || *c == '=') {
                    break;
                }
                if *c == '-' && punct_at(toks, i + 1, '>') {
                    i = i + 2;
                } else if *c == '<' {
                    if angle == usize::MAX {
                        return err(ParseError::Unexpected, i);
                    }
                    angle = angle + 1;
                    i = i + 1;
                } else if *c == '>' {
                    if angle == 0 {
                        break;
                    }
                    angle = angle - 1;
                    i = i + 1;
                } else {
                    i = i + 1;
                }
            },
            _ => {
                i = i + 1;
            },
        }
    }
    if i == pos {
        return err(ParseError::Unexpected, pos);
    }
    Ok(i)
}

/// A type with the source text of function pointers and unmodelled types
/// left out: what the grammar decides about a type's structure.
pub open spec fn shape(t: TypeModel) -> TypeModel
    decreases t, 0nat,
{
    match t {
        TypeModel::FnPtr(_) => TypeModel::FnPtr(Seq::empty()),
        TypeModel::Unsupported(_) => TypeModel::Unsupported(Seq::empty()),
        TypeModel::Ptr(e) => TypeModel::Ptr(Box::new(shape(*e))),
        TypeModel::PtrMut(e) => TypeModel::PtrMut(Box::new(shape(*e))),
        TypeModel::Ref(e) => TypeModel::Ref(Box::new(shape(*e))),
        TypeModel::RefMut(e) => TypeModel::RefMut(Box::new(shape(*e))),
        TypeModel::Box(e) => TypeModel::Box(Box::new(shape(*e))),
        TypeModel::Slice(e) => TypeModel::Slice(Box::new(shape(*e))),
        TypeModel::Array(e, n) => TypeModel::Array(Box::new(shape(*e)), n),
        TypeModel::Vec(e) => TypeModel::Vec(Box::new(shape(*e))),
        TypeModel::Tuple(s) => TypeModel::Tuple(shape_list(s)),
        _ => t,
    }
}

pub open spec fn shape_list(s: Seq<TypeModel>) -> Seq<TypeModel>
    decreases s,
{
    if s.len() == 0 {
        Seq::empty()
    } else {
        shape_list(s.drop_last()).push(shape(s.last()))
    }
}

/// An unmodelled type at `pos`.
pub open spec fn unsupported_shape(toks: Seq<Token>, pos: int) -> Option<(TypeModel, int)> {
    match unsupported_end(toks, pos) {
        Some(e) => Some((TypeModel::Unsupported(Seq::empty()), e)),
        None => None,
    }
}

/// The grammar of types: the structure of the type that starts at `pos` and
/// the index after it, or `None` when no type can be read there.
pub open spec fn type_shape(toks: Seq<Token>, pos: int, self_ty: Option<Seq<char>>) -> Option<(TypeModel, int)>
    decreases toks.len() - pos, 2nat,
{
    if pos < 0 || pos >= toks.len() {
        None
    } else {
        match toks[pos] {
            Token::Ident(n) => {
                let colon = is_punct(toks, pos + 1, ':');
                let boxed = n@ == "Box"@ || n@ == "Vec"@;
                if n@ == "Self"@ {
                    match self_ty {
                        Some(t) => Some((TypeModel::UserDefined(t), pos + 1)),
                        None => None,
                    }
                } else if !colon && primitive(n@) is Some {
                    Some((primitive(n@)->0, pos + 1))
                } else if !colon && boxed && is_punct(toks, pos + 1, '<') && boxed_shape(toks, pos, self_ty, n@)
                    is Some {
                    boxed_shape(toks, pos, self_ty, n@)
                } else if !colon && !boxed && !is_punct(toks, pos + 1, '<') && !reserved(n@) {
                    Some((TypeModel::UserDefined(n@), pos + 1))
                } else if n@ == "fn"@ || n@ == "unsafe"@ || n@ == "extern"@ {
                    fn_ptr_shape(toks, pos, self_ty)
                } else {
                    unsupported_shape(toks, pos)
                }
            },
            Token::Punct(c) => if c == '*' {
                if is_kw(toks, pos + 1, "const"@) {
                    match type_shape(toks, pos + 2, self_ty) {
                        Some((t, e)) => Some((TypeModel::Ptr(Box::new(t)), e)),
                        None => None,
                    }
                } else if is_kw(toks, pos + 1, "mut"@) {
                    match type_shape(toks, pos + 2, self_ty) {
                        Some((t, e)) => Some((TypeModel::PtrMut(Box::new(t)), e)),
                        None => None,
                    }
                } else {
                    None
                }
            } else if c == '&' {
                if pos + 1 < toks.len() && toks[pos + 1] is Lifetime {
                    None
                } else if is_kw(toks, pos + 1, "mut"@) {
                    match type_shape(toks, pos + 2, self_ty) {
                        Some((t, e)) => Some((TypeModel::RefMut(Box::new(t)), e)),
                        None => None,
                    }
                } else {
                    match type_shape(toks, pos + 1, self_ty) {
                        Some((t, e)) => Some((TypeModel::Ref(Box::new(t)), e)),
                        None => None,
                    }
                }
            } else {
                unsupported_shape(toks, pos)
            },
            Token::Open(c) => if c == '[' {
                match type_shape(toks, pos + 1, self_ty) {
                    None => None,
                    Some((el, e)) => if is_punct(toks, e, ';') {
                        if e + 2 < toks.len() && toks[e + 2] == Token::Close(']') && toks[e + 1] is Int {
                            Some((TypeModel::Array(Box::new(el), toks[e + 1]->Int_0 as nat), e + 3))
                        } else {
                            None
                        }
                    } else if 0 <= e < toks.len() && toks[e] == Token::Close(']') {
                        Some((TypeModel::Slice(Box::new(el)), e + 1))
                    } else {
                        None
                    },
                }
            } else if c == '(' {
                if pos + 1 < toks.len() && toks[pos + 1] == Token::Close(')') {
                    Some((TypeModel::Void, pos + 2))
                } else {
                    match tuple_shape(toks, pos + 1, self_ty, Seq::empty()) {
                        Some((s, i)) => if i < toks.len() {
                            Some((TypeModel::Tuple(s), i + 1))
                        } else {
                            None
                        },
                        None => None,
                    }
                }
            } else {
                unsupported_shape(toks, pos)
            },
            _ => unsupported_shape(toks, pos),
        }
    }
}

/// `Box<T>` or `Vec<T>` at `pos`, the element type read after the `<`.
pub open spec fn boxed_shape(toks: Seq<Token>, pos: int, self_ty: Option<Seq<char>>, n: Seq<char>) -> Option<
    (TypeModel, int),
>
    decreases toks.len() - pos, 1nat,
{
    if pos < 0 || pos + 2 > toks.len() {
        None
    } else {
        match type_shape(toks, pos + 2, self_ty) {
            Some((inner, e)) => if is_punct(toks, e, '>') {
                Some(
                    (
                        if n == "Box"@ {
                            TypeModel::Box(Box::new(inner))
                        } else {
                            TypeModel::Vec(Box::new(inner))
                        },
                        e + 1,
                    ),
                )
            } else {
                None
            },
            None => None,
        }
    }
}

/// The elements of a tuple type from `i` on, after `acc`, and the index of
/// its closing parenthesis.
pub open spec fn tuple_shape(toks: Seq<Token>, i: int, self_ty: Option<Seq<char>>, acc: Seq<TypeModel>) -> Option<
    (Seq<TypeModel>, int),
>
    decreases toks.len() - i, 3nat,
{
    if i < 0 || i > toks.len() {
        None
    } else {
        match type_shape(toks, i, self_ty) {
            None => None,
            Some((t, e)) => if !(i < e <= toks.len()) {
                None
            } else if is_punct(toks, e, ',') {
                if e + 1 < toks.len() && toks[e + 1] == Token::Close(')') {
                    Some((acc.push(t), e + 1))
                } else {
                    tuple_shape(toks, e + 1, self_ty, acc.push(t))
                }
            } else if e < toks.len() && toks[e] == Token::Close(')') {
                Some((acc.push(t), e))
            } else {
                None
            },
        }
    }
}

/// A bare function pointer type at `pos`.
pub open spec fn fn_ptr_shape(toks: Seq<Token>, pos: int, self_ty: Option<Seq<char>>) -> Option<(TypeModel, int)>
    decreases toks.len() - pos, 1nat,
{
    let i1 = if is_kw(toks, pos, "unsafe"@) { pos + 1 } else { pos };
    let i2 = if is_kw(toks, i1, "extern"@) {
        if i1 + 1 < toks.len() && toks[i1 + 1] is Lit { i1 + 2 } else { i1 + 1 }
    } else {
        i1
    };
    if pos < 0 || !is_kw(toks, i2, "fn"@) || !is_open(toks, i2 + 1, '(') {
        None
    } else {
        match group_end(toks, i2 + 1) {
            None => None,
            Some(g) => if is_punct(toks, g, '-') && is_punct(toks, g + 1, '>') && g > pos {
                match type_shape(toks, g + 2, self_ty) {
                    Some((_, e)) => Some((TypeModel::FnPtr(Seq::empty()), e)),
                    None => None,
                }
            } else {
                Some((TypeModel::FnPtr(Seq::empty()), g))
            },
        }
    }
}

/// Parses the bare function pointer type that starts at `pos`.
fn parse_fn_ptr(toks: &Vec<Token>, pos: usize, self_ty: &Option<String>) -> (r: Result<(Type, usize), Diagnostic>)
    requires
        pos < toks.len(),
    ensures
        r matches Ok((_, end)) ==> pos < end <= toks.len(),
        r matches Ok((t, _)) ==> t is FnPtr,
        r is Ok <==> fn_ptr_shape(toks@, pos as int, opt_str(*self_ty)) is Some,
        r matches Ok((t, e)) ==> fn_ptr_shape(toks@, pos as int, opt_str(*self_ty)) == Some((shape(t.model()), e as int)),
    decreases toks.len() - pos, 0nat,
{
    let mut i = pos;
    if kw_at(toks, i, "unsafe") {
        i = i + 1;
    }
    if kw_at(toks, i, "extern") {
        i = i + 1;
        if i < toks.len() {
            match &toks[i] {
                Token::Lit(_) => {
                    i = i + 1;
                },
                _ => {},
            }
        }
    }
    if !kw_at(toks, i, "fn") {
        return err(ParseError::Unexpected, i);
    }
    i = i + 1;
    if !open_at(toks, i, '(') {
        return err(ParseError::Unexpected, i);
    }
    i = skip_group(toks, i)?;
    if punct_at(toks, i, '-') && punct_at(toks, i + 1, '>') {
        let (_, e) = parse_type(toks, i + 2, self_ty)?;
        i = e;
    }
    Ok((Type::FnPtr(render(toks, pos, i, self_ty)), i))
}

/// Parses the type that starts at `pos`; returns it and the index after it.
/// Types outside the model are kept as opaque `Unsupported` text.
pub fn parse_type(toks: &Vec<Token>, pos: usize, self_ty: &Option<String>) -> (r: Result<(Type, usize), Diagnostic>)
    requires
        pos <= toks.len(),
    ensures
        r matches Ok((_, end)) ==> pos < end <= toks.len(),
        is_kw(toks@, pos as int, "Self"@) && self_ty is None ==> r == Err::<(Type, usize), Diagnostic>(
            Diagnostic { error: ParseError::SelfTypeOutsideImpl, at: pos },
        ),
        is_kw(toks@, pos as int, "Self"@) && self_ty is Some ==> (r matches Ok((t, e)) && t.model()
            == TypeModel::UserDefined(self_ty->0@) && e == pos + 1),
        (pos < toks.len() && (toks@[pos as int] matches Token::Ident(s) && primitive(s@) is Some) && !is_punct(
            toks@,
            pos + 1,
            ':',
        )) ==> (r matches Ok((t, e)) && Some(t.model()) == primitive(toks@[pos as int]->Ident_0@) && e == pos + 1),
        is_punct(toks@, pos as int, '&') && pos + 1 < toks.len() && toks@[pos + 1] is Lifetime ==> (r matches Err(
            d,
        ) && d.error == ParseError::Lifetime),
        is_punct(toks@, pos as int, '*') && is_kw(toks@, pos + 1, "const"@) ==> (r matches Ok((t, _)) ==> t is Ptr),
        is_punct(toks@, pos as int, '*') && is_kw(toks@, pos + 1, "mut"@) ==> (r matches Ok((t, _)) ==> t is PtrMut),
        is_punct(toks@, pos as int, '*') && !is_kw(toks@, pos + 1, "const"@) && !is_kw(toks@, pos + 1, "mut"@) ==> r is Err,
        is_punct(toks@, pos as int, '&') && is_kw(toks@, pos + 1, "mut"@) ==> (r matches Ok((t, _)) ==> t is RefMut),
        is_punct(toks@, pos as int, '&') && !is_kw(toks@, pos + 1, "mut"@) ==> (r matches Ok((t, _)) ==> t is Ref),
        is_open(toks@, pos as int, '(') && pos + 1 < toks.len() && toks@[pos + 1] == Token::Close(')') ==> r == Ok::<
            (Type, usize),
            Diagnostic,
        >((Type::Void, (pos + 2) as usize)),
        is_open(toks@, pos as int, '[') ==> (r matches Ok((t, _)) ==> (t is Slice || t is Array)),
        is_open(toks@, pos as int, '(') ==> (r matches Ok((t, _)) ==> (t is Void || t is Tuple)),
        (pos < toks.len() && (toks@[pos as int] matches Token::Ident(s) && primitive(s@) is None && s@ != "Self"@
            && s@ != "Box"@ && s@ != "Vec"@ && !reserved(s@)) && !is_punct(toks@, pos + 1, ':') && !is_punct(
            toks@,
            pos + 1,
            '<',
        )) ==> (r matches Ok((t, e)) && t.model() == TypeModel::UserDefined(toks@[pos as int]->Ident_0@) && e
            == pos + 1),
        (is_kw(toks@, pos as int, "fn"@) || is_kw(toks@, pos as int, "unsafe"@) || is_kw(toks@, pos as int, "extern"@))
            ==> (r matches Ok((t, _)) ==> t is FnPtr),
        r is Ok <==> type_shape(toks@, pos as int, opt_str(*self_ty)) is Some,
        r matches Ok((t, e)) ==> type_shape(toks@, pos as int, opt_str(*self_ty)) == Some((shape(t.model()), e as int)),
    decreases toks.len() - pos, 1nat,
{
    if pos >= toks.len() {
        return err(ParseError::UnexpectedEnd, pos);
    }
    proof {
        lemma_fn_keywords_not_types();
    }
    match &toks[pos] {
        Token::Ident(name) => {
            if str_eq(name.as_str(), "Self") {
                proof {
                    lemma_self_not_primitive();
                }
                match self_ty {
                    Some(t) => {
                        return Ok((Type::UserDefined(t.clone()), pos + 1));
                    },
                    None => {
                        return err(ParseError::SelfTypeOutsideImpl, pos);
                    },
                }
            }
            if !punct_at(toks, pos + 1, ':') {
                match primitive_of(name.as_str()) {
                    Some(t) => {
                        return Ok((t, pos + 1));
                    },
                    None => {},
                }
                let is_box = str_eq(name.as_str(), "Box");
                let is_vec = str_eq(name.as_str(), "Vec");
                if is_box || is_vec {
                    if punct_at(toks, pos + 1, '<') {
                        match parse_type(toks, pos + 2, self_ty) {
                            Ok((inner, e)) => {
                                let ghost inner_model = inner.model();
                                if punct_at(toks, e, '>') {
                                    proof {
                                        reveal_strlit("Box");
                                        reveal_strlit("Vec");
                                        assert("Box"@[0] != "Vec"@[0]);
                                    }
                                    let t = if is_box {
                                        Type::Box(Box::new(inner))
                                    } else {
                                        Type::Vec(Box::new(inner))
                                    };
                                    proof {
                                        assert(primitive(name@) is None);
                                        assert(name@ != "Self"@);
                                        assert(type_shape(toks@, (pos + 2) as int, opt_str(*self_ty)) == Some((shape(inner_model), e as int)));
                                        assert(boxed_shape(toks@, pos as int, opt_str(*self_ty), name@) == Some((shape(t.model()), (e + 1) as int)));
                                    }
                                    return Ok((t, e + 1));
                                }
                            },
                            Err(_) => {},
                        }
                    }
                } else if !punct_at(toks, pos + 1, '<') && !is_reserved(name.as_str()) {
                    return Ok((Type::UserDefined(name.clone()), pos + 1));
                }
            }
            if str_eq(name.as_str(), "fn") || str_eq(name.as_str(), "unsafe") || str_eq(name.as_str(), "extern") {
                return parse_fn_ptr(toks, pos, self_ty);
            }
        },
        Token::Punct(c) => {
            if *c == '*' {
                proof {
                    reveal_strlit("const");
                    reveal_strlit("mut");
                    assert("const"@.len() != "mut"@.len());
                }
                if kw_at(toks, pos + 1, "const") {
                    let (t, e) = parse_type(toks, pos + 2, self_ty)?;
                    return Ok((Type::Ptr(Box::new(t)), e));
                } else if kw_at(toks, pos + 1, "mut") {
                    let (t, e) = parse_type(toks, pos + 2, self_ty)?;
                    return Ok((Type::PtrMut(Box::new(t)), e));
                } else {
                    return err(ParseError::Unexpected, pos + 1);
                }
            }
            if *c == '&' {
                if pos + 1 < toks.len() {
                    match &toks[pos + 1] {
                        Token::Lifetime(_) => {
                            return err(ParseError::Lifetime, pos + 1);
                        },
                        _ => {},
                    }
                }
                if kw_at(toks, pos + 1, "mut") {
                    let (t, e) = parse_type(toks, pos + 2, self_ty)?;
                    return Ok((Type::RefMut(Box::new(t)), e));
                } else {
                    let (t, e) = parse_type(toks, pos + 1, self_ty)?;
                    return Ok((Type::Ref(Box::new(t)), e));
                }
            }
        },
        Token::Open(c) => {
            if *c == '[' {
                let (elem, e) = parse_type(toks, pos + 1, self_ty)?;
                if punct_at(toks, e, ';') {
                    if toks.len() > 2 && e < toks.len() - 2 && close_at(toks, e + 2, ']') {
                        match &toks[e + 1] {
                            Token::Int(n) => {
                                return Ok((Type::Array(TypeArray { elem: Box::new(elem), len: *n }), e + 3));
                            },
                            _ => {},
                        }
                    }
                    return err(ParseError::ArrayLength, e + 1);
                } else if close_at(toks, e, ']') {
                    return Ok((Type::Slice(Box::new(elem)), e + 1));
                } else {
                    return err(ParseError::Unexpected, e);
                }
            }
            if *c == '(' {
                if close_at(toks, pos + 1, ')') {
                    return Ok((Type::Void, pos + 2));
                }
                let mut elems: Vec<Type> = Vec::new();
                let mut i = pos + 1;
                let ghost st = opt_str(*self_ty);
                proof {
                    assert(shape_list(models(elems, 0)) =~= Seq::<TypeModel>::empty());
                }
                loop
                    invariant_except_break
                        tuple_shape(toks@, pos + 1, st, Seq::empty()) == tuple_shape(
                            toks@,
                            i as int,
                            st,
                            shape_list(models(elems, elems.len() as nat)),
                        ),
                    invariant
                        pos < i <= toks.len(),
                        st == opt_str(*self_ty),
                        toks@[pos as int] == Token::Open('('),
                        !(pos + 1 < toks.len() && toks@[pos + 1] == Token::Close(')')),
                    ensures
                        pos < i <= toks.len(),
                        toks@[pos as int] == Token::Open('('),
                        !(pos + 1 < toks.len() && toks@[pos + 1] == Token::Close(')')),
                        tuple_shape(toks@, pos + 1, st, Seq::empty()) == Some(
                            (shape_list(models(elems, elems.len() as nat)), i as int),
                        ),
                    decreases toks.len() - i,
                {
                    let (t, e) = parse_type(toks, i, self_ty)?;
                    let ghost e0 = elems;
                    elems.push(t);
                    proof {
                        lemma_models(e0, e0.len() as nat);
                        lemma_models(elems, elems.len() as nat);
                        assert(forall|j: int| 0 <= j < e0.len() ==> elems[j] == e0[j]);
                        crate::ty::lemma_models_same(elems, e0, e0.len() as nat);
                        assert(models(elems, elems.len() as nat).drop_last() =~= models(e0, e0.len() as nat));
                        assert(shape_list(models(elems, elems.len() as nat)) == shape_list(models(e0, e0.len() as nat)).push(
                            shape(t.model()),
                        ));
                    }
                    if punct_at(toks, e, ',') {
                        i = e + 1;
                        if close_at(toks, i, ')') {
                            break;
                        }
                    } else if close_at(toks, e, ')') {
                        i = e;
                        break;
                    } else {
                        return err(ParseError::Unexpected, e);
                    }
                }
                if i >= toks.len() {
                    return err(ParseError::UnexpectedEnd, i);
                }
                return Ok((Type::Tuple(elems), i + 1));
            }
        },
        _ => {},
    }
    let end = skip_unsupported(toks, pos)?;
    Ok((Type::Unsupported(render(toks, pos, end, self_ty)), end))
}

/* ------------------------------------------------------------------------ */

/// The value of an attribute's content in `from..to`: the string of
/// `doc = "..."`, or the sentinel of a live `non_blocking` or `constructor`
/// attribute. Any other attribute is opaque.
/// The value of the attribute content in `from..to`: the string of
/// `doc = "..."`, or the sentinel of a live `non_blocking` or `constructor`.
pub open spec fn meta_spec(toks: Seq<Token>, from: int, to: int) -> Option<Seq<char>> {
    if to - from == 1 && is_kw(toks, from, "non_blocking"@) {
        Some(sentinel(Marker::NonBlocking))
    } else if to - from == 1 && is_kw(toks, from, "constructor"@) {
        Some(sentinel(Marker::Constructor))
    } else if to - from == 3 && is_kw(toks, from, "doc"@) && is_punct(toks, from + 1, '=') && toks[from + 2] is Lit {
        Some(toks[from + 2]->Lit_0@)
    } else {
        None
    }
}

/// The marker whose sentinel is `v`.
pub open spec fn marker_of(v: Seq<char>) -> Option<Marker> {
    if v == sentinel(Marker::DenoBindgen) {
        Some(Marker::DenoBindgen)
    } else if v == sentinel(Marker::NonBlocking) {
        Some(Marker::NonBlocking)
    } else if v == sentinel(Marker::Constructor) {
        Some(Marker::Constructor)
    } else {
        None
    }
}

/// Whether `v` is in the sentinel namespace, `deno_bindgen...`.
pub open spec fn sentinel_like(v: Seq<char>) -> bool {
    v.len() >= 12 && v.subrange(0, 12) == "deno_bindgen"@
}

/// The markers read from a run of outer attributes at `i`, after `acc`,
/// and the index after the run. An unknown sentinel is refused.
pub open spec fn outer_scan(toks: Seq<Token>, i: int, acc: Seq<Marker>) -> Option<(Seq<Marker>, int)>
    decreases toks.len() - i,
{
    if !is_punct(toks, i, '#') {
        if 0 <= i <= toks.len() { Some((acc, i)) } else { None }
    } else if is_punct(toks, i + 1, '!') || !is_open(toks, i + 1, '[') {
        None
    } else {
        match group_end(toks, i + 1) {
            None => None,
            Some(g) => if !(i < g <= toks.len()) {
                None
            } else {
                match meta_spec(toks, i + 2, g - 1) {
                    Some(v) => match marker_of(v) {
                        Some(m) => outer_scan(toks, g, acc.push(m)),
                        None => if sentinel_like(v) { None } else { outer_scan(toks, g, acc) },
                    },
                    None => outer_scan(toks, g, acc),
                }
            },
        }
    }
}

fn is_sentinel_like(v: &str) -> (r: bool)
    ensures
        r == sentinel_like(v@),
{
    let p = "deno_bindgen";
    proof {
        reveal_strlit("deno_bindgen");
    }
    let cs = crate::lex::chars_of(v);
    let ps = crate::lex::chars_of(p);
    assert(ps@.len() == 12);
    if cs.len() < 12 {
        return false;
    }
    let mut k: usize = 0;
    while k < 12
        invariant
            k <= 12,
            cs.len() >= 12,
            ps@ == "deno_bindgen"@,
            ps.len() == 12,
            cs@ == v@,
            forall|j: int| 0 <= j < k ==> cs@[j] == ps@[j],
        decreases 12 - k,
    {
        if cs[k] != ps[k] {
            assert(v@.subrange(0, 12)[k as int] != "deno_bindgen"@[k as int]);
            return false;
        }
        k = k + 1;
    }
    assert(v@.subrange(0, 12) =~= "deno_bindgen"@);
    true
}

fn meta_value(toks: &Vec<Token>, from: usize, to: usize) -> (r: Option<String>)
    requires
        from <= to <= toks.len(),
    ensures
        r is None <==> meta_spec(toks@, from as int, to as int) is None,
        r matches Some(v) ==> meta_spec(toks@, from as int, to as int) == Some(v@),
{
    proof {
        reveal_strlit("non_blocking");
        reveal_strlit("constructor");
        assert("non_blocking"@.len() != "constructor"@.len());
    }
    if to - from == 1 {
        if kw_at(toks, from, "non_blocking") {
            return Some(String::from_str(Marker::NonBlocking.sentinel()));
        }
        if kw_at(toks, from, "constructor") {
            return Some(String::from_str(Marker::Constructor.sentinel()));
        }
    }
    if to - from == 3 && kw_at(toks, from, "doc") && punct_at(toks, from + 1, '=') {
        match &toks[from + 2] {
            Token::Lit(v) => {
                return Some(v.clone());
            },
            _ => {},
        }
    }
    None
}

/// Parses a run of outer attributes `#[...]` into `attr`: a known sentinel
/// becomes a marker, another documentation string is kept as metadata.
pub fn parse_outer(toks: &Vec<Token>, pos: usize, attr: &mut Attribute) -> (r: Result<usize, Diagnostic>)
    requires
        pos <= toks.len(),
    ensures
        r matches Ok(end) ==> pos <= end <= toks.len() && !is_punct(toks@, end as int, '#'),
        r matches Ok(_) ==> old(attr).markers@.len() <= final(attr).markers@.len() && final(attr).markers@.subrange(
            0,
            old(attr).markers@.len() as int,
        ) == old(attr).markers@,
        is_punct(toks@, pos as int, '#') && is_punct(toks@, pos + 1, '!') ==> r == Err::<usize, Diagnostic>(
            Diagnostic { error: ParseError::InnerAttribute, at: (pos + 1) as usize },
        ),
        !is_punct(toks@, pos as int, '#') ==> r == Ok::<usize, Diagnostic>(pos),
        r is Ok <==> outer_scan(toks@, pos as int, old(attr).markers@) is Some,
        r matches Ok(end) ==> outer_scan(toks@, pos as int, old(attr).markers@) == Some(
            (final(attr).markers@, end as int),
        ),
{
    let mut i = pos;
    while punct_at(toks, i, '#')
        invariant
            outer_scan(toks@, pos as int, old(attr).markers@) == outer_scan(toks@, i as int, attr.markers@),
            pos <= i <= toks.len(),
            old(attr).markers@.len() <= attr.markers@.len(),
            attr.markers@.subrange(0, old(attr).markers@.len() as int) == old(attr).markers@,
            i == pos ==> attr.markers@ == old(attr).markers@,
            is_punct(toks@, pos as int, '#') && is_punct(toks@, pos + 1, '!') ==> i == pos,
            !is_punct(toks@, pos as int, '#') ==> i == pos,
        decreases toks.len() - i,
    {
        if punct_at(toks, i + 1, '!') {
            return err(ParseError::InnerAttribute, i + 1);
        }
        if !open_at(toks, i + 1, '[') {
            return err(ParseError::Unexpected, i + 1);
        }
        let end = skip_group(toks, i + 1)?;
        proof {
            reveal_strlit("deno_bindgen");
            reveal_strlit("deno_bindgen_non_blocking");
            reveal_strlit("deno_bindgen_constructor");
            assert(sentinel(Marker::DenoBindgen).len() == 12);
            assert(sentinel(Marker::NonBlocking).len() == 25);
            assert(sentinel(Marker::Constructor).len() == 24);
        }
        match meta_value(toks, i + 2, end - 1) {
            Some(v) => match Marker::try_from_sentinel(v.as_str()) {
                Ok(m) => {
                    let ghost m0 = attr.markers@;
                    attr.markers.push(m);
                    assert(attr.markers@.subrange(0, old(attr).markers@.len() as int) =~= m0.subrange(
                        0,
                        old(attr).markers@.len() as int,
                    ));
                },
                Err(_) => {
                    if is_sentinel_like(v.as_str()) {
                        return err(ParseError::UnknownMarker, i + 2);
                    }
                    attr.meta.push(Meta { lit_str: v });
                },
            },
            None => {},
        }
        i = end;
    }
    Ok(i)
}

/// The index after a run of inner attributes `#![...]` at `i`.
pub open spec fn inner_scan(toks: Seq<Token>, i: int) -> Option<int>
    decreases toks.len() - i,
{
    if is_punct(toks, i, '#') && is_punct(toks, i + 1, '!') {
        if !is_open(toks, i + 2, '[') {
            None
        } else {
            match group_end(toks, i + 2) {
                Some(g) => if i < g <= toks.len() { inner_scan(toks, g) } else { None },
                None => None,
            }
        }
    } else {
        Some(i)
    }
}

/// The index after a run of outer attributes `#[...]` on a parameter at `i`.
pub open spec fn param_attrs_end(toks: Seq<Token>, i: int) -> Option<int>
    decreases toks.len() - i,
{
    if is_punct(toks, i, '#') && is_open(toks, i + 1, '[') {
        match group_end(toks, i + 1) {
            Some(g) => if i < g <= toks.len() { param_attrs_end(toks, g) } else { None },
            None => None,
        }
    } else {
        Some(i)
    }
}

/// The index of the `:` that ends a parameter pattern starting at `j`, or
/// `last` when there is none before it; groups are skipped whole.
pub open spec fn colon_scan(toks: Seq<Token>, j: int, last: int) -> Option<int>
    decreases toks.len() - j,
{
    if j < 0 || j >= last || j >= toks.len() || is_punct(toks, j, ':') {
        Some(j)
    } else {
        match toks[j] {
            Token::Open(_) => match group_end(toks, j) {
                Some(g) => if j < g <= toks.len() { colon_scan(toks, g, last) } else { None },
                None => None,
            },
            _ => colon_scan(toks, j + 1, last),
        }
    }
}

/// The named parameters from `i` up to the closing parenthesis at `last`,
/// after `acc`: each `pattern: type`, separated by commas.
pub open spec fn params_scan(
    toks: Seq<Token>,
    i: int,
    last: int,
    self_ty: Option<Seq<char>>,
    acc: Seq<TypeModel>,
) -> Option<Seq<TypeModel>>
    decreases toks.len() - i,
{
    if i < 0 || i >= last || last >= toks.len() {
        if i >= 0 && last < toks.len() { Some(acc) } else { None }
    } else {
        match param_attrs_end(toks, i) {
            None => None,
            Some(i1) => if i1 < i || receiver_kind(toks, i1) is Some {
                None
            } else {
                match colon_scan(toks, i1, last) {
                    None => None,
                    Some(j) => if j >= last || j == i1 || j < i1 {
                        None
                    } else {
                        match type_shape(toks, j + 1, self_ty) {
                            None => None,
                            Some((t, e)) => if e <= i {
                                None
                            } else if e == last {
                                Some(acc.push(t))
                            } else if is_punct(toks, e, ',') {
                                params_scan(toks, e + 1, last, self_ty, acc.push(t))
                            } else {
                                None
                            },
                        }
                    },
                }
            },
        }
    }
}

proof fn lemma_receiver_shape(k: Association, t: Seq<char>)
    ensures
        shape(receiver_type(k, t)) == receiver_type(k, t),
{
    reveal_with_fuel(shape, 2);
}

/// The index after a receiver that starts at `p`.
pub open spec fn receiver_after(toks: Seq<Token>, p: int) -> int {
    if is_kw(toks, p, "self"@) {
        p + 1
    } else if is_kw(toks, p, "mut"@) && is_kw(toks, p + 1, "self"@) {
        p + 2
    } else if is_punct(toks, p, '&') && is_kw(toks, p + 1, "self"@) {
        p + 2
    } else {
        p + 3
    }
}

/// The grammar of a function after `fn`: its name, the parameter list (a
/// receiver first, accepted only inside an associated block of `self_ty`
/// and by value only on an `unsafe` function), an optional `-> type`, and
/// a braced body. Gives the parameter and result types (as shapes), the
/// association, and the index after the body.
pub open spec fn fn_shape(
    toks: Seq<Token>,
    pos: int,
    self_ty: Option<Seq<char>>,
    unsafe_: bool,
    constructor: bool,
) -> Option<(Seq<TypeModel>, TypeModel, Option<Association>, int)> {
    if !(0 <= pos < toks.len()) || !(toks[pos] is Ident) || is_punct(toks, pos + 1, '<') || !is_open(
        toks,
        pos + 1,
        '(',
    ) {
        None
    } else {
        match group_end(toks, pos + 1) {
            None => None,
            Some(close) => {
                let rk = receiver_kind(toks, pos + 2);
                let recv_ok = match rk {
                    Some(k) => self_ty is Some && (k != Association::Destructor || unsafe_),
                    None => !(is_punct(toks, pos + 2, '&') && pos + 3 < toks.len() && toks[pos + 3] is Lifetime),
                };
                let recv = match rk {
                    Some(k) => seq![receiver_type(k, self_ty->0)],
                    None => Seq::empty(),
                };
                let after = receiver_after(toks, pos + 2);
                let i0 = if rk is Some {
                    if is_punct(toks, after, ',') { after + 1 } else { after }
                } else {
                    pos + 2
                };
                let arrow = is_punct(toks, close, '-') && is_punct(toks, close + 1, '>');
                let out = if arrow { type_shape(toks, close + 2, self_ty) } else { Some((TypeModel::Void, close)) };
                if !recv_ok || params_scan(toks, i0, close - 1, self_ty, recv) is None || out is None {
                    None
                } else {
                    let (o, e) = out->0;
                    if is_kw(toks, e, "where"@) || !is_open(toks, e, '{') || group_end(toks, e) is None
                        || inner_scan(toks, e + 1) is None {
                        None
                    } else if constructor && self_ty is Some && rk is None && o != TypeModel::UserDefined(
                        self_ty->0,
                    ) {
                        None
                    } else {
                        Some(
                            (
                                params_scan(toks, i0, close - 1, self_ty, recv)->0,
                                o,
                                if constructor && self_ty is Some && rk is None {
                                    Some(Association::Constructor)
                                } else {
                                    expected_assoc(self_ty is Some, rk, false)
                                },
                                group_end(toks, e)->0,
                            ),
                        )
                    }
                }
            },
        }
    }
}

/// Parses a run of inner attributes `#![...]`; documentation strings are
/// kept as metadata.
pub fn parse_inner(toks: &Vec<Token>, pos: usize, attr: &mut Attribute) -> (r: Result<usize, Diagnostic>)
    requires
        pos <= toks.len(),
    ensures
        r matches Ok(end) ==> pos <= end <= toks.len(),
        final(attr).markers == old(attr).markers,
        r is Ok <==> inner_scan(toks@, pos as int) is Some,
        r matches Ok(end) ==> inner_scan(toks@, pos as int) == Some(end as int),
{
    let mut i = pos;
    while punct_at(toks, i, '#') && punct_at(toks, i + 1, '!')
        invariant
            pos <= i <= toks.len(),
            attr.markers == old(attr).markers,
            inner_scan(toks@, pos as int) == inner_scan(toks@, i as int),
        decreases toks.len() - i,
    {
        if !open_at(toks, i + 2, '[') {
            return err(ParseError::Unexpected, i + 2);
        }
        let end = skip_group(toks, i + 2)?;
        match meta_value(toks, i + 3, end - 1) {
            Some(v) => {
                attr.meta.push(Meta { lit_str: v });
            },
            None => {},
        }
        i = end;
    }
    Ok(i)
}

/// Parses a visibility `pub` or `pub(...)`; returns its text, empty when
/// there is none.
fn parse_vis(toks: &Vec<Token>, pos: usize) -> (r: Result<(String, usize), Diagnostic>)
    requires
        pos <= toks.len(),
    ensures
        r matches Ok((_, end)) ==> pos <= end <= toks.len(),
        !is_kw(toks@, pos as int, "pub"@) ==> (r matches Ok((_, end)) && end == pos),
        r is Ok <==> vis_end(toks@, pos as int) is Some,
        r matches Ok((_, end)) ==> vis_end(toks@, pos as int) == Some(end as int),
{
    if kw_at(toks, pos, "pub") {
        if open_at(toks, pos + 1, '(') {
            let end = skip_group(toks, pos + 1)?;
            return Ok((render(toks, pos, end, &None), end));
        }
        return Ok((String::from_str("pub"), pos + 1));
    }
    Ok((String::new(), pos))
}

/// The association that a receiver starting at `p` gives.
pub open spec fn receiver_kind(toks: Seq<Token>, p: int) -> Option<Association> {
    if is_kw(toks, p, "self"@) {
        Some(Association::Destructor)
    } else if is_kw(toks, p, "mut"@) && is_kw(toks, p + 1, "self"@) {
        Some(Association::Destructor)
    } else if is_punct(toks, p, '&') && is_kw(toks, p + 1, "self"@) {
        Some(Association::Instance)
    } else if is_punct(toks, p, '&') && is_kw(toks, p + 1, "mut"@) && is_kw(toks, p + 2, "self"@) {
        Some(Association::InstanceMut)
    } else {
        None
    }
}

/// The parameter type that a receiver of association `k` stands for, in an
/// associated block of `self_ty`.
pub open spec fn receiver_type(k: Association, self_ty: Seq<char>) -> TypeModel {
    match k {
        Association::Instance => TypeModel::Ref(Box::new(TypeModel::UserDefined(self_ty))),
        Association::InstanceMut => TypeModel::RefMut(Box::new(TypeModel::UserDefined(self_ty))),
        _ => TypeModel::UserDefined(self_ty),
    }
}

/// The association of a function: none outside an associated block, the
/// receiver's inside one, and without a receiver `Constructor` when marked
/// so and `Static` otherwise.
pub open spec fn expected_assoc(in_impl: bool, receiver: Option<Association>, constructor: bool) -> Option<
    Association,
> {
    if !in_impl {
        None
    } else {
        match receiver {
            Some(a) => Some(a),
            None => Some(if constructor { Association::Constructor } else { Association::Static }),
        }
    }
}

fn receiver_at(toks: &Vec<Token>, p: usize) -> (r: Option<(Association, usize)>)
    ensures
        r matches Some((a, e)) ==> receiver_kind(toks@, p as int) == Some(a) && p < e <= toks.len() && e
            == receiver_after(toks@, p as int),
        r is None ==> receiver_kind(toks@, p as int) is None,
{
    proof {
        reveal_strlit("mut");
        reveal_strlit("self");
        assert("mut"@.len() != "self"@.len());
    }
    if p >= toks.len() {
        return None;
    }
    if kw_at(toks, p, "self") {
        Some((Association::Destructor, p + 1))
    } else if kw_at(toks, p, "mut") && kw_at(toks, p + 1, "self") {
        Some((Association::Destructor, p + 2))
    } else if punct_at(toks, p, '&') && kw_at(toks, p + 1, "self") {
        Some((Association::Instance, p + 2))
    } else if punct_at(toks, p, '&') && kw_at(toks, p + 1, "mut") && kw_at(toks, p + 2, "self") {
        Some((Association::InstanceMut, p + 3))
    } else {
        None
    }
}

/// Parses the named parameters from `i` up to the closing parenthesis at
/// `last`, appending their types to `inputs`.
fn parse_params(toks: &Vec<Token>, from: usize, last: usize, self_ty: &Option<String>, inputs: &mut Vec<Type>) -> (r:
    Result<(), Diagnostic>)
    requires
        from <= toks.len(),
        last < toks.len(),
    ensures
        r is Ok <==> params_scan(
            toks@,
            from as int,
            last as int,
            opt_str(*self_ty),
            shape_list(models(*old(inputs), old(inputs).len() as nat)),
        ) is Some,
        r is Ok ==> Some(shape_list(models(*final(inputs), final(inputs).len() as nat))) == params_scan(
            toks@,
            from as int,
            last as int,
            opt_str(*self_ty),
            shape_list(models(*old(inputs), old(inputs).len() as nat)),
        ),
        final(inputs).len() >= old(inputs).len(),
        final(inputs)@.subrange(0, old(inputs).len() as int) == old(inputs)@,
{
    let ghost st = opt_str(*self_ty);
    let ghost acc0 = shape_list(models(*inputs, inputs.len() as nat));
    let ghost start = from as int;
    let mut i = from;
    while i < last
        invariant
            i <= toks.len(),
            last < toks.len(),
            st == opt_str(*self_ty),
            start == from as int,
            acc0 == shape_list(models(*old(inputs), old(inputs).len() as nat)),
            params_scan(toks@, start, last as int, st, acc0) == params_scan(
                toks@,
                i as int,
                last as int,
                st,
                shape_list(models(*inputs, inputs.len() as nat)),
            ),
            inputs.len() >= old(inputs).len(),
            inputs@.subrange(0, old(inputs).len() as int) == old(inputs)@,
        decreases toks.len() - i,
    {
        let ghost i0 = i;
        while punct_at(toks, i, '#') && open_at(toks, i + 1, '[')
            invariant
                i0 <= i <= toks.len(),
                param_attrs_end(toks@, i0 as int) == param_attrs_end(toks@, i as int),
                last < toks.len(),
                i0 < last,
                st == opt_str(*self_ty),
                start == from as int,
                acc0 == shape_list(models(*old(inputs), old(inputs).len() as nat)),
                params_scan(toks@, start, last as int, st, acc0) == params_scan(
                    toks@,
                    i0 as int,
                    last as int,
                    st,
                    shape_list(models(*inputs, inputs.len() as nat)),
                ),
                inputs.len() >= old(inputs).len(),
                inputs@.subrange(0, old(inputs).len() as int) == old(inputs)@,
            decreases toks.len() - i,
        {
            match skip_group(toks, i + 1) {
                Ok(g) => {
                    i = g;
                },
                Err(d) => {
                    assert(param_attrs_end(toks@, i0 as int) is None);
                    assert(params_scan(toks@, i0 as int, last as int, st, shape_list(models(*inputs, inputs.len() as nat)))
                        is None);
                    return Err(d);
                },
            }
        }
        if receiver_at(toks, i).is_some() {
            assert(param_attrs_end(toks@, i0 as int) == Some(i as int));
            assert(params_scan(toks@, i0 as int, last as int, st, shape_list(models(*inputs, inputs.len() as nat))) is None);
            return err(ParseError::SecondSelf, i);
        }
        let mut j = i;
        while j < last && !punct_at(toks, j, ':')
            invariant
                i0 <= i <= j <= toks.len(),
                colon_scan(toks@, i as int, last as int) == colon_scan(toks@, j as int, last as int),
                param_attrs_end(toks@, i0 as int) == Some(i as int),
                receiver_kind(toks@, i as int) is None,
                last < toks.len(),
                i0 < last,
                st == opt_str(*self_ty),
                start == from as int,
                acc0 == shape_list(models(*old(inputs), old(inputs).len() as nat)),
                params_scan(toks@, start, last as int, st, acc0) == params_scan(
                    toks@,
                    i0 as int,
                    last as int,
                    st,
                    shape_list(models(*inputs, inputs.len() as nat)),
                ),
                inputs.len() >= old(inputs).len(),
                inputs@.subrange(0, old(inputs).len() as int) == old(inputs)@,
            decreases toks.len() - j,
        {
            match &toks[j] {
                Token::Open(_) => {
                    match skip_group(toks, j) {
                        Ok(g) => {
                            j = g;
                        },
                        Err(d) => {
                            assert(colon_scan(toks@, i as int, last as int) is None);
                    assert(params_scan(toks@, i0 as int, last as int, st, shape_list(models(*inputs, inputs.len() as nat)))
                        is None);
                            return Err(d);
                        },
                    }
                },
                _ => {
                    j = j + 1;
                },
            }
        }
        assert(colon_scan(toks@, i as int, last as int) == Some(j as int));
        if j >= last || j == i {
            assert(params_scan(toks@, i0 as int, last as int, st, shape_list(models(*inputs, inputs.len() as nat))) is None);
            return err(ParseError::Unexpected, j);
        }
        let (t, e) = match parse_type(toks, j + 1, self_ty) {
            Ok(x) => x,
            Err(d) => {
                assert(params_scan(toks@, i0 as int, last as int, st, shape_list(models(*inputs, inputs.len() as nat))) is None);
                return Err(d);
            },
        };
        let ghost in0 = *inputs;
        let ghost tm = t.model();
        inputs.push(t);
        proof {
            lemma_models(in0, in0.len() as nat);
            lemma_models(*inputs, inputs.len() as nat);
            crate::ty::lemma_models_same(*inputs, in0, in0.len() as nat);
            assert(models(*inputs, inputs.len() as nat).drop_last() =~= models(in0, in0.len() as nat));
            assert(shape_list(models(*inputs, inputs.len() as nat)) == shape_list(models(in0, in0.len() as nat)).push(
                shape(tm),
            ));
            assert(inputs@.subrange(0, old(inputs).len() as int) =~= in0@.subrange(0, old(inputs).len() as int));
        }
        if e == last {
            i = e;
        } else if punct_at(toks, e, ',') {
            i = e + 1;
        } else {
            assert(params_scan(toks@, i0 as int, last as int, st, shape_list(models(in0, in0.len() as nat))) is None);
            return err(ParseError::Unexpected, e);
        }
    }
    Ok(())
}

/// Parses a function from its name at `pos` (the qualifiers and `fn` are
/// already read). A receiver is accepted only inside an associated block,
/// and `self` by value only on an `unsafe` function.
pub fn parse_fn_rest(
    toks: &Vec<Token>,
    pos: usize,
    attr: Attribute,
    vis: String,
    self_ty: &Option<String>,
    const_: bool,
    unsafe_: bool,
) -> (r: Result<(ItemFn, usize), Diagnostic>)
    requires
        pos <= toks.len(),
    ensures
        r matches Ok((_, end)) ==> pos < end <= toks.len(),
        (pos < toks.len() && toks@[pos as int] is Ident && is_punct(toks@, pos + 1, '<')) ==> r == Err::<
            (ItemFn, usize),
            Diagnostic,
        >(Diagnostic { error: ParseError::Generics, at: (pos + 1) as usize }),
        r matches Ok((f, _)) ==> f.ident@ == toks@[pos as int]->Ident_0@,
        r matches Ok((f, _)) ==> f.block.self_ty == *self_ty && f.unsafe_ == unsafe_ && f.const_ == const_,
        r matches Ok((f, _)) ==> f.attr.markers == attr.markers,
        r matches Ok((f, _)) ==> f.block.args@.len() == 0 && f.block.in_stmts@.len() == 0 && f.block.out_stmt is None,
        r matches Ok((f, _)) ==> f.assoc == expected_assoc(
            self_ty is Some,
            receiver_kind(toks@, pos + 2),
            attr.has(Marker::Constructor),
        ),
        (pos < toks.len() && toks@[pos as int] is Ident && is_open(toks@, pos + 1, '(') && receiver_kind(
            toks@,
            pos + 2,
        ) is Some && self_ty is None) ==> r is Err,
        (receiver_kind(toks@, pos + 2) == Some(Association::Destructor) && !unsafe_) ==> r is Err,
        r matches Ok((f, _)) ==> (group_end(toks@, pos + 1) matches Some(c) && ((is_punct(toks@, c, '-')
            && is_punct(toks@, c + 1, '>')) ==> (type_shape(toks@, c + 2, opt_str(*self_ty)) matches Some((o, _))
            && o == shape(f.output.model()))) && (!(is_punct(toks@, c, '-') && is_punct(toks@, c + 1, '>'))
            ==> f.output.model() == TypeModel::Void)),
        r matches Ok((f, _)) ==> (receiver_kind(toks@, pos + 2) matches Some(k) ==> (f.inputs.len() >= 1
            && self_ty is Some && f.inputs[0].model() == receiver_type(k, self_ty->0@))),
        r is Ok <==> fn_shape(toks@, pos as int, opt_str(*self_ty), unsafe_, attr.has(Marker::Constructor)) is Some,
        r matches Ok((f, e)) ==> fn_shape(toks@, pos as int, opt_str(*self_ty), unsafe_, attr.has(Marker::Constructor))
            == Some((shape_list(f.input_models()), shape(f.output.model()), f.assoc, e as int)),
        (pos < toks.len() && toks@[pos as int] is Ident && is_open(toks@, pos + 1, '(') && group_end(toks@, pos + 1)
            is Some) ==> ({
            &&& (receiver_kind(toks@, pos + 2) is Some && self_ty is None) ==> r == Err::<(ItemFn, usize), Diagnostic>(
                Diagnostic { error: ParseError::ReceiverOutsideImpl, at: (pos + 2) as usize },
            )
            &&& (receiver_kind(toks@, pos + 2) == Some(Association::Destructor) && self_ty is Some && !unsafe_) ==> r
                == Err::<(ItemFn, usize), Diagnostic>(
                Diagnostic { error: ParseError::OwnedSelfNotUnsafe, at: (pos + 2) as usize },
            )
            &&& (is_punct(toks@, pos + 2, '&') && pos + 3 < toks.len() && toks@[pos + 3] is Lifetime) ==> r == Err::<
                (ItemFn, usize),
                Diagnostic,
            >(Diagnostic { error: ParseError::Lifetime, at: (pos + 3) as usize })
        }),
{
    let mut attr = attr;
    let ghost old_markers = attr.markers;
    if pos >= toks.len() {
        return err(ParseError::UnexpectedEnd, pos);
    }
    let ident = match &toks[pos] {
        Token::Ident(s) => s.clone(),
        _ => {
            return err(ParseError::Unexpected, pos);
        },
    };
    if punct_at(toks, pos + 1, '<') {
        return err(ParseError::Generics, pos + 1);
    }
    if !open_at(toks, pos + 1, '(') {
        return err(ParseError::Unexpected, pos + 1);
    }
    let close = skip_group(toks, pos + 1)?;
    let last = close - 1;
    let mut inputs: Vec<Type> = Vec::new();
    let mut assoc: Option<Association> = match self_ty {
        Some(_) => Some(Association::Static),
        None => None,
    };
    let mut i = pos + 2;
    let rk = receiver_at(toks, i);
    let ghost st = opt_str(*self_ty);
    let ghost recv: Seq<TypeModel> = match receiver_kind(toks@, pos + 2) {
        Some(k) => seq![receiver_type(k, st->0)],
        None => Seq::empty(),
    };
    proof {
        reveal_strlit("self");
        reveal_strlit("mut");
        assert("self"@.len() != "mut"@.len());
    }
    match rk {
        Some((kind, after)) => {
            match self_ty {
                None => {
                    return err(ParseError::ReceiverOutsideImpl, i);
                },
                Some(t) => {
                    let user = Type::UserDefined(t.clone());
                    let ghost um = user.model();
                    assert(um == TypeModel::UserDefined(t@));
                    let ty = match kind {
                        Association::Instance => Type::Ref(Box::new(user)),
                        Association::InstanceMut => Type::RefMut(Box::new(user)),
                        _ => {
                            if !unsafe_ {
                                return err(ParseError::OwnedSelfNotUnsafe, i);
                            }
                            user
                        },
                    };
                    let ghost tym = ty.model();
                    proof {
                        match kind {
                            Association::Instance => {
                                assert(tym == TypeModel::Ref(Box::new(um)));
                            },
                            Association::InstanceMut => {
                                assert(tym == TypeModel::RefMut(Box::new(um)));
                            },
                            _ => {
                                assert(tym == um);
                            },
                        }
                        assert(tym == receiver_type(kind, t@));
                    }
                    inputs.push(ty);
                    assert(inputs[0].model() == receiver_type(kind, t@));
                    proof {
                        lemma_models(inputs, 1);
                        assert(models(inputs, 1).drop_last() =~= models(inputs, 0));
                        lemma_receiver_shape(kind, t@);
                        assert(inputs[0].model() == receiver_type(kind, t@));
                        assert(models(inputs, 1)[0] == receiver_type(kind, t@));
                        assert(models(inputs, 1).len() == 1);
                        assert(models(inputs, 1).drop_last() =~= Seq::<TypeModel>::empty());
                        assert(shape_list(Seq::<TypeModel>::empty()) == Seq::<TypeModel>::empty());
                        assert(shape_list(models(inputs, 1)) == shape_list(models(inputs, 1).drop_last()).push(
                            shape(models(inputs, 1).last()),
                        ));
                        assert(shape_list(models(inputs, 1)).len() == 1);
                        assert(shape_list(models(inputs, 1))[0] == shape(models(inputs, 1)[0]));
                        assert(st == Some(t@));
                        assert(shape_list(models(inputs, 1)) =~= recv);
                    }
                    assoc = Some(kind);
                },
            }
            i = after;
            if punct_at(toks, i, ',') {
                i = i + 1;
            }
        },
        None => {
            assert(shape_list(models(inputs, 0)) =~= recv);
            if punct_at(toks, i, '&') && i + 1 < toks.len() {
                match &toks[i + 1] {
                    Token::Lifetime(_) => {
                        return err(ParseError::Lifetime, i + 1);
                    },
                    _ => {},
                }
            }
        },
    }
    let ghost istart = i as int;
    let ghost inputs0 = inputs;
    parse_params(toks, i, last, self_ty, &mut inputs)?;
    proof {
        assert(inputs@.subrange(0, inputs0.len() as int) == inputs0@);
        if inputs0.len() >= 1 {
            assert(inputs[0] == inputs0[0]);
        }
    }
    let mut e = close;
    let output = if punct_at(toks, close, '-') && punct_at(toks, close + 1, '>') {
        let (t, end) = parse_type(toks, close + 2, self_ty)?;
        e = end;
        t
    } else {
        Type::Void
    };
    if kw_at(toks, e, "where") {
        return err(ParseError::WhereClause, e);
    }
    if !open_at(toks, e, '{') {
        return err(ParseError::Unexpected, e);
    }
    let body_end = skip_group(toks, e)?;
    let _ = parse_inner(toks, e + 1, &mut attr)?;
    if attr.has_constructor() {
        match self_ty {
            Some(t) => {
                if rk.is_none() {
                    if !output.is_self_ty(t.as_str()) {
                        return err(ParseError::ConstructorReturn, pos);
                    }
                    assoc = Some(Association::Constructor);
                }
            },
            None => {},
        }
    }
    let mut block = Block::new();
    block.self_ty = match self_ty {
        Some(t) => Some(t.clone()),
        None => None,
    };
    let f = ItemFn { attr, vis, const_, unsafe_, ident, inputs, output, assoc, block };
    Ok((f, body_end))
}

/* ------------------------------------------------------------------------ */

/// Reads the qualifiers of a function up to and including `fn`: returns
/// whether it is `const` and `unsafe` and the index after `fn`, or `None`
/// when no function starts at `pos`. `async` and any ABI but `"C"` are
/// rejected.
fn parse_fn_head(toks: &Vec<Token>, pos: usize) -> (r: Result<Option<(bool, bool, usize)>, Diagnostic>)
    requires
        pos <= toks.len(),
    ensures
        r matches Ok(Some((_, _, end))) ==> pos < end <= toks.len(),
        is_kw(toks@, pos as int, "fn"@) ==> r == Ok::<Option<(bool, bool, usize)>, Diagnostic>(
            Some((false, false, (pos + 1) as usize)),
        ),
        r is Ok <==> fn_head_spec(toks@, pos as int) is Some,
        r matches Ok(None) ==> fn_head_spec(toks@, pos as int) == Some(None::<(bool, bool, int)>),
        r matches Ok(Some((c, u, e))) ==> fn_head_spec(toks@, pos as int) == Some(Some((c, u, e as int))),
{
    proof {
        reveal_strlit("fn");
        reveal_strlit("const");
        reveal_strlit("async");
        reveal_strlit("unsafe");
        reveal_strlit("extern");
        assert("fn"@.len() != "const"@.len() && "fn"@.len() != "async"@.len() && "fn"@.len() != "unsafe"@.len()
            && "fn"@.len() != "extern"@.len());
    }
    let mut i = pos;
    let const_ = kw_at(toks, i, "const");
    if const_ {
        i = i + 1;
    }
    let async_ = kw_at(toks, i, "async");
    let async_at = i;
    if async_ {
        i = i + 1;
    }
    let unsafe_ = kw_at(toks, i, "unsafe");
    if unsafe_ {
        i = i + 1;
    }
    let mut bad_abi: Option<usize> = None;
    if kw_at(toks, i, "extern") {
        i = i + 1;
        if i < toks.len() {
            match &toks[i] {
                Token::Lit(abi) => {
                    proof {
                        reveal_strlit("C");
                    }
                    if !str_eq(abi.as_str(), "C") {
                        bad_abi = Some(i);
                    }
                    i = i + 1;
                },
                _ => {},
            }
        }
    }
    if !kw_at(toks, i, "fn") {
        return Ok(None);
    }
    if async_ {
        return err(ParseError::Async, async_at);
    }
    match bad_abi {
        Some(at) => {
            return err(ParseError::Abi, at);
        },
        None => {},
    }
    Ok(Some((const_, unsafe_, i + 1)))
}

/// Skips an item the grammar does not read: up to and including the next
/// `;` outside any group, or a braced body.
fn skip_item(toks: &Vec<Token>, pos: usize) -> (r: Result<usize, Diagnostic>)
    requires
        pos < toks.len(),
    ensures
        r matches Ok(end) ==> pos < end <= toks.len(),
        r is Ok <==> item_end(toks@, pos as int) is Some,
        r matches Ok(end) ==> item_end(toks@, pos as int) == Some(end as int),
{
    let mut i = pos;
    while i < toks.len()
        invariant
            pos <= i <= toks.len(),
            item_end(toks@, pos as int) == item_end(toks@, i as int),
        decreases toks.len() - i,
    {
        match &toks[i] {
            Token::Open(c) => {
                let brace = *c == '{';
                i = skip_group(toks, i)?;
                if brace {
                    if punct_at(toks, i, ';') {
                        i = i + 1;
                    }
                    return Ok(i);
                }
            },
            Token::Close(_) => {
                return err(ParseError::Unexpected, i);
            },
            Token::Punct(c) => {
                i = i + 1;
                if *c == ';' {
                    return Ok(i);
                }
            },
            _ => {
                i = i + 1;
            },
        }
    }
    err(ParseError::UnexpectedEnd, pos)
}

/// The index after an optional visibility at `pos`.
pub open spec fn vis_end(toks: Seq<Token>, pos: int) -> Option<int> {
    if is_kw(toks, pos, "pub"@) {
        if is_open(toks, pos + 1, '(') { group_end(toks, pos + 1) } else { Some(pos + 1) }
    } else {
        Some(pos)
    }
}

/// The qualifiers of a function at `pos` up to and including `fn`: `None`
/// when they are refused (`async`, an ABI other than `"C"`), `Some(None)`
/// when no function starts there, else whether it is `const` and `unsafe`
/// and the index after `fn`.
pub open spec fn fn_head_spec(toks: Seq<Token>, pos: int) -> Option<Option<(bool, bool, int)>> {
    let c = is_kw(toks, pos, "const"@);
    let i1 = if c { pos + 1 } else { pos };
    let a = is_kw(toks, i1, "async"@);
    let i2 = if a { i1 + 1 } else { i1 };
    let u = is_kw(toks, i2, "unsafe"@);
    let i3 = if u { i2 + 1 } else { i2 };
    let ext = is_kw(toks, i3, "extern"@);
    let lit = ext && i3 + 1 < toks.len() && toks[i3 + 1] is Lit;
    let bad = lit && toks[i3 + 1]->Lit_0@ != "C"@;
    let i4 = if lit { i3 + 2 } else if ext { i3 + 1 } else { i3 };
    if !is_kw(toks, i4, "fn"@) {
        Some(None)
    } else if a || bad {
        None
    } else {
        Some(Some((c, u, i4 + 1)))
    }
}

/// The end of an item the grammar does not read, scanned from `i`: after
/// the next `;` outside any group, or after a braced body.
pub open spec fn item_end(toks: Seq<Token>, i: int) -> Option<int>
    decreases toks.len() - i,
{
    if i < 0 || i >= toks.len() {
        None
    } else {
        match toks[i] {
            Token::Open(c) => match group_end(toks, i) {
                None => None,
                Some(g) => if !(i < g <= toks.len()) {
                    None
                } else if c == '{' {
                    if is_punct(toks, g, ';') { Some(g + 1) } else { Some(g) }
                } else {
                    item_end(toks, g)
                },
            },
            Token::Close(_) => None,
            Token::Punct(c) => if c == ';' { Some(i + 1) } else { item_end(toks, i + 1) },
            _ => item_end(toks, i + 1),
        }
    }
}

/// A parsed function as the grammar sees it: parameter and result shapes
/// and association.
pub open spec fn fn_summary(f: ItemFn) -> (Seq<TypeModel>, TypeModel, Option<Association>) {
    (shape_list(f.input_models()), shape(f.output.model()), f.assoc)
}

/// One member of an associated block of `self_ty` at `i` (before the
/// closing brace at `last`): a function, given as its summary, or another
/// item, skipped; and the index after it. `ctor` records a constructor
/// already seen: a second one is refused.
pub open spec fn impl_item_step(toks: Seq<Token>, i: int, last: int, self_ty: Seq<char>, ctor: bool) -> Option<
    (Option<(Seq<TypeModel>, TypeModel, Option<Association>)>, int),
> {
    match outer_scan(toks, i, Seq::empty()) {
        None => None,
        Some((ms, a)) => match vis_end(toks, a) {
            None => None,
            Some(v) => match fn_head_spec(toks, v) {
                None => None,
                Some(Some((_, u, after))) => match fn_shape(toks, after, Some(self_ty), u, ms.contains(Marker::Constructor)) {
                    None => None,
                    Some((ins, o, assoc, e)) => if assoc == Some(Association::Constructor) && ctor {
                        None
                    } else {
                        Some((Some((ins, o, assoc)), e))
                    },
                },
                Some(None) => if v >= last {
                    None
                } else {
                    match item_end(toks, v) {
                        None => None,
                        Some(e) => Some((None, e)),
                    }
                },
            },
        },
    }
}

/// The functions of an associated block of `self_ty` from `i` up to the
/// closing brace at `last`, after `acc`; `ctor` records a constructor seen.
pub open spec fn impl_items_scan(
    toks: Seq<Token>,
    i: int,
    last: int,
    self_ty: Seq<char>,
    acc: Seq<(Seq<TypeModel>, TypeModel, Option<Association>)>,
    ctor: bool,
) -> Option<Seq<(Seq<TypeModel>, TypeModel, Option<Association>)>>
    decreases toks.len() - i,
{
    if i < 0 || i > toks.len() || last >= toks.len() {
        None
    } else if i >= last {
        Some(acc)
    } else {
        match impl_item_step(toks, i, last, self_ty, ctor) {
            None => None,
            Some((item, e)) => if e <= i || e > toks.len() {
                None
            } else {
                match item {
                    Some(f) => impl_items_scan(
                        toks,
                        e,
                        last,
                        self_ty,
                        acc.push(f),
                        ctor || f.2 == Some(Association::Constructor),
                    ),
                    None => impl_items_scan(toks, e, last, self_ty, acc, ctor),
                }
            },
        }
    }
}

/// Parses one member of an associated block of `self_ty` at `i`.
fn parse_impl_item(toks: &Vec<Token>, i: usize, last: usize, some_ty: &Option<String>, ctor: bool) -> (r: Result<
    (Option<ItemFn>, usize),
    Diagnostic,
>)
    requires
        i < last < toks.len(),
        some_ty is Some,
    ensures
        r is Ok <==> impl_item_step(toks@, i as int, last as int, some_ty->0@, ctor) is Some,
        r matches Ok((fo, e)) ==> i < e <= toks.len() && impl_item_step(toks@, i as int, last as int, some_ty->0@, ctor)
            == Some(
            (
                match fo {
                    Some(f) => Some(fn_summary(f)),
                    None => None,
                },
                e as int,
            ),
        ),
        r matches Ok((Some(f), _)) ==> f.block.self_ty == *some_ty,
{
    let mut item_attr = Attribute::new();
    assert(item_attr.markers@ =~= Seq::<Marker>::empty());
    assert(opt_str(*some_ty) == Some(some_ty->0@));
    let a = parse_outer(toks, i, &mut item_attr)?;
    let (vis, v) = parse_vis(toks, a)?;
    match parse_fn_head(toks, v)? {
        Some((const_, unsafe_fn, after)) => {
            proof {
                assert(item_attr.has(Marker::Constructor) == item_attr.markers@.contains(Marker::Constructor));
            }
            let (f, e) = parse_fn_rest(toks, after, item_attr, vis, some_ty, const_, unsafe_fn)?;
            let is_ctor = match f.assoc {
                Some(Association::Constructor) => true,
                _ => false,
            };
            if is_ctor && ctor {
                return err(ParseError::DuplicateConstructor, after);
            }
            Ok((Some(f), e))
        },
        None => {
            if v >= last {
                return err(ParseError::Unexpected, v);
            }
            let e = skip_item(toks, v)?;
            Ok((None, e))
        },
    }
}

/// The grammar of an associated block after `impl`: a bare identifier that
/// is not a keyword, then a braced body of functions. Gives the type name,
/// the functions in order and the index after the body.
pub open spec fn impl_shape(toks: Seq<Token>, pos: int) -> Option<
    (Seq<char>, Seq<(Seq<TypeModel>, TypeModel, Option<Association>)>, int),
> {
    if !(0 <= pos < toks.len()) || !(toks[pos] is Ident) || reserved(toks[pos]->Ident_0@) || is_punct(
        toks,
        pos + 1,
        ':',
    ) || is_punct(toks, pos + 1, '<') || is_kw(toks, pos + 1, "for"@) || is_kw(toks, pos + 1, "where"@)
        || !is_open(toks, pos + 1, '{') {
        None
    } else {
        match group_end(toks, pos + 1) {
            None => None,
            Some(end) => match inner_scan(toks, pos + 2) {
                None => None,
                Some(i) => match impl_items_scan(toks, i, end - 1, toks[pos]->Ident_0@, Seq::empty(), false) {
                    None => None,
                    Some(items) => Some((toks[pos]->Ident_0@, items, end)),
                },
            },
        }
    }
}

/// Parses an associated block from the token after `impl`.
pub fn parse_impl_rest(toks: &Vec<Token>, pos: usize, attr: Attribute, unsafe_: bool) -> (r: Result<
    (ItemImpl, usize),
    Diagnostic,
>)
    requires
        pos <= toks.len(),
    ensures
        r matches Ok((_, end)) ==> pos < end <= toks.len(),
        is_punct(toks@, pos as int, '<') ==> r == Err::<(ItemImpl, usize), Diagnostic>(
            Diagnostic { error: ParseError::Generics, at: pos },
        ),
        is_punct(toks@, pos as int, ':') || is_punct(toks@, pos + 1, ':') || is_punct(toks@, pos + 1, '<')
            || is_kw(toks@, pos + 1, "for"@) || is_kw(toks@, pos + 1, "where"@) ==> r is Err,
        r matches Ok((i, _)) ==> i.self_ty@ == toks@[pos as int]->Ident_0@ && i.unsafe_ == unsafe_,
        r matches Ok((i, _)) ==> i.attr.markers == attr.markers,
        r matches Ok((i, _)) ==> forall|j: int|
            0 <= j < i.items.len() ==> opt_str(#[trigger] i.items[j].block.self_ty) == Some(i.self_ty@),
        r matches Ok((i, _)) ==> forall|j: int, k: int|
            0 <= j < i.items.len() && 0 <= k < i.items.len() && i.items[j].assoc == Some(Association::Constructor)
                && i.items[k].assoc == Some(Association::Constructor) ==> j == k,
        r is Ok <==> impl_shape(toks@, pos as int) is Some,
        r matches Ok((im, e)) ==> impl_shape(toks@, pos as int) == Some(
            (im.self_ty@, im.items@.map_values(|f: ItemFn| fn_summary(f)), e as int),
        ),
{
    let mut attr = attr;
    if punct_at(toks, pos, '<') {
        return err(ParseError::Generics, pos);
    }
    if punct_at(toks, pos, ':') {
        return err(ParseError::GlobalPath, pos);
    }
    if pos >= toks.len() {
        return err(ParseError::UnexpectedEnd, pos);
    }
    let self_ty = match &toks[pos] {
        Token::Ident(s) => {
            if is_reserved(s.as_str()) {
                return err(ParseError::ImplType, pos);
            }
            s.clone()
        },
        _ => {
            return err(ParseError::ImplType, pos);
        },
    };
    if punct_at(toks, pos + 1, ':') {
        return err(ParseError::TypePath, pos + 1);
    }
    if punct_at(toks, pos + 1, '<') {
        return err(ParseError::TypeArguments, pos + 1);
    }
    if kw_at(toks, pos + 1, "for") {
        return err(ParseError::TraitImpl, pos + 1);
    }
    if kw_at(toks, pos + 1, "where") {
        return err(ParseError::WhereClause, pos + 1);
    }
    if !open_at(toks, pos + 1, '{') {
        return err(ParseError::Unexpected, pos + 1);
    }
    let end = skip_group(toks, pos + 1)?;
    let last = end - 1;
    let mut i = parse_inner(toks, pos + 2, &mut attr)?;
    let some_ty = Some(self_ty.clone());
    let mut items: Vec<ItemFn> = Vec::new();
    let mut constructor = false;
    let ghost start = i as int;
    proof {
        assert(items@.map_values(|f: ItemFn| fn_summary(f)) =~= Seq::empty());
        assert(self_ty@ == toks@[pos as int]->Ident_0@);
    }
    while i < last
        invariant
            pos + 2 <= i <= toks.len(),
            last < toks.len(),
            !is_punct(toks@, pos as int, '<'),
            impl_items_scan(toks@, start, last as int, self_ty@, Seq::empty(), false) == impl_items_scan(
                toks@,
                i as int,
                last as int,
                self_ty@,
                items@.map_values(|f: ItemFn| fn_summary(f)),
                constructor,
            ),
            constructor <==> exists|j: int| 0 <= j < items.len() && items[j].assoc == Some(Association::Constructor),
            end == last + 1,
            impl_shape(toks@, pos as int) == (match impl_items_scan(
                toks@,
                start,
                last as int,
                self_ty@,
                Seq::empty(),
                false,
            ) {
                Some(its) => Some((self_ty@, its, end as int)),
                None => None,
            }),
            some_ty == Some(self_ty),
            forall|j: int| 0 <= j < items.len() ==> opt_str(#[trigger] items[j].block.self_ty) == Some(self_ty@),
            forall|j: int| 0 <= j < items.len() && items[j].assoc == Some(Association::Constructor) ==> constructor,
            forall|j: int, k: int|
                0 <= j < items.len() && 0 <= k < items.len() && items[j].assoc == Some(Association::Constructor)
                    && items[k].assoc == Some(Association::Constructor) ==> j == k,
        decreases toks.len() - i,
    {
        let (fo, e) = parse_impl_item(toks, i, last, &some_ty, constructor)?;
        match fo {
            Some(f) => {
                let is_ctor = match f.assoc {
                    Some(Association::Constructor) => true,
                    _ => false,
                };
                if is_ctor {
                    constructor = true;
                }
                let ghost it0 = items@;
                items.push(f);
                proof {
                    assert(items@.map_values(|f: ItemFn| fn_summary(f)) =~= it0.map_values(|f: ItemFn| fn_summary(f)).push(
                        fn_summary(f),
                    ));
                    if exists|j: int| 0 <= j < items.len() && items[j].assoc == Some(Association::Constructor) {
                        let j = choose|j: int| 0 <= j < items.len() && items[j].assoc == Some(Association::Constructor);
                        if j < it0.len() {
                            assert(it0[j] == items[j]);
                        }
                    }
                    if constructor && !is_ctor {
                        let j = choose|j: int| 0 <= j < it0.len() && it0[j].assoc == Some(Association::Constructor);
                        assert(items[j] == it0[j]);
                    }
                    if is_ctor {
                        assert(items[items.len() - 1].assoc == Some(Association::Constructor));
                    }
                    assert forall|j: int| 0 <= j < items.len() implies opt_str(#[trigger] items[j].block.self_ty)
                        == Some(self_ty@) by {
                        if j < it0.len() {
                            assert(items[j] == it0[j]);
                        }
                    }
                }
            },
            None => {},
        }
        i = e;
    }
    Ok((ItemImpl { attr, unsafe_, self_ty, items }, end))
}

/// The index after a struct declaration whose name is at `pos`: a bare
/// name, then a tuple body and `;`, a braced body, or `;`.
pub open spec fn struct_end(toks: Seq<Token>, pos: int) -> Option<int> {
    if !(0 <= pos < toks.len()) || !(toks[pos] is Ident) || is_punct(toks, pos + 1, '<') || is_kw(
        toks,
        pos + 1,
        "where"@,
    ) {
        None
    } else if is_open(toks, pos + 1, '(') {
        match group_end(toks, pos + 1) {
            Some(g) => if is_punct(toks, g, ';') { Some(g + 1) } else { None },
            None => None,
        }
    } else if is_open(toks, pos + 1, '{') {
        group_end(toks, pos + 1)
    } else if is_punct(toks, pos + 1, ';') {
        Some(pos + 2)
    } else {
        None
    }
}

/// Parses a struct declaration from its name; its fields are skipped.
pub fn parse_struct_rest(toks: &Vec<Token>, pos: usize, attr: Attribute) -> (r: Result<
    (ItemStruct, usize),
    Diagnostic,
>)
    requires
        pos <= toks.len(),
    ensures
        r matches Ok((_, end)) ==> pos < end <= toks.len(),
        r matches Ok((st, _)) ==> st.ident@ == toks@[pos as int]->Ident_0@ && st.attr == attr,
        r is Ok ==> pos < toks.len() && toks@[pos as int] is Ident,
        r is Ok <==> struct_end(toks@, pos as int) is Some,
        r matches Ok((_, e)) ==> struct_end(toks@, pos as int) == Some(e as int),
        (pos < toks.len() && toks@[pos as int] is Ident && is_punct(toks@, pos + 1, '<')) ==> r == Err::<
            (ItemStruct, usize),
            Diagnostic,
        >(Diagnostic { error: ParseError::Generics, at: (pos + 1) as usize }),
{
    if pos >= toks.len() {
        return err(ParseError::UnexpectedEnd, pos);
    }
    let ident = match &toks[pos] {
        Token::Ident(s) => s.clone(),
        _ => {
            return err(ParseError::Unexpected, pos);
        },
    };
    if punct_at(toks, pos + 1, '<') {
        return err(ParseError::Generics, pos + 1);
    }
    if kw_at(toks, pos + 1, "where") {
        return err(ParseError::WhereClause, pos + 1);
    }
    let end = if open_at(toks, pos + 1, '(') {
        let e = skip_group(toks, pos + 1)?;
        if !punct_at(toks, e, ';') {
            return err(ParseError::Unexpected, e);
        }
        e + 1
    } else if open_at(toks, pos + 1, '{') {
        skip_group(toks, pos + 1)?
    } else if punct_at(toks, pos + 1, ';') {
        pos + 2
    } else {
        return err(ParseError::Unexpected, pos + 1);
    };
    Ok((ItemStruct { attr, ident }, end))
}

/// Whether an item is kept when only exported items are wanted: exported
/// items, and modules that still hold something.
pub open spec fn kept(item: Item) -> bool {
    match item {
        Item::Fn(f) => f.attr.has(Marker::DenoBindgen),
        Item::Impl(i) => i.attr.has(Marker::DenoBindgen),
        Item::Struct(s) => s.attr.has(Marker::DenoBindgen),
        Item::Mod(m) => m.items.len() > 0,
    }
}

fn is_kept(item: &Item) -> (r: bool)
    ensures
        r == kept(*item),
{
    match item {
        Item::Fn(f) => f.attr.has_deno_bindgen(),
        Item::Impl(i) => i.attr.has_deno_bindgen(),
        Item::Struct(s) => s.attr.has_deno_bindgen(),
        Item::Mod(m) => m.items.len() > 0,
    }
}

/// What the grammar reads of an item: a function (name, summary, whether
/// exported), an associated block (type, functions, whether exported), a
/// struct (name, whether exported), or a module (name, items).
pub enum ItemSummary {
    Fn(Seq<char>, (Seq<TypeModel>, TypeModel, Option<Association>), bool),
    Impl(Seq<char>, Seq<(Seq<TypeModel>, TypeModel, Option<Association>)>, bool),
    Struct(Seq<char>, bool),
    Mod(Seq<char>, Seq<ItemSummary>),
}

/// The outcome of reading an item: its summary and end, no item at all
/// (skipped by the caller), or a failure.
pub enum ItemParse {
    Parsed(ItemSummary, int),
    NotItem,
    Failed,
}

pub open spec fn item_summary(it: Item) -> ItemSummary
    decreases it, 0nat,
{
    match it {
        Item::Fn(f) => ItemSummary::Fn(f.ident@, fn_summary(f), f.attr.has(Marker::DenoBindgen)),
        Item::Impl(i) => ItemSummary::Impl(
            i.self_ty@,
            i.items@.map_values(|f: ItemFn| fn_summary(f)),
            i.attr.has(Marker::DenoBindgen),
        ),
        Item::Struct(s) => ItemSummary::Struct(s.ident@, s.attr.has(Marker::DenoBindgen)),
        Item::Mod(m) => ItemSummary::Mod(m.ident@, item_summaries(m.items, m.items.len() as nat)),
    }
}

/// The summaries of the first `n` items of `v`.
pub open spec fn item_summaries(v: Vec<Item>, n: nat) -> Seq<ItemSummary>
    decreases v, n,
{
    if n == 0 || n > v.len() {
        Seq::empty()
    } else {
        item_summaries(v, (n - 1) as nat).push(item_summary(v[n - 1]))
    }
}

proof fn lemma_item_summaries(v: Vec<Item>, n: nat)
    requires
        n <= v.len(),
    ensures
        item_summaries(v, n).len() == n,
        forall|i: int| 0 <= i < n ==> #[trigger] item_summaries(v, n)[i] == item_summary(v[i]),
    decreases n,
{
    if n > 0 {
        lemma_item_summaries(v, (n - 1) as nat);
    }
}

/// Whether a read item is kept when only exported items are wanted.
pub open spec fn kept_summary(s: ItemSummary) -> bool {
    match s {
        ItemSummary::Fn(_, _, e) => e,
        ItemSummary::Impl(_, _, e) => e,
        ItemSummary::Struct(_, e) => e,
        ItemSummary::Mod(_, items) => items.len() > 0,
    }
}

/// The item grammar at `pos`: outer attributes, a visibility, then a
/// function, an associated block, a struct or a module.
pub open spec fn item_parse(toks: Seq<Token>, pos: int, filtered: bool) -> ItemParse
    decreases toks.len() - pos, 1nat,
{
    match outer_scan(toks, pos, Seq::empty()) {
        None => ItemParse::Failed,
        Some((ms, a)) => match vis_end(toks, a) {
            None => ItemParse::Failed,
            Some(v) => {
                let exported = ms.contains(Marker::DenoBindgen);
                match fn_head_spec(toks, v) {
                    None => ItemParse::Failed,
                    Some(Some((_, u, after))) => match fn_shape(toks, after, None, u, ms.contains(Marker::Constructor)) {
                        None => ItemParse::Failed,
                        Some((ins, o, assoc, e)) => ItemParse::Parsed(
                            ItemSummary::Fn(toks[after]->Ident_0@, (ins, o, assoc), exported),
                            e,
                        ),
                    },
                    Some(None) => {
                        let k = if is_kw(toks, v, "unsafe"@) { v + 1 } else { v };
                        if is_kw(toks, k, "impl"@) {
                            match impl_shape(toks, k + 1) {
                                None => ItemParse::Failed,
                                Some((t, its, e)) => ItemParse::Parsed(ItemSummary::Impl(t, its, exported), e),
                            }
                        } else if is_kw(toks, v, "struct"@) {
                            match struct_end(toks, v + 1) {
                                None => ItemParse::Failed,
                                Some(e) => ItemParse::Parsed(ItemSummary::Struct(toks[v + 1]->Ident_0@, exported), e),
                            }
                        } else if is_kw(toks, k, "mod"@) {
                            mod_parse(toks, k + 1, pos, filtered)
                        } else {
                            ItemParse::NotItem
                        }
                    },
                }
            },
        },
    }
}

/// A module whose name is at `n`, for an item that starts at `pos`.
pub open spec fn mod_parse(toks: Seq<Token>, n: int, pos: int, filtered: bool) -> ItemParse
    decreases toks.len() - pos, 0nat,
{
    if !(0 <= pos < n < toks.len()) || !(toks[n] is Ident) {
        ItemParse::Failed
    } else if is_punct(toks, n + 1, ';') {
        ItemParse::Parsed(ItemSummary::Mod(toks[n]->Ident_0@, Seq::empty()), n + 2)
    } else if !is_open(toks, n + 1, '{') {
        ItemParse::Failed
    } else {
        match group_end(toks, n + 1) {
            None => ItemParse::Failed,
            Some(end) => match inner_scan(toks, n + 2) {
                None => ItemParse::Failed,
                Some(body) => if body > end - 1 || body <= pos || end > toks.len() {
                    ItemParse::Failed
                } else {
                    match many_parse(toks, body, end - 1, filtered, Seq::empty()) {
                        None => ItemParse::Failed,
                        Some(items) => ItemParse::Parsed(ItemSummary::Mod(toks[n]->Ident_0@, items), end),
                    }
                },
            },
        }
    }
}

/// The items from `i` up to `end`, after `acc`. Unreadable items are
/// skipped; a failed item is fatal unless only exported items are wanted
/// and it is not exported. With `filtered`, only kept items are listed.
pub open spec fn many_parse(toks: Seq<Token>, i: int, end: int, filtered: bool, acc: Seq<ItemSummary>) -> Option<
    Seq<ItemSummary>,
>
    decreases toks.len() - i, 2nat,
{
    if i < 0 || end > toks.len() {
        None
    } else if i >= end {
        Some(acc)
    } else {
        let exported = match outer_scan(toks, i, Seq::empty()) {
            Some((ms, _)) => ms.contains(Marker::DenoBindgen),
            None => false,
        };
        let skip = match item_end(toks, i) {
            Some(e) => if i < e <= toks.len() { many_parse(toks, e, end, filtered, acc) } else { None },
            None => None,
        };
        match item_parse(toks, i, filtered) {
            ItemParse::Parsed(s, e) => if !(i < e <= toks.len()) {
                None
            } else {
                many_parse(toks, e, end, filtered, if !filtered || kept_summary(s) { acc.push(s) } else { acc })
            },
            ItemParse::NotItem => skip,
            ItemParse::Failed => if !filtered || exported { None } else { skip },
        }
    }
}

/// Parses one item at `pos`: a function, an associated block, a struct or
/// a module; `None` when no such item starts there.
pub fn parse_item(toks: &Vec<Token>, pos: usize, filtered: bool) -> (r: Result<Option<(Item, usize)>, Diagnostic>)
    requires
        pos <= toks.len(),
    ensures
        r matches Ok(Some((_, end))) ==> pos < end <= toks.len(),
        r is Err <==> item_parse(toks@, pos as int, filtered) is Failed,
        r matches Ok(None) <==> item_parse(toks@, pos as int, filtered) is NotItem,
        r matches Ok(Some((it, e))) ==> item_parse(toks@, pos as int, filtered) == ItemParse::Parsed(
            item_summary(it),
            e as int,
        ),
    decreases toks.len() - pos, 1nat,
{
    let mut attr = Attribute::new();
    assert(attr.markers@ =~= Seq::<Marker>::empty());
    let a = parse_outer(toks, pos, &mut attr)?;
    let (vis, v) = parse_vis(toks, a)?;
    proof {
        assert(attr.has(Marker::Constructor) == attr.markers@.contains(Marker::Constructor));
        assert(attr.has(Marker::DenoBindgen) == attr.markers@.contains(Marker::DenoBindgen));
        assert(opt_str(None::<String>) == None::<Seq<char>>);
    }
    match parse_fn_head(toks, v)? {
        Some((const_, unsafe_, after)) => {
            let ghost m = attr.markers;
            let (f, e) = parse_fn_rest(toks, after, attr, vis, &None, const_, unsafe_)?;
            assert(f.attr.has(Marker::DenoBindgen) == m@.contains(Marker::DenoBindgen));
            return Ok(Some((Item::Fn(f), e)));
        },
        None => {},
    }
    let unsafe_ = kw_at(toks, v, "unsafe");
    let k = if unsafe_ {
        v + 1
    } else {
        v
    };
    if kw_at(toks, k, "impl") {
        let ghost m = attr.markers;
        let (i, e) = parse_impl_rest(toks, k + 1, attr, unsafe_)?;
        return Ok(Some((Item::Impl(i), e)));
    }
    if kw_at(toks, v, "struct") {
        let (st, e) = parse_struct_rest(toks, v + 1, attr)?;
        return Ok(Some((Item::Struct(st), e)));
    }
    if kw_at(toks, k, "mod") {
        let r = parse_mod_rest(toks, k + 1, pos, attr, filtered)?;
        return Ok(Some(r));
    }
    Ok(None)
}

/// Parses a module from its name at `name_at`, for the item at `pos`.
fn parse_mod_rest(toks: &Vec<Token>, name_at: usize, pos: usize, attr: Attribute, filtered: bool) -> (r: Result<
    (Item, usize),
    Diagnostic,
>)
    requires
        pos < name_at <= toks.len(),
    ensures
        r matches Ok((_, end)) ==> pos < end <= toks.len(),
        r is Err <==> mod_parse(toks@, name_at as int, pos as int, filtered) is Failed,
        r matches Ok((it, e)) ==> mod_parse(toks@, name_at as int, pos as int, filtered) == ItemParse::Parsed(
            item_summary(it),
            e as int,
        ),
        !(mod_parse(toks@, name_at as int, pos as int, filtered) is NotItem),
    decreases toks.len() - pos, 0nat,
{
    let mut attr = attr;
    {
        if name_at >= toks.len() {
            return err(ParseError::UnexpectedEnd, name_at);
        }
        let ident = match &toks[name_at] {
            Token::Ident(s) => s.clone(),
            _ => {
                return err(ParseError::Unexpected, name_at);
            },
        };
        if punct_at(toks, name_at + 1, ';') {
            let items: Vec<Item> = Vec::new();
            assert(item_summaries(items, 0) =~= Seq::<ItemSummary>::empty());
            return Ok((Item::Mod(ItemMod { attr, ident, items }), name_at + 2));
        }
        if !open_at(toks, name_at + 1, '{') {
            return err(ParseError::Unexpected, name_at + 1);
        }
        let end = skip_group(toks, name_at + 1)?;
        let body = parse_inner(toks, name_at + 2, &mut attr)?;
        if body > end - 1 {
            return err(ParseError::Unexpected, body);
        }
        let items = parse_many(toks, body, end - 1, filtered)?;
        return Ok((Item::Mod(ItemMod { attr, ident, items }), end));
    }
}

/// Parses the items in `pos..end`. Items the grammar does not read are
/// skipped. With `filtered`, only exported items and non-empty modules are
/// kept, and an item that fails to parse is fatal only if it is exported;
/// otherwise every failure is fatal.
pub fn parse_many(toks: &Vec<Token>, pos: usize, end: usize, filtered: bool) -> (r: Result<Vec<Item>, Diagnostic>)
    requires
        pos <= end <= toks.len(),
    ensures
        filtered ==> (r matches Ok(items) ==> forall|j: int| 0 <= j < items.len() ==> kept(#[trigger] items[j])),
        r is Ok <==> many_parse(toks@, pos as int, end as int, filtered, Seq::empty()) is Some,
        r matches Ok(items) ==> many_parse(toks@, pos as int, end as int, filtered, Seq::empty()) == Some(
            item_summaries(items, items.len() as nat),
        ),
    decreases toks.len() - pos, 2nat,
{
    let mut items: Vec<Item> = Vec::new();
    let mut i = pos;
    proof {
        assert(item_summaries(items, 0) =~= Seq::<ItemSummary>::empty());
    }
    while i < end
        invariant
            pos <= i <= toks.len(),
            end <= toks.len(),
            filtered ==> forall|j: int| 0 <= j < items.len() ==> kept(#[trigger] items[j]),
            many_parse(toks@, pos as int, end as int, filtered, Seq::empty()) == many_parse(
                toks@,
                i as int,
                end as int,
                filtered,
                item_summaries(items, items.len() as nat),
            ),
        decreases toks.len() - i,
    {
        let mut attr = Attribute::new();
        assert(attr.markers@ =~= Seq::<Marker>::empty());
        let exported = match parse_outer(toks, i, &mut attr) {
            Ok(_) => attr.has_deno_bindgen(),
            Err(_) => false,
        };
        let ghost acc = item_summaries(items, items.len() as nat);
        match parse_item(toks, i, filtered) {
            Ok(Some((item, e))) => {
                if !filtered || is_kept(&item) {
                    let ghost it0 = items;
                    items.push(item);
                    proof {
                        assert(items[items.len() - 1] == item);
                        lemma_item_summaries(it0, it0.len() as nat);
                        lemma_item_summaries(items, items.len() as nat);
                        assert(forall|j: int| 0 <= j < it0.len() ==> items[j] == it0[j]);
                        assert(item_summaries(items, items.len() as nat) =~= acc.push(item_summary(item)));
                        if filtered {
                            assert forall|j: int| 0 <= j < items.len() implies kept(#[trigger] items[j]) by {
                                if j < it0.len() {
                                    assert(items[j] == it0[j]);
                                }
                            }
                        }
                    }
                }
                proof {
                    lemma_kept_summary(item);
                }
                i = e;
            },
            Ok(None) => {
                i = skip_item(toks, i)?;
            },
            Err(d) => {
                if !filtered || exported {
                    return Err(d);
                }
                i = skip_item(toks, i)?;
            },
        }
    }
    Ok(items)
}

proof fn lemma_kept_summary(it: Item)
    ensures
        kept_summary(item_summary(it)) == kept(it),
{
    match it {
        Item::Mod(m) => {
            lemma_item_summaries(m.items, m.items.len() as nat);
        },
        _ => {},
    }
}

/// Tokenizes `src`, mapping a lexical error to a diagnostic at its start.
pub fn tokens_of(src: &str) -> (r: Result<Vec<Token>, Diagnostic>)
    ensures
        r matches Ok(t) ==> lex_spec(src@) == Ok::<Seq<TokenModel>, ParseError>(token_models(t@)),
        r matches Err(d) ==> lex_spec(src@) == Err::<Seq<TokenModel>, ParseError>(d.error) && d.at == 0,
{
    match lex(src) {
        Ok(t) => Ok(t),
        Err(e) => Err(Diagnostic { error: e, at: 0 }),
    }
}

/// The exported items of a file: its inner attributes, then items.
pub open spec fn file_parse(ts: Seq<Token>) -> Option<Seq<ItemSummary>> {
    match inner_scan(ts, 0) {
        None => None,
        Some(start) => if start > ts.len() { None } else { many_parse(ts, start, ts.len() as int, true, Seq::empty()) },
    }
}

impl File {
    /// Parses a whole (macro-expanded) source file, keeping the exported
    /// items.
    pub fn parse_str(content: &str) -> (r: Result<File, Diagnostic>)
        ensures
            r matches Ok(f) ==> forall|j: int| 0 <= j < f.items.len() ==> kept(#[trigger] f.items[j]),
            lex_spec(content@) is Err ==> r is Err,
            r matches Ok(f) ==> exists|ts: Seq<Token>|
                lex_spec(content@) == Ok::<Seq<TokenModel>, ParseError>(#[trigger] token_models(ts)) && file_parse(ts)
                    == Some(item_summaries(f.items, f.items.len() as nat)),
            (r is Err && lex_spec(content@) is Ok) ==> exists|ts: Seq<Token>|
                lex_spec(content@) == Ok::<Seq<TokenModel>, ParseError>(#[trigger] token_models(ts)) && file_parse(ts)
                    is None,
    {
        let toks = tokens_of(content)?;
        let mut attr = Attribute::new();
        let start = match parse_inner(&toks, 0, &mut attr) {
            Ok(s) => s,
            Err(d) => {
                assert(file_parse(toks@) is None);
                return Err(d);
            },
        };
        let items = match parse_many(&toks, start, toks.len(), true) {
            Ok(it) => it,
            Err(d) => {
                assert(file_parse(toks@) is None);
                return Err(d);
            },
        };
        assert(file_parse(toks@) == Some(item_summaries(items, items.len() as nat)));
        Ok(File { attr, items })
    }
}

/// Requires that the parse at the start of `toks` consumed every token.
fn whole<T>(toks: &Vec<Token>, r: Result<(T, usize), Diagnostic>) -> (o: Result<T, Diagnostic>)
    ensures
        r matches Ok((t, e)) ==> (e == toks.len() ==> o == Ok::<T, Diagnostic>(t)),
        r matches Err(d) ==> o == Err::<T, Diagnostic>(d),
        o matches Ok(t) ==> (r matches Ok((t2, e)) && t2 == t && e == toks.len()),
{
    match r {
        Ok((t, e)) => {
            if e == toks.len() {
                Ok(t)
            } else {
                err(ParseError::Unexpected, e)
            }
        },
        Err(d) => Err(d),
    }
}

impl Type {
    /// Parses a type from source text.
    pub fn parse_str(src: &str, self_ty: Option<String>) -> (r: Result<Type, Diagnostic>)
        ensures
            lex_spec(src@) is Err ==> r is Err,
            (lex_spec(src@) matches Ok(ts) && ts.len() == 1 && (ts[0] matches TokenModel::Ident(n) && primitive(n)
                is Some)) ==> (r matches Ok(t) && Some(t.model()) == primitive(lex_spec(src@)->Ok_0[0]->Ident_0)),
            (lex_spec(src@) matches Ok(ts) && ts.len() == 1 && ts[0] == TokenModel::Ident("Self"@)) ==> (
            self_ty is None <==> r is Err),
    {
        let toks = tokens_of(src)?;
        proof {
            if lex_spec(src@) is Ok && lex_spec(src@)->Ok_0.len() == 1 {
                assert(token_models(toks@)[0] == toks@[0].model());
            }
        }
        whole(&toks, parse_type(&toks, 0, &self_ty))
    }
}

/// Token models that start a function with generic parameters: `fn`, its
/// name, then `<`.
pub open spec fn starts_generic_fn(ts: Seq<TokenModel>) -> bool {
    ts.len() >= 3 && ts[0] == TokenModel::Ident("fn"@) && ts[1] is Ident && ts[2] == TokenModel::Punct('<')
}

impl ItemFn {
    /// Parses a free function from source text. A function with generic
    /// parameters is refused.
    pub fn parse_str(src: &str) -> (r: Result<ItemFn, Diagnostic>)
        ensures
            lex_spec(src@) is Err ==> r is Err,
            (lex_spec(src@) matches Ok(ts) && starts_generic_fn(ts)) ==> (r matches Err(d) && d.error
                == ParseError::Generics),
    {
        let toks = tokens_of(src)?;
        proof {
            if lex_spec(src@) is Ok && starts_generic_fn(lex_spec(src@)->Ok_0) {
                {
                    assert(token_models(toks@)[0] == toks@[0].model());
                    assert(token_models(toks@)[1] == toks@[1].model());
                    assert(token_models(toks@)[2] == toks@[2].model());
                    assert(is_kw(toks@, 0, "fn"@));
                    assert(toks@[1] is Ident);
                    assert(is_punct(toks@, 2, '<'));
                    reveal_strlit("pub");
                    reveal_strlit("fn");
                    assert("pub"@.len() != "fn"@.len());
                }
            }
        }
        let mut attr = Attribute::new();
        let a = parse_outer(&toks, 0, &mut attr)?;
        let (vis, v) = parse_vis(&toks, a)?;
        match parse_fn_head(&toks, v)? {
            Some((const_, unsafe_, after)) => whole(&toks, parse_fn_rest(&toks, after, attr, vis, &None, const_, unsafe_)),
            None => err(ParseError::NotAnItem, v),
        }
    }
}

impl ItemImpl {
    /// Parses an associated block from source text.
    pub fn parse_str(src: &str) -> (r: Result<ItemImpl, Diagnostic>)
        ensures
            lex_spec(src@) is Err ==> r is Err,
            (lex_spec(src@) matches Ok(ts) && ts.len() >= 2 && ts[0] == TokenModel::Ident("impl"@) && ts[1]
                == TokenModel::Punct('<')) ==> (r matches Err(d) && d.error == ParseError::Generics),
    {
        let toks = tokens_of(src)?;
        proof {
            if lex_spec(src@) is Ok && lex_spec(src@)->Ok_0.len() >= 2 {
                assert(token_models(toks@)[0] == toks@[0].model());
                assert(token_models(toks@)[1] == toks@[1].model());
                reveal_strlit("pub");
                reveal_strlit("impl");
                reveal_strlit("unsafe");
                assert("pub"@.len() != "impl"@.len() && "unsafe"@.len() != "impl"@.len());
            }
        }
        let mut attr = Attribute::new();
        let a = parse_outer(&toks, 0, &mut attr)?;
        let (_, v) = parse_vis(&toks, a)?;
        let unsafe_ = kw_at(&toks, v, "unsafe");
        let k = if unsafe_ {
            v + 1
        } else {
            v
        };
        if !kw_at(&toks, k, "impl") {
            return err(ParseError::NotAnItem, k);
        }
        whole(&toks, parse_impl_rest(&toks, k + 1, attr, unsafe_))
    }
}

impl ItemStruct {
    /// Parses a struct declaration from source text.
    pub fn parse_str(src: &str) -> (r: Result<ItemStruct, Diagnostic>)
        ensures
            lex_spec(src@) is Err ==> r is Err,
            (lex_spec(src@) is Ok && lex_spec(src@)->Ok_0.len() >= 2 && lex_spec(src@)->Ok_0[0] == TokenModel::Ident(
                "struct"@,
            )) ==> (r matches Ok(st) ==> (lex_spec(src@)->Ok_0[1] == TokenModel::Ident(st.ident@))),
            (lex_spec(src@) matches Ok(ts) && ts.len() >= 3 && ts[0] == TokenModel::Ident("struct"@) && ts[1] is Ident
                && ts[2] == TokenModel::Punct('<')) ==> (r matches Err(d) && d.error == ParseError::Generics),
    {
        let toks = tokens_of(src)?;
        proof {
            if lex_spec(src@) is Ok && lex_spec(src@)->Ok_0.len() >= 2 {
                assert(token_models(toks@)[0] == toks@[0].model());
                assert(token_models(toks@)[1] == toks@[1].model());
                reveal_strlit("pub");
                reveal_strlit("struct");
                assert("pub"@.len() != "struct"@.len());
            }
            if lex_spec(src@) is Ok && lex_spec(src@)->Ok_0.len() >= 3 {
                assert(token_models(toks@)[2] == toks@[2].model());
            }
        }
        let mut attr = Attribute::new();
        let a = parse_outer(&toks, 0, &mut attr)?;
        let (_, v) = parse_vis(&toks, a)?;
        if !kw_at(&toks, v, "struct") {
            return err(ParseError::NotAnItem, v);
        }
        whole(&toks, parse_struct_rest(&toks, v + 1, attr))
    }
}

impl Item {
    /// Parses one item from source text.
    pub fn parse_str(src: &str) -> (r: Result<Item, Diagnostic>)
        ensures
            lex_spec(src@) is Err ==> r is Err,
            r matches Ok(it) ==> exists|ts: Seq<Token>|
                lex_spec(src@) == Ok::<Seq<TokenModel>, ParseError>(#[trigger] token_models(ts)) && item_parse(
                    ts,
                    0,
                    false,
                ) == ItemParse::Parsed(item_summary(it), ts.len() as int),
            r is Err ==> (lex_spec(src@) is Err || exists|ts: Seq<Token>|
                lex_spec(src@) == Ok::<Seq<TokenModel>, ParseError>(#[trigger] token_models(ts)) && !(item_parse(
                    ts,
                    0,
                    false,
                ) matches ItemParse::Parsed(_, e) && e == ts.len())),
    {
        let toks = tokens_of(src)?;
        match parse_item(&toks, 0, false)? {
            Some((it, e)) => whole(&toks, Ok((it, e))),
            None => err(ParseError::NotAnItem, 0),
        }
    }
}

impl Attribute {
    /// Parses a run of outer attributes, or of inner ones, from source text;
    /// the two kinds cannot be mixed.
    pub fn parse_str(src: &str) -> (r: Result<Attribute, Diagnostic>)
        ensures
            lex_spec(src@) is Err ==> r is Err,
            (lex_spec(src@) matches Ok(ts) && (ts.len() == 0 || ts[0] != TokenModel::Punct('#'))) ==> r is Err,
    {
        let toks = tokens_of(src)?;
        proof {
            if toks@.len() > 0 {
                assert(token_models(toks@)[0] == toks@[0].model());
            }
        }
        let mut attr = Attribute::new();
        if !punct_at(&toks, 0, '#') {
            return err(ParseError::Unexpected, 0);
        }
        let e = if punct_at(&toks, 1, '!') {
            parse_inner(&toks, 0, &mut attr)?
        } else {
            parse_outer(&toks, 0, &mut attr)?
        };
        if e != toks.len() {
            return err(ParseError::Unexpected, e);
        }
        Ok(attr)
    }
}

/* ------------------------------------------------------------------------ */

/// The C-ABI tag named `name` in a symbol table literal.
pub fn ffi_type_named(name: &str) -> (r: Option<FfiType>)
    ensures
        r matches Some(t) ==> crate::ffi::ffi_type_name(t) == seq!['"'] + name@ + seq!['"'],
        r is None <==> forall|t: FfiType| crate::ffi::ffi_type_name(t) != seq!['"'] + name@ + seq!['"'],
{
    let all = [
        FfiType::U8, FfiType::U16, FfiType::U32, FfiType::U64, FfiType::Usize, FfiType::I8, FfiType::I16,
        FfiType::I32, FfiType::I64, FfiType::Isize, FfiType::F32, FfiType::F64, FfiType::Void, FfiType::Bool,
        FfiType::Pointer, FfiType::Buffer, FfiType::FnPointer,
    ];
    assert(all@ =~= seq![
        FfiType::U8, FfiType::U16, FfiType::U32, FfiType::U64, FfiType::Usize, FfiType::I8, FfiType::I16,
        FfiType::I32, FfiType::I64, FfiType::Isize, FfiType::F32, FfiType::F64, FfiType::Void, FfiType::Bool,
        FfiType::Pointer, FfiType::Buffer, FfiType::FnPointer,
    ]);
    let quoted = String::from_str("\"").concat(name).concat("\"");
    proof {
        reveal_strlit("\"");
        assert(quoted@ =~= seq!['"'] + name@ + seq!['"']);
    }
    let mut i: usize = 0;
    while i < 17
        invariant
            i <= 17,
            all@.len() == 17,
            all@ == seq![
                FfiType::U8, FfiType::U16, FfiType::U32, FfiType::U64, FfiType::Usize, FfiType::I8, FfiType::I16,
                FfiType::I32, FfiType::I64, FfiType::Isize, FfiType::F32, FfiType::F64, FfiType::Void, FfiType::Bool,
                FfiType::Pointer, FfiType::Buffer, FfiType::FnPointer,
            ],
            quoted@ == seq!['"'] + name@ + seq!['"'],
            forall|k: int| 0 <= k < i ==> crate::ffi::ffi_type_name(#[trigger] all@[k]) != quoted@,
        decreases 17 - i,
    {
        let t = all[i];
        if str_eq(t.print(), quoted.as_str()) {
            return Some(t);
        }
        i = i + 1;
    }
    proof {
        assert forall|t: FfiType| crate::ffi::ffi_type_name(t) != seq!['"'] + name@ + seq!['"'] by {
            let k: int = match t {
                FfiType::U8 => 0,
                FfiType::U16 => 1,
                FfiType::U32 => 2,
                FfiType::U64 => 3,
                FfiType::Usize => 4,
                FfiType::I8 => 5,
                FfiType::I16 => 6,
                FfiType::I32 => 7,
                FfiType::I64 => 8,
                FfiType::Isize => 9,
                FfiType::F32 => 10,
                FfiType::F64 => 11,
                FfiType::Void => 12,
                FfiType::Bool => 13,
                FfiType::Pointer => 14,
                FfiType::Buffer => 15,
                FfiType::FnPointer => 16,
            };
            assert(all@[k] == t);
        }
    }
    None
}

fn ffi_type_at(toks: &Vec<Token>, p: usize) -> (r: Result<FfiType, Diagnostic>) {
    if p < toks.len() {
        match &toks[p] {
            Token::Lit(s) => match ffi_type_named(s.as_str()) {
                Some(t) => Ok(t),
                None => err(ParseError::Unexpected, p),
            },
            _ => err(ParseError::Unexpected, p),
        }
    } else {
        err(ParseError::UnexpectedEnd, p)
    }
}

/// Parses one symbol entry `name: { parameters: [...], result: "..." }`.
fn parse_ffi_function(toks: &Vec<Token>, pos: usize) -> (r: Result<(FfiFunction, usize), Diagnostic>)
    requires
        pos <= toks.len(),
    ensures
        r matches Ok((f, end)) ==> pos < end <= toks.len() && !f.non_blocking,
{
    if pos >= toks.len() {
        return err(ParseError::UnexpectedEnd, pos);
    }
    let ident = match &toks[pos] {
        Token::Ident(s) => s.clone(),
        _ => {
            return err(ParseError::Unexpected, pos);
        },
    };
    if !punct_at(toks, pos + 1, ':') || !open_at(toks, pos + 2, '{') {
        return err(ParseError::Unexpected, pos + 1);
    }
    let end = skip_group(toks, pos + 2)?;
    if !kw_at(toks, pos + 3, "parameters") || !punct_at(toks, pos + 4, ':') || !open_at(toks, pos + 5, '[') {
        return err(ParseError::Unexpected, pos + 3);
    }
    let mut inputs: Vec<FfiType> = Vec::new();
    let mut i = pos + 6;
    while i < toks.len() && !close_at(toks, i, ']')
        invariant
            pos + 6 <= i <= toks.len(),
        decreases toks.len() - i,
    {
        let t = ffi_type_at(toks, i)?;
        inputs.push(t);
        i = i + 1;
        if punct_at(toks, i, ',') {
            i = i + 1;
        }
    }
    if i >= toks.len() || toks.len() - i < 6 {
        return err(ParseError::UnexpectedEnd, i);
    }
    if !punct_at(toks, i + 1, ',') || !kw_at(toks, i + 2, "result") || !punct_at(toks, i + 3, ':') {
        return err(ParseError::Unexpected, i + 1);
    }
    let output = ffi_type_at(toks, i + 4)?;
    let mut j = i + 5;
    if punct_at(toks, j, ',') {
        j = j + 1;
    }
    if j >= toks.len() || j + 1 != end {
        return err(ParseError::Unexpected, j);
    }
    Ok((FfiFunction { ident, inputs, output, non_blocking: false }, end))
}

impl FfiInterface {
    /// Parses the entries of a symbol table literal, separated by commas.
    pub fn parse_str(src: &str) -> (r: Result<FfiInterface, Diagnostic>)
        ensures
            r matches Ok(i) ==> forall|k: int| 0 <= k < i.symbols.len() ==> !(#[trigger] i.symbols[k])->Function_0.non_blocking,
    {
        let toks = tokens_of(src)?;
        let mut symbols: Vec<FfiSymbol> = Vec::new();
        let mut i: usize = 0;
        while i < toks.len()
            invariant
                i <= toks.len(),
                forall|k: int| 0 <= k < symbols.len() ==> !(#[trigger] symbols[k])->Function_0.non_blocking,
            decreases toks.len() - i,
        {
            let (f, e) = parse_ffi_function(&toks, i)?;
            symbols.push(FfiSymbol::Function(f));
            i = e;
            if punct_at(&toks, i, ',') {
                i = i + 1;
            }
        }
        Ok(FfiInterface { symbols })
    }
}

} // verus!
