use deno_bindgen2_common::lower::{RustType, RustTypeDefs, RustTypeList, UserDefinedDefs};
use deno_bindgen2_common::ffi::FfiType;
use deno_bindgen2_common::module::TsModule;
use deno_bindgen2_common::ty::{Type, TypeArray, TypeNumeric};

fn parse(src: &str) -> Type {
    Type::parse_str(src, None).unwrap()
}

fn parse_in(self_ty: &str, src: &str) -> Type {
    Type::parse_str(src, Some(self_ty.to_string())).unwrap()
}

fn printed(src: &str) -> String {
    parse(src).native_text().replace(' ', "")
}

fn expect_print(src: &str, expected: &str) {
    assert_eq!(printed(src), expected.replace(' ', "").replace('\n', ""));
}

#[test]
fn ty_test_primitives() {
    expect_print("u8", "std::primitive::u8");
    expect_print("u16", "std::primitive::u16");
    expect_print("u32", "std::primitive::u32");
    expect_print("u64", "std::primitive::u64");
    expect_print("usize", "std::primitive::usize");
    expect_print("i8", "std::primitive::i8");
    expect_print("i16", "std::primitive::i16");
    expect_print("i32", "std::primitive::i32");
    expect_print("i64", "std::primitive::i64");
    expect_print("isize", "std::primitive::isize");
    expect_print("f32", "std::primitive::f32");
    expect_print("f64", "std::primitive::f64");
    expect_print("bool", "std::primitive::bool");
    expect_print("char", "std::primitive::char");
}

#[test]
fn ty_test_pointers() {
    expect_print("*mut u8", "*mut std::primitive::u8");
    expect_print("*const u8", "*const std::primitive::u8");
    expect_print("&u8", "&std::primitive::u8");
    expect_print("&mut u8", "&mut std::primitive::u8");
    expect_print("fn (u8) -> u8", "fn (u8) -> u8");
    expect_print("Box<u8>", "std::boxed::Box<std::primitive::u8>");
}

#[test]
fn ty_test_collections() {
    expect_print("str", "std::primitive::str");
    expect_print("&mut str", "&mut std::primitive::str");
    expect_print("String", "std::string::String");
    expect_print("[u8]", "[std::primitive::u8]");
    expect_print("&mut [u8]", "&mut [std::primitive::u8]");
    expect_print("[u8; 8]", "[std::primitive::u8; 8]");
    expect_print("Vec<Box<u8>>", "std::vec::Vec<std::boxed::Box<std::primitive::u8>>");
}

#[test]
fn ty_test_tuple() {
    expect_print("(u8, String)", "(std::primitive::u8, std::string::String)");
    expect_print(
        "(u8, Box<(usize, u8)>, String, &mut u8)",
        "(std::primitive::u8, std::boxed::Box<(std::primitive::usize, std::primitive::u8)>, std::string::String, &mut std::primitive::u8)",
    );
}

#[test]
fn ty_test_print() {}

#[test]
fn test_ts_type() {
    let mut module = TsModule::default();
    let (_, rust) = parse("()").lower_into(&mut module.type_defs, &mut module.user_defs);
    assert_eq!(rust, RustType::Void);
}

#[test]
fn test_numerics() {
    let cases = [
        ("u8", TypeNumeric::U8),
        ("u16", TypeNumeric::U16),
        ("u32", TypeNumeric::U32),
        ("u64", TypeNumeric::U64),
        ("usize", TypeNumeric::Usize),
        ("i8", TypeNumeric::I8),
        ("i16", TypeNumeric::I16),
        ("i32", TypeNumeric::I32),
        ("i64", TypeNumeric::I64),
        ("isize", TypeNumeric::Isize),
        ("f32", TypeNumeric::F32),
        ("f64", TypeNumeric::F64),
    ];
    for (src, k) in cases {
        assert_eq!(parse(src), Type::Numeric(k));
    }
}

#[test]
fn test_self_receivers() {
    assert_eq!(parse_in("CustomType", "CustomType"), Type::UserDefined("CustomType".to_string()));
    assert_eq!(parse_in("CustomType", "Self"), Type::UserDefined("CustomType".to_string()));
    assert_eq!(
        parse_in("CustomType", "&Self"),
        Type::Ref(Box::new(Type::UserDefined("CustomType".to_string())))
    );
    assert_eq!(
        parse_in("CustomType", "&mut Self"),
        Type::RefMut(Box::new(Type::UserDefined("CustomType".to_string())))
    );
}

#[test]
fn test_self_receiver_fail() {
    assert!(Type::parse_str("Self", None).is_err());
}

#[test]
fn test_user_defined() {
    assert_eq!(parse("SomeOtherType"), Type::UserDefined("SomeOtherType".to_string()));
    assert_eq!(parse_in("CustomType", "SomeOtherType"), Type::UserDefined("SomeOtherType".to_string()));
}

#[test]
fn test_unsupported_path() {
    assert_eq!(parse("std::io::File"), Type::Unsupported("std::io::File".to_string()));
}

#[test]
fn test_self_transformer() {
    assert_eq!(
        parse_in("CustomType", "HashMap<Self, Vec<Box<Self>>>"),
        Type::Unsupported("HashMap<CustomType,Vec<Box<CustomType>>>".to_string())
    );
}

#[test]
fn parses_collections_to_the_model() {
    assert_eq!(parse("str"), Type::Str);
    assert_eq!(parse("&mut str"), Type::RefMut(Box::new(Type::Str)));
    assert_eq!(
        parse("[u8; 8]"),
        Type::Array(TypeArray { elem: Box::new(Type::Numeric(TypeNumeric::U8)), len: 8 })
    );
    assert_eq!(
        parse("Vec<Box<u8>>"),
        Type::Vec(Box::new(Type::Box(Box::new(Type::Numeric(TypeNumeric::U8)))))
    );
    assert_eq!(
        parse("(u8, Box<(usize, u8)>, String, &mut u8)"),
        Type::Tuple(vec![
            Type::Numeric(TypeNumeric::U8),
            Type::Box(Box::new(Type::Tuple(vec![
                Type::Numeric(TypeNumeric::Usize),
                Type::Numeric(TypeNumeric::U8)
            ]))),
            Type::String,
            Type::RefMut(Box::new(Type::Numeric(TypeNumeric::U8)))
        ])
    );
    assert_eq!(parse("()"), Type::Void);
}

#[test]
fn rejects_lifetimes_and_constant_lengths() {
    assert!(Type::parse_str("&'a u8", None).is_err());
    assert!(Type::parse_str("[u8; N]", None).is_err());
}

fn lowered(src: &str) -> (FfiType, RustType, RustTypeDefs, UserDefinedDefs) {
    let mut defs = RustTypeDefs::new();
    let mut users = UserDefinedDefs::new();
    let (f, r) = parse(src).lower_into(&mut defs, &mut users);
    (f, r, defs, users)
}

#[test]
fn lowering_scalars() {
    let (f, r, defs, _) = lowered("u64");
    assert_eq!(f, FfiType::U64);
    assert_eq!(r.print(), "RustU64");
    assert!(defs.contains(RustTypeList::U64));
    let (f, r, defs, _) = lowered("bool");
    assert_eq!(f, FfiType::Bool);
    assert_eq!(r, RustType::Boolean);
    assert!(defs.store.is_empty());
    let (f, r, defs, _) = lowered("char");
    assert_eq!(f, FfiType::U32);
    assert_eq!(r, RustType::Char);
    assert!(defs.contains(RustTypeList::Char));
}

#[test]
fn lowering_collapses_indirection_over_str_and_slices() {
    let (f, r, defs, _) = lowered("&str");
    assert_eq!(f, FfiType::Pointer);
    assert_eq!(r, RustType::Str);
    assert!(defs.contains(RustTypeList::Str));
    assert!(!defs.contains(RustTypeList::Ref));
    let (_, r, defs, _) = lowered("&mut [u8]");
    assert_eq!(r.print(), "RustSlice<RustU8>");
    assert!(defs.contains(RustTypeList::Slice));
    assert!(defs.contains(RustTypeList::U8));
    assert!(!defs.contains(RustTypeList::RefMut));
    let (_, r, defs, _) = lowered("*const u8");
    assert_eq!(r.print(), "RustPtr<RustU8>");
    assert!(defs.contains(RustTypeList::Ptr));
}

#[test]
fn lowering_records_user_types_and_tuples() {
    let (f, r, defs, users) = lowered("(Box<CustomType>, Vec<String>)");
    assert_eq!(f, FfiType::Pointer);
    assert_eq!(r.print(), "RustTuple<[RustBox<CustomType>, RustVec<RustString>]>");
    assert!(defs.contains(RustTypeList::Tuple));
    assert!(defs.contains(RustTypeList::Box));
    assert!(defs.contains(RustTypeList::Vec));
    assert!(defs.contains(RustTypeList::String));
    assert!(users.contains("CustomType"));
    let (f, r, defs, _) = lowered("[u8; 4]");
    assert_eq!(f, FfiType::Pointer);
    assert_eq!(r, RustType::Unsupported);
    assert!(defs.contains(RustTypeList::Unsupported));
    assert!(!defs.contains(RustTypeList::U8));
}

#[test]
fn lowering_twice_gives_the_same_result() {
    let t = parse("(u8, &mut [String], Box<Point>)");
    let mut defs = RustTypeDefs::new();
    let mut users = UserDefinedDefs::new();
    let first = t.lower_into(&mut defs, &mut users);
    let tags_after_first = defs.store.len();
    let users_after_first = users.list().len();
    let second = t.lower_into(&mut defs, &mut users);
    assert_eq!(first, second);
    assert_eq!(defs.store.len(), tags_after_first);
    assert_eq!(users.list().len(), users_after_first);
}

#[test]
fn fn_pointer_lowers_to_function_tag() {
    let (f, r, defs, _) = lowered("extern fn(u8) -> u8");
    assert_eq!(f, FfiType::FnPointer);
    assert_eq!(r.print(), "RustFnPtr<\"extern fn(u8)->u8\">");
    assert!(defs.contains(RustTypeList::FnPtr));
}
