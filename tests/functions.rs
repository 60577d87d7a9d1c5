use deno_bindgen2_common::error::{InternalError, ParseError};
use deno_bindgen2_common::format::TsFormat;
use deno_bindgen2_common::item::{Association, ItemFn};
use deno_bindgen2_common::module::TsModule;
use deno_bindgen2_common::ty::{Type, TypeNumeric};

fn parse(src: &str) -> ItemFn {
    ItemFn::parse_str(src).unwrap()
}

fn squash(s: &str) -> String {
    s.chars().filter(|c| !c.is_whitespace()).collect()
}

/// Parses, prints the shim, lowers into a module and prints the symbol table
/// and the wrapper, the formatter checking that the script text parses.
fn transform(src: &str) -> (String, String, String) {
    let source = parse(src);
    let mut export = ItemFn::parse_str(src).unwrap();
    export.transform();
    let shim = export.print_shim().unwrap();
    let mut module = TsModule::default();
    let method = source.unwrap(&mut module);
    module.functions.push(method);
    let ffi = module.ffi_lib.print();
    let functions = module.functions.print().unwrap();
    assert!(TsFormat::format(&ffi).is_ok());
    assert!(TsFormat::format(&functions).is_ok());
    (shim, ffi, functions)
}

#[test]
fn test_empty() {
    let (shim, ffi, functions) = transform("fn test_fn() {}");
    assert_eq!(squash(&shim), squash("#[unsafe(no_mangle)] extern \"C\" fn __test_fn() { test_fn(); }"));
    assert!(squash(&ffi).contains("__test_fn:{parameters:[],result:\"void\"}"));
    assert!(squash(&functions).contains("exportfunctiontest_fn(){symbols.__test_fn();}"));
}

#[test]
fn test_u8() {
    let (shim, ffi, functions) = transform("fn test_fn(arg0: u8) {}");
    assert_eq!(
        squash(&shim),
        squash("#[unsafe(no_mangle)] extern \"C\" fn __test_fn(arg_0: std::primitive::u8) { test_fn(arg_0); }")
    );
    assert!(squash(&ffi).contains("__test_fn:{parameters:[\"u8\"],result:\"void\"}"));
    assert!(squash(&functions).contains("exportfunctiontest_fn(arg_0:RustU8){symbols.__test_fn(arg_0);}"));
}

#[test]
fn fn__test_return() {
    let (shim, ffi, functions) = transform("fn test_fn(arg0: u8) -> u8 {}");
    assert_eq!(
        squash(&shim),
        squash(
            "#[unsafe(no_mangle)] extern \"C\" fn __test_fn(arg_0: std::primitive::u8) -> std::primitive::u8 { test_fn(arg_0) }"
        )
    );
    assert!(squash(&ffi).contains("__test_fn:{parameters:[\"u8\"],result:\"u8\"}"));
    assert!(squash(&functions).contains("returnout!asRustU8;"));
}

#[test]
fn fn__test_many_args() {
    let (shim, ffi, functions) =
        transform("fn test_fn(arg0: &mut [u8], arg1: &str, arg2: Box<CustomType>, arg3: Vec<String>) {}");
    let shim = squash(&shim);
    assert!(shim.contains("arg_0:*mut[std::primitive::u8]"));
    assert!(shim.contains("letarg_0=unsafe{&mut*arg_0};"));
    assert!(shim.contains("arg_1:*conststd::primitive::str"));
    assert!(shim.contains("letarg_2=unsafe{std::boxed::Box::from_raw(arg_2)};"));
    assert!(shim.contains("arg_3:*mutstd::vec::Vec<std::string::String>"));
    assert!(shim.contains("letarg_3=unsafe{*std::boxed::Box::from_raw(arg_3)};"));
    assert!(squash(&ffi).contains("parameters:[\"pointer\",\"pointer\",\"pointer\",\"pointer\"]"));
    let functions = squash(&functions);
    assert!(functions.contains("arg_0:RustSlice<RustU8>"));
    assert!(functions.contains("arg_1:RustStr"));
    assert!(functions.contains("arg_2:RustBox<CustomType>"));
    assert!(functions.contains("arg_3:RustVec<RustString>"));
    assert!(functions.contains("symbols.__test_fn(arg_0.take(),arg_1.take(),arg_2.take(),arg_3.take())"));
}

#[test]
fn test_pretty() {
    let mut f = parse("fn test_fn() {}");
    f.transform();
    assert_eq!(
        squash(&f.print_shim().unwrap()),
        squash("#[unsafe(no_mangle)] extern \"C\" fn __test_fn() { test_fn(); }")
    );
}

#[test]
fn fn__test_transform() {
    let mut f = parse("fn test_fn(arg0: String, arg1: Vec<Box<CustomType>>, arg2: () ) -> &str {}");
    f.transform();
    let shim = squash(&f.print_shim().unwrap());
    assert!(shim.contains(
        "extern\"C\"fn__test_fn(arg_0:*mutstd::string::String,arg_1:*mutstd::vec::Vec<std::boxed::Box<CustomType>>)->*conststd::primitive::str{"
    ));
    assert!(shim.contains("letout=test_fn(arg_0,arg_1,());&raw const*out".replace(' ', "").as_str()));
}

#[test]
fn shim_refuses_unnamed_arguments() {
    let f = parse("fn test_fn(arg0: u8) {}");
    assert_eq!(f.print_shim(), Err(InternalError::ArgsNotNamed));
}

#[test]
fn test_attrs_and_vis() {
    let f = parse("#[some_attr] pub fn test_fn() {}");
    assert_eq!(f.vis, "pub");
    assert!(f.attr.markers.is_empty());
}

#[test]
fn test_doc_attr_and_marker() {
    let f = parse("#[doc = \"some documentation\"] #[doc = \"deno_bindgen\"] pub fn test_fn() {}");
    assert!(f.attr.has_deno_bindgen());
    assert_eq!(f.attr.meta.len(), 1);
}

#[test]
fn test_const_unsafe() {
    let f = parse("const unsafe fn test_fn() {}");
    assert!(f.const_);
    assert!(f.unsafe_);
}

#[test]
fn with_const_unsafe() {
    let f = parse("const unsafe fn test_fn() {}");
    assert!(f.const_ && f.unsafe_);
}

#[test]
fn test_args() {
    let f = parse("fn test_fn(arg0: usize) {}");
    assert_eq!(f.inputs, vec![Type::Numeric(TypeNumeric::Usize)]);
}

#[test]
fn with_args() {
    let f = parse("fn test_fn(arg0: usize) {}");
    assert_eq!(f.inputs.len(), 1);
}

#[test]
fn with_many_args() {
    let f = parse(
        "fn test_fn(arg0: usize, arg1: String, arg2: Box<usize>, arg3: Vec<String>, arg4: Vec<[str]>,) -> () {}",
    );
    assert_eq!(
        f.inputs,
        vec![
            Type::Numeric(TypeNumeric::Usize),
            Type::String,
            Type::Box(Box::new(Type::Numeric(TypeNumeric::Usize))),
            Type::Vec(Box::new(Type::String)),
            Type::Vec(Box::new(Type::Slice(Box::new(Type::Str)))),
        ]
    );
    assert_eq!(f.output, Type::Void);
}

#[test]
fn test_pattern_tup() {
    let f = parse("fn test_fn((x, y): (usize, u8)) {}");
    assert_eq!(
        f.inputs,
        vec![Type::Tuple(vec![Type::Numeric(TypeNumeric::Usize), Type::Numeric(TypeNumeric::U8)])]
    );
}

#[test]
fn with_pattern_tup() {
    assert_eq!(parse("fn test_fn((x, y): (usize, u8)) {}").inputs.len(), 1);
}

#[test]
fn test_pattern_struct() {
    let f = parse("fn test_fn(SomeStruct { field_x, field_y }: SomeStruct) {}");
    assert_eq!(f.inputs, vec![Type::UserDefined("SomeStruct".to_string())]);
}

#[test]
fn with_pattern_struct() {
    assert_eq!(parse("fn test_fn(SomeStruct { field_x, field_y }: SomeStruct) {}").inputs.len(), 1);
}

#[test]
fn test_trailing_coma() {
    let f = parse("fn test_fn(arg0: usize, arg1: u8,) {}");
    assert_eq!(f.inputs.len(), 2);
}

#[test]
fn with_trailing_coma() {
    assert_eq!(parse("fn test_fn(arg0: usize, arg1: u8) {}").inputs.len(), 2);
}

#[test]
fn test_unit_return() {
    assert_eq!(Type::Void, parse("fn test_fn() -> () {}").output);
}

#[test]
fn with_unit_return() {
    assert_eq!(Type::Void, parse("fn test_fn() -> () {}").output);
}

#[test]
fn with_return() {
    assert_eq!(parse("fn test_fn() -> Box<u8> {}").output, Type::Box(Box::new(Type::Numeric(TypeNumeric::U8))));
}

#[test]
fn test_self_return() {
    let f = parse("fn test_fn() -> Box<Self> {}");
    assert_eq!(f.output, Type::Unsupported("Box<Self>".to_string()));
}

#[test]
fn with_self_return() {
    assert!(matches!(parse("fn test_fn() -> Box<Self> {}").output, Type::Unsupported(_)));
}

#[test]
fn test_stmts() {
    parse("fn test_fn() { let x = 0; }");
}

#[test]
fn with_stmts() {
    parse("fn test_fn() { let x = 0; }");
}

#[test]
fn test_innter_attr() {
    parse("fn test_fn() { #[some_attr] // doesn't need to be parsed\n let x = 0; }");
}

#[test]
fn with_innter_attr() {
    parse("fn test_fn() { #[some_attr] let x = 0; }");
}

#[test]
fn fn__with_attrs_and_vis() {
    assert_eq!(parse("#[some_attr] pub fn test_fn() {}").ident, "test_fn");
}

fn error_of(src: &str) -> ParseError {
    ItemFn::parse_str(src).unwrap_err().error
}

#[test]
fn grammar_violations() {
    assert_eq!(error_of("async fn test_fn() {}"), ParseError::Async);
    assert_eq!(error_of("fn test_fn<T>() {}"), ParseError::Generics);
    assert_eq!(error_of("fn test_fn() where T: Drop, {}"), ParseError::WhereClause);
    assert_eq!(error_of("fn test_fn(&'a self) {}"), ParseError::Lifetime);
    assert_eq!(error_of("fn test_fn(&mut self) {}"), ParseError::ReceiverOutsideImpl);
    assert_eq!(error_of("fn test_fn(arg0: u8, arg1: Self) {}"), ParseError::SelfTypeOutsideImpl);
    assert_eq!(error_of("extern \"system\" fn test_fn() {}"), ParseError::Abi);
    assert!(ItemFn::parse_str("extern \"C\" fn test_fn() {}").is_ok());
}

#[test]
fn free_function_has_no_association() {
    assert_eq!(parse("fn f() {}").assoc, None::<Association>);
}

#[test]
fn non_blocking_wrapper_is_async() {
    let f = parse("#[non_blocking] fn work(n: u32) -> u32 {}");
    let mut module = TsModule::default();
    let m = f.unwrap(&mut module);
    module.functions.push(m);
    let text = squash(&module.functions.print().unwrap());
    assert!(text.contains("exportasyncfunctionwork(arg_0:RustU32):Promise<RustU32>"));
    assert!(text.contains("constout=awaitsymbols.__work(arg_0);"));
    assert!(squash(&module.ffi_lib.print()).contains("non_blocking:true"));
}
