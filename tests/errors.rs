use deno_bindgen2_common::attr::{Attribute, Marker};
use deno_bindgen2_common::error::{ExpandError, InternalError, ParseError};
use deno_bindgen2_common::generate::Templates;
use deno_bindgen2_common::item::{Association, Block, File, Item, ItemFn, ItemImpl};
use deno_bindgen2_common::lower::RustType;
use deno_bindgen2_common::module::{CodegenOpts, TsMethod, TsModule};
use deno_bindgen2_common::ty::Type;

fn impl_error(src: &str) -> ParseError {
    ItemImpl::parse_str(src).unwrap_err().error
}

#[test]
fn remaining_grammar_errors() {
    assert_eq!(impl_error("impl T { fn f(&self, &self) {} }"), ParseError::SecondSelf);
    assert_eq!(impl_error("impl CustomType<T> {}"), ParseError::TypeArguments);
    assert_eq!(impl_error("impl (A, B) {}"), ParseError::ImplType);
    assert_eq!(ItemFn::parse_str("fn f(x u8) {}").unwrap_err().error, ParseError::Unexpected);
    assert_eq!(Type::parse_str("", None).unwrap_err().error, ParseError::UnexpectedEnd);
    assert_eq!(Type::parse_str("[u8; N]", None).unwrap_err().error, ParseError::ArrayLength);
}

#[test]
fn out_statement_on_void_is_an_internal_error() {
    let mut f = ItemFn::parse_str("fn f() {}").unwrap();
    f.transform();
    f.block.out_stmt = Some("&raw const *out".to_string());
    assert_eq!(f.print_shim(), Err(InternalError::OutStmtOnVoid));
}

#[test]
fn method_without_enclosing_type_is_an_internal_error() {
    let m = TsMethod {
        attr: Attribute::default(),
        ident: "f".to_string(),
        inputs: vec![],
        output: RustType::Void,
        assoc: Some(Association::Static),
        ffi_ident: "__f".to_string(),
        self_ty: None,
    };
    assert_eq!(m.print(), Err(InternalError::MissingSelfType));
}

#[test]
fn templates_without_markers_are_refused() {
    let opts = CodegenOpts {
        file_name: "mod.ts".to_string(),
        dylib_path: "lib.so".to_string(),
        lazy: false,
        extended: false,
        embedded: None,
    };
    let templates = Templates { util: String::new(), core: String::new(), extended: String::new() };
    let module = TsModule::new(File::parse_str("").unwrap(), &opts);
    assert_eq!(module.generate_single(&opts, &templates), Err(InternalError::Template));
}

#[test]
fn export_attribute_expansion() {
    let out = Marker::deno_bindgen("fn add(a: u8, b: u8) -> u8 { a + b }").unwrap();
    assert!(out.starts_with("#[cfg_attr(not(deno_bindgen), doc = \"deno_bindgen\")]\nfn add(a: u8, b: u8) -> u8 { a + b }"));
    assert!(out.contains("extern \"C\" fn __add("));
    assert!(matches!(
        Marker::deno_bindgen("fn bad<T>(x: T) {}"),
        Err(ExpandError::Parse(d)) if d.error == ParseError::Generics
    ));
    assert_eq!(
        Marker::non_blocking("fn f() {}"),
        "#[cfg_attr(not(deno_bindgen), doc = \"deno_bindgen_non_blocking\")]\nfn f() {}"
    );
}

#[test]
fn blocks_start_empty() {
    let b = Block::new();
    assert!(b.args.is_empty() && b.in_stmts.is_empty() && b.out_stmt.is_none() && b.self_ty.is_none());
}

#[test]
fn unknown_sentinel_is_refused() {
    let d = Attribute::parse_str("#[doc = \"deno_bindgen_unknown\"]").unwrap_err();
    assert_eq!(d.error, ParseError::UnknownMarker);
    assert!(Attribute::parse_str("#[doc = \"plain documentation\"]").is_ok());
}

#[test]
fn exported_struct_gets_its_destructor_once() {
    let opts = CodegenOpts {
        file_name: "mod.ts".to_string(),
        dylib_path: "lib.so".to_string(),
        lazy: false,
        extended: false,
        embedded: None,
    };
    let file = File::parse_str(
        "#[doc = \"deno_bindgen\"] struct Alone {}
         #[doc = \"deno_bindgen\"] struct Counter {}
         #[doc = \"deno_bindgen\"] impl Counter { fn inc(&mut self) {} }",
    )
    .unwrap();
    let module = TsModule::new(file, &opts);
    let names: Vec<String> = module
        .ffi_lib
        .interface
        .symbols
        .iter()
        .map(|s| match s {
            deno_bindgen2_common::ffi::FfiSymbol::Function(f) => f.ident.clone(),
        })
        .collect();
    assert_eq!(names, vec!["__Alone__drop", "__Counter__drop", "__Counter__inc"]);
    assert_eq!(module.class_defs.store.len(), 2);
    assert_eq!(module.class_defs.store[1].methods.len(), 1);
}

#[test]
fn generic_item_fails_a_whole_unfiltered_parse() {
    assert_eq!(
        Item::parse_str("mod m { fn bad<T>(x: T) {} }").unwrap_err().error,
        ParseError::Generics
    );
}
