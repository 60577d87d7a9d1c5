use deno_bindgen2_common::error::ParseError;
use deno_bindgen2_common::format::TsFormat;
use deno_bindgen2_common::item::{Association, ItemImpl};
use deno_bindgen2_common::module::TsModule;
use deno_bindgen2_common::ty::Type;

fn parse(src: &str) -> ItemImpl {
    ItemImpl::parse_str(src).unwrap()
}

fn error_of(src: &str) -> ParseError {
    ItemImpl::parse_str(src).unwrap_err().error
}

fn squash(s: &str) -> String {
    s.chars().filter(|c| !c.is_whitespace()).collect()
}

#[test]
fn class_test_print() {
    let src = "impl CustomType { fn test_fn(&self) {} }";
    let mut export = parse(src);
    export.transform();
    let shims = squash(&export.print().unwrap());
    assert!(shims.contains("extern\"C\"fn__CustomType__test_fn(arg_0:*constCustomType){letarg_0=unsafe{&*arg_0};CustomType::test_fn(arg_0);}"));
    assert!(shims.contains("assert_impl::<CustomType>();"));
    let mut module = TsModule::default();
    parse(src).unwrap(&mut module);
    assert!(TsFormat::format(&module.ffi_lib.print()).is_ok());
    let ffi = squash(&module.ffi_lib.print());
    assert!(ffi.contains("__CustomType__test_fn:{parameters:[\"pointer\"],result:\"void\"}"));
    assert!(ffi.contains("__CustomType__drop:{parameters:[\"pointer\"],result:\"void\"}"));
    let printed = module.class_defs.print().unwrap();
    assert!(TsFormat::format(&printed).is_ok());
    let classes = squash(&printed);
    assert!(classes.contains("exportclassCustomTypeextendsRustPrototype<CustomType>{test_fn(){symbols.__CustomType__test_fn(this.ptr,);}}"));
}

#[test]
fn impl__with_attrs_and_vis() {
    let i = parse("#[some_attr] pub impl CustomType {}");
    assert_eq!(i.self_ty, "CustomType");
    assert!(i.items.is_empty());
}

#[test]
fn impl__with_unsafe() {
    assert!(parse("unsafe impl CustomType {}").unsafe_);
}

#[test]
fn impl__with_empty() {
    assert!(parse("impl CustomType {}").items.is_empty());
}

#[test]
fn impl__grammar_violations() {
    assert_eq!(error_of("impl<T> CustomType {}"), ParseError::Generics);
    assert_eq!(error_of("impl Debug for CustomType {}"), ParseError::TraitImpl);
    assert_eq!(error_of("impl ::CustomType {}"), ParseError::GlobalPath);
    assert_eq!(error_of("impl my_mod::CustomType {}"), ParseError::TypePath);
    assert_eq!(error_of("impl CustomType where T: Drop {}"), ParseError::WhereClause);
    assert_eq!(error_of("impl CustomType { fn test_fn(self) {} }"), ParseError::OwnedSelfNotUnsafe);
}

#[test]
fn impl__with_item_fn() {
    let i = parse("impl CustomType { fn test_fn() {} }");
    assert_eq!(i.items.len(), 1);
    assert_eq!(i.items[0].assoc, Some(Association::Static));
    assert_eq!(i.items[0].block.self_ty, Some("CustomType".to_string()));
}

#[test]
fn impl__with_nested_attrs_and_vis() {
    let i = parse(
        "#[impl_outer_attr]
         impl CustomType {
             #![impl_inner_attr]
             #[fn_outer_attr]
             pub fn test_fn() {
                 #![fn_inner_attr]
             }
         }",
    );
    assert_eq!(i.items.len(), 1);
    assert_eq!(i.items[0].vis, "pub");
}

#[test]
fn impl__with_many() {
    let i = parse("impl CustomType { fn test_fn() {} fn test_fn2() {} fn test_fn3() {} }");
    let names: Vec<&str> = i.items.iter().map(|f| f.ident.as_str()).collect();
    assert_eq!(names, vec!["test_fn", "test_fn2", "test_fn3"]);
}

#[test]
fn impl__with_unsafe_self() {
    let i = parse("unsafe impl CustomType { unsafe fn test_fn(self) {} }");
    assert_eq!(i.items[0].assoc, Some(Association::Destructor));
    assert_eq!(i.items[0].inputs, vec![Type::UserDefined("CustomType".to_string())]);
}

#[test]
fn impl__with_self_ref() {
    let i = parse("impl CustomType { fn test_fn(&mut self) {} }");
    assert_eq!(i.items[0].assoc, Some(Association::InstanceMut));
    assert_eq!(i.items[0].inputs, vec![Type::RefMut(Box::new(Type::UserDefined("CustomType".to_string())))]);
}

#[test]
fn impl__with_other_self() {
    let i = parse("impl CustomType { fn test_fn(arg0: Self) {} }");
    assert_eq!(i.items[0].assoc, Some(Association::Static));
    assert_eq!(i.items[0].inputs, vec![Type::UserDefined("CustomType".to_string())]);
}

#[test]
fn impl__with_other_selves() {
    let i = parse(
        "impl CustomType {
             fn test_fn(&mut self, arg0: (Vec<Self>, &mut Self), arg3: Box<Self>) -> Box<Self> {}
         }",
    );
    let me = || Box::new(Type::UserDefined("CustomType".to_string()));
    assert_eq!(
        i.items[0].inputs,
        vec![
            Type::RefMut(me()),
            Type::Tuple(vec![Type::Vec(me()), Type::RefMut(me())]),
            Type::Box(me()),
        ]
    );
    assert_eq!(i.items[0].output, Type::Box(me()));
}

#[test]
fn impl__with_other_items() {
    let i = parse(
        "impl CustomType {
             fn test_fn() {}
             type Some = usize;
             fn test_fn2() {}
             const SOME_STR: &str = \"Str\";
         }",
    );
    assert_eq!(i.items.len(), 2);
}

#[test]
fn with_constructor() {
    let i = parse("impl CustomType { #[constructor] fn test_fn() -> Self {} }");
    assert_eq!(i.items[0].assoc, Some(Association::Constructor));
}

#[test]
fn constructor_errors() {
    assert_eq!(
        error_of("impl CustomType { #[constructor] fn test_fn() -> OtherType {} }"),
        ParseError::ConstructorReturn
    );
    assert_eq!(
        error_of("impl CustomType { #[constructor] fn a() -> Self {} #[constructor] fn b() -> Self {} }"),
        ParseError::DuplicateConstructor
    );
}

#[test]
fn second_block_adds_no_destructor() {
    let mut module = TsModule::default();
    parse("impl Counter { fn a(&self) {} }").unwrap(&mut module);
    parse("impl Counter { fn b(&self) {} }").unwrap(&mut module);
    let drops = module
        .ffi_lib
        .interface
        .symbols
        .iter()
        .filter(|s| match s {
            deno_bindgen2_common::ffi::FfiSymbol::Function(f) => f.ident == "__Counter__drop",
        })
        .count();
    assert_eq!(drops, 1);
    assert_eq!(module.class_defs.store.len(), 1);
    assert_eq!(module.class_defs.store[0].methods.len(), 2);
}
