use deno_bindgen2_common::attr::Attribute;
use deno_bindgen2_common::item::{Item, ItemFn, ItemImpl, ItemStruct};

#[test]
#[should_panic]
fn with_async() {
    ItemFn::parse_str("async fn test_fn() {}").unwrap();
}

#[test]
#[should_panic]
fn fn__with_generics() {
    ItemFn::parse_str("fn test_fn<T>() {}").unwrap();
}

#[test]
#[should_panic]
fn with_where_clause() {
    ItemFn::parse_str("fn test_fn() where T: Drop, {}").unwrap();
}

#[test]
#[should_panic]
fn with_self_lifetime() {
    ItemFn::parse_str("fn test_fn(&'a self) {}").unwrap();
}

#[test]
#[should_panic]
fn fn__with_self() {
    ItemFn::parse_str("fn test_fn(&mut self) {}").unwrap();
}

#[test]
#[should_panic]
fn with_second_self() {
    ItemFn::parse_str("fn test_fn(arg0: u8, arg1: Self) {}").unwrap();
}

#[test]
#[should_panic]
fn test_async() {
    ItemFn::parse_str("async fn test_fn() {}").unwrap();
}

#[test]
#[should_panic]
fn test_generics() {
    ItemFn::parse_str("fn test_fn<T>() {}").unwrap();
}

#[test]
#[should_panic]
fn test_where_clause() {
    ItemFn::parse_str("fn test_fn() where T: Drop, {}").unwrap();
}

#[test]
#[should_panic]
fn test_self_lifetime() {
    ItemFn::parse_str("fn test_fn(&'a self) {}").unwrap();
}

#[test]
#[should_panic]
fn test_self() {
    ItemFn::parse_str("fn test_fn(&mut self) {}").unwrap();
}

#[test]
#[should_panic]
fn test_second_self() {
    ItemFn::parse_str("fn test_fn(arg0: u8, arg1: Self) {}").unwrap();
}

#[test]
#[should_panic]
fn test_non_fn() {
    ItemFn::parse_str("const VAR: &'static str = \"\";").unwrap();
}

#[test]
#[should_panic]
fn impl__with_generics() {
    ItemImpl::parse_str("impl<T> CustomType {}").unwrap();
}

#[test]
#[should_panic]
fn impl__with_for() {
    ItemImpl::parse_str("impl Debug for CustomType {}").unwrap();
}

#[test]
#[should_panic]
fn impl__with_global_path() {
    ItemImpl::parse_str("impl ::CustomType {}").unwrap();
}

#[test]
#[should_panic]
fn impl__with_path() {
    ItemImpl::parse_str("impl my_mod::CustomType {}").unwrap();
}

#[test]
#[should_panic]
fn impl__with_where() {
    ItemImpl::parse_str("impl CustomType where T: Drop {}").unwrap();
}

#[test]
#[should_panic]
fn impl__with_self() {
    ItemImpl::parse_str("impl CustomType { fn test_fn(self) {} }").unwrap();
}

#[test]
#[should_panic]
fn with_constructor_error() {
    ItemImpl::parse_str("impl CustomType { #[constructor] fn test_fn() -> OtherType {} }").unwrap();
}

#[test]
#[should_panic]
fn test_other_item() {
    Item::parse_str("const _: () = {};").unwrap();
}

#[test]
#[should_panic]
fn test_parse_struct_with_generics() {
    ItemStruct::parse_str("struct CustomType<T>(T);").unwrap();
}

#[test]
#[should_panic]
fn test_parse_struct_with_where_clause() {
    ItemStruct::parse_str("struct CustomType where T: Sized, { some_field: bool, }").unwrap();
}

#[test]
#[should_panic]
fn test_mix_attr() {
    Attribute::parse_str("#[outer] #![innter]").unwrap();
}
