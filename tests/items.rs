use deno_bindgen2_common::attr::Attribute;
use deno_bindgen2_common::item::{File, Item, ItemStruct};
use deno_bindgen2_common::error::ParseError;

fn squash(s: &str) -> String {
    s.chars().filter(|c| !c.is_whitespace()).collect()
}

#[test]
fn test_parse_struct() {
    let expected = ItemStruct { attr: Attribute::default(), ident: "CustomType".to_string() };
    assert_eq!(ItemStruct::parse_str("struct CustomType;").unwrap(), expected);
    assert_eq!(ItemStruct::parse_str("struct CustomType(bool);").unwrap(), expected);
    assert_eq!(ItemStruct::parse_str("struct CustomType { some_field: bool, }").unwrap(), expected);
}

#[test]
fn struct_grammar_violations() {
    assert_eq!(ItemStruct::parse_str("struct CustomType<T>(T);").unwrap_err().error, ParseError::Generics);
    assert_eq!(
        ItemStruct::parse_str("struct CustomType where T: Sized, { some_field: bool, }").unwrap_err().error,
        ParseError::WhereClause
    );
}

#[test]
fn test_print_struct() {
    let s = ItemStruct::parse_str("pub struct CustomType { field: bool, }").unwrap();
    assert_eq!(
        squash(&s.print()),
        squash(
            "impl deno_bindgen2::DenoBindgen for CustomType {}
             #[unsafe(no_mangle)]
             extern \"C\" fn __CustomType__drop(arg_0: *mut CustomType) {
                 std::mem::drop(Box::from(arg_0));
             }"
        )
    );
}

#[test]
fn item_test_item_fn() {
    assert!(matches!(Item::parse_str("fn test_fn() {}").unwrap(), Item::Fn(_)));
}

#[test]
fn item_test_item_fn_with_attrs_and_vis() {
    let item = Item::parse_str("#[outer_attr] pub fn test_fn() { #![innter_attr] }").unwrap();
    assert!(matches!(item, Item::Fn(_)));
}

#[test]
fn item_test_item_impl_() {
    assert!(matches!(Item::parse_str("impl CustomType { fn test_fn() {} }").unwrap(), Item::Impl(_)));
}

#[test]
fn item_test_item_impl_with_attrs_and_vis() {
    let item = Item::parse_str(
        "#[outer_attr] pub impl CustomType { #![innter_attr] #[outer_attr] pub fn test_fn() { #![innter_attr] } }",
    )
    .unwrap();
    match item {
        Item::Impl(i) => assert_eq!(i.items.len(), 1),
        _ => panic!("expected an associated block"),
    }
}

#[test]
fn test_struct() {
    assert!(matches!(Item::parse_str("struct CustomType;").unwrap(), Item::Struct(_)));
}

#[test]
fn test_unsupported() {
    assert_eq!(Item::parse_str("const _: () = {};").unwrap_err().error, ParseError::NotAnItem);
}

#[test]
fn test_full() {
    let item = Item::parse_str(
        "#[this_mod]
         mod my_mod {
             #[doc = \"deno_bindgen\"]
             #[doc = \"some_documentation\"]
             fn my_fn() {}
             fn ignored_function() {}
             #[doc = \"deno_bindgen\"]
             struct CustomType {}
             struct IgnoredStruct {}
             #[doc = \"deno_bindgen\"]
             impl CustomType {
                 fn some_fn() {}
             }
         }",
    )
    .unwrap();
    match item {
        Item::Mod(m) => {
            assert_eq!(m.ident, "my_mod");
            assert_eq!(m.items.len(), 5);
        },
        _ => panic!("expected a module"),
    }
}

#[test]
fn test_mod() {
    let item = Item::parse_str(
        "#[this_mod]
         #[doc = \"document this mod\"]
         mod my_mod {
             #![doc = \"inner docs\"]
             #[doc = \"deno_bindgen\"]
             #[doc = \"some_documentation\"]
             fn my_fn() {
                 #![doc = \"inner docs\"]
             }
             fn ignored_function() {}
             struct CustomType {}
             #[doc = \"deno_bindgen\"]
             impl CustomType {
                 #![doc = \"inner docs\"]
                 fn some_fn() {}
             }
         }",
    )
    .unwrap();
    match item {
        Item::Mod(m) => {
            assert_eq!(m.attr.meta.len(), 2);
            assert_eq!(m.items.len(), 4);
        },
        _ => panic!("expected a module"),
    }
}

#[test]
fn file_test_item_fn() {
    let file = File::parse_str(
        "const SOME_CONST: &'static str = \"Hello, World!\";
         fn some_item() {}
         #[doc = \"deno_bindgen\"]
         fn some_item_annotated() {}
         struct CustomType {}
         #[doc = \"deno_bindgen\"]
         impl CustomType {
             pub fn some_fn(string: String) {}
         }
         mod SomeMod {}",
    )
    .unwrap();
    assert_eq!(file.items.len(), 2);
    assert!(matches!(&file.items[0], Item::Fn(f) if f.ident == "some_item_annotated"));
    assert!(matches!(&file.items[1], Item::Impl(i) if i.self_ty == "CustomType"));
}

#[test]
fn file_skips_broken_items_that_are_not_exported() {
    let file = File::parse_str(
        "fn generic<T>(x: T) {}
         #[doc = \"deno_bindgen\"]
         fn kept() {}",
    )
    .unwrap();
    assert_eq!(file.items.len(), 1);
}

#[test]
fn file_strips_byte_order_mark() {
    let file = File::parse_str("\u{feff}#[doc = \"deno_bindgen\"] fn f() {}").unwrap();
    assert_eq!(file.items.len(), 1);
}
