use deno_bindgen2_common::cli::{Cli, MetaData};
use deno_bindgen2_common::error::ParseError;
use deno_bindgen2_common::ffi::{FfiFunction, FfiInterface, FfiSymbol, FfiType};
use deno_bindgen2_common::format::TsFormat;
use deno_bindgen2_common::generate::Templates;
use deno_bindgen2_common::item::{Association, File, ItemFn, ItemImpl};
use deno_bindgen2_common::lower::RustTypeList;
use deno_bindgen2_common::module::{CodegenOpts, TsModule};
use deno_bindgen2_common::runtime::{Native, RustString};
use deno_bindgen2_common::template::FileStr;

fn squash(s: &str) -> String {
    s.chars().filter(|c| !c.is_whitespace()).collect()
}

fn symbol_names(module: &TsModule) -> Vec<String> {
    module
        .ffi_lib
        .interface
        .symbols
        .iter()
        .map(|s| match s {
            FfiSymbol::Function(f) => f.ident.clone(),
        })
        .collect()
}

#[test]
fn ffi_test_print() {
    let ffi_function = FfiFunction {
        ident: "some_symbol".to_string(),
        inputs: vec![FfiType::Pointer, FfiType::U8],
        output: FfiType::Void,
        non_blocking: false,
    };
    assert_eq!(ffi_function.print(), "some_symbol: { parameters: [\"pointer\", \"u8\"], result: \"void\" }");
}

#[test]
fn void_parameters_are_left_out_of_the_symbol_entry() {
    let f = FfiFunction {
        ident: "__f".to_string(),
        inputs: vec![FfiType::Void, FfiType::U8, FfiType::Void],
        output: FfiType::Void,
        non_blocking: true,
    };
    assert_eq!(f.print(), "__f: { parameters: [\"u8\"], result: \"void\", non_blocking: true }");
}

#[test]
fn scenario_add() {
    let src = "fn add(a: u8, b: u8) -> u8 {}";
    let mut shim = ItemFn::parse_str(src).unwrap();
    shim.transform();
    assert_eq!(
        squash(&shim.print_shim().unwrap()),
        squash(
            "#[unsafe(no_mangle)] extern \"C\" fn __add(arg_0: std::primitive::u8, arg_1: std::primitive::u8) -> std::primitive::u8 { add(arg_0, arg_1) }"
        )
    );
    let mut module = TsModule::default();
    let m = ItemFn::parse_str(src).unwrap().unwrap(&mut module);
    module.functions.push(m);
    assert_eq!(symbol_names(&module), vec!["__add".to_string()]);
    assert_eq!(
        squash(&module.functions.print().unwrap()),
        squash("export function add(arg_0: RustU8, arg_1: RustU8): RustU8 { const out = symbols.__add(arg_0, arg_1); return out! as RustU8; }")
    );
}

#[test]
fn scenario_greet() {
    let src = "fn greet(s: String) -> String {}";
    let mut shim = ItemFn::parse_str(src).unwrap();
    shim.transform();
    let text = squash(&shim.print_shim().unwrap());
    assert!(text.contains("fn__greet(arg_0:*mutstd::string::String)->*conststd::string::String"));
    assert!(text.contains("letarg_0=unsafe{*std::boxed::Box::from_raw(arg_0)};"));
    assert!(text.contains("letout=greet(arg_0);std::boxed::Box::into_raw(std::boxed::Box::from(out))"));
    let mut module = TsModule::default();
    let m = ItemFn::parse_str(src).unwrap().unwrap(&mut module);
    module.functions.push(m);
    assert!(module.type_defs.contains(RustTypeList::String));
    assert!(squash(&module.functions.print().unwrap())
        .contains("exportfunctiongreet(arg_0:RustString):RustString{constout=symbols.__greet(arg_0.take());returnnewRustString(out!)asRustString;}"));
    assert!(squash(&module.ffi_lib.print()).contains("__greet:{parameters:[\"pointer\"],result:\"pointer\"}"));
}

#[test]
fn scenario_counter() {
    let src = "impl Counter { fn inc(&mut self) {} }";
    let mut shim = ItemImpl::parse_str(src).unwrap();
    shim.transform();
    let native = squash(&shim.print().unwrap());
    assert!(native.contains("fn__Counter__inc(arg_0:*mutCounter){letarg_0=unsafe{&mut*arg_0};Counter::inc(arg_0);}"));
    let mut module = TsModule::default();
    ItemImpl::parse_str(src).unwrap().unwrap(&mut module);
    assert_eq!(symbol_names(&module), vec!["__Counter__inc".to_string(), "__Counter__drop".to_string()]);
    let classes = squash(&module.class_defs.print().unwrap());
    assert_eq!(
        classes,
        squash(
            "export class Counter extends RustPrototype<Counter> {
                 inc() {
                     const ptr = this.ptr;
                     this.ptr = null;
                     symbols.__Counter__inc(ptr, )!;
                     this.ptr = ptr;
                 }
             }"
        )
    );
}

#[test]
fn scenario_generic_function_is_rejected() {
    let d = ItemFn::parse_str("fn bad<T>(x: T) {}").unwrap_err();
    assert_eq!(d.error, ParseError::Generics);
    assert_eq!(d.error.message(), "generic parameters are not supported");
    let d = File::parse_str("#[doc = \"deno_bindgen\"] fn bad<T>(x: T) {}").unwrap_err();
    assert_eq!(d.error, ParseError::Generics);
}

#[test]
fn associations_are_inferred_from_receivers() {
    let i = ItemImpl::parse_str(
        "impl T { unsafe fn a(self) {} fn b(&self) {} fn c(&mut self) {} fn d() {} }",
    )
    .unwrap();
    let got: Vec<Option<Association>> = i.items.iter().map(|f| f.assoc).collect();
    assert_eq!(
        got,
        vec![
            Some(Association::Destructor),
            Some(Association::Instance),
            Some(Association::InstanceMut),
            Some(Association::Static)
        ]
    );
}

fn opts() -> CodegenOpts {
    CodegenOpts {
        file_name: "mod.ts".to_string(),
        dylib_path: "target/libx.so".to_string(),
        lazy: false,
        extended: false,
        embedded: None,
    }
}

#[test]
fn placeholders_exclude_classes() {
    let file = File::parse_str(
        "#[doc = \"deno_bindgen\"] fn take(a: Box<Counter>, b: Box<Other>) {}
         #[doc = \"deno_bindgen\"] impl Counter { fn inc(&mut self) {} }",
    )
    .unwrap();
    let module = TsModule::new(file, &opts());
    let placeholders = module.user_defs.list().clone();
    assert_eq!(placeholders, vec!["Other".to_string()]);
    assert_eq!(module.class_defs.store.len(), 1);
    assert_eq!(module.class_defs.store[0].ident, "Counter");
}

fn templates() -> Templates {
    Templates {
        util: "x\n// <!-- deno-bindgen2-content-start -->\nexport class RustPrototype<T> { ptr: any = null; }\n// <!-- deno-bindgen2-content-end -->\n".to_string(),
        core: "// <!-- deno-bindgen2-content-start -->\nexport type RustU8 = number;\n// <!-- deno-bindgen2-content-end -->\n// <!-- deno-bindgen2-alt-type-start -->\nexport type RustString = any;\n// <!-- deno-bindgen2-alt-type-end -->\n".to_string(),
        extended: "// <!-- deno-bindgen2-alt-type-start -->\nexport class RustStr {}\n// <!-- deno-bindgen2-ignore-start -->hidden// <!-- deno-bindgen2-ignore-end -->\n// <!-- deno-bindgen2-alt-type-end -->\nconst lib = {\n    // <!-- deno-bindgen2-ffi-symbols-start -->\n    __RustString__new: { parameters: [], result: \"pointer\" },\n    // <!-- deno-bindgen2-ffi-symbols-end -->\n};\n".to_string(),
    }
}

#[test]
fn generates_a_single_module() {
    let file = File::parse_str("#[doc = \"deno_bindgen\"] fn add(a: u8, b: u8) -> u8 {}").unwrap();
    let module = TsModule::new(file, &opts());
    let text = module.generate_single(&opts(), &templates()).unwrap();
    let text = squash(&text);
    assert!(text.contains("Deno.dlopen(\"target/libx.so\""));
    assert!(text.contains("exportclassRustPrototype"));
    assert!(text.contains("exporttypeRustString=any;"));
    assert!(text.contains("exportfunctionadd("));
}

#[test]
fn extended_helpers_bring_their_symbols() {
    let mut opts = opts();
    opts.extended = true;
    let file = File::parse_str("#[doc = \"deno_bindgen\"] fn f() {}").unwrap();
    let module = TsModule::new(file, &opts);
    let text = squash(&module.generate_single(&opts, &templates()).unwrap());
    assert!(text.contains("exportclassRustStr"));
    assert!(!text.contains("hidden"));
    assert!(text.contains("__RustString__new"));
}

#[test]
fn generates_a_separate_type_file() {
    let file = File::parse_str("#[doc = \"deno_bindgen\"] fn greet(s: String, n: u8) {}").unwrap();
    let module = TsModule::new(file, &opts());
    let (main, defs) = module.generate_multiple(&opts(), &templates(), "rust_type.ts").unwrap();
    let main = squash(&main);
    assert!(main.contains("importtype{RustU8}from\"./rust_type.ts\";"));
    let value_import = main.split("import{").nth(1).unwrap_or("");
    assert!(value_import.starts_with("RustPrototype,RustString}") || value_import.starts_with("RustString,RustPrototype}"));
    assert!(value_import.contains("from\"./rust_type.ts\";"));
    let defs = squash(&defs);
    assert!(defs.contains("export{RustPrototype,RustString};") || defs.contains("export{RustString,RustPrototype};"));
    assert!(defs.contains("exporttype{RustU8};"));
}

#[test]
fn template_slicing() {
    let f = FileStr::new("a<s>b<e>c<s>d<e>f");
    assert_eq!(f.slice_between("<s>", "<e>"), Some("b".to_string()));
    assert_eq!(f.slice_out("<s>", "<e>"), Some(vec!["a".to_string(), "c".to_string(), "f".to_string()]));
    assert_eq!(FileStr::new("plain").slice_out("<s>", "<e>"), Some(vec!["plain".to_string()]));
    assert_eq!(FileStr::new("a<s>b").slice_out("<s>", "<e>"), None);
    assert_eq!(FileStr::new("plain").slice_between("<s>", "<e>"), None);
}

#[test]
fn symbol_table_literal_parses() {
    let i = FfiInterface::parse_str("__a: { parameters: [\"u8\", \"pointer\"], result: \"void\" }, __b: { parameters: [], result: \"bool\", }").unwrap();
    assert_eq!(i.symbols.len(), 2);
    match &i.symbols[0] {
        FfiSymbol::Function(f) => {
            assert_eq!(f.ident, "__a");
            assert_eq!(f.inputs, vec![FfiType::U8, FfiType::Pointer]);
            assert_eq!(f.output, FfiType::Void);
        },
    }
}

#[test]
fn formatter_rejects_broken_script() {
    assert!(TsFormat::format("export function (").is_err());
    let formatted = TsFormat::format("const  x=1").unwrap();
    assert_eq!(formatted.trim(), "const x = 1;");
}

#[test]
fn strip_workspace_path() {
    let meta = MetaData {
        pkg_name: "p".to_string(),
        lib_name: "p".to_string(),
        pkg_path: "/w/p".to_string(),
        workspace_dir: "/w".to_string(),
    };
    assert_eq!(meta.strip_workspace_path("/w/target/libp.so"), Some("target/libp.so".to_string()));
    assert_eq!(meta.strip_workspace_path("/other/libp.so"), None);
    assert_eq!(meta.strip_workspace_path("/wx/libp.so"), None);
}

#[test]
fn cli_to_codegen_opts() {
    let cli = Cli {
        output: None,
        release: false,
        lazy: true,
        inline: false,
        extended: true,
        embedded: Some("lib.so".to_string()),
        no_expand: false,
        interactive: false,
        no_modules: false,
    };
    let o = cli.to_codegen_opts("mod.ts".to_string(), "target/lib.so".to_string());
    assert_eq!(o.file_name, "mod.ts");
    assert_eq!(o.dylib_path, "target/lib.so");
    assert!(o.lazy && o.extended);
    assert_eq!(o.embedded, Some("lib.so".to_string()));
}

#[test]
fn small_helpers() {
    assert_eq!(deno_bindgen2_common::runtime::add(2, 3), 5);
    assert_eq!(RustString::new(), "");
    assert!(Native::U8.is_numeric());
    assert!(!Native::Buffer(Box::new(Native::U8)).is_numeric());
}

#[test]
fn void_parameters_and_results_are_omitted() {
    let mut f = ItemFn::parse_str("fn f(a: (), b: u8) -> () {}").unwrap();
    f.transform();
    assert_eq!(f.block.out_stmt, None);
    let shim = squash(&f.print_shim().unwrap());
    assert!(shim.contains("fn__f(arg_1:std::primitive::u8){"));
    assert!(!shim.contains("->"));
    assert!(shim.contains("f((),arg_1);"));
}

#[test]
fn shim_and_symbol_table_share_the_name() {
    let src = "impl Point { fn norm(&self) -> f64 {} }";
    let mut shim = ItemImpl::parse_str(src).unwrap();
    shim.transform();
    let native = squash(&shim.print().unwrap());
    let mut module = TsModule::default();
    ItemImpl::parse_str(src).unwrap().unwrap(&mut module);
    let names = symbol_names(&module);
    assert_eq!(names[0], "__Point__norm");
    assert!(native.contains(&format!("fn{}(", names[0])));
    assert_eq!(shim.items[0].shim_name(), names[0]);
}
