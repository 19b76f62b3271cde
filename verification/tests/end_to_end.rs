use quote::ToTokens;
use update_bindings::classify::slot_signature_of;
use update_bindings::driver::{generate_bindings, try_generate_bindings};
use update_bindings::emit::Strategy;
use update_bindings::error::Unrecognized;
use update_bindings::syntax::{
    Abi, BareFn, BareFnArg, Field, Fields, FnArg, ForeignItem, GenericArgument, Item, Pat,
    PathArguments, PathSegment, SourceFile, TypeExpr, TypeKind,
};
use update_bindings::tree::ParseTree;
use update_bindings::types::type_to_string;

const DECLARATIONS: &str = r#"
pub type cef_color_t = u32;
pub type cef_app_t = _cef_app_t;
pub type cef_string_userfree_t = *mut cef_string_t;

#[repr(C)]
#[derive(Debug, Copy, Clone)]
pub struct _cef_base_ref_counted_t {
    pub size: usize,
    pub add_ref: ::std::option::Option<unsafe extern "C" fn(self_: *mut _cef_base_ref_counted_t)>,
    pub release: ::std::option::Option<
        unsafe extern "C" fn(self_: *mut _cef_base_ref_counted_t) -> ::std::os::raw::c_int,
    >,
}

#[repr(C)]
pub struct _cef_app_t {
    pub base: cef_base_ref_counted_t,
    pub on_register: ::std::option::Option<
        unsafe extern "C" fn(
            self_: *mut _cef_app_t,
            processType: *const cef_string_t,
            registrar: *mut _cef_scheme_registrar_t,
        ) -> ::std::os::raw::c_int,
    >,
}

#[repr(C)]
pub struct _cef_browser_app_t {
    pub base: cef_app_t,
    pub on_created: ::std::option::Option<unsafe extern "C" fn(self_: *mut _cef_browser_app_t)>,
}

#[repr(C)]
pub struct _cef_rect_t {
    pub x: ::std::os::raw::c_int,
    pub y: ::std::os::raw::c_int,
    pub corners: [u8; 4usize],
    pub free: Option<unsafe extern "C" fn(self_: *mut _cef_rect_t)>,
    pub log: ::std::option::Option<unsafe extern "C" fn(format: *const u8, ...)>,
}

#[repr(C)]
pub struct _cef_scheme_registrar_t {
    _unused: [u8; 0],
}

#[repr(transparent)]
pub struct cef_errorcode_t(pub ::std::os::raw::c_int);

#[repr(u32)]
pub enum cef_state_t {
    STATE_DEFAULT = 0,
    STATE_ENABLED = 1,
}

pub const CEF_VERSION: u32 = 1;

unsafe extern "C" {
    pub fn cef_initialize(args: *const cef_main_args_t, windowCount: ::std::os::raw::c_int) -> ::std::os::raw::c_int;
    pub fn cef_shutdown();
    pub static cef_counter: u32;
}
"#;

fn lower_file(file: &syn::File) -> SourceFile {
    SourceFile { items: file.items.iter().map(lower_item).collect() }
}

fn lower_item(item: &syn::Item) -> Item {
    match item {
        syn::Item::Type(alias) => Item::Type { ident: alias.ident.to_string(), ty: lower_type(&alias.ty) },
        syn::Item::Struct(declared) => Item::Struct {
            ident: declared.ident.to_string(),
            fields: match &declared.fields {
                syn::Fields::Named(fields) => Fields::Named(fields.named.iter().map(lower_field).collect()),
                syn::Fields::Unnamed(fields) => Fields::Unnamed { len: fields.unnamed.len() },
                syn::Fields::Unit => Fields::Unit,
            },
        },
        syn::Item::Enum(declared) => Item::Enum { ident: declared.ident.to_string() },
        syn::Item::ForeignMod(block) => Item::ForeignMod {
            unsafety: block.unsafety.is_some(),
            abi: lower_abi(&block.abi),
            items: block.items.iter().map(lower_foreign_item).collect(),
        },
        _ => Item::Other,
    }
}

fn lower_field(field: &syn::Field) -> Field {
    Field { ident: field.ident.as_ref().map(ToString::to_string), ty: lower_type(&field.ty) }
}

fn lower_foreign_item(item: &syn::ForeignItem) -> ForeignItem {
    match item {
        syn::ForeignItem::Fn(function) => ForeignItem::Fn {
            ident: function.sig.ident.to_string(),
            inputs: function
                .sig
                .inputs
                .iter()
                .map(|input| match input {
                    syn::FnArg::Typed(typed) => FnArg::Typed {
                        pat: match typed.pat.as_ref() {
                            syn::Pat::Ident(named) => Pat::Ident { ident: named.ident.to_string() },
                            _ => Pat::Other,
                        },
                        ty: lower_type(&typed.ty),
                    },
                    syn::FnArg::Receiver(_) => FnArg::Receiver,
                })
                .collect(),
            output: lower_output(&function.sig.output),
        },
        _ => ForeignItem::Other,
    }
}

fn lower_output(output: &syn::ReturnType) -> Option<TypeExpr> {
    match output {
        syn::ReturnType::Type(_, returned) => Some(lower_type(returned)),
        syn::ReturnType::Default => None,
    }
}

fn lower_abi(abi: &syn::Abi) -> Abi {
    Abi { name: abi.name.as_ref().map(syn::LitStr::value) }
}

fn lower_type(ty: &syn::Type) -> TypeExpr {
    let kind = match ty {
        syn::Type::Path(path) => TypeKind::Path {
            qualified: path.qself.is_some(),
            segments: path.path.segments.iter().map(lower_segment).collect(),
        },
        syn::Type::Tuple(tuple) => TypeKind::Tuple { elems: tuple.elems.iter().map(lower_type).collect() },
        syn::Type::Array(array) => TypeKind::Array {
            elem: Box::new(lower_type(&array.elem)),
            len: array.len.to_token_stream().to_string(),
        },
        syn::Type::Slice(slice) => TypeKind::Slice { elem: Box::new(lower_type(&slice.elem)) },
        syn::Type::Ptr(pointer) => TypeKind::Ptr {
            is_const: pointer.const_token.is_some(),
            elem: Box::new(lower_type(&pointer.elem)),
        },
        syn::Type::BareFn(function) => TypeKind::BareFn(BareFn {
            unsafety: function.unsafety.is_some(),
            abi: function.abi.as_ref().map(lower_abi),
            inputs: function
                .inputs
                .iter()
                .map(|input| BareFnArg {
                    name: input.name.as_ref().map(|(name, _)| name.to_string()),
                    ty: lower_type(&input.ty),
                })
                .collect(),
            variadic: function.variadic.is_some(),
            output: lower_output(&function.output).map(Box::new),
        }),
        _ => TypeKind::Other,
    };
    TypeExpr { tokens: ty.to_token_stream().to_string(), kind }
}

fn lower_segment(segment: &syn::PathSegment) -> PathSegment {
    PathSegment {
        ident: segment.ident.to_string(),
        arguments: match &segment.arguments {
            syn::PathArguments::None => PathArguments::Absent,
            syn::PathArguments::AngleBracketed(angle) => PathArguments::AngleBracketed {
                args: angle
                    .args
                    .iter()
                    .map(|argument| match argument {
                        syn::GenericArgument::Type(inner) => GenericArgument::Type(lower_type(inner)),
                        _ => GenericArgument::Other,
                    })
                    .collect(),
            },
            syn::PathArguments::Parenthesized(_) => PathArguments::Parenthesized,
        },
    }
}

fn parse(text: &str) -> Result<SourceFile, String> {
    match syn::parse_file(text) {
        Ok(file) => Ok(lower_file(&file)),
        Err(error) => Err(error.to_string()),
    }
}

fn parse_type(text: &str) -> TypeExpr {
    lower_type(&syn::parse_str::<syn::Type>(text).unwrap())
}

fn declarations() -> ParseTree {
    ParseTree::try_from(&parse(DECLARATIONS).unwrap()).unwrap()
}

fn place(text: &str, part: &str) -> usize {
    match text.find(part) {
        Some(at) => at,
        None => panic!("{:?} is not in the text", part),
    }
}

#[test]
fn parsed_declarations_are_gathered() {
    let tree = declarations();
    let structs: Vec<&str> = tree.structs.iter().map(|s| s.name.as_str()).collect();
    assert_eq!(
        structs,
        vec![
            "_cef_base_ref_counted_t",
            "_cef_app_t",
            "_cef_browser_app_t",
            "_cef_rect_t",
            "_cef_scheme_registrar_t"
        ]
    );
    assert_eq!(tree.enums, vec!["cef_errorcode_t", "cef_state_t"]);
    let globals: Vec<&str> = tree.globals.iter().map(|g| g.name.as_str()).collect();
    assert_eq!(globals, vec!["initialize", "shutdown"]);
    assert_eq!(tree.type_aliases.len(), 3);
    assert_eq!(tree.type_aliases.get("cef_color_t"), Some(&String::from("u32")));
    assert_eq!(tree.type_aliases.get("cef_app_t"), Some(&String::from("App")));
    assert_eq!(tree.type_aliases.get("cef_string_userfree_t"), Some(&String::from("CefString")));
}

#[test]
fn parsed_fields_are_sorted_into_slots_and_data() {
    let tree = declarations();
    let slots = |i: usize| tree.structs[i].methods.iter().map(|m| m.name.clone()).collect::<Vec<_>>();
    let data = |i: usize| tree.structs[i].fields.iter().map(|f| f.name.clone()).collect::<Vec<_>>();
    assert_eq!(slots(0), vec!["add_ref", "release"]);
    assert_eq!(data(0), vec!["size"]);
    assert_eq!(slots(1), vec!["on_register"]);
    assert_eq!(data(1), vec!["base"]);
    assert_eq!(slots(3), Vec::<String>::new());
    assert_eq!(data(3), vec!["x", "y", "corners", "free", "log"]);
    assert_eq!(data(4), vec!["_unused"]);

    let on_register = &tree.structs[1].methods[0];
    assert_eq!(on_register.to_string(), "fn on_register(&self, process_type: CefString, registrar: SchemeRegistrar) -> :: std :: os :: raw :: c_int");
    let names: Vec<&str> = on_register.args.iter().map(|a| a.rust_name.as_str()).collect();
    assert_eq!(names, vec!["self_", "process_type", "registrar"]);
    assert_eq!(on_register.args[1].cef_type, parse_type("*const cef_string_t").tokens);
    assert_eq!(on_register.output, Some(parse_type("::std::os::raw::c_int").tokens));
    assert_eq!(tree.structs[3].fields[2].ty, "[u8; 4usize]");
}

#[test]
fn parsed_structs_are_written_by_their_strategy() {
    let tree = declarations();
    assert!(tree.bases_settle());
    assert_eq!(tree.strategy(0), Some(Strategy::Opaque));
    assert_eq!(tree.strategy(1), Some(Strategy::RefCounted));
    assert_eq!(tree.strategy(2), Some(Strategy::RefCounted));
    assert_eq!(tree.strategy(3), Some(Strategy::Aggregate));
    assert_eq!(tree.strategy(4), Some(Strategy::Opaque));
    assert_eq!(tree.base_types.root("BrowserApp"), "BaseRefCounted");
    assert_eq!(tree.lineage("BrowserApp", "BaseRefCounted"), vec![1]);

    let app = tree.struct_wrapper(1);
    assert_eq!(app.matches("extern \"C\" fn ").count(), 1);
    assert!(app.contains("pub trait ImplApp: Sized {"));
    assert!(app.contains("obj.interface.on_register(process_type.into(), registrar.into()).into()"));

    let browser_app = tree.struct_wrapper(2);
    assert!(browser_app.contains("pub trait ImplBrowserApp: ImplApp {"));
    assert!(
        place(&browser_app, "impl_cef_app_t::init_methods::<Self>(&mut object.base);")
            < place(&browser_app, "impl_cef_browser_app_t::init_methods::<Self>(&mut object);")
    );
}

#[test]
fn declaration_text_is_generated() {
    let text = match try_generate_bindings(parse(DECLARATIONS), "use cef_sys::*;") {
        Some(Ok(text)) => text,
        other => panic!("no text was generated: {:?}", other),
    };
    assert!(text.starts_with("use cef_sys::*;\n\n// Type aliases\n"));
    assert!(text.contains("pub type Color = u32;\n"));
    assert!(text.contains("pub type CefStringUserfree = CefString;\n"));
    assert!(!text.contains("pub type App ="));
    assert!(text.contains("pub struct BaseRefCounted(_cef_base_ref_counted_t);"));
    assert!(text.contains("pub struct App(_cef_app_t);"));
    assert!(text.contains("pub struct Rect {\n    pub x: "));
    assert!(text.contains("pub struct SchemeRegistrar(_cef_scheme_registrar_t);"));
    assert!(text.contains("pub struct Errorcode(cef_errorcode_t);"));
    assert!(text.contains("pub struct State(cef_state_t);"));
    assert!(text.contains("unsafe { cef_initialize(args.into(), window_count.into()).into() }"));
    assert!(text.contains("unsafe { cef_shutdown() }"));
    assert!(!text.contains("cef_counter"));
    assert!(!text.contains("CEF_VERSION"));
    assert_eq!(generate_bindings(parse(DECLARATIONS), "use cef_sys::*;"), Ok(text));
}

#[test]
fn malformed_text_fails_to_parse() {
    for text in ["pub struct {", "pub struct _cef_app_t { pub base: }", "fn", "unsafe extern \"C\" { pub fn cef_x( }"] {
        let parsed = parse(text);
        let message = match &parsed {
            Err(message) => message.clone(),
            Ok(_) => panic!("{:?} was parsed", text),
        };
        assert_eq!(generate_bindings(parsed, "header"), Err(Unrecognized::Parse(message)));
    }
}

#[test]
fn field_of_an_unrecognized_shape_is_not_fatal() {
    let text = r#"
        pub struct _cef_odd_t {
            pub first: ::std::os::raw::c_int,
            pub callback: ::std::option::Option<extern "C" fn(self_: *mut _cef_odd_t)>,
            pub second: ::std::os::raw::c_int,
        }
    "#;
    let tree = ParseTree::try_from(&parse(text).unwrap()).unwrap();
    assert!(tree.structs[0].methods.is_empty());
    assert_eq!(tree.structs[0].fields.len(), 3);
    assert_eq!(tree.strategy(0), Some(Strategy::Aggregate));
    assert!(generate_bindings(parse(text), "header").is_ok());
}

#[test]
fn parsed_types_have_their_host_text() {
    assert_eq!(type_to_string(&parse_type("*mut _cef_browser_t")), "Browser");
    assert_eq!(type_to_string(&parse_type("*const cef_string_t")), "CefString");
    assert_eq!(type_to_string(&parse_type("cef_color_t")), "Color");
    assert_eq!(type_to_string(&parse_type("*mut *mut _cef_browser_t")), "*mut Browser");
    assert_eq!(type_to_string(&parse_type("[cef_color_t; 4]")), "[Color; 4]");
    assert_eq!(type_to_string(&parse_type("[cef_color_t]")), "[Color]");
    assert_eq!(type_to_string(&parse_type("(cef_color_t, *const u8)")), "(Color, *const u8)");
    assert_eq!(type_to_string(&parse_type("()")), "()");
    assert_eq!(type_to_string(&parse_type("usize")), "usize");
    for text in ["::std::os::raw::c_int", "&'static str", "<T as Trait>::Item", "fn(u8) -> u8", "(cef_color_t)"] {
        let parsed = parse_type(text);
        assert_eq!(type_to_string(&parsed), parsed.tokens);
    }
}

#[test]
fn parsed_slot_types_are_told_apart() {
    let accepted = [
        "::std::option::Option<unsafe extern \"C\" fn(self_: *mut _cef_app_t)>",
        "std::option::Option<unsafe extern \"C\" fn()>",
        "::std::option::Option<unsafe extern \"C\" fn(*mut _cef_app_t, n: u8) -> u8>",
        "::std::option::Option<for<'a> unsafe extern \"C\" fn(x: &'a u8)>",
    ];
    for text in accepted {
        assert!(slot_signature_of(&parse_type(text)).is_some(), "{}", text);
    }
    let refused = [
        "Option<unsafe extern \"C\" fn(self_: *mut _cef_app_t)>",
        "::core::option::Option<unsafe extern \"C\" fn()>",
        "::std::option::Option<extern \"C\" fn()>",
        "::std::option::Option<unsafe extern fn()>",
        "::std::option::Option<unsafe extern \"system\" fn()>",
        "::std::option::Option<unsafe fn()>",
        "::std::option::Option<unsafe extern \"C\" fn(x: u8, ...)>",
        "::std::option::Option<u8>",
        "::std::option::Option<'static>",
        "::std::option::Option",
        "unsafe extern \"C\" fn()",
        "*mut ::std::option::Option<unsafe extern \"C\" fn()>",
    ];
    for text in refused {
        assert!(slot_signature_of(&parse_type(text)).is_none(), "{}", text);
    }
}
