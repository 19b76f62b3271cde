use update_bindings::classify::{abi_is_c, slot_signature_of};
use update_bindings::decl::{
    join_arguments, ArgumentForm, FieldDeclaration, MethodArgument, MethodDeclaration,
    StructDeclaration,
};
use update_bindings::error::Unrecognized;
use update_bindings::syntax::{
    Abi, BareFn, BareFnArg, Field, GenericArgument, PathArguments, PathSegment, TypeExpr, TypeKind,
};
use update_bindings::types::type_to_string;

fn bare(ident: &str) -> PathSegment {
    PathSegment { ident: String::from(ident), arguments: PathArguments::Absent }
}

fn path(tokens: &str) -> TypeExpr {
    TypeExpr {
        tokens: String::from(tokens),
        kind: TypeKind::Path { qualified: false, segments: vec![bare(tokens)] },
    }
}

fn other(tokens: &str) -> TypeExpr {
    TypeExpr { tokens: String::from(tokens), kind: TypeKind::Other }
}

fn ptr(is_const: bool, elem: TypeExpr) -> TypeExpr {
    let tokens = format!("* {} {}", if is_const { "const" } else { "mut" }, elem.tokens);
    TypeExpr { tokens, kind: TypeKind::Ptr { is_const, elem: Box::new(elem) } }
}

fn tuple(elems: Vec<TypeExpr>) -> TypeExpr {
    let tokens: Vec<&str> = elems.iter().map(|elem| elem.tokens.as_str()).collect();
    TypeExpr { tokens: format!("({})", tokens.join(" , ")), kind: TypeKind::Tuple { elems } }
}

fn array(elem: TypeExpr, len: &str) -> TypeExpr {
    let tokens = format!("[{} ; {}]", elem.tokens, len);
    TypeExpr { tokens, kind: TypeKind::Array { elem: Box::new(elem), len: String::from(len) } }
}

fn slice(elem: TypeExpr) -> TypeExpr {
    let tokens = format!("[{}]", elem.tokens);
    TypeExpr { tokens, kind: TypeKind::Slice { elem: Box::new(elem) } }
}

fn foreign_fn(inputs: Vec<(Option<&str>, TypeExpr)>, output: Option<TypeExpr>) -> BareFn {
    BareFn {
        unsafety: true,
        abi: Some(Abi { name: Some(String::from("C")) }),
        inputs: inputs
            .into_iter()
            .map(|(name, ty)| BareFnArg { name: name.map(String::from), ty })
            .collect(),
        variadic: false,
        output: output.map(Box::new),
    }
}

fn fn_type(function: BareFn) -> TypeExpr {
    TypeExpr { tokens: String::from("unsafe extern \"C\" fn ()"), kind: TypeKind::BareFn(function) }
}

fn option_of(segments: [&str; 3], args: Vec<GenericArgument>) -> TypeExpr {
    let last = PathSegment {
        ident: String::from(segments[2]),
        arguments: PathArguments::AngleBracketed { args },
    };
    TypeExpr {
        tokens: String::from(":: std :: option :: Option < unsafe extern \"C\" fn () >"),
        kind: TypeKind::Path {
            qualified: false,
            segments: vec![bare(segments[0]), bare(segments[1]), last],
        },
    }
}

fn slot(function: BareFn) -> TypeExpr {
    option_of(["std", "option", "Option"], vec![GenericArgument::Type(fn_type(function))])
}

fn field(name: &str, ty: TypeExpr) -> Field {
    Field { ident: Some(String::from(name)), ty }
}

fn receiver() -> (Option<&'static str>, TypeExpr) {
    (Some("self_"), ptr(false, path("_cef_app_t")))
}

#[test]
fn plain_path_is_given_its_host_name() {
    assert_eq!(type_to_string(&path("cef_browser_t")), "Browser");
    assert_eq!(type_to_string(&path("_cef_browser_t")), "Browser");
    assert_eq!(type_to_string(&path("cef_string_t")), "CefString");
    assert_eq!(type_to_string(&path("u32")), "u32");
    assert_eq!(type_to_string(&path(":: std :: os :: raw :: c_int")), ":: std :: os :: raw :: c_int");
}

#[test]
fn qualified_path_keeps_its_tokens() {
    let qualified = TypeExpr {
        tokens: String::from("cef_browser_t"),
        kind: TypeKind::Path { qualified: true, segments: vec![bare("cef_browser_t")] },
    };
    assert_eq!(type_to_string(&qualified), "cef_browser_t");
    assert_eq!(type_to_string(&ptr(true, qualified)), "*const cef_browser_t");
}

#[test]
fn tuple_keeps_its_form() {
    assert_eq!(type_to_string(&tuple(vec![])), "()");
    assert_eq!(type_to_string(&tuple(vec![path("cef_a_t")])), "(A)");
    assert_eq!(
        type_to_string(&tuple(vec![path("cef_a_t"), path("u8"), ptr(true, path("i8"))])),
        "(A, u8, *const i8)"
    );
    assert_eq!(
        type_to_string(&tuple(vec![tuple(vec![path("cef_a_t"), path("cef_b_t")]), path("u8")])),
        "((A, B), u8)"
    );
}

#[test]
fn array_and_slice_keep_their_form() {
    assert_eq!(type_to_string(&array(path("cef_a_t"), "4usize")), "[A; 4usize]");
    assert_eq!(type_to_string(&array(path("u8"), "N + 1")), "[u8; N + 1]");
    assert_eq!(type_to_string(&slice(path("cef_a_t"))), "[A]");
    assert_eq!(type_to_string(&slice(array(path("u8"), "2"))), "[[u8; 2]]");
}

#[test]
fn pointer_to_a_named_type_is_that_type() {
    assert_eq!(type_to_string(&ptr(false, path("_cef_browser_t"))), "Browser");
    assert_eq!(type_to_string(&ptr(true, path("cef_browser_t"))), "Browser");
}

#[test]
fn other_pointer_keeps_its_form() {
    assert_eq!(type_to_string(&ptr(true, path("u8"))), "*const u8");
    assert_eq!(type_to_string(&ptr(false, path("u8"))), "*mut u8");
    assert_eq!(type_to_string(&ptr(false, ptr(false, path("cef_browser_t")))), "*mut Browser");
    assert_eq!(type_to_string(&ptr(true, ptr(false, path("u8")))), "*const *mut u8");
    assert_eq!(type_to_string(&ptr(false, slice(path("cef_a_t")))), "*mut [A]");
}

#[test]
fn any_other_type_is_its_tokens() {
    assert_eq!(type_to_string(&other("& 'static str")), "& 'static str");
    assert_eq!(type_to_string(&other("cef_browser_t")), "cef_browser_t");
    assert_eq!(type_to_string(&fn_type(foreign_fn(vec![], None))), "unsafe extern \"C\" fn ()");
    assert_eq!(type_to_string(&ptr(false, other("cef_browser_t"))), "*mut cef_browser_t");
}

#[test]
fn method_slot_is_recognised() {
    let declared = field(
        "on_event",
        slot(foreign_fn(
            vec![
                receiver(),
                (Some("browserView"), ptr(false, path("_cef_browser_view_t"))),
                (None, path("u8")),
                (Some("count"), path("usize")),
            ],
            Some(ptr(false, path("_cef_value_t"))),
        )),
    );
    let method = MethodDeclaration::try_from(&declared).unwrap();
    assert_eq!(method.name, "on_event");
    assert_eq!(method.original_name, None);
    assert_eq!(method.output, Some(String::from("Value")));
    assert_eq!(method.original_output, Some(String::from("* mut _cef_value_t")));
    assert_eq!(
        method.args,
        vec![
            MethodArgument {
                name: String::from("self_"),
                rust_name: String::from("self_"),
                ty: String::from("App"),
                cef_type: String::from("* mut _cef_app_t"),
            },
            MethodArgument {
                name: String::from("browserView"),
                rust_name: String::from("browser_view"),
                ty: String::from("BrowserView"),
                cef_type: String::from("* mut _cef_browser_view_t"),
            },
            MethodArgument {
                name: String::from("count"),
                rust_name: String::from("count"),
                ty: String::from("usize"),
                cef_type: String::from("usize"),
            },
        ]
    );
    assert_eq!(method.to_string(), "fn on_event(&self, browser_view: BrowserView, count: usize) -> Value");
}

#[test]
fn method_slot_without_return_type_has_no_output() {
    let method = MethodDeclaration::try_from(&field("release", slot(foreign_fn(vec![receiver()], None)))).unwrap();
    assert_eq!(method.output, None);
    assert_eq!(method.original_output, None);
    assert_eq!(method.to_string(), "fn release(&self)");
    let bare_slot = MethodDeclaration::try_from(&field("tick", slot(foreign_fn(vec![], None)))).unwrap();
    assert_eq!(bare_slot.to_string(), "fn tick()");
}

#[test]
fn field_without_a_name_is_no_method_slot() {
    let nameless = Field { ident: None, ty: slot(foreign_fn(vec![receiver()], None)) };
    assert_eq!(MethodDeclaration::try_from(&nameless), Err(Unrecognized::FieldType));
    assert_eq!(FieldDeclaration::try_from(&nameless), Err(Unrecognized::FieldType));
}

#[test]
fn field_of_another_type_is_no_method_slot() {
    let function = || foreign_fn(vec![receiver()], None);
    let wrapped = |function: BareFn| vec![GenericArgument::Type(fn_type(function))];
    let refused = [
        path("usize"),
        ptr(false, path("_cef_app_t")),
        fn_type(function()),
        other("Option < fn () >"),
        option_of(["core", "option", "Option"], wrapped(function())),
        option_of(["std", "opt", "Option"], wrapped(function())),
        option_of(["std", "option", "Maybe"], wrapped(function())),
        option_of(["std", "option", "Option"], vec![]),
        option_of(["std", "option", "Option"], vec![GenericArgument::Other]),
        option_of(["std", "option", "Option"], vec![GenericArgument::Type(path("usize"))]),
        option_of(
            ["std", "option", "Option"],
            vec![GenericArgument::Type(fn_type(function())), GenericArgument::Type(path("u8"))],
        ),
        slot(BareFn { unsafety: false, ..function() }),
        slot(BareFn { abi: None, ..function() }),
        slot(BareFn { abi: Some(Abi { name: None }), ..function() }),
        slot(BareFn { abi: Some(Abi { name: Some(String::from("system")) }), ..function() }),
        slot(BareFn { abi: Some(Abi { name: Some(String::from("c")) }), ..function() }),
        slot(BareFn { variadic: true, ..function() }),
    ];
    for ty in refused {
        let declared = field("slot", ty);
        assert!(slot_signature_of(&declared.ty).is_none());
        assert_eq!(MethodDeclaration::try_from(&declared), Err(Unrecognized::FieldType));
        assert!(FieldDeclaration::try_from(&declared).is_ok());
    }
}

#[test]
fn option_path_must_have_three_bare_segments() {
    let function = GenericArgument::Type(fn_type(foreign_fn(vec![], None)));
    let option = |arguments| PathSegment { ident: String::from("Option"), arguments };
    let with_segments = |qualified, segments| TypeExpr {
        tokens: String::from("Option"),
        kind: TypeKind::Path { qualified, segments },
    };
    let angle = || PathArguments::AngleBracketed { args: vec![function_clone(&function)] };
    let refused = [
        with_segments(false, vec![option(angle())]),
        with_segments(false, vec![bare("option"), option(angle())]),
        with_segments(false, vec![bare("a"), bare("std"), bare("option"), option(angle())]),
        with_segments(true, vec![bare("std"), bare("option"), option(angle())]),
        with_segments(false, vec![bare("std"), bare("option"), option(PathArguments::Absent)]),
        with_segments(false, vec![bare("std"), bare("option"), option(PathArguments::Parenthesized)]),
        with_segments(
            false,
            vec![
                PathSegment { ident: String::from("std"), arguments: PathArguments::Parenthesized },
                bare("option"),
                option(angle()),
            ],
        ),
        with_segments(
            false,
            vec![
                bare("std"),
                PathSegment { ident: String::from("option"), arguments: angle() },
                option(angle()),
            ],
        ),
    ];
    for ty in refused {
        assert_eq!(MethodDeclaration::try_from(&field("slot", ty)), Err(Unrecognized::FieldType));
    }
    let accepted = with_segments(false, vec![bare("std"), bare("option"), option(angle())]);
    assert!(MethodDeclaration::try_from(&field("slot", accepted)).is_ok());
}

fn function_clone(argument: &GenericArgument) -> GenericArgument {
    match argument {
        GenericArgument::Type(_) => GenericArgument::Type(fn_type(foreign_fn(vec![], None))),
        GenericArgument::Other => GenericArgument::Other,
    }
}

#[test]
fn calling_convention_is_compared_by_name() {
    assert!(abi_is_c(&Some(Abi { name: Some(String::from("C")) })));
    assert!(!abi_is_c(&Some(Abi { name: Some(String::from("C-unwind")) })));
    assert!(!abi_is_c(&Some(Abi { name: Some(String::new()) })));
    assert!(!abi_is_c(&Some(Abi { name: None })));
    assert!(!abi_is_c(&None));
}

#[test]
fn data_field_is_recognised() {
    let declared = FieldDeclaration::try_from(&field("frameRate", ptr(false, path("_cef_rate_t")))).unwrap();
    assert_eq!(
        declared,
        FieldDeclaration {
            name: String::from("frameRate"),
            rust_name: String::from("frame_rate"),
            ty: String::from("Rate"),
        }
    );
    assert_eq!(declared.to_string(), "pub frame_rate: Rate,");
}

#[test]
fn fields_are_sorted_into_slots_and_data() {
    let fields = vec![
        field("base", path("cef_base_ref_counted_t")),
        field("first", slot(foreign_fn(vec![receiver()], None))),
        field("size", path("usize")),
        Field { ident: None, ty: path("u8") },
        field("second", slot(foreign_fn(vec![receiver()], Some(path("u8"))))),
        field("callback", fn_type(foreign_fn(vec![], None))),
    ];
    let declared = StructDeclaration::from_fields("_cef_app_t", &fields);
    assert_eq!(declared.name, "_cef_app_t");
    assert_eq!(declared.rust_name, Some(String::from("App")));
    let data: Vec<&str> = declared.fields.iter().map(|f| f.name.as_str()).collect();
    assert_eq!(data, vec!["base", "size", "callback"]);
    let slots: Vec<&str> = declared.methods.iter().map(|m| m.name.as_str()).collect();
    assert_eq!(slots, vec!["first", "second"]);
    let unnamed = StructDeclaration::from_fields("plain", &vec![]);
    assert_eq!(unnamed.rust_name, None);
    assert!(unnamed.fields.is_empty() && unnamed.methods.is_empty());
}

#[test]
fn arguments_are_written_in_each_form() {
    let argument = MethodArgument::new("browserView", &ptr(false, path("_cef_browser_view_t")));
    assert_eq!(argument.text(ArgumentForm::Parameter), "browser_view: BrowserView");
    assert_eq!(argument.text(ArgumentForm::ForeignParameter), "browser_view: * mut _cef_browser_view_t");
    assert_eq!(argument.text(ArgumentForm::Forwarded), "browser_view.into()");
    let receiver = MethodArgument::new("self_", &ptr(false, path("_cef_app_t")));
    assert_eq!(receiver.text(ArgumentForm::Parameter), "&self");
    assert_eq!(receiver.text(ArgumentForm::ForeignParameter), "self_: * mut _cef_app_t");
    assert_eq!(receiver.text(ArgumentForm::Forwarded), "self_.into()");
    let count = MethodArgument::new("count", &path("usize"));
    let all = vec![receiver, argument, count];
    assert_eq!(join_arguments(&all, 0, ArgumentForm::Parameter), "&self, browser_view: BrowserView, count: usize");
    assert_eq!(join_arguments(&all, 1, ArgumentForm::Forwarded), "browser_view.into(), count.into()");
    assert_eq!(join_arguments(&all, 2, ArgumentForm::Forwarded), "count.into()");
    assert_eq!(join_arguments(&all, 3, ArgumentForm::Forwarded), "");
    assert_eq!(join_arguments(&all, 7, ArgumentForm::Forwarded), "");
    assert_eq!(join_arguments(&vec![], 1, ArgumentForm::Forwarded), "");
}

#[test]
fn errors_have_their_messages() {
    assert_eq!(Unrecognized::FieldType.to_string(), "Unrecognized Field Type");
    assert_eq!(Unrecognized::FnArg.to_string(), "Unrecognized Function Argument");
    assert_eq!(Unrecognized::Generic.to_string(), "Unrecognized Generic Type");
    assert_eq!(Unrecognized::Interface.to_string(), "Unrecognized Interface Declaration");
    assert_eq!(Unrecognized::Parse(String::from("unexpected token")).to_string(), "Failed to Parse Bindings");
}
