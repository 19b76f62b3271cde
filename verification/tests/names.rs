use update_bindings::names::{
    global_fn_name, host_type_name, make_global_fn_name, make_rust_type_name,
    make_snake_case_value_name, resolve_type_name,
};
use update_bindings::order::{compare, Rank};
use update_bindings::table::NameTable;
use update_bindings::text::{repeat_join, starts_with, str_eq};

#[test]
fn type_name_with_leading_underscore() {
    assert_eq!(make_rust_type_name("_cef_foo_bar_t"), Some(String::from("FooBar")));
}

#[test]
fn type_name_without_leading_underscore() {
    assert_eq!(make_rust_type_name("cef_widget_t"), Some(String::from("Widget")));
}

#[test]
fn type_name_that_does_not_match() {
    assert_eq!(make_rust_type_name("not_a_match"), None);
    assert_eq!(make_rust_type_name("cef_widget"), None);
    assert_eq!(make_rust_type_name("widget_t"), None);
    assert_eq!(make_rust_type_name("__cef_widget_t"), None);
    assert_eq!(make_rust_type_name("cef__t"), None);
    assert_eq!(make_rust_type_name("cef_widget_t "), None);
    assert_eq!(make_rust_type_name("xcef_widget_t"), None);
    assert_eq!(make_rust_type_name(""), None);
}

#[test]
fn type_name_is_anchored_at_both_ends() {
    assert_eq!(make_rust_type_name("cef_widget_t\n"), None);
    assert_eq!(make_rust_type_name("\ncef_widget_t"), None);
    assert_eq!(make_rust_type_name(" cef_widget_t"), None);
    assert_eq!(make_rust_type_name("cef_widget_t_"), None);
    assert_eq!(make_rust_type_name("cef_wid get_t"), None);
    assert_eq!(make_rust_type_name("cef_wid-get_t"), None);
    assert_eq!(make_rust_type_name("CEF_widget_t"), None);
    assert_eq!(make_rust_type_name("cef_widget_T"), None);
}

#[test]
fn type_name_may_hold_any_word_character() {
    assert_eq!(make_rust_type_name("cef_3d_t"), Some(String::from("3d")));
    assert_eq!(make_rust_type_name("cef_été_t"), Some(String::from("Été")));
    assert_eq!(make_rust_type_name("_cef___a__b___t"), Some(String::from("AB")));
    assert_eq!(make_rust_type_name("cef___t"), Some(String::new()));
    assert_eq!(make_rust_type_name("cef_FOO_bar_t"), Some(String::from("FooBar")));
    assert_eq!(make_rust_type_name("cef_string_t_t"), Some(String::from("CefStringT")));
}

#[test]
fn type_name_takes_the_whole_segment() {
    assert_eq!(make_rust_type_name("cef_a_t_t"), Some(String::from("AT")));
    assert_eq!(make_rust_type_name("cef_x_t"), Some(String::from("X")));
    assert_eq!(make_rust_type_name("cef_v8_value_t"), Some(String::from("V8Value")));
}

#[test]
fn type_name_that_would_collide_is_guarded() {
    let mapped = make_rust_type_name("cef_string_t").unwrap();
    assert_ne!(mapped, "String");
    assert_eq!(mapped, "CefString");
    assert_eq!(make_rust_type_name("cef_string_list_t"), Some(String::from("CefStringList")));
    assert_eq!(make_rust_type_name("_cef_string_utf16_t"), Some(String::from("CefStringUtf16")));
}

#[test]
fn host_type_name_guards_only_the_word() {
    assert_eq!(host_type_name(String::from("String")), "CefString");
    assert_eq!(host_type_name(String::from("StringMap")), "CefStringMap");
    assert_eq!(host_type_name(String::from("Strin")), "Strin");
    assert_eq!(host_type_name(String::from("MyString")), "MyString");
    assert_eq!(host_type_name(String::from("string")), "string");
    assert_eq!(host_type_name(String::new()), "");
}

#[test]
fn host_type_name_is_idempotent() {
    for name in ["String", "StringList", "Widget", "CefString", ""] {
        let once = host_type_name(String::from(name));
        assert_eq!(host_type_name(once.clone()), once);
    }
}

#[test]
fn mapped_type_name_is_stable() {
    for name in ["_cef_foo_bar_t", "cef_widget_t", "cef_string_t", "cef_cef_x_t_t", "cef_a_t"] {
        let mapped = make_rust_type_name(name).unwrap();
        assert_eq!(make_rust_type_name(&mapped), None);
        assert_eq!(resolve_type_name(&mapped), mapped);
        assert!(!mapped.contains('_'));
    }
}

#[test]
fn mapped_type_name_holds_no_underscore() {
    let names = [
        "cef_a_b_c_t",
        "_cef__leading_t",
        "cef_trailing__t",
        "cef_ßharp_ŉame_t",
        "cef_ǅungla_t",
        "cef_σίσυφος_ΣΊΣΥΦΟΣ_t",
        "cef_x٣_y_t",
        "cef_a‿b_t",
    ];
    for name in names {
        let mapped = make_rust_type_name(name).unwrap();
        assert!(!mapped.contains('_'), "{} gave {}", name, mapped);
        assert_eq!(make_rust_type_name(&mapped), None);
    }
}

#[test]
fn resolve_type_name_falls_back_to_the_name() {
    assert_eq!(resolve_type_name("cef_widget_t"), "Widget");
    assert_eq!(resolve_type_name("u32"), "u32");
    assert_eq!(resolve_type_name(":: std :: os :: raw :: c_int"), ":: std :: os :: raw :: c_int");
    for name in ["cef_widget_t", "u32", "_cef_string_t"] {
        let once = resolve_type_name(name);
        assert_eq!(resolve_type_name(&once), once);
    }
}

#[test]
fn value_name_becomes_snake_case() {
    assert_eq!(make_snake_case_value_name("someValue"), "some_value");
    assert_eq!(make_snake_case_value_name("browser"), "browser");
    assert_eq!(make_snake_case_value_name("self_"), "self_");
    assert_eq!(make_snake_case_value_name("frameId"), "frame_id");
}

#[test]
fn global_name_with_prefix_keeps_an_alias() {
    assert_eq!(
        make_global_fn_name("cef_do_something"),
        (String::from("do_something"), Some(String::from("cef_do_something")))
    );
}

#[test]
fn global_name_without_prefix_has_no_alias() {
    assert_eq!(make_global_fn_name("other_fn"), (String::from("other_fn"), None));
    assert_eq!(make_global_fn_name("cef_"), (String::from("cef_"), None));
    assert_eq!(make_global_fn_name("_cef_x"), (String::from("_cef_x"), None));
    assert_eq!(make_global_fn_name("cef_a b"), (String::from("cef_a b"), None));
}

#[test]
fn global_name_follows_the_capture() {
    assert_eq!(
        global_fn_name("cef_do_something", Some(String::from("do_something"))),
        (String::from("do_something"), Some(String::from("cef_do_something")))
    );
    assert_eq!(global_fn_name("other_fn", None), (String::from("other_fn"), None));
}

#[test]
fn strings_compare_by_their_characters() {
    assert!(str_eq("base", "base"));
    assert!(!str_eq("base", "bas"));
    assert!(!str_eq("base", "basf"));
    assert!(str_eq("", ""));
    assert!(str_eq("é", "é"));
    assert!(!str_eq("é", "e"));
}

#[test]
fn prefix_is_tested_character_by_character() {
    assert!(starts_with("StringList", "String"));
    assert!(starts_with("String", "String"));
    assert!(!starts_with("Strin", "String"));
    assert!(!starts_with("aString", "String"));
    assert!(starts_with("anything", ""));
    assert!(starts_with("élan", "é"));
}

#[test]
fn repeated_text_is_joined() {
    assert_eq!(repeat_join("base", ".", 0), "");
    assert_eq!(repeat_join("base", ".", 1), "base");
    assert_eq!(repeat_join("base", ".", 3), "base.base.base");
}

#[test]
fn strings_are_ordered_by_bytes() {
    assert_eq!(compare("a", "b"), Rank::Before);
    assert_eq!(compare("b", "a"), Rank::After);
    assert_eq!(compare("a", "a"), Rank::Same);
    assert_eq!(compare("", "a"), Rank::Before);
    assert_eq!(compare("ab", "a"), Rank::After);
    assert_eq!(compare("Z", "a"), Rank::Before);
    assert_eq!(compare("é", "z"), Rank::After);
    for (a, b) in [("cef_a", "cef_b"), ("x", "x"), ("abc", "ab"), ("", ""), ("_", "a")] {
        let expected = match a.cmp(b) {
            std::cmp::Ordering::Less => Rank::Before,
            std::cmp::Ordering::Equal => Rank::Same,
            std::cmp::Ordering::Greater => Rank::After,
        };
        assert_eq!(compare(a, b), expected);
    }
}

#[test]
fn table_keeps_its_names_in_order() {
    let mut table = NameTable::new();
    table.insert(String::from("m"), String::from("1"));
    table.insert(String::from("a"), String::from("2"));
    table.insert(String::from("z"), String::from("3"));
    table.insert(String::from("c"), String::from("4"));
    assert_eq!(table.len(), 4);
    let keys: Vec<&str> = (0..table.len()).map(|i| table.entry(i).key.as_str()).collect();
    assert_eq!(keys, vec!["a", "c", "m", "z"]);
    let values: Vec<&str> = (0..table.len()).map(|i| table.entry(i).value.as_str()).collect();
    assert_eq!(values, vec!["2", "4", "1", "3"]);
}

#[test]
fn table_replaces_the_value_of_a_name() {
    let mut table = NameTable::new();
    table.insert(String::from("a"), String::from("1"));
    table.insert(String::from("b"), String::from("2"));
    table.insert(String::from("a"), String::from("3"));
    assert_eq!(table.len(), 2);
    assert_eq!(table.get("a"), Some(&String::from("3")));
    assert_eq!(table.get("b"), Some(&String::from("2")));
    assert_eq!(table.get("c"), None);
}
