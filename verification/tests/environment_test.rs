//! How the names of environment variables map to key paths.

use rust_package::environment::{
    has_keys, has_prefix, is_whitespace, lower_text, split_keys, trim, variable_key_path,
};
use rust_package::utils::{chars_of, to_ascii_lower};

fn chars(text: &str) -> Vec<char> {
    text.chars().collect()
}

fn path(name: &str) -> Option<String> {
    variable_key_path(name)
}

#[test]
fn names_of_the_two_values() {
    assert_eq!(path("APP_DATABASE__URL"), Some("database.url".to_string()));
    assert_eq!(path("APP_API__PORT"), Some("api.port".to_string()));
}

#[test]
fn prefix_is_required() {
    assert_eq!(path("DATABASE__URL"), None);
    assert_eq!(path("PATH"), None);
    assert_eq!(path(""), None);
    assert_eq!(path("APP"), None);
    assert_eq!(path("APPX_API__PORT"), None);
    assert_eq!(path("XAPP_API__PORT"), None);
}

#[test]
fn prefix_in_any_case() {
    assert_eq!(path("app_api__port"), Some("api.port".to_string()));
    assert_eq!(path("aPp_Api__Port"), Some("api.port".to_string()));
}

#[test]
fn prefix_alone_names_nothing() {
    assert_eq!(path("APP_"), None);
    assert_eq!(path("APP_ "), None);
}

#[test]
fn single_underscores_stay() {
    assert_eq!(path("APP_API_PORT"), Some("api_port".to_string()));
    assert_eq!(path("APP_A___B"), Some("a._b".to_string()));
    assert_eq!(path("APP_A_B__C_D"), Some("a_b.c_d".to_string()));
}

#[test]
fn empty_keys_are_refused() {
    assert_eq!(path("APP___A"), None);
    assert_eq!(path("APP_A__"), None);
    assert_eq!(path("APP_A____B"), None);
    assert_eq!(path("APP_.A"), None);
    assert_eq!(path("APP_A..B"), None);
    assert_eq!(path("APP_A.__B"), None);
}

#[test]
fn underscores_are_paired_from_the_left() {
    assert_eq!(path("APP____A"), None);
    assert_eq!(path("APP_A___"), Some("a._".to_string()));
}

#[test]
fn dots_in_the_name_stay() {
    assert_eq!(path("APP_A.B"), Some("a.b".to_string()));
}

#[test]
fn white_space_around_is_dropped() {
    assert_eq!(path("  APP_API__PORT\t"), Some("api.port".to_string()));
    assert_eq!(path("APP_ API__PORT"), Some("api.port".to_string()));
    assert_eq!(path("\u{a0}APP_X\u{3000}"), Some("x".to_string()));
    assert_eq!(path("APP_A B"), Some("a b".to_string()));
}

#[test]
fn only_ascii_letters_are_lowered() {
    assert_eq!(path("APP_\u{c9}T\u{c9}"), Some("\u{c9}t\u{c9}".to_string()));
}

#[test]
fn white_space_is_that_of_std() {
    let mut code: u32 = 0;
    while code <= 0x10FFFF {
        if let Some(c) = char::from_u32(code) {
            assert_eq!(is_whitespace(c), c.is_whitespace(), "U+{:04X}", code);
        }
        code += 1;
    }
}

#[test]
fn lower_case_is_that_of_std() {
    let mut code: u32 = 0;
    while code <= 0x10FFFF {
        if let Some(c) = char::from_u32(code) {
            assert_eq!(to_ascii_lower(c), c.to_ascii_lowercase(), "U+{:04X}", code);
        }
        code += 1;
    }
}

#[test]
fn trim_is_that_of_std() {
    for text in [
        "",
        " ",
        "a",
        " a",
        "a ",
        "  a b  ",
        "\t\n a\r\n",
        "\u{2003}x\u{85}",
        "   ",
        "x\u{200b}",
    ] {
        let kept: String = trim(&chars(text)).into_iter().collect();
        assert_eq!(kept, text.trim(), "{:?}", text);
    }
}

#[test]
fn chars_of_gives_each_character() {
    assert_eq!(chars_of(""), Vec::<char>::new());
    assert_eq!(chars_of("a\u{e9}\u{1F600}z"), vec!['a', '\u{e9}', '\u{1F600}', 'z']);
}

#[test]
fn prefix_test_on_characters() {
    assert!(has_prefix(&chars("APP_X"), &chars("APP_")));
    assert!(has_prefix(&chars("app_x"), &chars("APP_")));
    assert!(has_prefix(&chars("APP_"), &chars("app_")));
    assert!(has_prefix(&chars("anything"), &chars("")));
    assert!(!has_prefix(&chars("APP"), &chars("APP_")));
    assert!(!has_prefix(&chars("APQ_X"), &chars("APP_")));
}

#[test]
fn split_keys_is_replace_of_std() {
    for text in ["", "_", "__", "___", "____", "a__b", "a_b", "__a__", "a__b__c", "_a_"] {
        let split: String = split_keys(&chars(text), 0).into_iter().collect();
        assert_eq!(split, text.replace("__", "."), "{:?}", text);
    }
    let after: String = split_keys(&chars("APP_A__B"), 4).into_iter().collect();
    assert_eq!(after, "A.B");
    assert_eq!(split_keys(&chars("APP_"), 4), Vec::<char>::new());
}

#[test]
fn keys_are_checked_as_split_does() {
    for text in ["", ".", "a", "a.b", ".a", "a.", "a..b", "a.b.c", "..", "a.b."] {
        let expected = !text.split('.').any(|key| key.is_empty());
        assert_eq!(has_keys(&chars(text)), expected, "{:?}", text);
    }
}

#[test]
fn lower_text_keeps_the_rest() {
    assert_eq!(lower_text(&chars("AbC_1.Z\u{c9}")), "abc_1.z\u{c9}");
    assert_eq!(lower_text(&chars("")), "");
}
