use lib::gen::classify;
use lib::model::Prop;
use lib::text::{nth1_word, str_contains, str_ends_with, str_eq, str_starts_with};
use lib::utils::{fix_type, global_to_pascal, parse_i32, replace_spaces, unbracket, vec2menu};

#[test]
fn unbracket_strips_one_pair() {
    assert_eq!(unbracket("{a b}"), "a b");
    assert_eq!(unbracket("{{x}}"), "{x}");
    assert_eq!(unbracket("{}"), "");
    assert_eq!(unbracket("{"), "{");
    assert_eq!(unbracket("x}"), "x}");
    assert_eq!(unbracket("plain"), "plain");
    assert_eq!(unbracket(""), "");
}

#[test]
fn spaces_become_comma_space() {
    assert_eq!(replace_spaces("{1 2 3 4}"), "{1, 2, 3, 4}");
    assert_eq!(replace_spaces("a  b"), "a, , b");
    assert_eq!(replace_spaces(""), "");
}

#[test]
fn pascal_case_names() {
    assert_eq!(global_to_pascal("FLAT_BOX"), "FlatBox");
    assert_eq!(global_to_pascal("OFLAT_BOX"), "OflatBox");
    assert_eq!(global_to_pascal("NO_LABEL"), "No");
    assert_eq!(global_to_pascal("ENGRAVED_LABEL"), "Engraved");
    assert_eq!(global_to_pascal("engraved_label"), "EngravedLabel");
    assert_eq!(global_to_pascal("_x"), "X");
    assert_eq!(global_to_pascal("48"), "48");
    assert_eq!(global_to_pascal("Toggle"), "Toggle");
    assert_eq!(global_to_pascal(""), "");
}

#[test]
fn type_families() {
    assert_eq!(fix_type("RoundButton"), "Button");
    assert_eq!(fix_type("MenuButton"), "MenuButton");
    assert_eq!(fix_type("HorValueSlider"), "Slider");
    assert_eq!(fix_type("IntInput"), "Input");
    assert_eq!(fix_type("HoldBrowser"), "Browser");
    assert_eq!(fix_type("LineDial"), "Dial");
    assert_eq!(fix_type("SimpleCounter"), "Counter");
    assert_eq!(fix_type("DoubleWindow"), "Window");
    assert_eq!(fix_type("Pack"), "Pack");
}

#[test]
fn menu_paths() {
    let v = vec!["file".to_string(), "recent".to_string()];
    assert_eq!(vec2menu(&v), "file/recent/");
    assert_eq!(vec2menu(&vec![]), "");
}

#[test]
fn integer_parsing() {
    assert_eq!(parse_i32("42"), Some(42));
    assert_eq!(parse_i32("+7"), Some(7));
    assert_eq!(parse_i32("-0"), Some(0));
    assert_eq!(parse_i32("007"), Some(7));
    assert_eq!(parse_i32("2147483647"), Some(i32::MAX));
    assert_eq!(parse_i32("-2147483648"), Some(i32::MIN));
    assert_eq!(parse_i32("2147483648"), None);
    assert_eq!(parse_i32("99999999999999999999"), None);
    assert_eq!(parse_i32("-"), None);
    assert_eq!(parse_i32("+"), None);
    assert_eq!(parse_i32(""), None);
    assert_eq!(parse_i32("1a"), None);
    assert_eq!(parse_i32(" 1"), None);
    for s in ["0", "-17", "123456", "+2147483647", "-2147483649", "x"] {
        assert_eq!(parse_i32(s), s.parse::<i32>().ok());
    }
}

#[test]
fn second_word() {
    assert_eq!(nth1_word("Fl_Window win"), Some("win".to_string()));
    assert_eq!(nth1_word("  a\u{3000}b c"), Some("b".to_string()));
    assert_eq!(nth1_word("a\tb\n"), Some("b".to_string()));
    assert_eq!(nth1_word("one"), None);
    assert_eq!(nth1_word("   "), None);
    for s in ["Fl_Group g x", " x\u{85}y", "a\u{a0}b"] {
        assert_eq!(nth1_word(s), s.split_whitespace().nth(1).map(|w| w.to_string()));
    }
}

#[test]
fn substring_tests() {
    assert!(str_contains("Fl_Menu_Button", "Button"));
    assert!(!str_contains("Fl_Menu", "Button"));
    assert!(str_contains("abc", ""));
    assert!(str_starts_with("move |x|", "move"));
    assert!(!str_starts_with("mo", "move"));
    assert!(str_ends_with("NO_LABEL", "_LABEL"));
    assert!(str_eq("label", "label"));
    assert!(!str_eq("label", "labels"));
}

#[test]
fn property_keys() {
    assert_eq!(classify("code2"), Prop::Code);
    assert_eq!(classify("selection_color"), Prop::SelectionColor);
    assert_eq!(classify("down_box"), Prop::DownBox);
    assert_eq!(classify("xywh"), Prop::Other);
}
