use lib::gen::{generate, try_generate};
use lib::model::{HEADER, TR_HEADER};
use lib::parser::{Token, TokenType};

fn tok(ident: &str, typ: TokenType) -> Token {
    Token { ident: ident.to_string(), typ }
}

fn strs(v: &[&str]) -> Vec<String> {
    v.iter().map(|s| s.to_string()).collect()
}

fn member(ident: &str, t: &str, props: &[&str]) -> Token {
    tok(ident, TokenType::Member(t.to_string(), strs(props)))
}

fn open(p: &[&str]) -> Token {
    tok("", TokenType::Scope(true, strs(p)))
}

fn close(p: &[&str]) -> Token {
    tok("", TokenType::Scope(false, strs(p)))
}

/// Class `W` with constructor `make()` holding `members` directly.
fn in_class(members: Vec<Token>) -> Vec<Token> {
    let mut ast = vec![
        tok("W", TokenType::Class),
        open(&["Class W"]),
        tok("make()", TokenType::Function),
        open(&["Class W", "Function make()"]),
    ];
    ast.extend(members);
    ast.push(close(&["Class W", "Function make()"]));
    ast.push(close(&[]));
    ast
}

fn file(i18n: bool, decls: &str, fields: &str, body: &str, ctor: &str) -> String {
    let s = format!("#[derive(Debug, Clone)]\npub struct W {{\n{}}}\n\n", fields);
    let imp = format!(
        "impl W {{\n    pub fn make() -> Self {{\n{}\tSelf {{ {}}}\n    }}\n}}\n\n",
        body, ctor
    );
    if i18n {
        format!("{}\n{}\n\n{}\n\n{}\n{}\n", TR_HEADER, HEADER, decls, s, imp)
    } else {
        format!("{}\n\n{}\n\n{}\n{}\n", HEADER, decls, s, imp)
    }
}

#[test]
fn empty_input_gives_bare_header() {
    assert_eq!(generate(&[], false), format!("{}\n\n\n\n\n\n", HEADER));
    assert_eq!(
        generate(&[], true),
        format!("{}\n{}\n\n\n\n\n\n", TR_HEADER, HEADER)
    );
}

#[test]
fn window_with_tabs_and_frames() {
    let ast = vec![
        tok("UserInterface", TokenType::Class),
        open(&["Class UserInterface"]),
        tok("make_window()", TokenType::Function),
        open(&["Class UserInterface", "Function make_window()"]),
        member(
            "win",
            "Window",
            &["label", "{Full Tick}", "xywh", "{392 132 240 400}", "type", "Double", "color", "50",
              "resizable", "visible"],
        ),
        open(&["Class UserInterface", "Function make_window()", "Fl_Window win"]),
        member(
            "tabs",
            "Tabs",
            &["label", "{}", "xywh", "{0 25 240 375}", "box", "FLAT_BOX", "color", "40",
              "selection_color", "48"],
        ),
        open(&["Class UserInterface", "Function make_window()", "Fl_Window win", "Fl_Tabs tabs"]),
        member(
            "page_1",
            "Scroll",
            &["label", "{Page 1}", "xywh", "{0 50 240 350}", "box", "FLAT_BOX", "color", "48",
              "selection_color", "40", "hide"],
        ),
        member(
            "page_2",
            "Scroll",
            &["label", "{Page 2}", "xywh", "{0 55 240 345}", "box", "FLAT_BOX", "color", "48",
              "selection_color", "40"],
        ),
        close(&["Class UserInterface", "Function make_window()", "Fl_Window win", "Fl_Tabs tabs"]),
        close(&["Class UserInterface", "Function make_window()", "Fl_Window win", "Fl_Tabs tabs"]),
        member("fl2rust_widget_0", "Frame", &["label", "@FLTK", "xywh", "{0 0 70 25}"]),
        member(
            "fl2rust_widget_1",
            "Frame",
            &["label", "moCKontact", "xywh", "{70 0 115 25}", "labelfont", "1"],
        ),
        close(&["Class UserInterface", "Function make_window()", "Fl_Window win"]),
        close(&["Class UserInterface", "Function make_window()"]),
        close(&[]),
    ];
    let body = "\tlet mut win = Window::new(392, 132, 240, 400, \"Full Tick\");\n\twin.end();\n\
\twin.set_color(Color::by_index(50));\n\twin.make_resizable(true);\n\twin.show();\n\
\tlet mut tabs = Tabs::new(0, 25, 240, 375, \"\");\n\ttabs.end();\n\
\ttabs.set_frame(FrameType::FlatBox);\n\ttabs.set_color(Color::by_index(40));\n\
\ttabs.set_selection_color(Color::by_index(48));\n\twin.add(&tabs);\n\
\tlet mut page_1 = Scroll::new(0, 50, 240, 350, \"Page 1\");\n\tpage_1.end();\n\
\tpage_1.set_frame(FrameType::FlatBox);\n\tpage_1.set_color(Color::by_index(48));\n\
\tpage_1.set_selection_color(Color::by_index(40));\n\tpage_1.hide();\n\ttabs.add(&page_1);\n\
\tlet mut page_2 = Scroll::new(0, 55, 240, 345, \"Page 2\");\n\tpage_2.end();\n\
\tpage_2.set_frame(FrameType::FlatBox);\n\tpage_2.set_color(Color::by_index(48));\n\
\tpage_2.set_selection_color(Color::by_index(40));\n\ttabs.add(&page_2);\n\
\tlet mut fl2rust_widget_0 = Frame::new(0, 0, 70, 25, \"@FLTK\");\n\twin.add(&fl2rust_widget_0);\n\
\tlet mut fl2rust_widget_1 = Frame::new(70, 0, 115, 25, \"moCKontact\");\n\
\tfl2rust_widget_1.set_label_font(Font::by_index(1));\n\twin.add(&fl2rust_widget_1);\n";
    let expected = format!(
        "{}\n\n\n\n#[derive(Debug, Clone)]\npub struct UserInterface {{\n    pub win: Window,\n    \
pub tabs: Tabs,\n    pub page_1: Scroll,\n    pub page_2: Scroll,\n}}\n\n\nimpl UserInterface {{\n    \
pub fn make_window() -> Self {{\n{}\tSelf {{ win, tabs, page_1, page_2, }}\n    }}\n}}\n\n\n",
        HEADER, body
    );
    assert_eq!(generate(&ast, false), expected);
}

#[test]
fn button_properties_in_order() {
    let ast = in_class(vec![member(
        "btn",
        "Button",
        &["label", "{Go}", "xywh", "{10 20 30 40}", "type", "Toggle", "value", "1", "labelsize",
          "14", "tooltip", "{Click me}", "callback", "{println!(\"x\")}", "shortcut", "0x40061",
          "when", "6", "align", "16", "labeltype", "ENGRAVED_LABEL", "labelcolor", "7",
          "labelfont", "2", "textfont", "3", "textsize", "12", "down_box", "DOWN_BOX", "image",
          "{icon.png}", "hide", "modal", "code0", "{btn.do_it();}", "maximum", "10", "minimum",
          "1", "step", "2"],
    )]);
    let body = "\tlet mut btn = Button::new(10, 20, 30, 40, \"Go\");\n\
\tbtn.set_type(ButtonType::Toggle);\n\
\tbtn.set_value(true);\n\
\tbtn.set_label_size(14);\n\
\tbtn.set_tooltip(\"Click me\");\n\
\tbtn.set_callback(move |btn| { \n\t    println!(\"x\") \n\t});\n\
\tbtn.set_shortcut(unsafe {std::mem::transmute(0x40061)});\n\
\tbtn.set_trigger(unsafe {std::mem::transmute(6)});\n\
\tbtn.set_align(unsafe {std::mem::transmute(16)});\n\
\tbtn.set_label_type(LabelType::Engraved);\n\
\tbtn.set_label_color(Color::by_index(7));\n\
\tbtn.set_label_font(Font::by_index(2));\n\
\tbtn.set_text_font(Font::by_index(3));\n\
\tbtn.set_text_size(12);\n\
\tbtn.set_down_frame(FrameType::DownBox);\n\
\tbtn.set_image(Some(SharedImage::load(\"icon.png\").expect(\"Could not find image: icon.png\")));\n\
\tbtn.hide();\n\
\tbtn.make_modal(true);\n\
\tbtn.do_it();\n\
\tbtn.set_maximum(10 as _);\n\
\tbtn.set_minimum(1 as _);\n\
\tbtn.set_step(2 as _, 1);\n";
    assert_eq!(
        generate(&ast, false),
        file(false, "", "    pub btn: Button,\n", body, "btn, ")
    );
}

#[test]
fn i18n_input_labels_and_values() {
    let ast = in_class(vec![member(
        "inp",
        "Input",
        &["label", "{Name}", "value", "{abc}", "tooltip", "tip", "resizable", "xywh", "{1 2 3 4}"],
    )]);
    let body = "\tlet mut inp = Input::new(1, 2, 3, 4, None).with_label(&tr!(\"Name\"));\n\n\
\tinp.set_value(&tr!(\"abc\"));\n\
\tinp.set_tooltip(&tr!(\"tip\"));\n";
    assert_eq!(
        generate(&ast, true),
        file(true, "", "    pub inp: Input,\n", body, "inp, ")
    );
}

#[test]
fn value_kinds() {
    let ast = in_class(vec![
        member("a", "Output", &["value", "{hi}"]),
        member("b", "ValueInput", &["value", "3"]),
        member("c", "CheckButton", &["value", "0"]),
        member("d", "LightButton", &["value", "+7"]),
    ]);
    let body = "\tlet mut a = Output::default();\n\ta.set_value(\"hi\");\n\
\tlet mut b = ValueInput::default();\n\tb.set_value(3 as _);\n\
\tlet mut c = CheckButton::default();\n\tc.set_value(false);\n\
\tlet mut d = LightButton::default();\n\td.set_value(true);\n";
    assert_eq!(
        generate(&ast, false),
        file(
            false,
            "",
            "    pub a: Output,\n    pub b: ValueInput,\n    pub c: CheckButton,\n    pub d: LightButton,\n",
            body,
            "a, b, c, d, "
        )
    );
}

#[test]
fn button_value_that_is_no_integer_is_refused() {
    let ast = in_class(vec![member("c", "CheckButton", &["value", "on"])]);
    assert_eq!(try_generate(&ast, false), None);
    let ast = in_class(vec![member("c", "CheckButton", &["value", "2147483648"])]);
    assert_eq!(try_generate(&ast, false), None);
}

#[test]
fn key_without_value_is_refused() {
    assert_eq!(try_generate(&in_class(vec![member("f", "Frame", &["color"])]), false), None);
    assert_eq!(try_generate(&in_class(vec![member("f", "Frame", &["xywh"])]), false), None);
    assert_eq!(try_generate(&in_class(vec![member("f", "Frame", &["label"])]), false), None);
    assert_eq!(try_generate(&in_class(vec![member("f", "Frame", &["class"])]), false), None);
    assert_eq!(try_generate(&in_class(vec![member("f", "Frame", &["comment"])]), false), None);
}

#[test]
fn flags_without_value_are_accepted() {
    let ast = in_class(vec![member("f", "Frame", &["visible", "hide"])]);
    let body = "\tlet mut f = Frame::default();\n\tf.show();\n\tf.hide();\n";
    assert_eq!(generate(&ast, false), file(false, "", "    pub f: Frame,\n", body, "f, "));
}

#[test]
fn label_value_is_not_read_as_a_key() {
    let ast = in_class(vec![member("f", "Frame", &["label", "color", "xywh", "{0 0 1 1}"])]);
    let body = "\tlet mut f = Frame::new(0, 0, 1, 1, \"color\");\n";
    assert_eq!(generate(&ast, false), file(false, "", "    pub f: Frame,\n", body, "f, "));
}

#[test]
fn box_spelling_depends_on_position() {
    let ast = in_class(vec![
        member("f", "Frame", &["box", "OFLAT_BOX"]),
        member("g", "Frame", &["label", "x", "box", "OFLAT_BOX"]),
        member("h", "Frame", &["down_box", "RSHADOW_BOX"]),
    ]);
    let body = "\tlet mut f = Frame::default();\n\tf.set_frame(FrameType::OFlatFrame);\n\
\tlet mut g = Frame::default().with_label(\"x\");;\n\tg.set_frame(FrameType::OFlatBox);\n\
\tlet mut h = Frame::default();\n\th.set_down_frame(FrameType::RShadowBox);\n";
    assert_eq!(
        generate(&ast, false),
        file(false, "", "    pub f: Frame,\n    pub g: Frame,\n    pub h: Frame,\n", body, "f, g, h, ")
    );
}

#[test]
fn no_label_type_is_none() {
    let ast = in_class(vec![member("f", "Frame", &["labeltype", "NO_LABEL"])]);
    let body = "\tlet mut f = Frame::default();\n\tf.set_label_type(LabelType::None);\n";
    assert_eq!(generate(&ast, false), file(false, "", "    pub f: Frame,\n", body, "f, "));
}

#[test]
fn group_created_without_position() {
    let ast = in_class(vec![member("g", "Group", &["label", "{G}"])]);
    let body = "\tlet mut g = Group::default().with_label(\"G\");;\n\tg.end();\n";
    assert_eq!(generate(&ast, false), file(false, "", "    pub g: Group,\n", body, "g, "));
    let body = "\tlet mut g = Group::default().with_label(tr!(\"G\"));;\n\tg.end();\n";
    assert_eq!(generate(&ast, true), file(true, "", "    pub g: Group,\n", body, "g, "));
}

#[test]
fn type_property() {
    let ast = in_class(vec![
        member("o", "Output", &["type", "Multiline"]),
        member("w", "Window", &["type", "Double", "size_range", "{10 20 0 0}"]),
        member("s", "HorValueSlider", &["type", "HORIZONTAL"]),
    ]);
    let body = "\tlet mut o = Output::default();\n\to.set_type(InputType::from_i32(12));\n\
\tlet mut w = Window::default();\n\tw.end();\n\tw.size_range(10, 20, 0, 0);\n\
\tlet mut s = HorValueSlider::default();\n\ts.set_type(SliderType::Horizontal);\n";
    assert_eq!(
        generate(&ast, false),
        file(false, "", "    pub o: Output,\n    pub w: Window,\n    pub s: HorValueSlider,\n", body, "o, w, s, ")
    );
}

#[test]
fn callback_closure_kept_verbatim() {
    let ast = in_class(vec![
        member("a", "Button", &["callback", "{|_| run()}"]),
        member("b", "Button", &["callback", "{move |b| b.hide()}"]),
        member("c", "Button", &["callback", "{{ go(); }}"]),
    ]);
    let body = "\tlet mut a = Button::default();\n\ta.set_callback(|_| run());\n\
\tlet mut b = Button::default();\n\tb.set_callback(move |b| b.hide());\n\
\tlet mut c = Button::default();\n\tc.set_callback({ go(); });\n";
    assert_eq!(
        generate(&ast, false),
        file(false, "", "    pub a: Button,\n    pub b: Button,\n    pub c: Button,\n", body, "a, b, c, ")
    );
}

#[test]
fn class_property_comment_and_hidden_names() {
    let ast = in_class(vec![
        member("x", "Box", &["class", "MyWidget", "comment", "{a note}", "xywh", "{1 1 1 1}"]),
        member("fl2rust_widget_3", "Frame", &[]),
    ]);
    let body = "\tlet mut x = MyWidget::new(1, 1, 1, 1, None);\n\
\tlet mut fl2rust_widget_3 = Frame::default();\n";
    assert_eq!(
        generate(&ast, false),
        file(false, "", "    // a note\n    pub x: MyWidget,\n", body, "x, ")
    );
}

#[test]
fn menus_and_submenus() {
    let c = "Class W";
    let f = "Function make()";
    let m = "Fl_Menu_Bar menu";
    let ast = in_class(vec![
        member("menu", "MenuBar", &["xywh", "{0 0 100 20}"]),
        open(&[c, f, m]),
        member("file", "Submenu", &["label", "{File}"]),
        open(&[c, f, m, "Submenu file"]),
        member(
            "open_item",
            "MenuItem",
            &["label", "{Open}", "shortcut", "0x4006f", "callback", "{println!(\"open\")}",
              "type", "Toggle"],
        ),
        member("bare", "MenuItem", &[]),
        close(&[c, f, m, "Submenu file"]),
        close(&[c, f, m]),
        member("quit", "MenuItem", &["label", "{Quit}", "callback", "{|_| app::quit()}"]),
    ]);
    let body = "\tlet mut menu = MenuBar::new(0, 0, 100, 20, None);\n\tmenu.end();\n\
\tmenu.add(\"file/Open\", unsafe {std::mem::transmute(0x4006f)}, MenuFlag::Toggle, move |menu| { \n\t\tprintln!(\"open\") \n\t});\n\
\tmenu.add(\"\", Shortcut::None, MenuFlag::Normal, |_| {});\n\
\tmenu.add(\"Quit\", Shortcut::None, MenuFlag::Normal, |_| app::quit());\n";
    assert_eq!(generate(&ast, false), file(false, "", "    pub menu: MenuBar,\n", body, "menu, "));
}

#[test]
fn i18n_menu_label() {
    let ast = in_class(vec![
        open(&["Class W", "Function make()", "Fl_Menu_Button mb"]),
        member("it", "MenuItem", &["label", "{Open}"]),
    ]);
    let body = "\tmb.add(&tr!(\"Open\"), Shortcut::None, MenuFlag::Normal, |_| {});\n";
    assert_eq!(generate(&ast, true), file(true, "", "", body, ""));
}

#[test]
fn parent_without_name_is_refused() {
    let ast = in_class(vec![open(&["Window"]), member("b", "Button", &[])]);
    assert_eq!(try_generate(&ast, false), None);
    let ast = in_class(vec![open(&["Submenu x"]), member("i", "MenuItem", &[])]);
    assert_eq!(try_generate(&ast, false), None);
}

#[test]
fn resizable_and_hotspot_children() {
    let ast = in_class(vec![
        open(&["Class W", "Function make()", "Fl_Group grp"]),
        member("b", "Button", &["resizable", "hotspot"]),
    ]);
    let body = "\tlet mut b = Button::default();\n\tgrp.add(&b);\n\tgrp.resizable(&b);\n\tgrp.hotspot(&b);\n";
    assert_eq!(generate(&ast, false), file(false, "", "    pub b: Button,\n", body, "b, "));
}

#[test]
fn decl_blocks() {
    let ast = vec![
        tok("decl {use std::rc::Rc;} {private local}", TokenType::Decl),
        tok("decl {const N: u8 = 1;", TokenType::Decl),
    ];
    assert_eq!(
        generate(&ast, false),
        format!(
            "{}\n\nuse std::rc::Rc;}} {{private local\nconst N: u8 = 1;\n\n\n\n\n",
            HEADER
        )
    );
    let bad = vec![tok("use x;", TokenType::Decl)];
    assert_eq!(try_generate(&bad, false), None);
}

#[test]
fn function_already_returning_self() {
    let ast = vec![
        tok("W", TokenType::Class),
        tok("new() -> Self", TokenType::Function),
        close(&["Function new() -> Self"]),
        close(&[]),
    ];
    let expected = format!(
        "{}\n\n\n\n#[derive(Debug, Clone)]\npub struct W {{\n}}\n\n\nimpl W {{\n    pub fn new() -> Self {{\n\tSelf {{ }}\n    }}\n}}\n\n\n",
        HEADER
    );
    assert_eq!(generate(&ast, false), expected);
}

#[test]
fn trailing_comment_changes_nothing() {
    let ast = in_class(vec![member("f", "Frame", &["visible"])]);
    let mut longer = ast.clone();
    longer.push(tok("# note", TokenType::Comment));
    longer.push(tok("version 1.0", TokenType::Global));
    assert_eq!(generate(&longer, false), generate(&ast, false));
}

#[test]
fn output_starts_with_header() {
    let ast = in_class(vec![member("f", "Frame", &["visible"])]);
    assert!(generate(&ast, false).starts_with(HEADER));
    assert!(generate(&ast, true).starts_with(&format!("{}\n{}", TR_HEADER, HEADER)));
}

#[test]
fn i18n_without_widgets_only_adds_import() {
    let ast = vec![
        tok("decl {use a::b;}", TokenType::Decl),
        tok("W", TokenType::Class),
        tok("make()", TokenType::Function),
        close(&["Function make()"]),
        close(&[]),
    ];
    assert_eq!(
        generate(&ast, true),
        format!("{}\n{}", TR_HEADER, generate(&ast, false))
    );
}

#[test]
fn refusal_of_a_prefix_refuses_the_whole() {
    let mut ast = vec![tok("nope", TokenType::Decl)];
    assert_eq!(try_generate(&ast, false), None);
    ast.push(tok("W", TokenType::Class));
    ast.push(close(&[]));
    assert_eq!(try_generate(&ast, false), None);
}

#[test]
fn plain_input_always_generates() {
    let ast = vec![
        tok("W", TokenType::Class),
        open(&["anything"]),
        tok("f()", TokenType::Function),
        close(&["x Function"]),
        close(&[]),
        tok("c", TokenType::Comment),
    ];
    assert!(try_generate(&ast, false).is_some());
    assert!(try_generate(&ast, true).is_some());
}

#[test]
fn later_tokens_only_append() {
    let ast = vec![tok("W", TokenType::Class)];
    let mut longer = ast.clone();
    longer.push(tok("f()", TokenType::Function));
    let short = generate(&ast, false);
    let long = generate(&longer, false);
    let base = &short[..short.len() - 1];
    assert_eq!(long, format!("{}    pub fn f() -> Self {{\n\n", base));
}
