//! What the generator produces, stated over character sequences: the
//! state it carries from token to token, the text each token adds, and
//! the inputs on which it gives up.
use vstd::prelude::*;
use crate::parser::{Token, TokenType};
use crate::text::{
    find, has_second_word, has_substr, is_prefix, last_index_of, second_word,
};
use crate::utils::{
    comma_spaced, menu_path, spec_global_to_pascal, spec_parse_i32, spec_unbracket, type_family,
};

verus! {

/// Opening lines of the output when labels go through `tr!`.
pub const TR_HEADER: &'static str = r#"#[macro_use]
extern crate tr;"#;

/// The `use` lines that open every generated file.
pub const HEADER: &'static str = r#"
use fltk::browser::*;
use fltk::button::*;
use fltk::dialog::*;
use fltk::enums::*;
use fltk::frame::*;
use fltk::group::*;
use fltk::image::*;
use fltk::input::*;
use fltk::menu::*;
use fltk::misc::*;
use fltk::output::*;
use fltk::prelude::*;
use fltk::table::*;
use fltk::text::*;
use fltk::tree::*;
use fltk::valuator::*;
use fltk::widget::*;
use fltk::window::*;"#;

/// The generator's state between two tokens.
pub struct GenModel {
    /// Code copied from `decl` blocks.
    pub decls: Seq<char>,
    /// Struct declarations.
    pub s: Seq<char>,
    /// The `Self { ... }` expression of the constructor being written.
    pub ctor: Seq<char>,
    /// `impl` blocks.
    pub imp: Seq<char>,
    /// Names of the submenus enclosing the current menu entry.
    pub subs: Seq<String>,
    /// Parent stack of the innermost open scope.
    pub gparent: Seq<String>,
    /// The previous token closed a scope.
    pub last_closed: bool,
    /// The last scope closed had a submenu or a widget class on top of its
    /// parent stack.
    pub last_scope_pops: bool,
}

/// The state before the first token.
pub open spec fn initial_model() -> GenModel {
    GenModel {
        decls: Seq::empty(),
        s: Seq::empty(),
        ctor: Seq::empty(),
        imp: Seq::empty(),
        subs: Seq::empty(),
        gparent: Seq::empty(),
        last_closed: false,
        last_scope_pops: false,
    }
}

/// The kinds of widget property that produce code.
#[derive(Clone, Copy, Debug, PartialEq, Eq, Structural)]
pub enum Prop {
    Visible,
    Color,
    SelectionColor,
    LabelSize,
    TextSize,
    LabelType,
    LabelColor,
    LabelFont,
    TextFont,
    Box,
    DownBox,
    When,
    Tooltip,
    Maximum,
    Minimum,
    Step,
    Value,
    Type,
    Align,
    Shortcut,
    Image,
    Hide,
    Modal,
    Resizable,
    SizeRange,
    Callback,
    Code,
    Other,
}

/// The property kind a property key names.
pub open spec fn prop_kind(k: Seq<char>) -> Prop {
    if k == "visible"@ {
        Prop::Visible
    } else if k == "color"@ {
        Prop::Color
    } else if k == "selection_color"@ {
        Prop::SelectionColor
    } else if k == "labelsize"@ {
        Prop::LabelSize
    } else if k == "textsize"@ {
        Prop::TextSize
    } else if k == "labeltype"@ {
        Prop::LabelType
    } else if k == "labelcolor"@ {
        Prop::LabelColor
    } else if k == "labelfont"@ {
        Prop::LabelFont
    } else if k == "textfont"@ {
        Prop::TextFont
    } else if k == "box"@ {
        Prop::Box
    } else if k == "down_box"@ {
        Prop::DownBox
    } else if k == "when"@ {
        Prop::When
    } else if k == "tooltip"@ {
        Prop::Tooltip
    } else if k == "maximum"@ {
        Prop::Maximum
    } else if k == "minimum"@ {
        Prop::Minimum
    } else if k == "step"@ {
        Prop::Step
    } else if k == "value"@ {
        Prop::Value
    } else if k == "type"@ {
        Prop::Type
    } else if k == "align"@ {
        Prop::Align
    } else if k == "shortcut"@ {
        Prop::Shortcut
    } else if k == "image"@ {
        Prop::Image
    } else if k == "hide"@ {
        Prop::Hide
    } else if k == "modal"@ {
        Prop::Modal
    } else if k == "resizable"@ {
        Prop::Resizable
    } else if k == "size_range"@ {
        Prop::SizeRange
    } else if k == "callback"@ {
        Prop::Callback
    } else if k == "code0"@ || k == "code1"@ || k == "code2"@ || k == "code3"@ {
        Prop::Code
    } else {
        Prop::Other
    }
}

/// Whether the code for a property of this kind uses the value that
/// follows the key.
pub open spec fn reads_value(kind: Prop) -> bool {
    match kind {
        Prop::Visible | Prop::Hide | Prop::Modal | Prop::Resizable | Prop::Other => false,
        _ => true,
    }
}

/// Menu entries and submenus are not widgets of their own.
pub open spec fn is_menu_type(t: Seq<char>) -> bool {
    t == "MenuItem"@ || t == "Submenu"@
}

/// Widget types that hold children.
pub open spec fn is_parent_type(t: Seq<char>) -> bool {
    ||| t == "Window"@
    ||| t == "Group"@
    ||| t == "Pack"@
    ||| t == "Tabs"@
    ||| t == "Scroll"@
    ||| t == "Table"@
    ||| t == "Tile"@
    ||| t == "Wizard"@
    ||| t == "MenuBar"@
    ||| t == "MenuButton"@
    ||| t == "Choice"@
}

/// A callback value that is already a closure or a block.
pub open spec fn is_closure_text(cb: Seq<char>) -> bool {
    (cb.len() > 0 && cb[0] == '{') || is_prefix("move"@, cb) || (cb.len() > 0 && cb[0] == '|')
}

/// A position in the property list whose next element exists.
pub open spec fn next_exists(props: Seq<String>, o: Option<int>) -> bool {
    match o {
        Some(k) => k + 1 < props.len(),
        None => true,
    }
}

/// The widget type: the value of a `class` property, else the type read.
pub open spec fn member_type(t0: Seq<char>, props: Seq<String>) -> Seq<char> {
    match find(props, "class"@) {
        Some(c) => props[c + 1]@,
        None => t0,
    }
}

/// The widget gets a field in the struct and a place in `Self { ... }`.
pub open spec fn emits_field(ident: Seq<char>, t: Seq<char>) -> bool {
    !is_menu_type(t) && !has_substr(ident, "fl2rust_widget_"@)
}

/// The struct field of a widget, with its comment.
pub open spec fn field_text(ident: Seq<char>, t: Seq<char>, props: Seq<String>) -> Seq<char> {
    let comment = match find(props, "comment"@) {
        Some(c) => "    // "@ + spec_unbracket(props[c + 1]@) + "\n"@,
        None => Seq::empty(),
    };
    comment + "    pub "@ + ident + ": "@ + t + ",\n"@
}

/// A label argument: wrapped in `tr!`, plain, or absent.
pub open spec fn label_arg(
    props: Seq<String>,
    l: Option<int>,
    i18n: bool,
    tr_pre: Seq<char>,
    tr_post: Seq<char>,
    pre: Seq<char>,
    post: Seq<char>,
    none: Seq<char>,
) -> Seq<char> {
    match l {
        Some(l) => if i18n {
            tr_pre + spec_unbracket(props[l + 1]@) + tr_post
        } else {
            pre + spec_unbracket(props[l + 1]@) + post
        },
        None => none,
    }
}

/// The statement that creates a widget.
pub open spec fn header_text(ident: Seq<char>, t: Seq<char>, props: Seq<String>, i18n: bool) -> Seq<
    char,
> {
    let x = find(props, "xywh"@);
    let l = find(props, "label"@);
    let open = "\tlet mut "@ + ident + " = "@ + t;
    if !is_parent_type(t) {
        if is_menu_type(t) {
            Seq::empty()
        } else {
            match x {
                Some(x) => open + "::new("@ + spec_unbracket(comma_spaced(props[x + 1]@)) + ", "@
                    + label_arg(
                    props,
                    l,
                    i18n,
                    "None).with_label(&tr!(\""@,
                    "\"));\n"@,
                    "\""@,
                    "\");"@,
                    "None);"@,
                ) + "\n"@,
                None => open + "::default()"@ + label_arg(
                    props,
                    l,
                    i18n,
                    ".with_label(&tr!(\""@,
                    "\"));"@,
                    ".with_label(\""@,
                    "\");"@,
                    Seq::empty(),
                ) + ";\n"@,
            }
        }
    } else {
        match x {
            Some(x) => open + "::new("@ + spec_unbracket(comma_spaced(props[x + 1]@)) + ", "@
                + label_arg(
                props,
                l,
                i18n,
                "None).with_label(&tr!(\""@,
                "\"));"@,
                "\""@,
                "\");"@,
                "None);"@,
            ) + "\n\t"@ + ident + ".end();\n"@,
            None => open + "::default()"@ + label_arg(
                props,
                l,
                i18n,
                ".with_label(tr!(\""@,
                "\"));"@,
                ".with_label(\""@,
                "\");"@,
                Seq::empty(),
            ) + ";\n\t"@ + ident + ".end();\n"@,
        }
    }
}

/// The values that creating the widget reads are there.
pub open spec fn header_ok(t: Seq<char>, props: Seq<String>) -> bool {
    (is_parent_type(t) || !is_menu_type(t)) ==> (next_exists(props, find(props, "xywh"@))
        && next_exists(props, find(props, "label"@)))
}

/// `\t<ident><method><arg><close>`: one statement on a widget.
pub open spec fn call_line(ident: Seq<char>, method: Seq<char>, arg: Seq<char>, close: Seq<
    char,
>) -> Seq<char> {
    "\t"@ + ident + method + arg + close
}

/// `\t<ident><method>`.
pub open spec fn call_line0(ident: Seq<char>, method: Seq<char>) -> Seq<char> {
    "\t"@ + ident + method
}

/// A string argument, wrapped in `tr!` or plain.
pub open spec fn quoted(v: Seq<char>, i18n: bool) -> Seq<char> {
    if i18n {
        "&tr!(\""@ + v + "\")"@
    } else {
        "\""@ + v + "\""@
    }
}

/// The `FrameType` variant for a box name; `first` tells whether the
/// property stood first in the list, which changes one spelling.
pub open spec fn frame_name(g: Seq<char>, first: bool) -> Seq<char> {
    if g == "OflatBox"@ {
        if first {
            "OFlatFrame"@
        } else {
            "OFlatBox"@
        }
    } else if g == "OshadowBox"@ {
        "OShadowBox"@
    } else if g == "RflatBox"@ {
        "RFlatBox"@
    } else if g == "RshadowBox"@ {
        "RShadowBox"@
    } else {
        g
    }
}

/// The `LabelType` variant for a label type name.
pub open spec fn label_type_name(g: Seq<char>) -> Seq<char> {
    if g == "No"@ {
        "None"@
    } else {
        g
    }
}

/// The argument of `set_value`.
pub open spec fn value_arg(t: Seq<char>, v: Seq<char>, i18n: bool) -> Seq<char> {
    if has_substr(t, "Button"@) {
        if spec_parse_i32(v) != Some(0int) {
            "true"@
        } else {
            "false"@
        }
    } else if (has_substr(t, "Input"@) || has_substr(t, "Output"@)) && !has_substr(t, "Value"@) {
        quoted(v, i18n)
    } else {
        v + " as _"@
    }
}

/// The line a callback property gives.
pub open spec fn callback_line(ident: Seq<char>, cb: Seq<char>) -> Seq<char> {
    if is_closure_text(cb) {
        call_line(ident, ".set_callback("@, cb, ");\n"@)
    } else {
        call_line(ident, ".set_callback(move |"@, ident + "| { \n\t    "@ + cb, " \n\t});\n"@)
    }
}

/// The line a property of the given kind gives, at index `i` of `props`.
pub open spec fn prop_text(
    kind: Prop,
    ident: Seq<char>,
    t: Seq<char>,
    props: Seq<String>,
    i: int,
    i18n: bool,
) -> Seq<char> {
    let raw = props[i + 1]@;
    let v = spec_unbracket(raw);
    match kind {
        Prop::Visible => call_line0(ident, ".show();\n"@),
        Prop::Color => call_line(ident, ".set_color(Color::by_index("@, v, "));\n"@),
        Prop::SelectionColor => call_line(
            ident,
            ".set_selection_color(Color::by_index("@,
            spec_global_to_pascal(v),
            "));\n"@,
        ),
        Prop::LabelSize => call_line(ident, ".set_label_size("@, v, ");\n"@),
        Prop::TextSize => call_line(ident, ".set_text_size("@, v, ");\n"@),
        Prop::LabelType => call_line(
            ident,
            ".set_label_type(LabelType::"@,
            label_type_name(spec_global_to_pascal(v)),
            ");\n"@,
        ),
        Prop::LabelColor => call_line(ident, ".set_label_color(Color::by_index("@, v, "));\n"@),
        Prop::LabelFont => call_line(ident, ".set_label_font(Font::by_index("@, v, "));\n"@),
        Prop::TextFont => call_line(ident, ".set_text_font(Font::by_index("@, v, "));\n"@),
        Prop::Box => call_line(
            ident,
            ".set_frame(FrameType::"@,
            frame_name(spec_global_to_pascal(v), i == 0),
            ");\n"@,
        ),
        Prop::DownBox => call_line(
            ident,
            ".set_down_frame(FrameType::"@,
            frame_name(spec_global_to_pascal(v), false),
            ");\n"@,
        ),
        Prop::When => call_line(ident, ".set_trigger(unsafe {std::mem::transmute("@, v, ")});\n"@),
        Prop::Tooltip => call_line(ident, ".set_tooltip("@, quoted(v, i18n), ");\n"@),
        Prop::Maximum => call_line(ident, ".set_maximum("@, v, " as _);\n"@),
        Prop::Minimum => call_line(ident, ".set_minimum("@, v, " as _);\n"@),
        Prop::Step => call_line(ident, ".set_step("@, v, " as _, 1);\n"@),
        Prop::Value => call_line(ident, ".set_value("@, value_arg(t, v, i18n), ");\n"@),
        Prop::Type => if raw != "Double"@ && !is_menu_type(t) {
            if t != "Output"@ {
                call_line(
                    ident,
                    ".set_type("@,
                    type_family(t) + "Type::"@ + spec_global_to_pascal(v),
                    ");\n"@,
                )
            } else {
                call_line0(ident, ".set_type(InputType::from_i32(12));\n"@)
            }
        } else {
            Seq::empty()
        },
        Prop::Align => call_line(ident, ".set_align(unsafe {std::mem::transmute("@, v, ")});\n"@),
        Prop::Shortcut => call_line(
            ident,
            ".set_shortcut(unsafe {std::mem::transmute("@,
            v,
            ")});\n"@,
        ),
        Prop::Image => call_line(
            ident,
            ".set_image(Some(SharedImage::load(\""@,
            v + "\").expect(\"Could not find image: "@ + v,
            "\")));\n"@,
        ),
        Prop::Hide => call_line0(ident, ".hide();\n"@),
        Prop::Modal => call_line0(ident, ".make_modal(true);\n"@),
        Prop::Resizable => call_line0(ident, ".make_resizable(true);\n"@),
        Prop::SizeRange => call_line(
            ident,
            ".size_range("@,
            spec_unbracket(comma_spaced(raw)),
            ");\n"@,
        ),
        Prop::Callback => callback_line(ident, v),
        Prop::Code => call_line0(v, "\n"@),
        Prop::Other => Seq::empty(),
    }
}

/// The property at `i` is not the value of a `label` key.
pub open spec fn prev_ok(props: Seq<String>, i: int) -> bool {
    i == 0 || props[i - 1]@ != "label"@
}

/// The property at `i` takes effect.
pub open spec fn prop_active(props: Seq<String>, i: int, t: Seq<char>, is_parent: bool) -> bool {
    let kind = prop_kind(props[i]@);
    prev_ok(props, i) && match kind {
        Prop::Shortcut | Prop::Callback => !is_menu_type(t),
        Prop::Resizable => is_parent,
        _ => true,
    }
}

/// The property at `i` can be turned into code: its value is there and,
/// for the value of a button, is an integer.
pub open spec fn prop_ok(props: Seq<String>, i: int, t: Seq<char>, is_parent: bool) -> bool {
    let kind = prop_kind(props[i]@);
    (prop_active(props, i, t, is_parent) && reads_value(kind)) ==> {
        &&& i + 1 < props.len()
        &&& (kind == Prop::Value && has_substr(t, "Button"@)) ==> spec_parse_i32(
            spec_unbracket(props[i + 1]@),
        ) is Some
    }
}

/// The code the property at `i` gives.
pub open spec fn prop_line(
    ident: Seq<char>,
    t: Seq<char>,
    props: Seq<String>,
    i: int,
    is_parent: bool,
    i18n: bool,
) -> Seq<char> {
    if prop_active(props, i, t, is_parent) {
        prop_text(prop_kind(props[i]@), ident, t, props, i, i18n)
    } else {
        Seq::empty()
    }
}

/// The code the first `n` properties give.
pub open spec fn prop_lines(
    ident: Seq<char>,
    t: Seq<char>,
    props: Seq<String>,
    is_parent: bool,
    i18n: bool,
    n: int,
) -> Seq<char>
    decreases n,
{
    if n <= 0 {
        Seq::empty()
    } else {
        prop_lines(ident, t, props, is_parent, i18n, n - 1) + prop_line(
            ident,
            t,
            props,
            n - 1,
            is_parent,
            i18n,
        )
    }
}

/// Every property can be turned into code.
pub open spec fn props_ok(props: Seq<String>, t: Seq<char>, is_parent: bool) -> bool {
    forall|i: int| 0 <= i < props.len() ==> #[trigger] prop_ok(props, i, t, is_parent)
}

/// The widget is added to the parent on top of the stack.
pub open spec fn attaches(gparent: Seq<String>) -> bool {
    gparent.len() > 0 && !has_substr(gparent.last()@, "Function"@)
}

/// The innermost enclosing parent that is not a submenu.
pub open spec fn menu_parent(g: Seq<String>) -> Seq<char>
    decreases g.len(),
{
    if g.len() == 0 {
        Seq::empty()
    } else if !has_substr(g.last()@, "Submenu"@) {
        g.last()@
    } else {
        menu_parent(g.drop_last())
    }
}

/// The label of a menu entry, with its submenu path.
pub open spec fn menu_label(subs: Seq<String>, props: Seq<String>, i18n: bool) -> Seq<char> {
    match find(props, "label"@) {
        Some(l) => if i18n {
            "&tr!(\""@ + menu_path(subs) + spec_unbracket(props[l + 1]@) + "\")"@
        } else {
            "\""@ + menu_path(subs) + spec_unbracket(props[l + 1]@) + "\""@
        },
        None => "\"\""@,
    }
}

/// The shortcut of a menu entry.
pub open spec fn menu_shortcut(props: Seq<String>) -> Seq<char> {
    match find(props, "shortcut"@) {
        Some(k) => "unsafe {std::mem::transmute("@ + props[k + 1]@ + ")}"@,
        None => "Shortcut::None"@,
    }
}

/// The `MenuFlag` variant of a menu entry.
pub open spec fn menu_flag(props: Seq<String>) -> Seq<char> {
    match find(props, "type"@) {
        Some(k) => props[k + 1]@,
        None => "Normal"@,
    }
}

/// The callback of a menu entry; `parent` names the menu.
pub open spec fn menu_callback(props: Seq<String>, parent: Seq<char>) -> Seq<char> {
    match find(props, "callback"@) {
        Some(k) => {
            let cb = spec_unbracket(props[k + 1]@);
            if is_closure_text(cb) {
                cb
            } else {
                "move |"@ + parent + "| { \n\t\t"@ + cb + " \n\t}"@
            }
        },
        None => "|_| {}"@,
    }
}

/// The code that adds a widget or menu entry to its parent.
pub open spec fn attach_text(
    gparent: Seq<String>,
    subs: Seq<String>,
    ident: Seq<char>,
    t: Seq<char>,
    props: Seq<String>,
    i18n: bool,
) -> Seq<char> {
    if !attaches(gparent) {
        Seq::empty()
    } else if !is_menu_type(t) {
        let p = second_word(gparent.last()@);
        let resizable = if find(props, "resizable"@) is Some {
            "\t"@ + p + ".resizable(&"@ + ident + ");\n"@
        } else {
            Seq::empty()
        };
        let hotspot = if find(props, "hotspot"@) is Some {
            "\t"@ + p + ".hotspot(&"@ + ident + ");\n"@
        } else {
            Seq::empty()
        };
        "\t"@ + p + ".add(&"@ + ident + ");\n"@ + resizable + hotspot
    } else if t == "MenuItem"@ {
        let p = second_word(menu_parent(gparent));
        "\t"@ + p + ".add("@ + menu_label(subs, props, i18n) + ", "@ + menu_shortcut(props)
            + ", MenuFlag::"@ + menu_flag(props) + ", "@ + menu_callback(props, p) + ");\n"@
    } else {
        Seq::empty()
    }
}

/// The names that adding to the parent reads are there.
pub open spec fn attach_ok(gparent: Seq<String>, t: Seq<char>, props: Seq<String>) -> bool {
    attaches(gparent) ==> if !is_menu_type(t) {
        has_second_word(gparent.last()@)
    } else if t == "MenuItem"@ {
        &&& has_second_word(menu_parent(gparent))
        &&& next_exists(props, find(props, "shortcut"@))
        &&& next_exists(props, find(props, "callback"@))
        &&& next_exists(props, find(props, "label"@))
        &&& next_exists(props, find(props, "type"@))
    } else {
        true
    }
}

/// A widget token can be turned into code in state `st`.
pub open spec fn member_ok(st: GenModel, ident: Seq<char>, t0: Seq<char>, props: Seq<String>) -> bool {
    let t = member_type(t0, props);
    &&& next_exists(props, find(props, "class"@))
    &&& emits_field(ident, t) ==> next_exists(props, find(props, "comment"@))
    &&& header_ok(t, props)
    &&& props_ok(props, t, is_parent_type(t))
    &&& attach_ok(st.gparent, t, props)
}

/// The state after a widget token.
pub open spec fn member_next(
    st: GenModel,
    ident: String,
    t0: Seq<char>,
    props: Seq<String>,
    i18n: bool,
) -> GenModel {
    let id = ident@;
    let t = member_type(t0, props);
    let field = emits_field(id, t);
    GenModel {
        s: if field {
            st.s + field_text(id, t, props)
        } else {
            st.s
        },
        ctor: if field {
            st.ctor + id + ", "@
        } else {
            st.ctor
        },
        imp: st.imp + header_text(id, t, props, i18n) + prop_lines(
            id,
            t,
            props,
            is_parent_type(t),
            i18n,
            props.len() as int,
        ) + attach_text(st.gparent, st.subs, id, t, props, i18n),
        subs: if attaches(st.gparent) && t == "Submenu"@ {
            st.subs.push(ident)
        } else {
            st.subs
        },
        last_closed: false,
        ..st
    }
}

/// The code a `decl` block contributes: what follows `decl {`, up to the
/// last closing brace.
pub open spec fn decl_body(ident: Seq<char>) -> Seq<char> {
    let rest = ident.subrange("decl {"@.len() as int, ident.len() as int);
    match last_index_of(rest, '}') {
        Some(k) => rest.subrange(0, k),
        None => rest,
    }
}

/// `v` without its last element, if it has one.
pub open spec fn pop_last(v: Seq<String>) -> Seq<String> {
    if v.len() > 0 {
        v.drop_last()
    } else {
        v
    }
}

/// A closing scope whose parent stack has a submenu or widget class on top.
pub open spec fn scope_pops(p: Seq<String>) -> bool {
    p.len() > 0 && (has_substr(p.last()@, "Submenu"@) || has_substr(p.last()@, "Fl_"@))
}

/// The state after a closing brace with parent stack `p`.
pub open spec fn close_next(st: GenModel, p: Seq<String>) -> GenModel {
    let popped = if p.len() > 0 && st.last_closed && st.last_scope_pops {
        GenModel { subs: pop_last(st.subs), gparent: pop_last(st.gparent), ..st }
    } else {
        st
    };
    let closed = if p.len() > 0 {
        if has_substr(p.last()@, "Function"@) {
            GenModel {
                imp: popped.imp + popped.ctor + "}"@ + "\n    }\n"@,
                ctor: Seq::empty(),
                ..popped
            }
        } else {
            popped
        }
    } else {
        GenModel { imp: st.imp + "}\n\n"@, s: st.s + "}\n\n"@, ..st }
    };
    GenModel { last_closed: true, last_scope_pops: scope_pops(p), ..closed }
}

/// One token: the next state, or `None` where the generator gives up.
pub open spec fn step(st: GenModel, tok: Token, i18n: bool) -> Option<GenModel> {
    let id = tok.ident@;
    match tok.typ {
        TokenType::Decl => if is_prefix("decl {"@, id) {
            Some(
                GenModel { decls: st.decls + decl_body(id) + "\n"@, last_closed: false, ..st },
            )
        } else {
            None
        },
        TokenType::Class => Some(
            GenModel {
                s: st.s + "#[derive(Debug, Clone)]\n"@ + "pub struct "@ + id + " {\n"@,
                imp: st.imp + "impl "@ + id + " {\n"@,
                last_closed: false,
                ..st
            },
        ),
        TokenType::Function => Some(
            GenModel {
                imp: st.imp + "    pub fn "@ + id + (if has_substr(id, "-> Self"@) {
                    Seq::empty()
                } else {
                    " -> Self"@
                }) + " {\n"@,
                ctor: st.ctor + "\tSelf { "@,
                last_closed: false,
                ..st
            },
        ),
        TokenType::Member(t0, props) => if member_ok(st, id, t0@, props@) {
            Some(member_next(st, tok.ident, t0@, props@, i18n))
        } else {
            None
        },
        TokenType::Scope(open, p) => if open {
            Some(GenModel { gparent: p@, last_closed: false, ..st })
        } else {
            Some(close_next(st, p@))
        },
        _ => Some(GenModel { last_closed: false, ..st }),
    }
}

/// The state after all of `ast`, or `None` where the generator gives up.
pub open spec fn run(ast: Seq<Token>, i18n: bool) -> Option<GenModel>
    decreases ast.len(),
{
    if ast.len() == 0 {
        Some(initial_model())
    } else {
        match run(ast.drop_last(), i18n) {
            Some(st) => step(st, ast.last(), i18n),
            None => None,
        }
    }
}

/// The file text for a final state.
pub open spec fn render(st: GenModel, i18n: bool) -> Seq<char> {
    if i18n {
        TR_HEADER@ + "\n"@ + HEADER@ + "\n\n"@ + st.decls + "\n\n"@ + st.s + "\n"@ + st.imp
            + "\n"@
    } else {
        HEADER@ + "\n\n"@ + st.decls + "\n\n"@ + st.s + "\n"@ + st.imp + "\n"@
    }
}

/// The generated file for `ast`, or `None` where the generator gives up.
pub open spec fn spec_generate(ast: Seq<Token>, i18n: bool) -> Option<Seq<char>> {
    match run(ast, i18n) {
        Some(st) => Some(render(st, i18n)),
        None => None,
    }
}

} // verus!
