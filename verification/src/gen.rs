//! The generator: FLUID tokens in, Rust source for the fltk crate out.
use vstd::prelude::*;
use crate::model::{
    attach_ok, attach_text, call_line, call_line0, close_next, decl_body, emits_field, field_text,
    frame_name, header_ok, header_text, initial_model, is_closure_text, is_menu_type,
    is_parent_type, label_arg, member_next, member_ok, member_type, menu_callback,
    menu_flag, menu_label, menu_parent, menu_shortcut, next_exists, prev_ok, prop_active,
    prop_kind, prop_line, prop_lines, prop_ok, prop_text, props_ok, quoted, reads_value, render,
    run, spec_generate, step, GenModel, Prop, HEADER, TR_HEADER,
};
use crate::parser::{Token, TokenType};
use crate::text::{
    chars_of, chars_rfind, chars_starts_with, find, has_substr, is_prefix, last_index_of,
    nth1_word, position, push_range, str_contains, str_eq, str_starts_with,
};
use crate::utils::{
    fix_type, global_to_pascal, parse_i32, replace_spaces, spec_parse_i32, spec_unbracket,
    unbracket, vec2menu,
};

verus! {

/// The generator's running state.
pub struct GenState {
    pub decls: String,
    pub s: String,
    pub ctor: String,
    pub imp: String,
    pub subs: Vec<String>,
    pub gparent: Vec<String>,
    pub last_closed: bool,
    pub last_scope_pops: bool,
}

impl View for GenState {
    type V = GenModel;

    open spec fn view(&self) -> GenModel {
        GenModel {
            decls: self.decls@,
            s: self.s@,
            ctor: self.ctor@,
            imp: self.imp@,
            subs: self.subs@,
            gparent: self.gparent@,
            last_closed: self.last_closed,
            last_scope_pops: self.last_scope_pops,
        }
    }
}

/// An index as an integer.
pub open spec fn opt_int(o: Option<usize>) -> Option<int> {
    match o {
        Some(i) => Some(i as int),
        None => None,
    }
}

fn find_key(props: &Vec<String>, key: &str) -> (r: Option<usize>)
    ensures
        opt_int(r) == find(props@, key@),
        r matches Some(i) ==> i < props@.len(),
{
    position(props, key)
}

/// Appends `\t<ident><method><arg><close>`.
fn push_call(out: &mut String, ident: &str, method: &str, arg: &str, close: &str)
    ensures
        final(out)@ == old(out)@ + call_line(ident@, method@, arg@, close@),
{
    let ghost start = out@;
    out.append("\t");
    out.append(ident);
    out.append(method);
    out.append(arg);
    out.append(close);
    assert(out@ =~= start + call_line(ident@, method@, arg@, close@));
}

/// Appends `\t<ident><method>`.
fn push_call0(out: &mut String, ident: &str, method: &str)
    ensures
        final(out)@ == old(out)@ + call_line0(ident@, method@),
{
    let ghost start = out@;
    out.append("\t");
    out.append(ident);
    out.append(method);
    assert(out@ =~= start + call_line0(ident@, method@));
}

/// A copy of a list of strings.
fn clone_strings(v: &Vec<String>) -> (r: Vec<String>)
    ensures
        r@ == v@,
{
    let mut r: Vec<String> = Vec::new();
    let mut i: usize = 0;
    while i < v.len()
        invariant
            i <= v@.len(),
            r@ == v@.subrange(0, i as int),
        decreases v@.len() - i,
    {
        r.push(v[i].clone());
        i = i + 1;
        assert(r@ =~= v@.subrange(0, i as int));
    }
    assert(r@ =~= v@);
    r
}

fn is_menu(t: &str) -> (r: bool)
    ensures
        r == is_menu_type(t@),
{
    str_eq(t, "MenuItem") || str_eq(t, "Submenu")
}

fn is_parent(t: &str) -> (r: bool)
    ensures
        r == is_parent_type(t@),
{
    str_eq(t, "Window") || str_eq(t, "Group") || str_eq(t, "Pack") || str_eq(t, "Tabs") || str_eq(
        t,
        "Scroll",
    ) || str_eq(t, "Table") || str_eq(t, "Tile") || str_eq(t, "Wizard") || str_eq(t, "MenuBar")
        || str_eq(t, "MenuButton") || str_eq(t, "Choice")
}

fn is_closure(cb: &str) -> (r: bool)
    ensures
        r == is_closure_text(cb@),
{
    let v = chars_of(cb);
    (v.len() > 0 && v[0] == '{') || str_starts_with(cb, "move") || (v.len() > 0 && v[0] == '|')
}

/// The property kind that key `k` names.
pub fn classify(k: &str) -> (p: Prop)
    ensures
        p == prop_kind(k@),
{
    if str_eq(k, "visible") {
        Prop::Visible
    } else if str_eq(k, "color") {
        Prop::Color
    } else if str_eq(k, "selection_color") {
        Prop::SelectionColor
    } else if str_eq(k, "labelsize") {
        Prop::LabelSize
    } else if str_eq(k, "textsize") {
        Prop::TextSize
    } else if str_eq(k, "labeltype") {
        Prop::LabelType
    } else if str_eq(k, "labelcolor") {
        Prop::LabelColor
    } else if str_eq(k, "labelfont") {
        Prop::LabelFont
    } else if str_eq(k, "textfont") {
        Prop::TextFont
    } else if str_eq(k, "box") {
        Prop::Box
    } else if str_eq(k, "down_box") {
        Prop::DownBox
    } else if str_eq(k, "when") {
        Prop::When
    } else if str_eq(k, "tooltip") {
        Prop::Tooltip
    } else if str_eq(k, "maximum") {
        Prop::Maximum
    } else if str_eq(k, "minimum") {
        Prop::Minimum
    } else if str_eq(k, "step") {
        Prop::Step
    } else if str_eq(k, "value") {
        Prop::Value
    } else if str_eq(k, "type") {
        Prop::Type
    } else if str_eq(k, "align") {
        Prop::Align
    } else if str_eq(k, "shortcut") {
        Prop::Shortcut
    } else if str_eq(k, "image") {
        Prop::Image
    } else if str_eq(k, "hide") {
        Prop::Hide
    } else if str_eq(k, "modal") {
        Prop::Modal
    } else if str_eq(k, "resizable") {
        Prop::Resizable
    } else if str_eq(k, "size_range") {
        Prop::SizeRange
    } else if str_eq(k, "callback") {
        Prop::Callback
    } else if str_eq(k, "code0") || str_eq(k, "code1") || str_eq(k, "code2") || str_eq(
        k,
        "code3",
    ) {
        Prop::Code
    } else {
        Prop::Other
    }
}

/// A string argument, wrapped in `tr!` or plain.
fn quote(v: &str, i18n: bool) -> (r: String)
    ensures
        r@ == quoted(v@, i18n),
{
    let mut r = String::new();
    if i18n {
        r.append("&tr!(\"");
        r.append(v);
        r.append("\")");
    } else {
        r.append("\"");
        r.append(v);
        r.append("\"");
    }
    assert(r@ =~= quoted(v@, i18n));
    r
}

/// The `FrameType` variant for box name `g`.
fn frame(g: &str, first: bool) -> (r: String)
    ensures
        r@ == frame_name(g@, first),
{
    if str_eq(g, "OflatBox") {
        if first {
            String::from_str("OFlatFrame")
        } else {
            String::from_str("OFlatBox")
        }
    } else if str_eq(g, "OshadowBox") {
        String::from_str("OShadowBox")
    } else if str_eq(g, "RflatBox") {
        String::from_str("RFlatBox")
    } else if str_eq(g, "RshadowBox") {
        String::from_str("RShadowBox")
    } else {
        String::from_str(g)
    }
}

/// Appends the code of a property of kind `kind` whose value is
/// `props[i + 1]`; fails where a button value is not an integer.
fn push_prop_text(
    imp: &mut String,
    kind: Prop,
    ident: &str,
    t: &str,
    props: &Vec<String>,
    i: usize,
    i18n: bool,
) -> (ok: bool)
    requires
        i + 1 < props@.len(),
        reads_value(kind),
    ensures
        ok == ((kind == Prop::Value && has_substr(t@, "Button"@)) ==> spec_parse_i32(
            spec_unbracket(props@[i + 1]@),
        ) is Some),
        ok ==> final(imp)@ == old(imp)@ + prop_text(kind, ident@, t@, props@, i as int, i18n),
{
    let _n = props.len();
    let raw = props[i + 1].as_str();
    let v = unbracket(raw);
    let vs = v.as_str();
    match kind {
        Prop::Color => push_call(imp, ident, ".set_color(Color::by_index(", vs, "));\n"),
        Prop::SelectionColor => {
            let g = global_to_pascal(vs);
            push_call(imp, ident, ".set_selection_color(Color::by_index(", g.as_str(), "));\n");
        },
        Prop::LabelSize => push_call(imp, ident, ".set_label_size(", vs, ");\n"),
        Prop::TextSize => push_call(imp, ident, ".set_text_size(", vs, ");\n"),
        Prop::LabelType => {
            let g = global_to_pascal(vs);
            if str_eq(g.as_str(), "No") {
                push_call(imp, ident, ".set_label_type(LabelType::", "None", ");\n");
            } else {
                push_call(imp, ident, ".set_label_type(LabelType::", g.as_str(), ");\n");
            }
        },
        Prop::LabelColor => push_call(imp, ident, ".set_label_color(Color::by_index(", vs, "));\n"),
        Prop::LabelFont => push_call(imp, ident, ".set_label_font(Font::by_index(", vs, "));\n"),
        Prop::TextFont => push_call(imp, ident, ".set_text_font(Font::by_index(", vs, "));\n"),
        Prop::Box => {
            let g = global_to_pascal(vs);
            let f = frame(g.as_str(), i == 0);
            push_call(imp, ident, ".set_frame(FrameType::", f.as_str(), ");\n");
        },
        Prop::DownBox => {
            let g = global_to_pascal(vs);
            let f = frame(g.as_str(), false);
            push_call(imp, ident, ".set_down_frame(FrameType::", f.as_str(), ");\n");
        },
        Prop::When => push_call(
            imp,
            ident,
            ".set_trigger(unsafe {std::mem::transmute(",
            vs,
            ")});\n",
        ),
        Prop::Tooltip => {
            let q = quote(vs, i18n);
            push_call(imp, ident, ".set_tooltip(", q.as_str(), ");\n");
        },
        Prop::Maximum => push_call(imp, ident, ".set_maximum(", vs, " as _);\n"),
        Prop::Minimum => push_call(imp, ident, ".set_minimum(", vs, " as _);\n"),
        Prop::Step => push_call(imp, ident, ".set_step(", vs, " as _, 1);\n"),
        Prop::Value => {
            if str_contains(t, "Button") {
                match parse_i32(vs) {
                    Some(b) => {
                        if b != 0 {
                            push_call(imp, ident, ".set_value(", "true", ");\n");
                        } else {
                            push_call(imp, ident, ".set_value(", "false", ");\n");
                        }
                    },
                    None => {
                        return false;
                    },
                }
            } else if (str_contains(t, "Input") || str_contains(t, "Output")) && !str_contains(
                t,
                "Value",
            ) {
                let q = quote(vs, i18n);
                push_call(imp, ident, ".set_value(", q.as_str(), ");\n");
            } else {
                let mut a = String::from_str(vs);
                a.append(" as _");
                push_call(imp, ident, ".set_value(", a.as_str(), ");\n");
            }
        },
        Prop::Type => {
            if !str_eq(raw, "Double") && !is_menu(t) {
                if !str_eq(t, "Output") {
                    let mut a = fix_type(t);
                    a.append("Type::");
                    let g = global_to_pascal(vs);
                    a.append(g.as_str());
                    push_call(imp, ident, ".set_type(", a.as_str(), ");\n");
                } else {
                    push_call0(imp, ident, ".set_type(InputType::from_i32(12));\n");
                }
            } else {
                proof {
                    reveal_strlit("");
                }
            }
        },
        Prop::Align => push_call(
            imp,
            ident,
            ".set_align(unsafe {std::mem::transmute(",
            vs,
            ")});\n",
        ),
        Prop::Shortcut => push_call(
            imp,
            ident,
            ".set_shortcut(unsafe {std::mem::transmute(",
            vs,
            ")});\n",
        ),
        Prop::Image => {
            let mut a = String::from_str(vs);
            a.append("\").expect(\"Could not find image: ");
            a.append(vs);
            push_call(imp, ident, ".set_image(Some(SharedImage::load(\"", a.as_str(), "\")));\n");
        },
        Prop::SizeRange => {
            let r = replace_spaces(raw);
            let u = unbracket(r.as_str());
            push_call(imp, ident, ".size_range(", u.as_str(), ");\n");
        },
        Prop::Callback => {
            if is_closure(vs) {
                push_call(imp, ident, ".set_callback(", vs, ");\n");
            } else {
                let mut a = String::from_str(ident);
                a.append("| { \n\t    ");
                a.append(vs);
                push_call(imp, ident, ".set_callback(move |", a.as_str(), " \n\t});\n");
            }
        },
        Prop::Code => push_call0(imp, vs, "\n"),
        _ => {},
    }
    true
}

/// Appends the code of the property at index `i`; fails where its value
/// is missing or unusable.
fn push_prop_line(
    imp: &mut String,
    ident: &str,
    t: &str,
    props: &Vec<String>,
    i: usize,
    is_parent: bool,
    i18n: bool,
) -> (ok: bool)
    requires
        i < props@.len(),
    ensures
        ok == prop_ok(props@, i as int, t@, is_parent),
        ok ==> final(imp)@ == old(imp)@ + prop_line(ident@, t@, props@, i as int, is_parent, i18n),
{
    let kind = classify(props[i].as_str());
    let prev = i == 0 || !str_eq(props[i - 1].as_str(), "label");
    assert(prev == prev_ok(props@, i as int));
    let active = prev && match kind {
        Prop::Shortcut | Prop::Callback => !is_menu(t),
        Prop::Resizable => is_parent,
        _ => true,
    };
    assert(active == prop_active(props@, i as int, t@, is_parent));
    if !active {
        assert(imp@ =~= old(imp)@ + prop_line(ident@, t@, props@, i as int, is_parent, i18n));
        return true;
    }
    match kind {
        Prop::Visible => {
            push_call0(imp, ident, ".show();\n");
            true
        },
        Prop::Hide => {
            push_call0(imp, ident, ".hide();\n");
            true
        },
        Prop::Modal => {
            push_call0(imp, ident, ".make_modal(true);\n");
            true
        },
        Prop::Resizable => {
            push_call0(imp, ident, ".make_resizable(true);\n");
            true
        },
        Prop::Other => {
            assert(imp@ =~= old(imp)@ + prop_line(ident@, t@, props@, i as int, is_parent, i18n));
            true
        },
        _ => {
            if i >= props.len() - 1 {
                return false;
            }
            push_prop_text(imp, kind, ident, t, props, i, i18n)
        },
    }
}

/// Appends the code of every property in order; fails where one fails.
fn push_prop_lines(
    imp: &mut String,
    ident: &str,
    t: &str,
    props: &Vec<String>,
    is_parent: bool,
    i18n: bool,
) -> (ok: bool)
    ensures
        ok == props_ok(props@, t@, is_parent),
        ok ==> final(imp)@ == old(imp)@ + prop_lines(
            ident@,
            t@,
            props@,
            is_parent,
            i18n,
            props@.len() as int,
        ),
{
    let ghost start = imp@;
    let mut i: usize = 0;
    while i < props.len()
        invariant
            i <= props@.len(),
            imp@ == start + prop_lines(ident@, t@, props@, is_parent, i18n, i as int),
            forall|j: int| 0 <= j < i ==> #[trigger] prop_ok(props@, j, t@, is_parent),
        decreases props@.len() - i,
    {
        let ghost before = imp@;
        if !push_prop_line(imp, ident, t, props, i, is_parent, i18n) {
            return false;
        }
        assert(imp@ =~= start + prop_lines(ident@, t@, props@, is_parent, i18n, i + 1));
        i = i + 1;
    }
    true
}

/// Appends a label argument.
fn push_label_arg(
    out: &mut String,
    props: &Vec<String>,
    l: Option<usize>,
    i18n: bool,
    tr_pre: &str,
    tr_post: &str,
    pre: &str,
    post: &str,
    none: &str,
)
    requires
        next_exists(props@, opt_int(l)),
    ensures
        final(out)@ == old(out)@ + label_arg(
            props@,
            opt_int(l),
            i18n,
            tr_pre@,
            tr_post@,
            pre@,
            post@,
            none@,
        ),
{
    let ghost start = out@;
    let _n = props.len();
    match l {
        Some(l) => {
            let v = unbracket(props[l + 1].as_str());
            if i18n {
                out.append(tr_pre);
                out.append(v.as_str());
                out.append(tr_post);
            } else {
                out.append(pre);
                out.append(v.as_str());
                out.append(post);
            }
        },
        None => {
            out.append(none);
        },
    }
    assert(out@ =~= start + label_arg(
        props@,
        opt_int(l),
        i18n,
        tr_pre@,
        tr_post@,
        pre@,
        post@,
        none@,
    ));
}

/// Appends the statement that creates a widget; fails where its position
/// or label value is missing.
fn push_header(imp: &mut String, ident: &str, t: &str, props: &Vec<String>, i18n: bool) -> (ok:
    bool)
    ensures
        ok == header_ok(t@, props@),
        ok ==> final(imp)@ == old(imp)@ + header_text(ident@, t@, props@, i18n),
{
    proof {
        reveal_strlit("");
    }
    let parent = is_parent(t);
    let menu = is_menu(t);
    if !parent && menu {
        assert(imp@ =~= old(imp)@ + header_text(ident@, t@, props@, i18n));
        return true;
    }
    let x = find_key(props, "xywh");
    let l = find_key(props, "label");
    let n = props.len();
    match x {
        Some(x) => {
            if x + 1 >= n {
                return false;
            }
        },
        None => {},
    }
    match l {
        Some(l) => {
            if l + 1 >= n {
                return false;
            }
        },
        None => {},
    }
    let mut h = String::new();
    h.append("\tlet mut ");
    h.append(ident);
    h.append(" = ");
    h.append(t);
    match x {
        Some(x) => {
            h.append("::new(");
            let r = replace_spaces(props[x + 1].as_str());
            let u = unbracket(r.as_str());
            h.append(u.as_str());
            h.append(", ");
            if !parent {
                push_label_arg(
                    &mut h,
                    props,
                    l,
                    i18n,
                    "None).with_label(&tr!(\"",
                    "\"));\n",
                    "\"",
                    "\");",
                    "None);",
                );
                h.append("\n");
            } else {
                push_label_arg(
                    &mut h,
                    props,
                    l,
                    i18n,
                    "None).with_label(&tr!(\"",
                    "\"));",
                    "\"",
                    "\");",
                    "None);",
                );
                h.append("\n\t");
                h.append(ident);
                h.append(".end();\n");
            }
        },
        None => {
            h.append("::default()");
            if !parent {
                push_label_arg(
                    &mut h,
                    props,
                    l,
                    i18n,
                    ".with_label(&tr!(\"",
                    "\"));",
                    ".with_label(\"",
                    "\");",
                    "",
                );
                h.append(";\n");
            } else {
                push_label_arg(
                    &mut h,
                    props,
                    l,
                    i18n,
                    ".with_label(tr!(\"",
                    "\"));",
                    ".with_label(\"",
                    "\");",
                    "",
                );
                h.append(";\n\t");
                h.append(ident);
                h.append(".end();\n");
            }
        },
    }
    assert(h@ =~= header_text(ident@, t@, props@, i18n));
    imp.append(h.as_str());
    true
}

/// The innermost enclosing parent that is not a submenu (empty if none).
fn find_menu_parent(g: &Vec<String>) -> (r: String)
    ensures
        r@ == menu_parent(g@),
{
    let mut j: usize = g.len();
    assert(g@.subrange(0, j as int) =~= g@);
    while j > 0
        invariant
            j <= g@.len(),
            menu_parent(g@) == menu_parent(g@.subrange(0, j as int)),
        decreases j,
    {
        let ghost pre = g@.subrange(0, j as int);
        assert(pre.drop_last() =~= g@.subrange(0, j - 1));
        if !str_contains(g[j - 1].as_str(), "Submenu") {
            return g[j - 1].clone();
        }
        j = j - 1;
    }
    String::new()
}

/// Appends the text of an optional callback of a menu entry.
fn push_menu_callback(out: &mut String, props: &Vec<String>, c: Option<usize>, parent: &str)
    requires
        opt_int(c) == crate::text::find(props@, "callback"@),
        next_exists(props@, opt_int(c)),
    ensures
        final(out)@ == old(out)@ + menu_callback(props@, parent@),
{
    let ghost start = out@;
    let _n = props.len();
    match c {
        Some(c) => {
            let cb = unbracket(props[c + 1].as_str());
            if is_closure(cb.as_str()) {
                out.append(cb.as_str());
            } else {
                out.append("move |");
                out.append(parent);
                out.append("| { \n\t\t");
                out.append(cb.as_str());
                out.append(" \n\t}");
            }
        },
        None => {
            out.append("|_| {}");
        },
    }
    assert(out@ =~= start + menu_callback(props@, parent@));
}

/// Appends the statement that adds a menu entry to its menu.
fn push_menu_item(
    imp: &mut String,
    subs: &Vec<String>,
    gparent: &Vec<String>,
    props: &Vec<String>,
    i18n: bool,
) -> (ok: bool)
    ensures
        ok == {
            &&& crate::text::has_second_word(menu_parent(gparent@))
            &&& next_exists(props@, find(props@, "shortcut"@))
            &&& next_exists(props@, find(props@, "callback"@))
            &&& next_exists(props@, find(props@, "label"@))
            &&& next_exists(props@, find(props@, "type"@))
        },
        ok ==> final(imp)@ == old(imp)@ + ("\t"@ + crate::text::second_word(menu_parent(gparent@))
            + ".add("@ + menu_label(subs@, props@, i18n) + ", "@ + menu_shortcut(props@)
            + ", MenuFlag::"@ + menu_flag(props@) + ", "@ + menu_callback(
            props@,
            crate::text::second_word(menu_parent(gparent@)),
        ) + ");\n"@),
{
    let mp = find_menu_parent(gparent);
    let parent = match nth1_word(mp.as_str()) {
        Some(w) => w,
        None => {
            return false;
        },
    };
    let n = props.len();
    let sc = find_key(props, "shortcut");
    let cb = find_key(props, "callback");
    let l = find_key(props, "label");
    let ty = find_key(props, "type");
    if let Some(k) = sc {
        if k + 1 >= n {
            return false;
        }
    }
    if let Some(k) = cb {
        if k + 1 >= n {
            return false;
        }
    }
    if let Some(k) = l {
        if k + 1 >= n {
            return false;
        }
    }
    if let Some(k) = ty {
        if k + 1 >= n {
            return false;
        }
    }
    let mut a = String::new();
    a.append("\t");
    a.append(parent.as_str());
    a.append(".add(");
    match l {
        Some(l) => {
            let path = vec2menu(subs);
            let v = unbracket(props[l + 1].as_str());
            if i18n {
                a.append("&tr!(\"");
                a.append(path.as_str());
                a.append(v.as_str());
                a.append("\")");
            } else {
                a.append("\"");
                a.append(path.as_str());
                a.append(v.as_str());
                a.append("\"");
            }
        },
        None => {
            a.append("\"\"");
        },
    }
    a.append(", ");
    match sc {
        Some(k) => {
            a.append("unsafe {std::mem::transmute(");
            a.append(props[k + 1].as_str());
            a.append(")}");
        },
        None => {
            a.append("Shortcut::None");
        },
    }
    a.append(", MenuFlag::");
    match ty {
        Some(k) => {
            a.append(props[k + 1].as_str());
        },
        None => {
            a.append("Normal");
        },
    }
    a.append(", ");
    push_menu_callback(&mut a, props, cb, parent.as_str());
    a.append(");\n");
    assert(a@ =~= "\t"@ + crate::text::second_word(menu_parent(gparent@)) + ".add("@ + menu_label(
        subs@,
        props@,
        i18n,
    ) + ", "@ + menu_shortcut(props@) + ", MenuFlag::"@ + menu_flag(props@) + ", "@
        + menu_callback(props@, crate::text::second_word(menu_parent(gparent@))) + ");\n"@);
    imp.append(a.as_str());
    true
}

/// Appends the code that adds a widget or menu entry to its parent;
/// fails where a name it needs is missing.
fn push_attach(
    imp: &mut String,
    subs: &Vec<String>,
    gparent: &Vec<String>,
    ident: &str,
    t: &str,
    props: &Vec<String>,
    i18n: bool,
) -> (ok: bool)
    ensures
        ok == attach_ok(gparent@, t@, props@),
        ok ==> final(imp)@ == old(imp)@ + attach_text(gparent@, subs@, ident@, t@, props@, i18n),
{
    let glen = gparent.len();
    if glen == 0 || str_contains(gparent[glen - 1].as_str(), "Function") {
        assert(imp@ =~= old(imp)@ + attach_text(gparent@, subs@, ident@, t@, props@, i18n));
        return true;
    }
    if !is_menu(t) {
        let parent = match nth1_word(gparent[glen - 1].as_str()) {
            Some(w) => w,
            None => {
                return false;
            },
        };
        let ghost start = imp@;
        imp.append("\t");
        imp.append(parent.as_str());
        imp.append(".add(&");
        imp.append(ident);
        imp.append(");\n");
        if find_key(props, "resizable").is_some() {
            imp.append("\t");
            imp.append(parent.as_str());
            imp.append(".resizable(&");
            imp.append(ident);
            imp.append(");\n");
        }
        if find_key(props, "hotspot").is_some() {
            imp.append("\t");
            imp.append(parent.as_str());
            imp.append(".hotspot(&");
            imp.append(ident);
            imp.append(");\n");
        }
        assert(imp@ =~= start + attach_text(gparent@, subs@, ident@, t@, props@, i18n));
        true
    } else if str_eq(t, "MenuItem") {
        push_menu_item(imp, subs, gparent, props, i18n)
    } else {
        assert(imp@ =~= old(imp)@ + attach_text(gparent@, subs@, ident@, t@, props@, i18n));
        true
    }
}

/// A widget token; fails exactly where `step` has no next state.
fn step_member(
    st: &mut GenState,
    ident: &String,
    t0: &String,
    props: &Vec<String>,
    i18n: bool,
) -> (ok: bool)
    ensures
        ok == member_ok(old(st)@, ident@, t0@, props@),
        ok ==> final(st)@ == member_next(old(st)@, *ident, t0@, props@, i18n),
{
    let ghost old_st = st@;
    let n = props.len();
    let t = match find_key(props, "class") {
        Some(c) => {
            if c + 1 >= n {
                return false;
            }
            props[c + 1].clone()
        },
        None => t0.clone(),
    };
    assert(t@ == member_type(t0@, props@));
    let id = ident.as_str();
    let ts = t.as_str();
    let field = !is_menu(ts) && !str_contains(id, "fl2rust_widget_");
    assert(field == emits_field(id@, t@));
    let comment = find_key(props, "comment");
    if field {
        if let Some(c) = comment {
            if c + 1 >= n {
                return false;
            }
        }
    }
    let parent = is_parent(ts);
    if !push_header(&mut st.imp, id, ts, props, i18n) {
        return false;
    }
    if !push_prop_lines(&mut st.imp, id, ts, props, parent, i18n) {
        return false;
    }
    if !push_attach(&mut st.imp, &st.subs, &st.gparent, id, ts, props, i18n) {
        return false;
    }
    if field {
        let ghost s0 = st.s@;
        if let Some(c) = comment {
            let v = unbracket(props[c + 1].as_str());
            st.s.append("    // ");
            st.s.append(v.as_str());
            st.s.append("\n");
        }
        st.s.append("    pub ");
        st.s.append(id);
        st.s.append(": ");
        st.s.append(ts);
        st.s.append(",\n");
        assert(st.s@ =~= s0 + field_text(id@, t@, props@));
        st.ctor.append(id);
        st.ctor.append(", ");
    }
    let glen = st.gparent.len();
    if glen > 0 && !str_contains(st.gparent[glen - 1].as_str(), "Function") && str_eq(
        ts,
        "Submenu",
    ) {
        st.subs.push(ident.clone());
    }
    st.last_closed = false;
    assert(st@.imp =~= member_next(old_st, *ident, t0@, props@, i18n).imp);
    assert(st@.ctor =~= member_next(old_st, *ident, t0@, props@, i18n).ctor);
    assert(st@ =~= member_next(old_st, *ident, t0@, props@, i18n));
    true
}

/// A closing brace with parent stack `p`.
fn step_close(st: &mut GenState, p: &Vec<String>)
    ensures
        final(st)@ == close_next(old(st)@, p@),
{
    let ghost old_st = st@;
    let plen = p.len();
    if plen > 0 {
        if str_contains(p[plen - 1].as_str(), "Function") {
            st.ctor.append("}");
            st.imp.append(st.ctor.as_str());
            st.imp.append("\n    }\n");
            st.ctor = String::new();
        }
        if st.last_closed && st.last_scope_pops {
            st.subs.pop();
            st.gparent.pop();
        }
    } else {
        st.imp.append("}\n\n");
        st.s.append("}\n\n");
    }
    st.last_scope_pops = plen > 0 && (str_contains(p[plen - 1].as_str(), "Submenu")
        || str_contains(p[plen - 1].as_str(), "Fl_"));
    st.last_closed = true;
    proof {
        let e = close_next(old_st, p@);
        assert(st@.imp =~= e.imp);
        assert(st@.ctor =~= e.ctor);
        assert(st@.s =~= e.s);
        assert(st@.subs =~= e.subs);
        assert(st@.gparent =~= e.gparent);
    }
    assert(st@ =~= close_next(old_st, p@));
}

/// A `decl` token; fails where it does not begin with `decl {`.
fn step_decl(st: &mut GenState, ident: &String) -> (ok: bool)
    ensures
        ok == is_prefix("decl {"@, ident@),
        ok ==> final(st)@ == (GenModel {
            decls: old(st)@.decls + decl_body(ident@) + "\n"@,
            last_closed: false,
            ..old(st)@
        }),
{
    let ghost old_st = st@;
    let v = chars_of(ident.as_str());
    let pre = chars_of("decl {");
    if !chars_starts_with(&v, &pre) {
        return false;
    }
    let start = pre.len();
    let mut rest: Vec<char> = Vec::new();
    let mut i = start;
    while i < v.len()
        invariant
            start <= i <= v@.len(),
            rest@ == v@.subrange(start as int, i as int),
        decreases v@.len() - i,
    {
        rest.push(v[i]);
        i = i + 1;
        assert(rest@ =~= v@.subrange(start as int, i as int));
    }
    let ghost rs = rest@;
    assert(rs =~= ident@.subrange("decl {"@.len() as int, ident@.len() as int));
    let end = match chars_rfind(&rest, '}') {
        Some(k) => k,
        None => rest.len(),
    };
    proof {
        if let Some(k) = last_index_of(rs, '}') {
            crate::text::lemma_last_index_in_range(rs, '}');
        }
    }
    push_range(&mut st.decls, &rest, 0, end);
    st.decls.append("\n");
    st.last_closed = false;
    proof {
        match last_index_of(rs, '}') {
            Some(k) => {},
            None => {
                assert(rs.subrange(0, rs.len() as int) =~= rs);
            },
        }
    }
    assert(st@.decls =~= old_st.decls + decl_body(ident@) + "\n"@);
    assert(st@ =~= GenModel {
        decls: old_st.decls + decl_body(ident@) + "\n"@,
        last_closed: false,
        ..old_st
    });
    true
}

/// One token; fails exactly where `step` has no next state.
pub fn step_token(st: &mut GenState, tok: &Token, i18n: bool) -> (ok: bool)
    ensures
        ok == step(old(st)@, *tok, i18n) is Some,
        ok ==> step(old(st)@, *tok, i18n) == Some(final(st)@),
{
    let ghost old_st = st@;
    match &tok.typ {
        TokenType::Decl => step_decl(st, &tok.ident),
        TokenType::Class => {
            st.s.append("#[derive(Debug, Clone)]\n");
            st.s.append("pub struct ");
            st.s.append(tok.ident.as_str());
            st.s.append(" {\n");
            st.imp.append("impl ");
            st.imp.append(tok.ident.as_str());
            st.imp.append(" {\n");
            st.last_closed = false;
            assert(st@.s =~= old_st.s + "#[derive(Debug, Clone)]\n"@ + "pub struct "@ + tok.ident@
                + " {\n"@);
            assert(st@.imp =~= old_st.imp + "impl "@ + tok.ident@ + " {\n"@);
            true
        },
        TokenType::Function => {
            proof {
                reveal_strlit("");
            }
            st.imp.append("    pub fn ");
            st.imp.append(tok.ident.as_str());
            if !str_contains(tok.ident.as_str(), "-> Self") {
                st.imp.append(" -> Self");
            }
            st.imp.append(" {\n");
            st.ctor.append("\tSelf { ");
            st.last_closed = false;
            assert(st@.imp =~= old_st.imp + "    pub fn "@ + tok.ident@ + (if has_substr(
                tok.ident@,
                "-> Self"@,
            ) {
                Seq::empty()
            } else {
                " -> Self"@
            }) + " {\n"@);
            true
        },
        TokenType::Member(t0, props) => step_member(st, &tok.ident, t0, props, i18n),
        TokenType::Scope(open, p) => {
            if *open {
                st.gparent = clone_strings(p);
                st.last_closed = false;
            } else {
                step_close(st, p);
            }
            true
        },
        _ => {
            st.last_closed = false;
            true
        },
    }
}

/// The state before the first token.
pub fn new_state() -> (st: GenState)
    ensures
        st@ == initial_model(),
{
    let st = GenState {
        decls: String::new(),
        s: String::new(),
        ctor: String::new(),
        imp: String::new(),
        subs: Vec::new(),
        gparent: Vec::new(),
        last_closed: false,
        last_scope_pops: false,
    };
    assert(st@ =~= initial_model());
    st
}

/// The file text for state `st`.
pub fn render_state(st: &GenState, i18n: bool) -> (out: String)
    ensures
        out@ == render(st@, i18n),
{
    let mut out = String::new();
    if i18n {
        out.append(TR_HEADER);
        out.append("\n");
    }
    out.append(HEADER);
    out.append("\n\n");
    out.append(st.decls.as_str());
    out.append("\n\n");
    out.append(st.s.as_str());
    out.append("\n");
    out.append(st.imp.as_str());
    out.append("\n");
    assert(out@ =~= render(st@, i18n));
    out
}

/// Once the generator gives up on a prefix of the input, it gives up on
/// the whole input.
pub proof fn lemma_run_prefix(ast: Seq<Token>, k: int, i18n: bool)
    requires
        0 <= k <= ast.len(),
        run(ast.subrange(0, k), i18n) is None,
    ensures
        run(ast, i18n) is None,
    decreases ast.len() - k,
{
    if k < ast.len() {
        let pre = ast.subrange(0, k + 1);
        assert(pre.drop_last() =~= ast.subrange(0, k));
        lemma_run_prefix(ast, k + 1, i18n);
    } else {
        assert(ast.subrange(0, k) =~= ast);
    }
}

/// The generated file for `ast`, or `None` on the inputs where the
/// generator gives up (a `decl` token without `decl {`, a property key
/// without its value, a button value that is not an integer, a parent
/// name that is not there).
pub fn try_generate(ast: &[Token], i18n: bool) -> (r: Option<String>)
    ensures
        match r {
            Some(out) => spec_generate(ast@, i18n) == Some(out@),
            None => spec_generate(ast@, i18n) is None,
        },
{
    let mut st = new_state();
    let mut k: usize = 0;
    assert(ast@.subrange(0, 0) =~= Seq::<Token>::empty());
    while k < ast.len()
        invariant
            k <= ast@.len(),
            run(ast@.subrange(0, k as int), i18n) == Some(st@),
        decreases ast@.len() - k,
    {
        let ghost pre = ast@.subrange(0, k as int + 1);
        assert(pre.drop_last() =~= ast@.subrange(0, k as int));
        assert(pre.last() == ast@[k as int]);
        if !step_token(&mut st, &ast[k], i18n) {
            proof {
                lemma_run_prefix(ast@, k + 1, i18n);
            }
            return None;
        }
        k = k + 1;
    }
    assert(ast@.subrange(0, k as int) =~= ast@);
    Some(render_state(&st, i18n))
}

/// Generate the output Rust source for the tokens of a FLUID file;
/// `i18n` selects labels wrapped in `tr!`.
pub fn generate(ast: &[Token], i18n: bool) -> (out: String)
    requires
        spec_generate(ast@, i18n) is Some,
    ensures
        spec_generate(ast@, i18n) == Some(out@),
{
    match try_generate(ast, i18n) {
        Some(out) => out,
        None => String::new(),
    }
}

} // verus!
