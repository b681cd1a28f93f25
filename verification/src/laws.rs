//! Properties of the generator as a whole, over its model.
use vstd::prelude::*;
use crate::model::{
    attach_text, attaches, header_text, is_menu_type, is_parent_type, menu_callback, menu_flag,
    menu_label, menu_parent, menu_shortcut, prop_kind, prop_line, Prop, render, run, spec_generate, step, GenModel,
    HEADER, TR_HEADER,
};
use crate::parser::{Token, TokenType};
use crate::text::{find, is_prefix, second_word};
use crate::utils::{comma_spaced, menu_path, spec_unbracket};

verus! {

/// The text every generated file begins with.
pub open spec fn file_prelude(i18n: bool) -> Seq<char> {
    if i18n {
        TR_HEADER@ + "\n"@ + HEADER@
    } else {
        HEADER@
    }
}

/// The token is not a widget.
pub open spec fn is_not_member(tok: Token) -> bool {
    !(tok.typ is Member)
}

/// The token can always be handled: it is no widget, and a `decl` token
/// begins with `decl {`.
pub open spec fn is_plain(tok: Token) -> bool {
    &&& is_not_member(tok)
    &&& (tok.typ is Decl ==> is_prefix("decl {"@, tok.ident@))
}

/// Every generated file begins with the `use` lines of the fltk crate,
/// preceded by the `tr` crate import when labels go through `tr!`.
pub proof fn law_output_starts_with_header(ast: Seq<Token>, i18n: bool)
    requires
        spec_generate(ast, i18n) is Some,
    ensures
        is_prefix(file_prelude(i18n), spec_generate(ast, i18n)->0),
{
    let st = run(ast, i18n)->0;
    let out = render(st, i18n);
    let pre = file_prelude(i18n);
    if i18n {
        assert(out =~= pre + ("\n\n"@ + st.decls + "\n\n"@ + st.s + "\n"@ + st.imp + "\n"@));
    } else {
        assert(out =~= pre + ("\n\n"@ + st.decls + "\n\n"@ + st.s + "\n"@ + st.imp + "\n"@));
    }
    assert(out.subrange(0, pre.len() as int) =~= pre);
}

/// Where the generator handles an input, it handles every prefix of it.
pub proof fn law_accepted_inputs_are_prefix_closed(ast: Seq<Token>, k: int, i18n: bool)
    requires
        0 <= k <= ast.len(),
        spec_generate(ast, i18n) is Some,
    ensures
        spec_generate(ast.subrange(0, k), i18n) is Some,
{
    if run(ast.subrange(0, k), i18n) is None {
        crate::gen::lemma_run_prefix(ast, k, i18n);
    }
}

/// A trailing comment or global token changes nothing in the output.
pub proof fn law_trailing_passive_token(ast: Seq<Token>, tok: Token, i18n: bool)
    requires
        tok.typ is Comment || tok.typ is Global,
    ensures
        spec_generate(ast.push(tok), i18n) == spec_generate(ast, i18n),
{
    assert(ast.push(tok).drop_last() =~= ast);
}

/// Without widget tokens, the `i18n` switch only adds the `tr`
/// import: the output is otherwise the same, and one is produced exactly
/// when the other is.
pub proof fn law_i18n_without_widgets(ast: Seq<Token>)
    requires
        forall|i: int| 0 <= i < ast.len() ==> is_not_member(#[trigger] ast[i]),
    ensures
        spec_generate(ast, true) is Some <==> spec_generate(ast, false) is Some,
        spec_generate(ast, true) is Some ==> spec_generate(ast, true)->0 == TR_HEADER@ + "\n"@
            + spec_generate(ast, false)->0,
{
    lemma_run_same_without_widgets(ast);
    if run(ast, true) is Some {
        let st = run(ast, true)->0;
        assert(render(st, true) =~= TR_HEADER@ + "\n"@ + render(st, false));
    }
}

proof fn lemma_run_same_without_widgets(ast: Seq<Token>)
    requires
        forall|i: int| 0 <= i < ast.len() ==> is_not_member(#[trigger] ast[i]),
    ensures
        run(ast, true) == run(ast, false),
    decreases ast.len(),
{
    if ast.len() > 0 {
        let pre = ast.drop_last();
        assert forall|i: int| 0 <= i < pre.len() implies is_not_member(#[trigger] pre[i]) by {
            assert(pre[i] == ast[i]);
        }
        lemma_run_same_without_widgets(pre);
        assert(is_not_member(ast[ast.len() - 1]));
    }
}

/// An input made of tokens that are no widgets, and whose `decl` tokens
/// begin with `decl {`, is always turned into a file.
pub proof fn law_plain_input_always_generates(ast: Seq<Token>, i18n: bool)
    requires
        forall|i: int| 0 <= i < ast.len() ==> is_plain(#[trigger] ast[i]),
    ensures
        spec_generate(ast, i18n) is Some,
    decreases ast.len(),
{
    if ast.len() > 0 {
        let pre = ast.drop_last();
        assert forall|i: int| 0 <= i < pre.len() implies is_plain(#[trigger] pre[i]) by {
            assert(pre[i] == ast[i]);
        }
        law_plain_input_always_generates(pre, i18n);
        assert(is_plain(ast[ast.len() - 1]));
    }
}

/// The declarations, struct and impl sections of `b` extend those of `a`.
pub open spec fn sections_extend(a: GenModel, b: GenModel) -> bool {
    &&& is_prefix(a.decls, b.decls)
    &&& is_prefix(a.s, b.s)
    &&& is_prefix(a.imp, b.imp)
}

/// Generation only appends: a further token never takes back code already
/// written to the declarations, the structs or the impls.
pub proof fn law_sections_only_grow(ast: Seq<Token>, tok: Token, i18n: bool)
    requires
        run(ast.push(tok), i18n) is Some,
    ensures
        run(ast, i18n) is Some,
        sections_extend(run(ast, i18n)->0, run(ast.push(tok), i18n)->0),
{
    assert(ast.push(tok).drop_last() =~= ast);
    let st = run(ast, i18n)->0;
    let nx = step(st, tok, i18n)->0;
    assert(nx.decls.subrange(0, st.decls.len() as int) =~= st.decls);
    assert(nx.s.subrange(0, st.s.len() as int) =~= st.s);
    assert(nx.imp.subrange(0, st.imp.len() as int) =~= st.imp);
}

/// A widget gets a struct field exactly when it gets an entry in the
/// constructor's `Self { ... }` expression.
pub proof fn law_field_iff_constructor_entry(st: GenModel, tok: Token, i18n: bool)
    requires
        tok.typ is Member,
        step(st, tok, i18n) is Some,
    ensures
        (step(st, tok, i18n)->0.s.len() > st.s.len()) <==> (step(st, tok, i18n)->0.ctor.len()
            > st.ctor.len()),
{
    reveal_strlit("    pub ");
    reveal_strlit(", ");
}

/// In i18n mode a labelled group created at a position passes its label
/// through `tr!`:
/// `\tlet mut <id> = <T>::new(<x, y, w, h>, None).with_label(&tr!("<label>"));`
/// followed by `\n\t<id>.end();\n`.
pub proof fn law_i18n_group_label_new(ident: Seq<char>, t: Seq<char>, props: Seq<String>)
    requires
        is_parent_type(t),
        find(props, "xywh"@) is Some,
        find(props, "label"@) is Some,
    ensures
        header_text(ident, t, props, true) == "\tlet mut "@ + ident + " = "@ + t + "::new("@
            + spec_unbracket(comma_spaced(props[find(props, "xywh"@)->0 + 1]@)) + ", "@
            + "None).with_label(&tr!(\""@ + spec_unbracket(props[find(props, "label"@)->0 + 1]@)
            + "\"));"@ + "\n\t"@ + ident + ".end();\n"@,
{
}

/// In i18n mode a labelled group created without a position passes its
/// label through `tr!`: `\tlet mut <id> = <T>::default().with_label(tr!("<label>"));;`
/// followed by `\n\t<id>.end();\n`.
pub proof fn law_i18n_group_label_default(ident: Seq<char>, t: Seq<char>, props: Seq<String>)
    requires
        is_parent_type(t),
        find(props, "xywh"@) is None,
        find(props, "label"@) is Some,
    ensures
        header_text(ident, t, props, true) == "\tlet mut "@ + ident + " = "@ + t + "::default()"@
            + ".with_label(tr!(\""@ + spec_unbracket(props[find(props, "label"@)->0 + 1]@)
            + "\"));"@ + ";\n\t"@ + ident + ".end();\n"@,
{
}

/// In i18n mode a labelled widget that holds no children, created at a
/// position, passes its label through `tr!`:
/// `\tlet mut <id> = <T>::new(<x, y, w, h>, None).with_label(&tr!("<label>"));\n\n`.
pub proof fn law_i18n_widget_label_new(ident: Seq<char>, t: Seq<char>, props: Seq<String>)
    requires
        !is_parent_type(t),
        !is_menu_type(t),
        find(props, "xywh"@) is Some,
        find(props, "label"@) is Some,
    ensures
        header_text(ident, t, props, true) == "\tlet mut "@ + ident + " = "@ + t + "::new("@
            + spec_unbracket(comma_spaced(props[find(props, "xywh"@)->0 + 1]@)) + ", "@
            + "None).with_label(&tr!(\""@ + spec_unbracket(props[find(props, "label"@)->0 + 1]@)
            + "\"));\n"@ + "\n"@,
{
}

/// In i18n mode a labelled widget that holds no children, created without
/// a position, passes its label through `tr!`:
/// `\tlet mut <id> = <T>::default().with_label(&tr!("<label>"));;\n`.
pub proof fn law_i18n_widget_label_default(ident: Seq<char>, t: Seq<char>, props: Seq<String>)
    requires
        !is_parent_type(t),
        !is_menu_type(t),
        find(props, "xywh"@) is None,
        find(props, "label"@) is Some,
    ensures
        header_text(ident, t, props, true) == "\tlet mut "@ + ident + " = "@ + t + "::default()"@
            + ".with_label(&tr!(\""@ + spec_unbracket(props[find(props, "label"@)->0 + 1]@)
            + "\"));"@ + ";\n"@,
{
}

/// The label of a menu entry is its submenu path (each enclosing submenu
/// name followed by `/`) followed by the unbracketed label, quoted; in
/// i18n mode the same text is wrapped in `&tr!(...)` instead.
pub proof fn law_menu_label_keeps_path(subs: Seq<String>, props: Seq<String>)
    requires
        find(props, "label"@) is Some,
    ensures
        menu_label(subs, props, false) == "\""@ + menu_path(subs) + spec_unbracket(
            props[find(props, "label"@)->0 + 1]@,
        ) + "\""@,
        menu_label(subs, props, true) == "&tr!(\""@ + menu_path(subs) + spec_unbracket(
            props[find(props, "label"@)->0 + 1]@,
        ) + "\")"@,
{
}

/// The submenu path lists each enclosing submenu name followed by `/`.
pub proof fn law_menu_path_extends(subs: Seq<String>, name: String)
    ensures
        menu_path(subs.push(name)) == menu_path(subs) + name@ + seq!['/'],
        menu_path(Seq::<String>::empty()) == Seq::<char>::empty(),
{
    assert(subs.push(name).drop_last() =~= subs);
}

/// A labelled menu entry in i18n mode is added to the innermost enclosing
/// menu that is not a submenu, as
/// `\t<menu>.add(&tr!("<path><label>"), <shortcut>, MenuFlag::<flag>, <callback>);\n`.
pub proof fn law_i18n_menu_item_add(
    gparent: Seq<String>,
    subs: Seq<String>,
    ident: Seq<char>,
    props: Seq<String>,
)
    requires
        attaches(gparent),
        find(props, "label"@) is Some,
    ensures
        attach_text(gparent, subs, ident, "MenuItem"@, props, true) == "\t"@ + second_word(
            menu_parent(gparent),
        ) + ".add("@ + ("&tr!(\""@ + menu_path(subs) + spec_unbracket(
            props[find(props, "label"@)->0 + 1]@,
        ) + "\")"@) + ", "@ + menu_shortcut(props) + ", MenuFlag::"@ + menu_flag(props) + ", "@
            + menu_callback(props, second_word(menu_parent(gparent))) + ");\n"@,
{
}

/// A widget added to a parent group `p` gives `\tp.add(&<id>);\n`, then
/// `\tp.resizable(&<id>);\n` exactly when its properties hold the key
/// `resizable`, then `\tp.hotspot(&<id>);\n` exactly when they hold the key
/// `hotspot`; each line depends on its own key only.
pub proof fn law_attach_lines(
    gparent: Seq<String>,
    subs: Seq<String>,
    ident: Seq<char>,
    t: Seq<char>,
    props: Seq<String>,
    i18n: bool,
)
    requires
        attaches(gparent),
        !is_menu_type(t),
    ensures
        attach_text(gparent, subs, ident, t, props, i18n) == "\t"@ + second_word(gparent.last()@)
            + ".add(&"@ + ident + ");\n"@ + (if find(props, "resizable"@) is Some {
            "\t"@ + second_word(gparent.last()@) + ".resizable(&"@ + ident + ");\n"@
        } else {
            Seq::empty()
        }) + (if find(props, "hotspot"@) is Some {
            "\t"@ + second_word(gparent.last()@) + ".hotspot(&"@ + ident + ");\n"@
        } else {
            Seq::empty()
        }),
{
}

/// Each extra-code key `code0` to `code3` that is not the value of a
/// `label` key gives the line `\t<unbracketed value>\n`.
pub proof fn law_extra_code_lines(
    ident: Seq<char>,
    t: Seq<char>,
    props: Seq<String>,
    i: int,
    is_parent: bool,
    i18n: bool,
)
    requires
        0 <= i,
        i + 1 < props.len(),
        props[i]@ == "code0"@ || props[i]@ == "code1"@ || props[i]@ == "code2"@ || props[i]@
            == "code3"@,
        i == 0 || props[i - 1]@ != "label"@,
    ensures
        prop_line(ident, t, props, i, is_parent, i18n) == "\t"@ + spec_unbracket(props[i + 1]@)
            + "\n"@,
{
    law_property_keys();
    assert(prop_kind(props[i]@) == Prop::Code);
}

/// The token closes a scope.
pub open spec fn closes_scope(tok: Token) -> bool {
    match tok.typ {
        TokenType::Scope(open, _) => !open,
        _ => false,
    }
}

proof fn lemma_last_closed(ast: Seq<Token>, i18n: bool)
    requires
        run(ast, i18n) is Some,
    ensures
        run(ast, i18n)->0.last_closed == (ast.len() > 0 && closes_scope(ast.last())),
{
}

/// A closing scope that does not directly follow another closing scope
/// leaves the parent stack and the submenu stack as they were.
pub proof fn law_first_close_keeps_stacks(ast: Seq<Token>, tok: Token, p: Vec<String>, i18n: bool)
    requires
        tok.typ == TokenType::Scope(false, p),
        ast.len() == 0 || !closes_scope(ast.last()),
        run(ast, i18n) is Some,
    ensures
        run(ast.push(tok), i18n) is Some,
        run(ast.push(tok), i18n)->0.gparent == run(ast, i18n)->0.gparent,
        run(ast.push(tok), i18n)->0.subs == run(ast, i18n)->0.subs,
{
    lemma_last_closed(ast, i18n);
    assert(ast.push(tok).drop_last() =~= ast);
}

/// A second consecutive closing scope, where the first had a submenu or a
/// widget class (`Fl_`) on top of its parent stack, drops the innermost
/// parent and the innermost submenu.
pub proof fn law_second_close_pops(
    ast: Seq<Token>,
    q: Vec<String>,
    tok: Token,
    p: Vec<String>,
    i18n: bool,
)
    requires
        ast.len() > 0,
        ast.last().typ == TokenType::Scope(false, q),
        q@.len() > 0,
        crate::text::has_substr(q@.last()@, "Submenu"@) || crate::text::has_substr(
            q@.last()@,
            "Fl_"@,
        ),
        tok.typ == TokenType::Scope(false, p),
        p@.len() > 0,
        run(ast, i18n) is Some,
        run(ast, i18n)->0.gparent.len() > 0,
        run(ast, i18n)->0.subs.len() > 0,
    ensures
        run(ast.push(tok), i18n) is Some,
        run(ast.push(tok), i18n)->0.gparent == run(ast, i18n)->0.gparent.drop_last(),
        run(ast.push(tok), i18n)->0.subs == run(ast, i18n)->0.subs.drop_last(),
{
    lemma_last_closed(ast, i18n);
    assert(ast.push(tok).drop_last() =~= ast);
}

/// Each property key FLUID writes names its own kind of property.
pub proof fn law_property_keys()
    ensures
        prop_kind("visible"@) == Prop::Visible,
        prop_kind("color"@) == Prop::Color,
        prop_kind("selection_color"@) == Prop::SelectionColor,
        prop_kind("labelsize"@) == Prop::LabelSize,
        prop_kind("textsize"@) == Prop::TextSize,
        prop_kind("labeltype"@) == Prop::LabelType,
        prop_kind("labelcolor"@) == Prop::LabelColor,
        prop_kind("labelfont"@) == Prop::LabelFont,
        prop_kind("textfont"@) == Prop::TextFont,
        prop_kind("box"@) == Prop::Box,
        prop_kind("down_box"@) == Prop::DownBox,
        prop_kind("when"@) == Prop::When,
        prop_kind("tooltip"@) == Prop::Tooltip,
        prop_kind("maximum"@) == Prop::Maximum,
        prop_kind("minimum"@) == Prop::Minimum,
        prop_kind("step"@) == Prop::Step,
        prop_kind("value"@) == Prop::Value,
        prop_kind("type"@) == Prop::Type,
        prop_kind("align"@) == Prop::Align,
        prop_kind("shortcut"@) == Prop::Shortcut,
        prop_kind("image"@) == Prop::Image,
        prop_kind("hide"@) == Prop::Hide,
        prop_kind("modal"@) == Prop::Modal,
        prop_kind("resizable"@) == Prop::Resizable,
        prop_kind("size_range"@) == Prop::SizeRange,
        prop_kind("callback"@) == Prop::Callback,
        prop_kind("code0"@) == Prop::Code,
        prop_kind("code1"@) == Prop::Code,
        prop_kind("code2"@) == Prop::Code,
        prop_kind("code3"@) == Prop::Code,
{
    reveal_strlit("visible");
    reveal_strlit("color");
    reveal_strlit("selection_color");
    reveal_strlit("labelsize");
    reveal_strlit("textsize");
    reveal_strlit("labeltype");
    reveal_strlit("labelcolor");
    reveal_strlit("labelfont");
    reveal_strlit("textfont");
    reveal_strlit("box");
    reveal_strlit("down_box");
    reveal_strlit("when");
    reveal_strlit("tooltip");
    reveal_strlit("maximum");
    reveal_strlit("minimum");
    reveal_strlit("step");
    reveal_strlit("value");
    reveal_strlit("type");
    reveal_strlit("align");
    reveal_strlit("shortcut");
    reveal_strlit("image");
    reveal_strlit("hide");
    reveal_strlit("modal");
    reveal_strlit("resizable");
    reveal_strlit("size_range");
    reveal_strlit("callback");
    reveal_strlit("code0");
    reveal_strlit("code1");
    reveal_strlit("code2");
    reveal_strlit("code3");
    // Lengths and distinguishing characters set the keys apart.
    assert("visible"@.len() == 7 && "visible"@[0] == 'v');
    assert("color"@.len() == 5 && "color"@[0] == 'c' && "color"@[2] == 'l');
    assert("selection_color"@.len() == 15 && "selection_color"@[0] == 's');
    assert("labelsize"@.len() == 9 && "labelsize"@[0] == 'l' && "labelsize"@[5] == 's');
    assert("textsize"@.len() == 8 && "textsize"@[0] == 't' && "textsize"@[4] == 's');
    assert("labeltype"@.len() == 9 && "labeltype"@[0] == 'l' && "labeltype"@[5] == 't');
    assert("labelcolor"@.len() == 10 && "labelcolor"@[0] == 'l');
    assert("labelfont"@.len() == 9 && "labelfont"@[0] == 'l' && "labelfont"@[5] == 'f');
    assert("textfont"@.len() == 8 && "textfont"@[0] == 't' && "textfont"@[4] == 'f');
    assert("box"@.len() == 3 && "box"@[0] == 'b');
    assert("down_box"@.len() == 8 && "down_box"@[0] == 'd');
    assert("when"@.len() == 4 && "when"@[0] == 'w');
    assert("tooltip"@.len() == 7 && "tooltip"@[0] == 't');
    assert("maximum"@.len() == 7 && "maximum"@[0] == 'm' && "maximum"@[1] == 'a');
    assert("minimum"@.len() == 7 && "minimum"@[0] == 'm' && "minimum"@[1] == 'i');
    assert("step"@.len() == 4 && "step"@[0] == 's');
    assert("value"@.len() == 5 && "value"@[0] == 'v');
    assert("type"@.len() == 4 && "type"@[0] == 't');
    assert("align"@.len() == 5 && "align"@[0] == 'a');
    assert("shortcut"@.len() == 8 && "shortcut"@[0] == 's');
    assert("image"@.len() == 5 && "image"@[0] == 'i');
    assert("hide"@.len() == 4 && "hide"@[0] == 'h');
    assert("modal"@.len() == 5 && "modal"@[0] == 'm');
    assert("resizable"@.len() == 9 && "resizable"@[0] == 'r');
    assert("size_range"@.len() == 10 && "size_range"@[0] == 's');
    assert("callback"@.len() == 8 && "callback"@[0] == 'c');
    assert("code0"@.len() == 5 && "code0"@[0] == 'c' && "code0"@[2] == 'd');
    assert("code1"@.len() == 5 && "code1"@[0] == 'c' && "code1"@[2] == 'd');
    assert("code2"@.len() == 5 && "code2"@[0] == 'c' && "code2"@[2] == 'd');
    assert("code3"@.len() == 5 && "code3"@[0] == 'c' && "code3"@[2] == 'd');
}

/// Without i18n, a labelled group created at a position gets the label as
/// a plain string: `\tlet mut <id> = <T>::new(<x, y, w, h>, "<label>");`
/// followed by `\n\t<id>.end();\n`.
pub proof fn law_plain_group_label_new(ident: Seq<char>, t: Seq<char>, props: Seq<String>)
    requires
        is_parent_type(t),
        find(props, "xywh"@) is Some,
        find(props, "label"@) is Some,
    ensures
        header_text(ident, t, props, false) == "\tlet mut "@ + ident + " = "@ + t + "::new("@
            + spec_unbracket(comma_spaced(props[find(props, "xywh"@)->0 + 1]@)) + ", "@ + "\""@
            + spec_unbracket(props[find(props, "label"@)->0 + 1]@) + "\");"@ + "\n\t"@ + ident
            + ".end();\n"@,
{
}

/// Without i18n, a labelled widget that holds no children, created at a
/// position, gets the label as a plain string:
/// `\tlet mut <id> = <T>::new(<x, y, w, h>, "<label>");\n`.
pub proof fn law_plain_widget_label_new(ident: Seq<char>, t: Seq<char>, props: Seq<String>)
    requires
        !is_parent_type(t),
        !is_menu_type(t),
        find(props, "xywh"@) is Some,
        find(props, "label"@) is Some,
    ensures
        header_text(ident, t, props, false) == "\tlet mut "@ + ident + " = "@ + t + "::new("@
            + spec_unbracket(comma_spaced(props[find(props, "xywh"@)->0 + 1]@)) + ", "@ + "\""@
            + spec_unbracket(props[find(props, "label"@)->0 + 1]@) + "\");"@ + "\n"@,
{
}

} // verus!
