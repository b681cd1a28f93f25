//! Small text transformations that the generator applies to property
//! values read from a FLUID file.
use vstd::prelude::*;
use crate::text::{
    chars_ends_with, chars_of, has_substr, is_suffix, push_char, push_range, str_contains,
};

verus! {

/// `s` without one pair of enclosing braces, if it has them.
pub open spec fn spec_unbracket(s: Seq<char>) -> Seq<char> {
    if s.len() >= 2 && s[0] == '{' && s.last() == '}' {
        s.subrange(1, s.len() - 1)
    } else {
        s
    }
}

/// `s` with every space replaced by a comma and a space.
pub open spec fn comma_spaced(s: Seq<char>) -> Seq<char>
    decreases s.len(),
{
    if s.len() == 0 {
        Seq::empty()
    } else if s.last() == ' ' {
        comma_spaced(s.drop_last()) + seq![',', ' ']
    } else {
        comma_spaced(s.drop_last()).push(s.last())
    }
}

/// Each name followed by a slash: the path prefix of a menu entry.
pub open spec fn menu_path(v: Seq<String>) -> Seq<char>
    decreases v.len(),
{
    if v.len() == 0 {
        Seq::empty()
    } else {
        menu_path(v.drop_last()) + v.last()@ + seq!['/']
    }
}

/// The widget family whose `...Type` enum sets the type of a widget of
/// class `t`.
pub open spec fn type_family(t: Seq<char>) -> Seq<char> {
    if has_substr(t, "MenuButton"@) {
        "MenuButton"@
    } else if has_substr(t, "Button"@) {
        "Button"@
    } else if has_substr(t, "Slider"@) {
        "Slider"@
    } else if has_substr(t, "Input"@) {
        "Input"@
    } else if has_substr(t, "Browser"@) {
        "Browser"@
    } else if has_substr(t, "Dial"@) {
        "Dial"@
    } else if has_substr(t, "Counter"@) {
        "Counter"@
    } else if has_substr(t, "Window"@) {
        "Window"@
    } else {
        t
    }
}

pub open spec fn ascii_upper(c: char) -> char {
    if 'a' <= c && c <= 'z' {
        ((c as int) - 32) as char
    } else {
        c
    }
}

pub open spec fn ascii_lower(c: char) -> char {
    if 'A' <= c && c <= 'Z' {
        ((c as int) + 32) as char
    } else {
        c
    }
}

/// `SOME_WORDS` to `SomeWords`: underscores dropped, the first letter and
/// each letter after an underscore in upper case, all others in lower case
/// (ASCII letters only).
pub open spec fn pascal_words(s: Seq<char>) -> Seq<char>
    decreases s.len(),
{
    if s.len() == 0 {
        Seq::empty()
    } else if s.last() == '_' {
        pascal_words(s.drop_last())
    } else if s.len() == 1 || s[s.len() - 2] == '_' {
        pascal_words(s.drop_last()).push(ascii_upper(s.last()))
    } else {
        pascal_words(s.drop_last()).push(ascii_lower(s.last()))
    }
}

/// A FLUID constant name as the enum variant name the fltk crate uses:
/// a trailing `_LABEL` is dropped, the rest is put in Pascal case.
pub open spec fn spec_global_to_pascal(s: Seq<char>) -> Seq<char> {
    if is_suffix("_LABEL"@, s) {
        pascal_words(s.subrange(0, s.len() - "_LABEL"@.len()))
    } else {
        pascal_words(s)
    }
}

pub open spec fn is_digit(c: char) -> bool {
    '0' <= c && c <= '9'
}

/// The number that a string of decimal digits stands for.
pub open spec fn digits_value(s: Seq<char>) -> int
    decreases s.len(),
{
    if s.len() == 0 {
        0
    } else {
        digits_value(s.drop_last()) * 10 + ((s.last() as int) - ('0' as int))
    }
}

/// Length of the optional leading sign.
pub open spec fn sign_len(s: Seq<char>) -> int {
    if s.len() > 0 && (s[0] == '-' || s[0] == '+') {
        1
    } else {
        0
    }
}

/// `s` parsed as an `i32` in the way `str::parse::<i32>` does: an optional
/// sign, then one or more decimal digits, with a value in range.
pub open spec fn spec_parse_i32(s: Seq<char>) -> Option<int> {
    let body = s.subrange(sign_len(s), s.len() as int);
    let mag = digits_value(body);
    let v = if s.len() > 0 && s[0] == '-' {
        -mag
    } else {
        mag
    };
    if body.len() > 0 && (forall|i: int| 0 <= i < body.len() ==> is_digit(#[trigger] body[i]))
        && i32::MIN <= v <= i32::MAX {
        Some(v)
    } else {
        None
    }
}

/// `s` without one pair of enclosing braces, if it has them.
pub fn unbracket(s: &str) -> (r: String)
    ensures
        r@ == spec_unbracket(s@),
{
    let v = chars_of(s);
    let mut out = String::new();
    let n = v.len();
    if n >= 2 && v[0] == '{' && v[n - 1] == '}' {
        push_range(&mut out, &v, 1, n - 1);
    } else {
        push_range(&mut out, &v, 0, n);
    }
    assert(out@ =~= spec_unbracket(s@));
    out
}

/// `s` with every space replaced by `", "`.
pub fn replace_spaces(s: &str) -> (r: String)
    ensures
        r@ == comma_spaced(s@),
{
    let v = chars_of(s);
    let mut out = String::new();
    let mut i: usize = 0;
    while i < v.len()
        invariant
            i <= v@.len(),
            out@ == comma_spaced(v@.subrange(0, i as int)),
        decreases v@.len() - i,
    {
        let ghost pre = v@.subrange(0, i as int + 1);
        assert(pre.drop_last() =~= v@.subrange(0, i as int));
        if v[i] == ' ' {
            push_char(&mut out, ',');
            push_char(&mut out, ' ');
            assert(out@ =~= comma_spaced(v@.subrange(0, i as int)) + seq![',', ' ']);
        } else {
            push_char(&mut out, v[i]);
        }
        i = i + 1;
    }
    assert(v@.subrange(0, v@.len() as int) =~= v@);
    out
}

/// Each name followed by `/`, all concatenated.
pub fn vec2menu(v: &Vec<String>) -> (r: String)
    ensures
        r@ == menu_path(v@),
{
    let mut out = String::new();
    let mut i: usize = 0;
    while i < v.len()
        invariant
            i <= v@.len(),
            out@ == menu_path(v@.subrange(0, i as int)),
        decreases v@.len() - i,
    {
        let ghost pre = v@.subrange(0, i as int + 1);
        assert(pre.drop_last() =~= v@.subrange(0, i as int));
        out.append(v[i].as_str());
        push_char(&mut out, '/');
        i = i + 1;
        assert(out@ =~= menu_path(v@.subrange(0, i as int)));
    }
    assert(v@.subrange(0, v@.len() as int) =~= v@);
    out
}

/// The widget family whose `...Type` enum sets the type of a widget of
/// class `t`.
pub fn fix_type(t: &str) -> (r: String)
    ensures
        r@ == type_family(t@),
{
    if str_contains(t, "MenuButton") {
        String::from_str("MenuButton")
    } else if str_contains(t, "Button") {
        String::from_str("Button")
    } else if str_contains(t, "Slider") {
        String::from_str("Slider")
    } else if str_contains(t, "Input") {
        String::from_str("Input")
    } else if str_contains(t, "Browser") {
        String::from_str("Browser")
    } else if str_contains(t, "Dial") {
        String::from_str("Dial")
    } else if str_contains(t, "Counter") {
        String::from_str("Counter")
    } else if str_contains(t, "Window") {
        String::from_str("Window")
    } else {
        String::from_str(t)
    }
}

fn to_upper(c: char) -> (r: char)
    ensures
        r == ascii_upper(c),
{
    if 'a' <= c && c <= 'z' {
        ((c as u8) - 32) as char
    } else {
        c
    }
}

fn to_lower(c: char) -> (r: char)
    ensures
        r == ascii_lower(c),
{
    if 'A' <= c && c <= 'Z' {
        ((c as u8) + 32) as char
    } else {
        c
    }
}

/// A FLUID constant name (such as `FLAT_BOX` or `NO_LABEL`) as an fltk
/// enum variant name (`FlatBox`, `No`).
pub fn global_to_pascal(s: &str) -> (r: String)
    ensures
        r@ == spec_global_to_pascal(s@),
{
    let v = chars_of(s);
    let suffix = chars_of("_LABEL");
    let n = if chars_ends_with(&v, &suffix) {
        v.len() - suffix.len()
    } else {
        v.len()
    };
    let ghost src = if is_suffix("_LABEL"@, s@) {
        s@.subrange(0, s@.len() - "_LABEL"@.len())
    } else {
        s@
    };
    assert(src =~= v@.subrange(0, n as int));
    let mut out = String::new();
    let mut i: usize = 0;
    while i < n
        invariant
            n <= v@.len(),
            i <= n,
            src == v@.subrange(0, n as int),
            out@ == pascal_words(v@.subrange(0, i as int)),
        decreases n - i,
    {
        let ghost pre = v@.subrange(0, i as int + 1);
        assert(pre.drop_last() =~= v@.subrange(0, i as int));
        let c = v[i];
        if c == '_' {
        } else if i == 0 || v[i - 1] == '_' {
            push_char(&mut out, to_upper(c));
        } else {
            push_char(&mut out, to_lower(c));
        }
        i = i + 1;
    }
    out
}

/// `s` parsed as an `i32`, as `str::parse::<i32>` does.
pub fn parse_i32(s: &str) -> (r: Option<i32>)
    ensures
        match r {
            Some(x) => spec_parse_i32(s@) == Some(x as int),
            None => spec_parse_i32(s@) is None,
        },
{
    let v = chars_of(s);
    let n = v.len();
    let neg = n > 0 && v[0] == '-';
    let start: usize = if n > 0 && (v[0] == '-' || v[0] == '+') {
        1
    } else {
        0
    };
    let ghost body = s@.subrange(sign_len(s@), s@.len() as int);
    assert(body =~= v@.subrange(start as int, n as int));
    if start >= n {
        assert(body.len() == 0);
        return None;
    }
    let mut acc: u64 = 0;
    let mut big = false;
    let mut j: usize = start;
    while j < n
        invariant
            n == v@.len(),
            v@ == s@,
            start <= j <= n,
            body == v@.subrange(start as int, n as int),
            body == s@.subrange(sign_len(s@), s@.len() as int),
            forall|i: int| start <= i < j ==> is_digit(#[trigger] v@[i]),
            !big ==> acc == digits_value(v@.subrange(start as int, j as int)) && acc
                <= 2147483648,
            big ==> digits_value(v@.subrange(start as int, j as int)) > 2147483648,
        decreases n - j,
    {
        let c = v[j];
        if !('0' <= c && c <= '9') {
            assert(body[j - start] == c);
            return None;
        }
        let ghost pre = v@.subrange(start as int, j as int + 1);
        assert(pre.drop_last() =~= v@.subrange(start as int, j as int));
        let d = ((c as u32) - ('0' as u32)) as u64;
        if !big {
            let next = acc * 10 + d;
            if next > 2147483648 {
                big = true;
            } else {
                acc = next;
            }
        }
        j = j + 1;
    }
    assert(v@.subrange(start as int, n as int) =~= body);
    assert forall|i: int| 0 <= i < body.len() implies is_digit(#[trigger] body[i]) by {
        assert(body[i] == v@[start + i]);
    }
    if big {
        return None;
    }
    if neg {
        Some((0 - (acc as i64)) as i32)
    } else if acc <= 2147483647 {
        Some(acc as i32)
    } else {
        None
    }
}

} // verus!
