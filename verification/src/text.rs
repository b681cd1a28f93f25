//! Character-level text operations on `Seq<char>` models and their
//! executable counterparts on `&str`, `String` and `Vec<char>`.
use vstd::prelude::*;

verus! {

/// `p` is a prefix of `s`.
pub open spec fn is_prefix(p: Seq<char>, s: Seq<char>) -> bool {
    p.len() <= s.len() && s.subrange(0, p.len() as int) == p
}

/// `p` is a suffix of `s`.
pub open spec fn is_suffix(p: Seq<char>, s: Seq<char>) -> bool {
    p.len() <= s.len() && s.subrange(s.len() - p.len(), s.len() as int) == p
}

/// `p` occurs in `s` starting at index `i`.
pub open spec fn occurs_at(s: Seq<char>, p: Seq<char>, i: int) -> bool {
    0 <= i && i + p.len() <= s.len() && s.subrange(i, i + p.len()) == p
}

/// `p` occurs somewhere in `s` (the empty pattern occurs everywhere).
pub open spec fn has_substr(s: Seq<char>, p: Seq<char>) -> bool {
    exists|i: int| occurs_at(s, p, i)
}

/// Index of the last occurrence of `c` in `s`.
pub open spec fn last_index_of(s: Seq<char>, c: char) -> Option<int>
    decreases s.len(),
{
    if s.len() == 0 {
        None
    } else if s.last() == c {
        Some(s.len() - 1)
    } else {
        last_index_of(s.drop_last(), c)
    }
}

/// The last index of `c`, where there is one, lies inside `s`.
pub proof fn lemma_last_index_in_range(s: Seq<char>, c: char)
    ensures
        last_index_of(s, c) matches Some(k) ==> 0 <= k < s.len() && s[k] == c,
    decreases s.len(),
{
    if s.len() > 0 && s.last() != c {
        lemma_last_index_in_range(s.drop_last(), c);
    }
}

/// Index of the first element of `v` (from index `i` on) whose text is `key`.
pub open spec fn find_from(v: Seq<String>, key: Seq<char>, i: int) -> Option<int>
    decreases v.len() - i,
{
    if i < 0 || i >= v.len() {
        None
    } else if v[i]@ == key {
        Some(i)
    } else {
        find_from(v, key, i + 1)
    }
}

/// Index of the first element of `v` whose text is `key`.
pub open spec fn find(v: Seq<String>, key: Seq<char>) -> Option<int> {
    find_from(v, key, 0)
}

/// Unicode `White_Space`, the property `char::is_whitespace` tests.
pub open spec fn is_ws(c: char) -> bool {
    ||| ('\u{9}' <= c && c <= '\u{d}')
    ||| c == ' '
    ||| c == '\u{85}'
    ||| c == '\u{a0}'
    ||| c == '\u{1680}'
    ||| ('\u{2000}' <= c && c <= '\u{200a}')
    ||| c == '\u{2028}'
    ||| c == '\u{2029}'
    ||| c == '\u{202f}'
    ||| c == '\u{205f}'
    ||| c == '\u{3000}'
}

/// First index at or after `i` that does not hold whitespace.
pub open spec fn skip_ws(s: Seq<char>, i: int) -> int
    decreases s.len() - i,
{
    if 0 <= i < s.len() && is_ws(s[i]) {
        skip_ws(s, i + 1)
    } else {
        i
    }
}

/// First index at or after `i` that holds whitespace.
pub open spec fn skip_word(s: Seq<char>, i: int) -> int
    decreases s.len() - i,
{
    if 0 <= i < s.len() && !is_ws(s[i]) {
        skip_word(s, i + 1)
    } else {
        i
    }
}

/// Where the second whitespace-separated word of `s` starts.
pub open spec fn second_word_start(s: Seq<char>) -> int {
    skip_ws(s, skip_word(s, skip_ws(s, 0)))
}

/// `s` has at least two whitespace-separated words.
pub open spec fn has_second_word(s: Seq<char>) -> bool {
    second_word_start(s) < s.len()
}

/// The second whitespace-separated word of `s` (index 1 of `split_whitespace`).
pub open spec fn second_word(s: Seq<char>) -> Seq<char> {
    s.subrange(second_word_start(s), skip_word(s, second_word_start(s)))
}

/// Calls `String::push`, which appends `c` at the end of `s`; the
/// contract claims that the new text is the old one followed by `c`.
#[verifier::external_body]
pub(crate) fn push_char(s: &mut String, c: char)
    ensures
        final(s)@ == old(s)@.push(c),
{
    s.push(c);
}

/// The characters of `s`, one per element.
pub fn chars_of(s: &str) -> (v: Vec<char>)
    ensures
        v@ == s@,
{
    let n = s.unicode_len();
    let mut v: Vec<char> = Vec::new();
    let mut i: usize = 0;
    while i < n
        invariant
            n == s@.len(),
            i <= n,
            v@ == s@.subrange(0, i as int),
        decreases n - i,
    {
        let c = s.get_char(i);
        v.push(c);
        i = i + 1;
        assert(v@ =~= s@.subrange(0, i as int));
    }
    assert(v@ =~= s@);
    v
}

/// Appends the characters `v[from..to]` to `out`.
pub fn push_range(out: &mut String, v: &Vec<char>, from: usize, to: usize)
    requires
        from <= to <= v@.len(),
    ensures
        final(out)@ == old(out)@ + v@.subrange(from as int, to as int),
{
    let ghost start = out@;
    let mut i: usize = from;
    while i < to
        invariant
            from <= i <= to <= v@.len(),
            out@ == start + v@.subrange(from as int, i as int),
        decreases to - i,
    {
        push_char(out, v[i]);
        i = i + 1;
        assert(out@ =~= start + v@.subrange(from as int, i as int));
    }
}

/// Whether `p` is a prefix of `s`.
pub fn chars_starts_with(s: &Vec<char>, p: &Vec<char>) -> (r: bool)
    ensures
        r == is_prefix(p@, s@),
{
    if p.len() > s.len() {
        return false;
    }
    let mut i: usize = 0;
    while i < p.len()
        invariant
            p@.len() <= s@.len(),
            i <= p@.len(),
            forall|j: int| 0 <= j < i ==> s@[j] == p@[j],
        decreases p@.len() - i,
    {
        if s[i] != p[i] {
            assert(s@.subrange(0, p@.len() as int)[i as int] != p@[i as int]);
            return false;
        }
        i = i + 1;
    }
    assert(s@.subrange(0, p@.len() as int) =~= p@);
    true
}

/// Whether `p` is a suffix of `s`.
pub fn chars_ends_with(s: &Vec<char>, p: &Vec<char>) -> (r: bool)
    ensures
        r == is_suffix(p@, s@),
{
    if p.len() > s.len() {
        return false;
    }
    let off = s.len() - p.len();
    let mut i: usize = 0;
    while i < p.len()
        invariant
            p@.len() <= s@.len(),
            off == s@.len() - p@.len(),
            s@.len() <= usize::MAX,
            i <= p@.len(),
            forall|j: int| 0 <= j < i ==> s@[off + j] == p@[j],
        decreases p@.len() - i,
    {
        if s[off + i] != p[i] {
            assert(s@.subrange(off as int, s@.len() as int)[i as int] != p@[i as int]);
            return false;
        }
        i = i + 1;
    }
    assert(s@.subrange(off as int, s@.len() as int) =~= p@);
    true
}

/// Whether `p` occurs in `s` at index `at`.
fn chars_occurs_at(s: &Vec<char>, p: &Vec<char>, at: usize) -> (r: bool)
    requires
        at + p@.len() <= s@.len(),
    ensures
        r == occurs_at(s@, p@, at as int),
{
    let _len = s.len();
    let mut i: usize = 0;
    while i < p.len()
        invariant
            at + p@.len() <= s@.len(),
            s@.len() <= usize::MAX,
            i <= p@.len(),
            forall|j: int| 0 <= j < i ==> s@[at + j] == p@[j],
        decreases p@.len() - i,
    {
        if s[at + i] != p[i] {
            assert(s@.subrange(at as int, at + p@.len())[i as int] != p@[i as int]);
            return false;
        }
        i = i + 1;
    }
    assert(s@.subrange(at as int, at + p@.len()) =~= p@);
    true
}

/// Whether `p` occurs somewhere in `s`.
pub fn chars_contains(s: &Vec<char>, p: &Vec<char>) -> (r: bool)
    ensures
        r == has_substr(s@, p@),
{
    if p.len() > s.len() {
        assert forall|i: int| !occurs_at(s@, p@, i) by {}
        return false;
    }
    let last = s.len() - p.len();
    let mut at: usize = 0;
    loop
        invariant
            p@.len() <= s@.len(),
            last == s@.len() - p@.len(),
            at <= last,
            forall|i: int| 0 <= i < at ==> !occurs_at(s@, p@, i),
        ensures
            at == last,
            forall|i: int| 0 <= i <= at ==> !occurs_at(s@, p@, i),
        decreases last - at,
    {
        if chars_occurs_at(s, p, at) {
            return true;
        }
        if at == last {
            break;
        }
        at = at + 1;
    }
    assert forall|i: int| !occurs_at(s@, p@, i) by {
        if 0 <= i <= at {
        }
    }
    false
}

/// Whether `a` and `b` hold the same text.
pub fn str_eq(a: &str, b: &str) -> (r: bool)
    ensures
        r == (a@ == b@),
{
    let va = chars_of(a);
    let vb = chars_of(b);
    if va.len() != vb.len() {
        return false;
    }
    let r = chars_starts_with(&va, &vb);
    proof {
        if r {
            assert(va@.subrange(0, vb@.len() as int) =~= va@);
        } else {
            if a@ == b@ {
                assert(va@.subrange(0, vb@.len() as int) =~= va@);
            }
        }
    }
    r
}

/// Whether `p` occurs in `s`.
pub fn str_contains(s: &str, p: &str) -> (r: bool)
    ensures
        r == has_substr(s@, p@),
{
    chars_contains(&chars_of(s), &chars_of(p))
}

/// Whether `s` begins with `p`.
pub fn str_starts_with(s: &str, p: &str) -> (r: bool)
    ensures
        r == is_prefix(p@, s@),
{
    chars_starts_with(&chars_of(s), &chars_of(p))
}

/// Whether `s` ends with `p`.
pub fn str_ends_with(s: &str, p: &str) -> (r: bool)
    ensures
        r == is_suffix(p@, s@),
{
    chars_ends_with(&chars_of(s), &chars_of(p))
}

/// Index of the last `c` in `v`.
pub fn chars_rfind(v: &Vec<char>, c: char) -> (r: Option<usize>)
    ensures
        match r {
            Some(i) => last_index_of(v@, c) == Some(i as int),
            None => last_index_of(v@, c) is None,
        },
{
    let mut n: usize = v.len();
    assert(v@.subrange(0, n as int) =~= v@);
    while n > 0
        invariant
            n <= v@.len(),
            last_index_of(v@, c) == last_index_of(v@.subrange(0, n as int), c),
        decreases n,
    {
        let ghost pre = v@.subrange(0, n as int);
        if v[n - 1] == c {
            return Some(n - 1);
        }
        assert(pre.drop_last() =~= v@.subrange(0, n - 1));
        n = n - 1;
    }
    None
}

/// Index of the first element of `v` whose text is `key`.
pub fn position(v: &Vec<String>, key: &str) -> (r: Option<usize>)
    ensures
        match r {
            Some(i) => find(v@, key@) == Some(i as int),
            None => find(v@, key@) is None,
        },
        r matches Some(i) ==> i < v@.len(),
{
    let mut i: usize = 0;
    while i < v.len()
        invariant
            i <= v@.len(),
            find(v@, key@) == find_from(v@, key@, i as int),
        decreases v@.len() - i,
    {
        if str_eq(v[i].as_str(), key) {
            return Some(i);
        }
        i = i + 1;
    }
    None
}

/// Whether `c` is whitespace in the sense of `char::is_whitespace`.
pub fn is_whitespace(c: char) -> (r: bool)
    ensures
        r == is_ws(c),
{
    ('\u{9}' <= c && c <= '\u{d}') || c == ' ' || c == '\u{85}' || c == '\u{a0}' || c == '\u{1680}'
        || ('\u{2000}' <= c && c <= '\u{200a}') || c == '\u{2028}' || c == '\u{2029}' || c
        == '\u{202f}' || c == '\u{205f}' || c == '\u{3000}'
}

fn skip_ws_from(v: &Vec<char>, i: usize) -> (r: usize)
    requires
        i <= v@.len(),
    ensures
        r as int == skip_ws(v@, i as int),
        i <= r <= v@.len(),
{
    let mut j = i;
    while j < v.len() && is_whitespace(v[j])
        invariant
            i <= j <= v@.len(),
            skip_ws(v@, i as int) == skip_ws(v@, j as int),
        decreases v@.len() - j,
    {
        j = j + 1;
    }
    j
}

fn skip_word_from(v: &Vec<char>, i: usize) -> (r: usize)
    requires
        i <= v@.len(),
    ensures
        r as int == skip_word(v@, i as int),
        i <= r <= v@.len(),
{
    let mut j = i;
    while j < v.len() && !is_whitespace(v[j])
        invariant
            i <= j <= v@.len(),
            skip_word(v@, i as int) == skip_word(v@, j as int),
        decreases v@.len() - j,
    {
        j = j + 1;
    }
    j
}

/// The second whitespace-separated word of `s`, if there is one.
pub fn nth1_word(s: &str) -> (r: Option<String>)
    ensures
        match r {
            Some(w) => has_second_word(s@) && w@ == second_word(s@),
            None => !has_second_word(s@),
        },
{
    let v = chars_of(s);
    let a = skip_ws_from(&v, 0);
    let b = skip_word_from(&v, a);
    let start = skip_ws_from(&v, b);
    if start >= v.len() {
        return None;
    }
    let end = skip_word_from(&v, start);
    let mut w = String::new();
    push_range(&mut w, &v, start, end);
    assert(w@ =~= second_word(s@));
    Some(w)
}

} // verus!
