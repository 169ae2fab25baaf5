//! Character-level text handling shared by the rest of the library: whitespace,
//! trimming, line and word splitting, joining, substring search and decimal
//! rendering, each with a specification over `Seq<char>`.
use vstd::prelude::*;
use vstd::string::*;
use vstd::utf8::is_ascii_chars;

verus! {

broadcast use vstd::string::group_string_axioms;

/// The views of a sequence of owned strings.
pub open spec fn views(v: Seq<String>) -> Seq<Seq<char>> {
    v.map_values(|s: String| s@)
}

/// Unicode `White_Space`, the property that `char::is_whitespace` tests.
pub open spec fn is_ws(c: char) -> bool {
    ||| ('\u{9}' <= c && c <= '\u{d}')
    ||| c == ' '
    ||| c == '\u{85}'
    ||| c == '\u{a0}'
    ||| c == '\u{1680}'
    ||| ('\u{2000}' <= c && c <= '\u{200a}')
    ||| c == '\u{2028}'
    ||| c == '\u{2029}'
    ||| c == '\u{202f}'
    ||| c == '\u{205f}'
    ||| c == '\u{3000}'
}

pub open spec fn is_ascii_lower(c: char) -> bool {
    'a' <= c && c <= 'z'
}

pub open spec fn is_ascii_upper(c: char) -> bool {
    'A' <= c && c <= 'Z'
}

pub open spec fn is_ascii_alpha(c: char) -> bool {
    is_ascii_lower(c) || is_ascii_upper(c)
}

pub open spec fn is_ascii_digit(c: char) -> bool {
    '0' <= c && c <= '9'
}

pub fn is_whitespace(c: char) -> (r: bool)
    ensures
        r == is_ws(c),
{
    ('\u{9}' <= c && c <= '\u{d}') || c == ' ' || c == '\u{85}' || c == '\u{a0}' || c
        == '\u{1680}' || ('\u{2000}' <= c && c <= '\u{200a}') || c == '\u{2028}' || c
        == '\u{2029}' || c == '\u{202f}' || c == '\u{205f}' || c == '\u{3000}'
}

pub fn is_ascii_alphabetic(c: char) -> (r: bool)
    ensures
        r == is_ascii_alpha(c),
{
    ('a' <= c && c <= 'z') || ('A' <= c && c <= 'Z')
}

pub fn is_ascii_lowercase(c: char) -> (r: bool)
    ensures
        r == is_ascii_lower(c),
{
    'a' <= c && c <= 'z'
}

/// Appends one character to a string (`String::push`).
#[verifier::external_body]
pub(crate) fn push_char(s: &mut String, c: char)
    ensures
        final(s)@ == old(s)@.push(c),
{
    s.push(c);
}

/// The characters of a string slice, in order.
pub fn chars_of(s: &str) -> (out: Vec<char>)
    ensures
        out@ == s@,
{
    let mut out: Vec<char> = Vec::new();
    for c in it: s.chars()
        invariant
            out@ == it.seq().take(it.index() as int),
            it.seq() == s@,
    {
        out.push(c);
    }
    out
}

/// The string made of `v[lo..hi]`.
pub fn string_from_range(v: &Vec<char>, lo: usize, hi: usize) -> (out: String)
    requires
        lo <= hi <= v.len(),
    ensures
        out@ == v@.subrange(lo as int, hi as int),
{
    let mut out = String::new();
    let mut i = lo;
    while i < hi
        invariant
            lo <= i <= hi <= v.len(),
            out@ == v@.subrange(lo as int, i as int),
        decreases hi - i,
    {
        push_char(&mut out, v[i]);
        assert(v@.subrange(lo as int, i + 1) =~= v@.subrange(lo as int, i as int).push(v@[i as int]));
        i += 1;
    }
    out
}

/// The string made of all of `v`.
pub fn string_from_chars(v: &Vec<char>) -> (out: String)
    ensures
        out@ == v@,
{
    let out = string_from_range(v, 0, v.len());
    assert(v@.subrange(0, v@.len() as int) =~= v@);
    out
}

/// Owned copy of a string slice.
pub fn owned(s: &str) -> (out: String)
    ensures
        out@ == s@,
{
    String::from_str(s)
}

/// Two strings with the same characters.
pub fn same_text(a: &str, b: &str) -> (r: bool)
    ensures
        r == (a@ == b@),
{
    let va = chars_of(a);
    let vb = chars_of(b);
    if va.len() != vb.len() {
        return false;
    }
    let mut i: usize = 0;
    while i < va.len()
        invariant
            va@ == a@,
            vb@ == b@,
            va.len() == vb.len(),
            i <= va.len(),
            forall|j: int| 0 <= j < i ==> va@[j] == vb@[j],
        decreases va.len() - i,
    {
        if va[i] != vb[i] {
            return false;
        }
        i += 1;
    }
    assert(va@ =~= vb@);
    true
}

/// Which characters a trim removes.
#[derive(Clone, Copy)]
pub enum CharClass {
    Whitespace,
    Exactly(char),
}

pub open spec fn in_class(k: CharClass, c: char) -> bool {
    match k {
        CharClass::Whitespace => is_ws(c),
        CharClass::Exactly(x) => c == x,
    }
}

pub fn char_in_class(k: CharClass, c: char) -> (r: bool)
    ensures
        r == in_class(k, c),
{
    match k {
        CharClass::Whitespace => is_whitespace(c),
        CharClass::Exactly(x) => c == x,
    }
}

/// `s` without its leading characters of class `k`.
pub open spec fn strip_leading(s: Seq<char>, k: CharClass) -> Seq<char>
    decreases s.len(),
{
    if s.len() > 0 && in_class(k, s[0]) {
        strip_leading(s.drop_first(), k)
    } else {
        s
    }
}

/// `s` without its trailing characters of class `k`.
pub open spec fn strip_trailing(s: Seq<char>, k: CharClass) -> Seq<char>
    decreases s.len(),
{
    if s.len() > 0 && in_class(k, s.last()) {
        strip_trailing(s.drop_last(), k)
    } else {
        s
    }
}

/// `s` without the characters of class `k` at either end (`trim`, `trim_matches`).
pub open spec fn strip_both(s: Seq<char>, k: CharClass) -> Seq<char> {
    strip_trailing(strip_leading(s, k), k)
}

/// `str::trim`.
pub open spec fn trim(s: Seq<char>) -> Seq<char> {
    strip_both(s, CharClass::Whitespace)
}

pub fn strip_start(s: &str, k: CharClass) -> (out: String)
    ensures
        out@ == strip_leading(s@, k),
{
    let v = chars_of(s);
    let mut i: usize = 0;
    assert(s@.skip(0) =~= s@);
    while i < v.len() && char_in_class(k, v[i])
        invariant
            v@ == s@,
            i <= v.len(),
            strip_leading(s@, k) == strip_leading(s@.skip(i as int), k),
        decreases v.len() - i,
    {
        assert(s@.skip(i as int).drop_first() =~= s@.skip(i + 1));
        i += 1;
    }
    assert(v@.subrange(i as int, v@.len() as int) =~= s@.skip(i as int));
    string_from_range(&v, i, v.len())
}

pub fn strip_end(s: &str, k: CharClass) -> (out: String)
    ensures
        out@ == strip_trailing(s@, k),
{
    let v = chars_of(s);
    let mut j: usize = v.len();
    assert(s@.take(v.len() as int) =~= s@);
    while j > 0 && char_in_class(k, v[j - 1])
        invariant
            v@ == s@,
            j <= v.len(),
            strip_trailing(s@, k) == strip_trailing(s@.take(j as int), k),
        decreases j,
    {
        assert(s@.take(j as int).drop_last() =~= s@.take(j - 1));
        j -= 1;
    }
    assert(v@.subrange(0, j as int) =~= s@.take(j as int));
    string_from_range(&v, 0, j)
}

pub fn strip(s: &str, k: CharClass) -> (out: String)
    ensures
        out@ == strip_both(s@, k),
{
    let a = strip_start(s, k);
    strip_end(a.as_str(), k)
}

/// `str::trim`: removes leading and trailing Unicode whitespace.
pub fn trim_ws(s: &str) -> (out: String)
    ensures
        out@ == trim(s@),
{
    strip(s, CharClass::Whitespace)
}

/// The line being built when `lines` reads the rest of a text.
pub open spec fn strip_cr(line: Seq<char>) -> Seq<char> {
    if line.len() > 0 && line.last() == '\r' {
        line.drop_last()
    } else {
        line
    }
}

/// Lines of `s` read from the current position, with `cur` the part of the
/// current line read so far.
pub open spec fn lines_from(s: Seq<char>, cur: Seq<char>) -> Seq<Seq<char>>
    decreases s.len(),
{
    if s.len() == 0 {
        if cur.len() == 0 {
            seq![]
        } else {
            seq![cur]
        }
    } else if s[0] == '\n' {
        seq![strip_cr(cur)] + lines_from(s.drop_first(), seq![])
    } else {
        lines_from(s.drop_first(), cur.push(s[0]))
    }
}

/// `str::lines`: the text cut at each `\n`, a `\r` before that `\n` removed,
/// and no empty line after a final `\n`.
pub open spec fn lines(s: Seq<char>) -> Seq<Seq<char>> {
    lines_from(s, seq![])
}

pub fn lines_of(s: &str) -> (out: Vec<String>)
    ensures
        views(out@) == lines(s@),
{
    let v = chars_of(s);
    let mut out: Vec<String> = Vec::new();
    let mut cur: Vec<char> = Vec::new();
    let mut i: usize = 0;
    assert(views(out@) + lines_from(s@.skip(0), cur@) =~= lines(s@)) by {
        assert(s@.skip(0) =~= s@);
        assert(cur@ =~= Seq::<char>::empty());
    }
    while i < v.len()
        invariant
            v@ == s@,
            i <= v.len(),
            views(out@) + lines_from(s@.skip(i as int), cur@) == lines(s@),
        decreases v.len() - i,
    {
        let c = v[i];
        let ghost rest = s@.skip(i as int);
        assert(rest.drop_first() =~= s@.skip(i + 1));
        if c == '\n' {
            let mut line = string_from_chars(&cur);
            if cur.len() > 0 && cur[cur.len() - 1] == '\r' {
                let n = cur.len() - 1;
                line = string_from_range(&cur, 0, n);
                assert(cur@.subrange(0, n as int) =~= cur@.drop_last());
            }
            assert(line@ == strip_cr(cur@));
            let ghost before = views(out@);
            out.push(line);
            assert(views(out@) =~= before.push(strip_cr(cur@)));
            assert(views(out@) + lines_from(s@.skip(i + 1), seq![]) =~= before + (seq![
                strip_cr(cur@),
            ] + lines_from(rest.drop_first(), seq![])));
            cur = Vec::new();
        } else {
            cur.push(c);
        }
        i += 1;
    }
    assert(s@.skip(i as int) =~= Seq::<char>::empty());
    if cur.len() > 0 {
        let line = string_from_chars(&cur);
        let ghost before = views(out@);
        out.push(line);
        assert(views(out@) =~= before.push(cur@));
        assert(views(out@) =~= before + seq![cur@]);
    } else {
        assert(views(out@) =~= views(out@) + Seq::<Seq<char>>::empty());
    }
    out
}

/// Words of `s` read from the current position, with `cur` the part of the
/// current word read so far.
pub open spec fn words_from(s: Seq<char>, cur: Seq<char>) -> Seq<Seq<char>>
    decreases s.len(),
{
    if s.len() == 0 {
        if cur.len() == 0 {
            seq![]
        } else {
            seq![cur]
        }
    } else if is_ws(s[0]) {
        (if cur.len() == 0 {
            seq![]
        } else {
            seq![cur]
        }) + words_from(s.drop_first(), seq![])
    } else {
        words_from(s.drop_first(), cur.push(s[0]))
    }
}

/// `str::split_whitespace`: the maximal runs of non-whitespace characters.
pub open spec fn words(s: Seq<char>) -> Seq<Seq<char>> {
    words_from(s, seq![])
}

pub fn words_of(s: &str) -> (out: Vec<String>)
    ensures
        views(out@) == words(s@),
{
    let v = chars_of(s);
    let mut out: Vec<String> = Vec::new();
    let mut cur: Vec<char> = Vec::new();
    let mut i: usize = 0;
    assert(views(out@) + words_from(s@.skip(0), cur@) =~= words(s@)) by {
        assert(s@.skip(0) =~= s@);
        assert(cur@ =~= Seq::<char>::empty());
    }
    while i < v.len()
        invariant
            v@ == s@,
            i <= v.len(),
            views(out@) + words_from(s@.skip(i as int), cur@) == words(s@),
        decreases v.len() - i,
    {
        let c = v[i];
        let ghost rest = s@.skip(i as int);
        assert(rest.drop_first() =~= s@.skip(i + 1));
        if is_whitespace(c) {
            if cur.len() > 0 {
                let w = string_from_chars(&cur);
                let ghost before = views(out@);
                out.push(w);
                assert(views(out@) =~= before.push(cur@));
                assert(views(out@) + words_from(s@.skip(i + 1), seq![]) =~= before + (seq![cur@]
                    + words_from(rest.drop_first(), seq![])));
            } else {
                assert(views(out@) + words_from(s@.skip(i + 1), seq![]) =~= views(out@) + (
                Seq::<Seq<char>>::empty() + words_from(rest.drop_first(), seq![])));
            }
            cur = Vec::new();
        } else {
            cur.push(c);
        }
        i += 1;
    }
    assert(s@.skip(i as int) =~= Seq::<char>::empty());
    if cur.len() > 0 {
        let w = string_from_chars(&cur);
        let ghost before = views(out@);
        out.push(w);
        assert(views(out@) =~= before.push(cur@));
        assert(views(out@) =~= before + seq![cur@]);
    } else {
        assert(views(out@) =~= views(out@) + Seq::<Seq<char>>::empty());
    }
    out
}

/// `parts` joined with `sep` between consecutive parts.
pub open spec fn join(parts: Seq<Seq<char>>, sep: Seq<char>) -> Seq<char>
    decreases parts.len(),
{
    if parts.len() == 0 {
        seq![]
    } else if parts.len() == 1 {
        parts[0]
    } else {
        join(parts.drop_last(), sep) + sep + parts.last()
    }
}

pub fn join_strings(parts: &Vec<String>, sep: &str) -> (out: String)
    ensures
        out@ == join(views(parts@), sep@),
{
    let mut out = String::new();
    let mut i: usize = 0;
    while i < parts.len()
        invariant
            i <= parts.len(),
            out@ == join(views(parts@).take(i as int), sep@),
        decreases parts.len() - i,
    {
        let ghost pre = views(parts@).take(i as int);
        let ghost post = views(parts@).take(i + 1);
        assert(post.drop_last() =~= pre);
        if i > 0 {
            out.append(sep);
        } else {
            assert(post =~= seq![parts@[0]@]);
        }
        out.append(parts[i].as_str());
        i += 1;
    }
    assert(views(parts@).take(parts.len() as int) =~= views(parts@));
    out
}

/// `needle` occurs in `hay` starting at position `i`.
pub open spec fn occurs_at(hay: Seq<char>, needle: Seq<char>, i: int) -> bool {
    0 <= i && i + needle.len() <= hay.len() && hay.subrange(i, i + needle.len()) == needle
}

/// `str::contains` with a string pattern.
pub open spec fn contains_text(hay: Seq<char>, needle: Seq<char>) -> bool {
    exists|i: int| occurs_at(hay, needle, i)
}

/// `str::starts_with` with a string pattern.
pub open spec fn starts_with(s: Seq<char>, prefix: Seq<char>) -> bool {
    occurs_at(s, prefix, 0)
}

/// `str::ends_with` with a string pattern.
pub open spec fn ends_with(s: Seq<char>, suffix: Seq<char>) -> bool {
    occurs_at(s, suffix, s.len() - suffix.len())
}

fn matches_at(hay: &Vec<char>, needle: &Vec<char>, i: usize) -> (r: bool)
    ensures
        r == occurs_at(hay@, needle@, i as int),
{
    if needle.len() > hay.len() || i > hay.len() - needle.len() {
        return false;
    }
    let mut j: usize = 0;
    while j < needle.len()
        invariant
            i + needle.len() <= hay.len(),
            j <= needle.len(),
            forall|k: int| 0 <= k < j ==> hay@[i + k] == needle@[k],
        decreases needle.len() - j,
    {
        if hay[i + j] != needle[j] {
            assert(hay@.subrange(i as int, i + needle.len())[j as int] != needle@[j as int]);
            return false;
        }
        j += 1;
    }
    assert(hay@.subrange(i as int, i + needle.len()) =~= needle@);
    true
}

pub fn contains(hay: &str, needle: &str) -> (r: bool)
    ensures
        r == contains_text(hay@, needle@),
{
    let h = chars_of(hay);
    let n = chars_of(needle);
    if n.len() > h.len() {
        assert forall|i: int| !occurs_at(hay@, needle@, i) by {}
        return false;
    }
    let m = h.len() - n.len();
    let mut i: usize = 0;
    while i < m
        invariant
            h@ == hay@,
            n@ == needle@,
            n.len() <= h.len(),
            m == h.len() - n.len(),
            i <= m,
            forall|j: int| 0 <= j < i ==> !occurs_at(hay@, needle@, j),
        decreases m - i,
    {
        if matches_at(&h, &n, i) {
            return true;
        }
        i += 1;
    }
    if matches_at(&h, &n, m) {
        return true;
    }
    assert forall|j: int| !occurs_at(hay@, needle@, j) by {
        if 0 <= j < i {
        }
    }
    false
}

pub fn starts_with_text(s: &str, prefix: &str) -> (r: bool)
    ensures
        r == starts_with(s@, prefix@),
{
    let h = chars_of(s);
    let n = chars_of(prefix);
    matches_at(&h, &n, 0)
}

pub fn ends_with_text(s: &str, suffix: &str) -> (r: bool)
    ensures
        r == ends_with(s@, suffix@),
{
    let h = chars_of(s);
    let n = chars_of(suffix);
    if n.len() > h.len() {
        return false;
    }
    matches_at(&h, &n, h.len() - n.len())
}

/// The ASCII digit for `d < 10`.
pub open spec fn digit_char(d: nat) -> char {
    if d == 0 {
        '0'
    } else if d == 1 {
        '1'
    } else if d == 2 {
        '2'
    } else if d == 3 {
        '3'
    } else if d == 4 {
        '4'
    } else if d == 5 {
        '5'
    } else if d == 6 {
        '6'
    } else if d == 7 {
        '7'
    } else if d == 8 {
        '8'
    } else {
        '9'
    }
}

/// Decimal rendering of `n`, as `to_string` gives it for unsigned integers.
pub open spec fn decimal(n: nat) -> Seq<char>
    decreases n,
{
    if n < 10 {
        seq![digit_char(n)]
    } else {
        decimal(n / 10).push(digit_char(n % 10))
    }
}

fn digit(d: u64) -> (c: char)
    requires
        d < 10,
    ensures
        c == digit_char(d as nat),
{
    if d == 0 {
        '0'
    } else if d == 1 {
        '1'
    } else if d == 2 {
        '2'
    } else if d == 3 {
        '3'
    } else if d == 4 {
        '4'
    } else if d == 5 {
        '5'
    } else if d == 6 {
        '6'
    } else if d == 7 {
        '7'
    } else if d == 8 {
        '8'
    } else {
        '9'
    }
}

pub fn push_decimal(out: &mut String, n: u64)
    ensures
        final(out)@ == old(out)@ + decimal(n as nat),
    decreases n,
{
    if n >= 10 {
        push_decimal(out, n / 10);
    }
    push_char(out, digit(n % 10));
    assert(old(out)@ + decimal(n as nat) =~= final(out)@) by {
        if n >= 10 {
        } else {
        }
    }
}

/// `n.to_string()`.
pub fn decimal_string(n: u64) -> (out: String)
    ensures
        out@ == decimal(n as nat),
{
    let mut out = String::new();
    push_decimal(&mut out, n);
    assert(out@ =~= decimal(n as nat));
    out
}

/// `s` with every `c` replaced by `by`.
pub open spec fn replace_char(s: Seq<char>, c: char, by: Seq<char>) -> Seq<char>
    decreases s.len(),
{
    if s.len() == 0 {
        seq![]
    } else {
        (if s[0] == c {
            by
        } else {
            seq![s[0]]
        }) + replace_char(s.drop_first(), c, by)
    }
}

/// `str::replace` with a single-character pattern.
pub fn replace_all(s: &str, c: char, by: &str) -> (out: String)
    ensures
        out@ == replace_char(s@, c, by@),
{
    let v = chars_of(s);
    let mut out = String::new();
    let mut i: usize = 0;
    assert(out@ + replace_char(s@.skip(0), c, by@) =~= replace_char(s@, c, by@)) by {
        assert(s@.skip(0) =~= s@);
    }
    while i < v.len()
        invariant
            v@ == s@,
            i <= v.len(),
            out@ + replace_char(s@.skip(i as int), c, by@) == replace_char(s@, c, by@),
        decreases v.len() - i,
    {
        let ghost pre = out@;
        let ghost rest = s@.skip(i as int);
        assert(rest.drop_first() =~= s@.skip(i + 1));
        if v[i] == c {
            out.append(by);
            assert(pre + replace_char(rest, c, by@) =~= out@ + replace_char(s@.skip(i + 1), c, by@));
        } else {
            push_char(&mut out, v[i]);
            assert(pre + replace_char(rest, c, by@) =~= out@ + replace_char(s@.skip(i + 1), c, by@));
        }
        i += 1;
    }
    assert(s@.skip(i as int) =~= Seq::<char>::empty());
    assert(out@ + Seq::<char>::empty() =~= out@);
    out
}

} // verus!

verus! {

/// What `str::to_lowercase` returns for a text: the Unicode lowercase mapping,
/// which takes pages to state.
pub uninterp spec fn lowercase_of(s: Seq<char>) -> Seq<char>;

/// ASCII letters lowered, every other character kept.
pub open spec fn ascii_lowercase(s: Seq<char>) -> Seq<char> {
    s.map_values(|c: char| if is_ascii_upper(c) { ((c as u32) + 32) as char } else { c })
}

/// `str::to_lowercase`. Its result is `lowercase_of` the text; on ASCII text
/// that is the usual `A`–`Z` to `a`–`z` mapping.
#[verifier::external_body]
pub(crate) fn to_lowercase(s: &str) -> (r: String)
    ensures
        r@ == lowercase_of(s@),
        is_ascii_chars(s@) ==> r@ == ascii_lowercase(s@),
{
    s.to_lowercase()
}

/// What `char::is_alphanumeric` answers for a character (Unicode `Alphabetic`
/// or `Numeric`), which takes pages to state.
pub uninterp spec fn alphanumeric(c: char) -> bool;

/// `char::is_alphanumeric`. On ASCII it holds exactly of letters and digits.
#[verifier::external_body]
pub(crate) fn is_alphanumeric(c: char) -> (r: bool)
    ensures
        r == alphanumeric(c),
        (c as u32) < 128 ==> (r == (is_ascii_alpha(c) || is_ascii_digit(c))),
{
    c.is_alphanumeric()
}

} // verus!

verus! {

/// The view of an optional string.
pub open spec fn opt_view(o: Option<String>) -> Option<Seq<char>> {
    match o {
        Some(s) => Some(s@),
        None => None,
    }
}

} // verus!

verus! {

/// The number a run of ASCII digits spells in decimal.
pub open spec fn digits_value(s: Seq<char>) -> nat
    decreases s.len(),
{
    if s.len() == 0 {
        0
    } else {
        digits_value(s.drop_last()) * 10 + ((s.last() as int) - 48) as nat
    }
}

/// Every character is an ASCII digit, and there is at least one.
pub open spec fn all_digits(s: Seq<char>) -> bool {
    s.len() > 0 && forall|i: int| 0 <= i < s.len() ==> is_ascii_digit(#[trigger] s[i])
}

/// `str::parse::<u16>`: an optional `+`, then decimal digits whose value fits.
pub open spec fn spec_parse_u16(s: Seq<char>) -> Option<u16> {
    let d = if s.len() > 0 && s[0] == '+' {
        s.drop_first()
    } else {
        s
    };
    if all_digits(d) && digits_value(d) <= 65535 {
        Some(digits_value(d) as u16)
    } else {
        None
    }
}

proof fn lemma_digits_value_grows(s: Seq<char>, k: int)
    requires
        0 <= k <= s.len(),
    ensures
        digits_value(s.take(k)) <= digits_value(s),
    decreases s.len() - k,
{
    if k < s.len() {
        lemma_digits_value_grows(s, k + 1);
        assert(s.take(k + 1).drop_last() =~= s.take(k));
    } else {
        assert(s.take(k) =~= s);
    }
}

/// Parses a `u16` written in decimal, as `str::parse::<u16>` does.
pub fn parse_u16(s: &str) -> (r: Option<u16>)
    ensures
        r == spec_parse_u16(s@),
{
    let v = chars_of(s);
    let mut start: usize = 0;
    if v.len() > 0 && v[0] == '+' {
        start = 1;
    }
    let ghost d = if s@.len() > 0 && s@[0] == '+' {
        s@.drop_first()
    } else {
        s@
    };
    assert(d =~= v@.skip(start as int));
    if start == v.len() {
        return None;
    }
    let mut acc: u32 = 0;
    let mut i: usize = start;
    while i < v.len()
        invariant
            v@ == s@,
            start <= i <= v.len(),
            d =~= v@.skip(start as int),
            d == (if s@.len() > 0 && s@[0] == '+' {
                s@.drop_first()
            } else {
                s@
            }),
            acc == digits_value(d.take(i - start)),
            acc <= 65535,
            forall|j: int| 0 <= j < i - start ==> is_ascii_digit(#[trigger] d[j]),
        decreases v.len() - i,
    {
        let c = v[i];
        assert(d[i - start] == c);
        if !('0' <= c && c <= '9') {
            assert(!is_ascii_digit(d[i - start]));
            assert(!all_digits(d));
            return None;
        }
        assert(d.take(i - start + 1).drop_last() =~= d.take(i - start));
        assert(d.take(i - start + 1).last() == c);
        let next: u32 = acc * 10 + ((c as u32) - 48);
        assert(next == digits_value(d.take(i - start + 1)));
        if next > 65535 {
            proof {
                lemma_digits_value_grows(d, i - start + 1);
            }
            assert(digits_value(d) > 65535);
            return None;
        }
        acc = next;
        i += 1;
    }
    assert(d.take(i - start) =~= d);
    Some(acc as u16)
}

} // verus!

verus! {

/// The string made of the given pieces.
pub fn concat2(a: &str, b: &str) -> (r: String)
    ensures
        r@ == a@ + b@,
{
    let mut s = String::from_str(a);
    s.append(b);
    s
}

pub fn concat4(a: &str, b: &str, c: &str, d: &str) -> (r: String)
    ensures
        r@ == a@ + b@ + c@ + d@,
{
    let mut s = concat3(a, b, c);
    s.append(d);
    s
}

pub fn concat3(a: &str, b: &str, c: &str) -> (r: String)
    ensures
        r@ == a@ + b@ + c@,
{
    let mut s = String::from_str(a);
    s.append(b);
    s.append(c);
    s
}

pub fn concat5(a: &str, b: &str, c: &str, d: &str, e: &str) -> (r: String)
    ensures
        r@ == a@ + b@ + c@ + d@ + e@,
{
    let mut s = String::from_str(a);
    s.append(b);
    s.append(c);
    s.append(d);
    s.append(e);
    s
}

pub fn concat7(a: &str, b: &str, c: &str, d: &str, e: &str, f: &str, g: &str) -> (r: String)
    ensures
        r@ == a@ + b@ + c@ + d@ + e@ + f@ + g@,
{
    let mut s = concat5(a, b, c, d, e);
    s.append(f);
    s.append(g);
    s
}

} // verus!

verus! {

/// A word as `split_whitespace` yields it: not empty, no whitespace in it.
pub open spec fn proper_word(w: Seq<char>) -> bool {
    w.len() > 0 && forall|j: int| 0 <= j < w.len() ==> !is_ws(#[trigger] w[j])
}

/// Reading a run of non-whitespace characters only extends the current word.
pub proof fn lemma_words_from_run(w: Seq<char>, s: Seq<char>, cur: Seq<char>)
    requires
        forall|j: int| 0 <= j < w.len() ==> !is_ws(#[trigger] w[j]),
    ensures
        words_from(w + s, cur) == words_from(s, cur + w),
    decreases w.len(),
{
    if w.len() == 0 {
        assert(w + s =~= s);
        assert(cur + w =~= cur);
    } else {
        assert((w + s)[0] == w[0]);
        assert((w + s).drop_first() =~= w.drop_first() + s);
        assert forall|j: int| 0 <= j < w.drop_first().len() implies !is_ws(
            #[trigger] w.drop_first()[j],
        ) by {
            assert(w.drop_first()[j] == w[j + 1]);
        }
        lemma_words_from_run(w.drop_first(), s, cur.push(w[0]));
        assert(cur.push(w[0]) + w.drop_first() =~= cur + w);
    }
}

/// `join` seen from the front.
pub proof fn lemma_join_front(ws: Seq<Seq<char>>, sep: Seq<char>)
    requires
        ws.len() >= 2,
    ensures
        join(ws, sep) == ws[0] + sep + join(ws.skip(1), sep),
    decreases ws.len(),
{
    if ws.len() == 2 {
        assert(ws.drop_last() =~= seq![ws[0]]);
        assert(ws.skip(1) =~= seq![ws[1]]);
        assert(join(ws.drop_last(), sep) == ws[0]);
        assert(join(ws.skip(1), sep) == ws[1]);
        assert(join(ws, sep) == join(ws.drop_last(), sep) + sep + ws.last());
    } else {
        let init = ws.drop_last();
        lemma_join_front(init, sep);
        assert(ws.skip(1).drop_last() =~= init.skip(1));
        assert(ws.skip(1).last() == ws.last());
        assert(join(ws.skip(1), sep) == join(init.skip(1), sep) + sep + ws.last());
        assert(join(ws, sep) =~= ws[0] + sep + join(ws.skip(1), sep));
    }
}

/// Splitting space-joined proper words gives the words back.
pub proof fn lemma_words_of_joined(ws: Seq<Seq<char>>)
    requires
        forall|i: int| 0 <= i < ws.len() ==> proper_word(#[trigger] ws[i]),
    ensures
        words(join(ws, " "@)) == ws,
    decreases ws.len(),
{
    reveal_strlit(" ");
    if ws.len() == 0 {
    } else if ws.len() == 1 {
        assert(proper_word(ws[0]));
        lemma_words_from_run(ws[0], Seq::empty(), Seq::empty());
        assert(ws[0] + Seq::<char>::empty() =~= ws[0]);
        assert(Seq::<char>::empty() + ws[0] =~= ws[0]);
        assert(words_from(Seq::<char>::empty(), ws[0]) == seq![ws[0]]);
        assert(ws =~= seq![ws[0]]);
    } else {
        lemma_join_front(ws, " "@);
        let rest = join(ws.skip(1), " "@);
        assert(proper_word(ws[0]));
        assert forall|i: int| 0 <= i < ws.skip(1).len() implies proper_word(
            #[trigger] ws.skip(1)[i],
        ) by {
            assert(ws.skip(1)[i] == ws[i + 1]);
        }
        lemma_words_of_joined(ws.skip(1));
        assert(ws[0] + " "@ + rest =~= ws[0] + (seq![' '] + rest));
        lemma_words_from_run(ws[0], seq![' '] + rest, Seq::empty());
        assert(Seq::<char>::empty() + ws[0] =~= ws[0]);
        assert((seq![' '] + rest).drop_first() =~= rest);
        assert(is_ws(' '));
        assert(words_from(seq![' '] + rest, ws[0]) == seq![ws[0]] + words_from(rest, seq![]));
        assert(seq![ws[0]] + ws.skip(1) =~= ws);
    }
}

/// Every word `split_whitespace` yields is proper.
pub proof fn lemma_words_proper(s: Seq<char>, cur: Seq<char>)
    requires
        forall|j: int| 0 <= j < cur.len() ==> !is_ws(#[trigger] cur[j]),
    ensures
        forall|i: int|
            0 <= i < words_from(s, cur).len() ==> proper_word(#[trigger] words_from(s, cur)[i]),
    decreases s.len(),
{
    if s.len() == 0 {
        if cur.len() > 0 {
            assert(proper_word(cur));
            assert(words_from(s, cur) == seq![cur]);
        }
    } else if is_ws(s[0]) {
        lemma_words_proper(s.drop_first(), seq![]);
        let head: Seq<Seq<char>> = if cur.len() == 0 {
            seq![]
        } else {
            seq![cur]
        };
        let tail = words_from(s.drop_first(), seq![]);
        assert(words_from(s, cur) == head + tail);
        assert forall|i: int| 0 <= i < (head + tail).len() implies proper_word(
            #[trigger] (head + tail)[i],
        ) by {
            if i < head.len() {
                assert((head + tail)[i] == cur);
                assert(proper_word(cur));
            } else {
                assert((head + tail)[i] == tail[i - head.len()]);
            }
        }
    } else {
        let next = cur.push(s[0]);
        assert forall|j: int| 0 <= j < next.len() implies !is_ws(#[trigger] next[j]) by {
            if j < cur.len() {
                assert(next[j] == cur[j]);
            }
        }
        lemma_words_proper(s.drop_first(), next);
        assert(words_from(s, cur) == words_from(s.drop_first(), next));
    }
}

proof fn lemma_strip_trailing_keeps_first(s: Seq<char>)
    requires
        s.len() > 0,
        !is_ws(s[0]),
    ensures
        strip_trailing(s, CharClass::Whitespace).len() > 0,
    decreases s.len(),
{
    if s.len() > 1 && is_ws(s.last()) {
        assert(s.drop_last()[0] == s[0]);
        lemma_strip_trailing_keeps_first(s.drop_last());
    }
}

/// A text that starts with a non-whitespace character is not blank.
pub proof fn lemma_trim_not_blank(s: Seq<char>)
    requires
        s.len() > 0,
        !is_ws(s[0]),
    ensures
        trim(s).len() > 0,
{
    assert(strip_leading(s, CharClass::Whitespace) == s);
    lemma_strip_trailing_keeps_first(s);
}

/// The first character of a decimal rendering is a digit.
pub proof fn lemma_decimal_starts_with_digit(n: nat)
    ensures
        decimal(n).len() > 0,
        is_ascii_digit(decimal(n)[0]),
        forall|j: int| 0 <= j < decimal(n).len() ==> is_ascii_digit(#[trigger] decimal(n)[j]),
    decreases n,
{
    if n >= 10 {
        lemma_decimal_starts_with_digit(n / 10);
        let d = decimal(n / 10).push(digit_char(n % 10));
        assert forall|j: int| 0 <= j < d.len() implies is_ascii_digit(#[trigger] d[j]) by {
            if j < decimal(n / 10).len() {
                assert(d[j] == decimal(n / 10)[j]);
            }
        }
    }
}

} // verus!
