use vstd::prelude::*;
use vstd::string::StrSliceExecFns;

verus! {

/// `c` is one of `0-9`, `a-z` or `A-Z`.
pub open spec fn spec_is_ascii_alphanumeric(c: char) -> bool {
    ('0' <= c && c <= '9') || ('a' <= c && c <= 'z') || ('A' <= c && c <= 'Z')
}

/// `c` is one of `A-Z`.
pub open spec fn spec_is_ascii_uppercase(c: char) -> bool {
    'A' <= c && c <= 'Z'
}

/// The characters that carry the Unicode `White_Space` property, which is
/// what `char::is_whitespace` tests.
pub open spec fn spec_is_whitespace(c: char) -> bool {
    let n = c as u32;
    ||| 0x09 <= n && n <= 0x0d
    ||| n == 0x20
    ||| n == 0x85
    ||| n == 0xa0
    ||| n == 0x1680
    ||| 0x2000 <= n && n <= 0x200a
    ||| n == 0x2028
    ||| n == 0x2029
    ||| n == 0x202f
    ||| n == 0x205f
    ||| n == 0x3000
}

/// The ASCII lower-case form of `c`; every other character is kept.
pub open spec fn spec_ascii_lower(c: char) -> char {
    if spec_is_ascii_uppercase(c) {
        ((c as u32) + 32) as char
    } else {
        c
    }
}

pub fn is_ascii_alphanumeric(c: char) -> (b: bool)
    ensures
        b == spec_is_ascii_alphanumeric(c),
{
    ('0' <= c && c <= '9') || ('a' <= c && c <= 'z') || ('A' <= c && c <= 'Z')
}

pub fn is_ascii_uppercase(c: char) -> (b: bool)
    ensures
        b == spec_is_ascii_uppercase(c),
{
    'A' <= c && c <= 'Z'
}

pub fn is_whitespace(c: char) -> (b: bool)
    ensures
        b == spec_is_whitespace(c),
{
    let n: u32 = c as u32;
    (0x09 <= n && n <= 0x0d) || n == 0x20 || n == 0x85 || n == 0xa0 || n == 0x1680 || (0x2000 <= n
        && n <= 0x200a) || n == 0x2028 || n == 0x2029 || n == 0x202f || n == 0x205f || n == 0x3000
}

pub fn to_ascii_lowercase(c: char) -> (r: char)
    ensures
        r == spec_ascii_lower(c),
{
    if is_ascii_uppercase(c) {
        let b: u8 = c as u8;
        ((b + 32) as char)
    } else {
        c
    }
}

/// `String::push`: the contract claims that afterwards `s` holds its former
/// characters followed by `c`.
#[verifier::external_body]
pub(crate) fn push_char(s: &mut String, c: char)
    ensures
        final(s)@ == old(s)@.push(c),
{
    s.push(c)
}

/// The characters of `s`, in order.
pub fn chars_of(s: &str) -> (v: Vec<char>)
    ensures
        v@ == s@,
{
    let n = s.unicode_len();
    let mut v: Vec<char> = Vec::new();
    let mut i: usize = 0;
    while i < n
        invariant
            n == s@.len(),
            i <= n,
            v@ == s@.subrange(0, i as int),
        decreases n - i,
    {
        v.push(s.get_char(i));
        i = i + 1;
    }
    v
}

/// The string made of the characters of `v`, in order.
pub fn string_from_chars(v: &Vec<char>) -> (s: String)
    ensures
        s@ == v@,
{
    let mut s = String::new();
    let mut i: usize = 0;
    while i < v.len()
        invariant
            i <= v.len(),
            s@ == v@.subrange(0, i as int),
        decreases v.len() - i,
    {
        push_char(&mut s, v[i]);
        i = i + 1;
    }
    s
}

/// Whether `a` and `b` hold the same characters.
pub fn str_eq(a: &str, b: &str) -> (r: bool)
    ensures
        r == (a@ == b@),
{
    let n = a.unicode_len();
    let m = b.unicode_len();
    if n != m {
        return false;
    }
    let mut i: usize = 0;
    while i < n
        invariant
            n == a@.len(),
            n == b@.len(),
            i <= n,
            a@.subrange(0, i as int) == b@.subrange(0, i as int),
        decreases n - i,
    {
        if a.get_char(i) != b.get_char(i) {
            assert(a@[i as int] != b@[i as int]);
            return false;
        }
        assert(a@.subrange(0, i + 1) == a@.subrange(0, i as int).push(a@[i as int]));
        assert(b@.subrange(0, i + 1) == b@.subrange(0, i as int).push(b@[i as int]));
        i = i + 1;
    }
    assert(a@ == a@.subrange(0, n as int));
    assert(b@ == b@.subrange(0, n as int));
    true
}

} // verus!

verus! {

/// `s` ends with `suffix`.
pub open spec fn spec_ends_with(s: Seq<char>, suffix: Seq<char>) -> bool {
    suffix.len() <= s.len() && s.subrange(s.len() - suffix.len(), s.len() as int) == suffix
}

/// Whether `s` ends with `suffix`.
pub fn ends_with(s: &str, suffix: &str) -> (r: bool)
    ensures
        r == spec_ends_with(s@, suffix@),
{
    let n = s.unicode_len();
    let m = suffix.unicode_len();
    if m > n {
        return false;
    }
    let start: usize = n - m;
    let mut i: usize = 0;
    while i < m
        invariant
            n == s@.len(),
            m == suffix@.len(),
            start == n - m,
            i <= m,
            forall|j: int| 0 <= j < i ==> s@[start + j] == suffix@[j],
        decreases m - i,
    {
        if s.get_char(start + i) != suffix.get_char(i) {
            assert(s@.subrange(start as int, n as int)[i as int] != suffix@[i as int]);
            return false;
        }
        i = i + 1;
    }
    assert(s@.subrange(start as int, n as int) =~= suffix@);
    true
}

} // verus!

verus! {

/// `s` without its white space.
pub open spec fn spec_remove_whitespace(s: Seq<char>) -> Seq<char>
    decreases s.len(),
{
    if s.len() == 0 {
        Seq::empty()
    } else {
        let rest = spec_remove_whitespace(s.drop_last());
        if spec_is_whitespace(s.last()) {
            rest
        } else {
            rest.push(s.last())
        }
    }
}

/// `s` without its white space.
pub fn remove_whitespace(s: &str) -> (r: String)
    ensures
        r@ == spec_remove_whitespace(s@),
{
    let chars = chars_of(s);
    let mut kept: Vec<char> = Vec::new();
    let mut i: usize = 0;
    while i < chars.len()
        invariant
            i <= chars@.len(),
            chars@ == s@,
            kept@ == spec_remove_whitespace(chars@.subrange(0, i as int)),
        decreases chars@.len() - i,
    {
        let c = chars[i];
        assert(chars@.subrange(0, i + 1).drop_last() =~= chars@.subrange(0, i as int));
        if !is_whitespace(c) {
            kept.push(c);
        }
        i = i + 1;
    }
    assert(chars@.subrange(0, chars@.len() as int) =~= chars@);
    string_from_chars(&kept)
}

/// The label of a variant named in PascalCase: a space before every
/// upper-case letter but the first character, as in `SaveAs` to `Save As`.
pub open spec fn spec_pascal_label(name: Seq<char>) -> Seq<char>
    decreases name.len(),
{
    if name.len() == 0 {
        Seq::empty()
    } else {
        let rest = spec_pascal_label(name.drop_last());
        if name.len() > 1 && spec_is_ascii_uppercase(name.last()) {
            rest.push(' ').push(name.last())
        } else {
            rest.push(name.last())
        }
    }
}

/// The label of a variant named in PascalCase: a space before every
/// upper-case letter but the first character.
pub fn pascal_label(name: &str) -> (r: String)
    ensures
        r@ == spec_pascal_label(name@),
{
    let chars = chars_of(name);
    let mut out: Vec<char> = Vec::new();
    let mut i: usize = 0;
    while i < chars.len()
        invariant
            i <= chars@.len(),
            chars@ == name@,
            out@ == spec_pascal_label(chars@.subrange(0, i as int)),
        decreases chars@.len() - i,
    {
        let c = chars[i];
        assert(chars@.subrange(0, i + 1).drop_last() =~= chars@.subrange(0, i as int));
        if i > 0 && is_ascii_uppercase(c) {
            out.push(' ');
        }
        out.push(c);
        i = i + 1;
    }
    assert(chars@.subrange(0, chars@.len() as int) =~= chars@);
    string_from_chars(&out)
}

/// Removing the white space from the label of a name that holds none gives
/// the name back.
pub proof fn lemma_label_round_trip(name: Seq<char>)
    requires
        forall|i: int| 0 <= i < name.len() ==> !spec_is_whitespace(#[trigger] name[i]),
    ensures
        spec_remove_whitespace(spec_pascal_label(name)) == name,
    decreases name.len(),
{
    if name.len() > 0 {
        let prefix = name.drop_last();
        assert forall|i: int| 0 <= i < prefix.len() implies !spec_is_whitespace(
            #[trigger] prefix[i],
        ) by {
            assert(prefix[i] == name[i]);
        }
        lemma_label_round_trip(prefix);
        let rest = spec_pascal_label(prefix);
        let c = name.last();
        assert(!spec_is_whitespace(c));
        if name.len() > 1 && spec_is_ascii_uppercase(c) {
            let a = rest.push(' ');
            let b = a.push(c);
            assert(spec_pascal_label(name) == b);
            assert(b.drop_last() =~= a);
            assert(a.drop_last() =~= rest);
            assert(spec_is_whitespace(' '));
            assert(spec_remove_whitespace(a) == spec_remove_whitespace(rest));
            assert(spec_remove_whitespace(b) == spec_remove_whitespace(a).push(c));
        } else {
            let b = rest.push(c);
            assert(spec_pascal_label(name) == b);
            assert(b.drop_last() =~= rest);
            assert(spec_remove_whitespace(b) == spec_remove_whitespace(rest).push(c));
        }
        assert(prefix.push(c) =~= name);
    }
}

} // verus!
