//! Character and string helpers over the `Seq<char>` view of strings.
use vstd::prelude::*;

verus! {

/// Unicode general category Cc: U+0000..=U+001F and U+007F..=U+009F.
pub open spec fn spec_is_control(c: char) -> bool {
    (c as u32) <= 0x1f || (0x7f <= (c as u32) && (c as u32) <= 0x9f)
}

/// Whether `c` is a control character (general category Cc).
pub fn is_control(c: char) -> (r: bool)
    ensures
        r == spec_is_control(c),
{
    let v = c as u32;
    v <= 0x1f || (0x7f <= v && v <= 0x9f)
}

/// Appends one character to a string (`String::push`).
#[verifier::external_body]
pub(crate) fn string_push(s: &mut String, c: char)
    ensures
        final(s)@ == old(s)@.push(c),
{
    s.push(c);
}

/// Removes the last character of a string (`String::pop`).
#[verifier::external_body]
pub(crate) fn string_pop(s: &mut String) -> (r: Option<char>)
    ensures
        old(s)@.len() == 0 ==> r is None && final(s)@ == old(s)@,
        old(s)@.len() > 0 ==> r == Some(old(s)@.last()) && final(s)@ == old(s)@.drop_last(),
{
    s.pop()
}

/// Number of characters of `s`.
pub fn char_count(s: &str) -> (n: usize)
    ensures
        n == s@.len(),
{
    s.unicode_len()
}

/// Whether the characters of `a` from `offset` on are exactly `b`.
pub fn str_eq_from(a: &str, offset: usize, b: &str) -> (r: bool)
    requires
        offset <= a@.len(),
    ensures
        r == (a@.skip(offset as int) == b@),
{
    let la = a.unicode_len();
    let lb = b.unicode_len();
    if la - offset != lb {
        assert(a@.skip(offset as int).len() != b@.len());
        return false;
    }
    let mut i: usize = 0;
    while i < lb
        invariant
            i <= lb,
            la == a@.len(),
            lb == b@.len(),
            la - offset == lb,
            offset <= la,
            forall|j: int| 0 <= j < i ==> a@[offset + j] == b@[j],
        decreases lb - i,
    {
        if a.get_char(offset + i) != b.get_char(i) {
            assert(a@.skip(offset as int)[i as int] != b@[i as int]);
            return false;
        }
        i = i + 1;
    }
    assert(a@.skip(offset as int) =~= b@);
    true
}

/// Whether `a` and `b` hold the same characters.
pub fn str_eq(a: &str, b: &str) -> (r: bool)
    ensures
        r == (a@ == b@),
{
    let r = str_eq_from(a, 0, b);
    assert(a@.skip(0) =~= a@);
    r
}

/// Whether `a` starts with the characters of `p`.
pub fn str_starts_with(a: &str, p: &str) -> (r: bool)
    ensures
        r == (p@.len() <= a@.len() && a@.take(p@.len() as int) == p@),
{
    let la = a.unicode_len();
    let lp = p.unicode_len();
    if lp > la {
        return false;
    }
    let mut i: usize = 0;
    while i < lp
        invariant
            i <= lp,
            lp <= la,
            la == a@.len(),
            lp == p@.len(),
            forall|j: int| 0 <= j < i ==> a@[j] == p@[j],
        decreases lp - i,
    {
        if a.get_char(i) != p.get_char(i) {
            assert(a@.take(lp as int)[i as int] != p@[i as int]);
            return false;
        }
        i = i + 1;
    }
    assert(a@.take(lp as int) =~= p@);
    true
}


/// Unicode White_Space: U+0009..=U+000D, U+0020, U+0085, U+00A0, U+1680,
/// U+2000..=U+200A, U+2028, U+2029, U+202F, U+205F and U+3000.
pub open spec fn spec_is_whitespace(c: char) -> bool {
    let v = c as u32;
    (0x09 <= v && v <= 0x0d) || v == 0x20 || v == 0x85 || v == 0xa0 || v == 0x1680 || (0x2000 <= v
        && v <= 0x200a) || v == 0x2028 || v == 0x2029 || v == 0x202f || v == 0x205f || v == 0x3000
}

/// Whether `c` is white space.
pub fn is_whitespace(c: char) -> (r: bool)
    ensures
        r == spec_is_whitespace(c),
{
    let v = c as u32;
    (0x09 <= v && v <= 0x0d) || v == 0x20 || v == 0x85 || v == 0xa0 || v == 0x1680 || (0x2000 <= v
        && v <= 0x200a) || v == 0x2028 || v == 0x2029 || v == 0x202f || v == 0x205f || v == 0x3000
}

/// Index of the first non-white-space character at or after `i`
/// (`s.len()` when there is none).
pub open spec fn first_non_ws(s: Seq<char>, i: int) -> int
    decreases s.len() - i,
{
    if i >= s.len() {
        s.len() as int
    } else if !spec_is_whitespace(s[i]) {
        i
    } else {
        first_non_ws(s, i + 1)
    }
}

/// One past the last non-white-space character before `j` (0 when there
/// is none).
pub open spec fn end_non_ws(s: Seq<char>, j: int) -> int
    decreases j,
{
    if j <= 0 {
        0
    } else if !spec_is_whitespace(s[j - 1]) {
        j
    } else {
        end_non_ws(s, j - 1)
    }
}

/// `s` without leading and trailing white space.
pub open spec fn spec_trim(s: Seq<char>) -> Seq<char> {
    let a = first_non_ws(s, 0);
    let b = end_non_ws(s, s.len() as int);
    if a < b {
        s.subrange(a, b)
    } else {
        Seq::empty()
    }
}

/// `s` without leading and trailing white space (`str::trim`).
pub fn trim(s: &str) -> (r: String)
    ensures
        r@ == spec_trim(s@),
{
    let n = s.unicode_len();
    let mut a: usize = 0;
    while a < n && is_whitespace(s.get_char(a))
        invariant
            n == s@.len(),
            a <= n,
            first_non_ws(s@, a as int) == first_non_ws(s@, 0),
        decreases n - a,
    {
        a = a + 1;
    }
    let mut b: usize = n;
    while b > 0 && is_whitespace(s.get_char(b - 1))
        invariant
            n == s@.len(),
            b <= n,
            end_non_ws(s@, b as int) == end_non_ws(s@, n as int),
        decreases b,
    {
        b = b - 1;
    }
    if a < b {
        s.substring_char(a, b).to_string()
    } else {
        String::new()
    }
}


/// `c` is an ASCII lower-case letter.
pub open spec fn spec_is_ascii_lower(c: char) -> bool {
    'a' <= c && c <= 'z'
}

/// `c` is an ASCII upper-case letter.
pub open spec fn spec_is_ascii_upper(c: char) -> bool {
    'A' <= c && c <= 'Z'
}

/// Whether `c` is an ASCII lower-case letter.
pub fn is_ascii_lower(c: char) -> (r: bool)
    ensures
        r == spec_is_ascii_lower(c),
{
    'a' <= c && c <= 'z'
}

/// Whether `c` is an ASCII upper-case letter.
pub fn is_ascii_upper(c: char) -> (r: bool)
    ensures
        r == spec_is_ascii_upper(c),
{
    'A' <= c && c <= 'Z'
}

/// `c` with an ASCII upper-case letter made lower case.
pub open spec fn spec_to_ascii_lower(c: char) -> char {
    if spec_is_ascii_upper(c) {
        ((c as u32) + 32) as char
    } else {
        c
    }
}

/// `c` with an ASCII upper-case letter made lower case.
pub fn to_ascii_lower(c: char) -> (r: char)
    ensures
        r == spec_to_ascii_lower(c),
{
    if is_ascii_upper(c) {
        let b: u8 = (c as u32) as u8;
        (b + 32) as char
    } else {
        c
    }
}

/// An underscore goes before the character at `i` of a CamelCase name:
/// an upper-case letter after a lower-case one, or the last capital of an
/// acronym that a lower-case letter follows.
pub open spec fn word_starts_at(s: Seq<char>, i: int) -> bool {
    spec_is_ascii_upper(s[i]) && ((i > 0 && spec_is_ascii_lower(s[i - 1])) || (i > 0
        && spec_is_ascii_upper(s[i - 1]) && i + 1 < s.len() && spec_is_ascii_lower(s[i + 1])))
}

/// The snake_case form of the first `n` characters of `s`.
pub open spec fn snake_prefix(s: Seq<char>, n: int) -> Seq<char>
    decreases n,
{
    if n <= 0 {
        Seq::empty()
    } else {
        snake_prefix(s, n - 1) + (if word_starts_at(s, n - 1) {
            seq!['_']
        } else {
            Seq::empty()
        }) + seq![spec_to_ascii_lower(s[n - 1])]
    }
}

/// The snake_case form of a CamelCase name.
pub open spec fn spec_snake_case(s: Seq<char>) -> Seq<char> {
    snake_prefix(s, s.len() as int)
}

/// Converts a CamelCase name to snake_case: words split before a capital
/// that follows a lower-case letter or ends an acronym, all lower case.
pub fn snake_case(s: &str) -> (r: String)
    ensures
        r@ == spec_snake_case(s@),
{
    let n = s.unicode_len();
    let mut out = String::new();
    let mut i: usize = 0;
    while i < n
        invariant
            n == s@.len(),
            i <= n,
            out@ == snake_prefix(s@, i as int),
        decreases n - i,
    {
        let c = s.get_char(i);
        let prev_lower = i > 0 && is_ascii_lower(s.get_char(i - 1));
        let acronym_ends = i > 0 && is_ascii_upper(s.get_char(i - 1)) && i + 1 < n && is_ascii_lower(
            s.get_char(i + 1),
        );
        if is_ascii_upper(c) && (prev_lower || acronym_ends) {
            string_push(&mut out, '_');
        }
        string_push(&mut out, to_ascii_lower(c));
        i = i + 1;
        assert(out@ =~= snake_prefix(s@, i as int));
    }
    out
}


/// A snake_case name has no upper-case ASCII letter.
pub proof fn lemma_snake_case_is_lower(s: Seq<char>)
    ensures
        forall|i: int| 0 <= i < spec_snake_case(s).len() ==> !spec_is_ascii_upper(#[trigger] spec_snake_case(s)[i]),
{
    lemma_snake_prefix_is_lower(s, s.len() as int);
}

proof fn lemma_snake_prefix_is_lower(s: Seq<char>, n: int)
    requires
        n <= s.len(),
    ensures
        forall|i: int| 0 <= i < snake_prefix(s, n).len() ==> !spec_is_ascii_upper(#[trigger] snake_prefix(s, n)[i]),
    decreases n,
{
    if n > 0 {
        lemma_snake_prefix_is_lower(s, n - 1);
        let c = s[n - 1];
        assert(!spec_is_ascii_upper(spec_to_ascii_lower(c))) by {
            if spec_is_ascii_upper(c) {
                assert((c as u32) + 32 >= 0x61);
            }
        }
        let prev = snake_prefix(s, n - 1);
        let mid: Seq<char> = if word_starts_at(s, n - 1) {
            seq!['_']
        } else {
            Seq::empty()
        };
        let whole = snake_prefix(s, n);
        assert(whole == prev + mid + seq![spec_to_ascii_lower(c)]);
        assert forall|i: int| 0 <= i < whole.len() implies !spec_is_ascii_upper(#[trigger] whole[i]) by {
            if i < prev.len() {
                assert(whole[i] == prev[i]);
            } else if i < prev.len() + mid.len() {
                assert(whole[i] == '_');
            } else {
                assert(whole[i] == spec_to_ascii_lower(c));
            }
        }
    }
}

} // verus!
