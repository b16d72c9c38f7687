//! Character-level helpers shared by the other modules: case folding,
//! substring search, prefix stripping and decimal rendering.

use vstd::prelude::*;
use vstd::utf8::{encode_utf8, is_ascii_chars, valid_utf8};

verus! {

/// The ASCII lower-case form of one character: `A`..`Z` move to `a`..`z`,
/// every other character stays as it is.
pub open spec fn ascii_lower_char(c: char) -> char {
    if 'A' <= c && c <= 'Z' {
        ((c as u32) + 32) as char
    } else {
        c
    }
}

/// The ASCII upper-case form of one character: `a`..`z` move to `A`..`Z`,
/// every other character stays as it is.
pub open spec fn ascii_upper_char(c: char) -> char {
    if 'a' <= c && c <= 'z' {
        ((c as u32) - 32) as char
    } else {
        c
    }
}

/// `s` with every character replaced by its ASCII lower-case form.
pub open spec fn ascii_lower(s: Seq<char>) -> Seq<char> {
    Seq::new(s.len(), |i: int| ascii_lower_char(s[i]))
}

/// `s` with every character replaced by its ASCII upper-case form.
pub open spec fn ascii_upper(s: Seq<char>) -> Seq<char> {
    Seq::new(s.len(), |i: int| ascii_upper_char(s[i]))
}

/// The Unicode lower-case form of a string that holds at least one character
/// outside ASCII. Its value is whatever the standard library's case tables
/// give; nothing further is assumed about it here.
pub uninterp spec fn unicode_lowercase(s: Seq<char>) -> Seq<char>;

/// The lower-case form of `s` used for every case-insensitive comparison in
/// this crate. On ASCII input it is `ascii_lower`.
pub open spec fn lowercase(s: Seq<char>) -> Seq<char> {
    if is_ascii_chars(s) {
        ascii_lower(s)
    } else {
        unicode_lowercase(s)
    }
}

/// Trusted: `str::to_lowercase`. The result is a function of the input alone.
/// For input made of ASCII characters only, the standard library maps each of
/// `A`..`Z` to its lower-case letter and copies every other character, which
/// is what `ascii_lower` says; for any other input the result is only named.
#[verifier::external_body]
pub(crate) fn to_lowercase(s: &str) -> (r: String)
    ensures
        is_ascii_chars(s@) ==> r@ == ascii_lower(s@),
        !is_ascii_chars(s@) ==> r@ == unicode_lowercase(s@),
{
    s.to_lowercase()
}

/// Trusted: `std::string::FromUtf8Error`, taken as an opaque type. Nothing is
/// stated of what an error holds.
#[verifier::external_type_specification]
#[verifier::external_body]
pub struct ExFromUtf8Error(std::string::FromUtf8Error);

/// Trusted: `String::from_utf8`. It succeeds exactly on well-formed UTF-8,
/// and the string then has the given bytes as its encoding.
#[verifier::external_body]
pub(crate) fn string_from_utf8(bytes: Vec<u8>) -> (r: Result<String, std::string::FromUtf8Error>)
    ensures
        r is Ok <==> valid_utf8(bytes@),
        r matches Ok(text) ==> encode_utf8(text@) == bytes@,
{
    String::from_utf8(bytes)
}

/// Trusted: the `Display` form of a `FromUtf8Error`. Nothing is stated of the
/// text.
#[verifier::external_body]
pub(crate) fn utf8_error_text(error: &std::string::FromUtf8Error) -> String {
    error.to_string()
}

/// Whether `needle` stands in `hay` starting at position `i`.
pub open spec fn occurs_at(hay: Seq<char>, needle: Seq<char>, i: int) -> bool {
    &&& 0 <= i
    &&& i + needle.len() <= hay.len()
    &&& hay.subrange(i, i + needle.len()) == needle
}

/// Whether `needle` is a contiguous part of `hay`.
pub open spec fn contains(hay: Seq<char>, needle: Seq<char>) -> bool {
    exists|i: int| occurs_at(hay, needle, i)
}

/// Whether `message`, lower-cased, contains `phrase`.
pub open spec fn mentions(message: Seq<char>, phrase: Seq<char>) -> bool {
    contains(lowercase(message), phrase)
}

/// The characters of `s`, in order.
pub fn chars_of(s: &str) -> (v: Vec<char>)
    ensures
        v@ == s@,
{
    let mut v: Vec<char> = Vec::new();
    for c in it: s.chars()
        invariant
            v@ == it.seq().take(it.index() as int),
    {
        v.push(c);
    }
    v
}

/// Whether `needle` stands in `hay` at position `at`.
fn matches_at(hay: &Vec<char>, needle: &Vec<char>, at: usize) -> (b: bool)
    requires
        at + needle@.len() <= hay@.len(),
    ensures
        b == occurs_at(hay@, needle@, at as int),
{
    let hay_len: usize = hay.len();
    let mut j: usize = 0;
    while j < needle.len()
        invariant
            j <= needle@.len(),
            hay_len == hay@.len(),
            at + needle@.len() <= hay@.len(),
            forall|k: int| 0 <= k < j ==> hay@[at + k] == needle@[k],
        decreases needle@.len() - j,
    {
        if hay[at + j] != needle[j] {
            proof {
                let window = hay@.subrange(at as int, at + needle@.len());
                assert(window[j as int] == hay@[at + j]);
            }
            return false;
        }
        j = j + 1;
    }
    assert(hay@.subrange(at as int, at + needle@.len()) =~= needle@);
    true
}

/// Whether `needle` is a contiguous part of `hay`, compared character by
/// character.
pub fn str_contains(hay: &str, needle: &str) -> (b: bool)
    ensures
        b == contains(hay@, needle@),
{
    let h = chars_of(hay);
    let n = chars_of(needle);
    if n.len() > h.len() {
        return false;
    }
    let last: usize = h.len() - n.len();
    let mut i: usize = 0;
    loop
        invariant
            h@ == hay@,
            n@ == needle@,
            last == h@.len() - n@.len(),
            i <= last,
            forall|k: int| 0 <= k < i ==> !occurs_at(h@, n@, k),
        decreases last - i,
    {
        if matches_at(&h, &n, i) {
            assert(occurs_at(hay@, needle@, i as int));
            return true;
        }
        if i == last {
            return false;
        }
        i = i + 1;
    }
}

/// Whether the lower-case form of `message` contains `phrase`.
pub fn mentions_phrase(message: &str, phrase: &str) -> (b: bool)
    ensures
        b == mentions(message@, phrase@),
{
    let lower = to_lowercase(message);
    str_contains(lower.as_str(), phrase)
}

/// What is left of `value` after a prefix that equals `prefix` up to ASCII
/// case, or `None` where `value` does not start that way.
pub open spec fn after_prefix_ignoring_case(value: Seq<char>, prefix: Seq<char>) -> Option<
    Seq<char>,
> {
    if prefix.len() <= value.len() && ascii_lower(value.take(prefix.len() as int)) == ascii_lower(
        prefix,
    ) {
        Some(value.skip(prefix.len() as int))
    } else {
        None
    }
}

/// The code of the ASCII lower-case form of `c`.
fn fold_code(c: char) -> (code: u32)
    ensures
        code == ascii_lower_char(c) as u32,
{
    let x: u32 = c as u32;
    if 65 <= x && x <= 90 {
        x + 32
    } else {
        x
    }
}

/// Strips from `value` a leading `prefix`, compared without regard to ASCII
/// case, and returns the rest of `value` untouched.
pub fn strip_prefix_ignoring_case<'a>(value: &'a str, prefix: &str) -> (rest: Option<&'a str>)
    ensures
        match rest {
            Some(r) => after_prefix_ignoring_case(value@, prefix@) == Some(r@),
            None => after_prefix_ignoring_case(value@, prefix@) is None,
        },
{
    let want = chars_of(prefix);
    let total: usize = value.unicode_len();
    if want.len() > total {
        return None;
    }
    let mut i: usize = 0;
    while i < want.len()
        invariant
            i <= want@.len(),
            want@ == prefix@,
            want@.len() <= value@.len(),
            forall|k: int| 0 <= k < i ==> ascii_lower_char(value@[k]) == ascii_lower_char(want@[k]),
        decreases want@.len() - i,
    {
        let have: char = value.get_char(i);
        if fold_code(have) != fold_code(want[i]) {
            proof {
                let head = ascii_lower(value@.take(want@.len() as int));
                assert(head[i as int] == ascii_lower_char(value@[i as int]));
                assert(ascii_lower(want@)[i as int] == ascii_lower_char(want@[i as int]));
            }
            return None;
        }
        i = i + 1;
    }
    assert(ascii_lower(value@.take(want@.len() as int)) =~= ascii_lower(want@));
    let rest = value.substring_char(want.len(), total);
    assert(rest@ =~= value@.skip(want@.len() as int));
    Some(rest)
}

/// The character for one decimal digit.
pub open spec fn digit_char(d: nat) -> char
    recommends
        d < 10,
{
    (48 + d) as char
}

/// The decimal numeral of `n`, without sign or leading zeros.
pub open spec fn decimal(n: nat) -> Seq<char>
    decreases n,
{
    if n < 10 {
        seq![digit_char(n)]
    } else {
        decimal(n / 10).push(digit_char(n % 10))
    }
}

/// The one-character string for a decimal digit.
fn digit_str(d: u64) -> (s: &'static str)
    requires
        d < 10,
    ensures
        s@ == seq![digit_char(d as nat)],
{
    proof {
        reveal_strlit("0");
        reveal_strlit("1");
        reveal_strlit("2");
        reveal_strlit("3");
        reveal_strlit("4");
        reveal_strlit("5");
        reveal_strlit("6");
        reveal_strlit("7");
        reveal_strlit("8");
        reveal_strlit("9");
    }
    let s = if d == 0 {
        "0"
    } else if d == 1 {
        "1"
    } else if d == 2 {
        "2"
    } else if d == 3 {
        "3"
    } else if d == 4 {
        "4"
    } else if d == 5 {
        "5"
    } else if d == 6 {
        "6"
    } else if d == 7 {
        "7"
    } else if d == 8 {
        "8"
    } else {
        "9"
    };
    assert(s@ =~= seq![digit_char(d as nat)]);
    s
}

/// Appends the decimal numeral of `n` to `out`.
pub fn push_decimal(out: &mut String, n: u64)
    ensures
        final(out)@ == old(out)@ + decimal(n as nat),
    decreases n,
{
    if n >= 10 {
        push_decimal(out, n / 10);
    }
    out.append(digit_str(n % 10));
    assert(out@ =~= old(out)@ + decimal(n as nat));
}

/// Lower-casing does not depend on the case of ASCII letters: the upper-case
/// form of an ASCII string has the same lower-case form as the string itself.
pub proof fn lemma_lowercase_of_ascii_upper(s: Seq<char>)
    requires
        is_ascii_chars(s),
    ensures
        is_ascii_chars(ascii_upper(s)),
        lowercase(ascii_upper(s)) == lowercase(s),
{
    let up = ascii_upper(s);
    assert forall|i: int| 0 <= i < up.len() implies '\0' <= #[trigger] up[i] <= '\u{7f}' by {
        assert('\0' <= s[i] <= '\u{7f}');
    }
    assert(ascii_lower(up) =~= ascii_lower(s));
}

/// Two ASCII strings that differ only in the case of their letters have the
/// same lower-case form.
pub proof fn lemma_lowercase_of_case_variants(a: Seq<char>, b: Seq<char>)
    requires
        is_ascii_chars(a),
        is_ascii_chars(b),
        ascii_lower(a) == ascii_lower(b),
    ensures
        lowercase(a) == lowercase(b),
{
}

} // verus!
