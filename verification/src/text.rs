//! Small helpers on strings, stated over their character sequences.

use vstd::prelude::*;
use vstd::string::StringExecFns;

verus! {

/// The character sequences of a list of strings, in order.
pub open spec fn texts(list: Seq<String>) -> Seq<Seq<char>> {
    list.map_values(|s: String| s@)
}

/// Trusted: `str`'s `==` (std's `PartialEq::eq` for `str`). Two string
/// slices compare equal exactly when they hold the same characters.
#[verifier::external_body]
pub(crate) fn str_eq(a: &str, b: &str) -> (same: bool)
    ensures
        same == (a@ == b@),
{
    a == b
}

/// `with`, then each character of `text` followed by `with`.
pub open spec fn interleaved(text: Seq<char>, with: Seq<char>) -> Seq<char>
    decreases text.len(),
{
    if text.len() == 0 {
        with
    } else {
        with + seq![text[0]] + interleaved(text.drop_first(), with)
    }
}

/// `text` with every occurrence of `pattern` replaced by `with`. Occurrences
/// are found scanning from the left and do not overlap. The empty pattern
/// occurs before every character and at the end.
pub open spec fn replaced(text: Seq<char>, pattern: Seq<char>, with: Seq<char>) -> Seq<char>
    decreases text.len(),
{
    if pattern.len() == 0 {
        interleaved(text, with)
    } else if text.len() < pattern.len() {
        text
    } else if text.subrange(0, pattern.len() as int) == pattern {
        with + replaced(text.subrange(pattern.len() as int, text.len() as int), pattern, with)
    } else {
        seq![text[0]] + replaced(text.drop_first(), pattern, with)
    }
}

/// `text` with every occurrence of `pattern` taken out.
pub open spec fn without(text: Seq<char>, pattern: Seq<char>) -> Seq<char> {
    replaced(text, pattern, Seq::empty())
}

/// The characters with the Unicode property `White_Space`.
pub open spec fn is_whitespace(c: char) -> bool {
    let code = c as u32;
    ||| 0x09 <= code <= 0x0d
    ||| code == 0x20
    ||| code == 0x85
    ||| code == 0xa0
    ||| code == 0x1680
    ||| 0x2000 <= code <= 0x200a
    ||| code == 0x2028
    ||| code == 0x2029
    ||| code == 0x202f
    ||| code == 0x205f
    ||| code == 0x3000
}

/// `text` without its leading whitespace.
pub open spec fn trimmed_start(text: Seq<char>) -> Seq<char>
    decreases text.len(),
{
    if text.len() > 0 && is_whitespace(text[0]) {
        trimmed_start(text.drop_first())
    } else {
        text
    }
}

/// `text` without its trailing whitespace.
pub open spec fn trimmed_end(text: Seq<char>) -> Seq<char>
    decreases text.len(),
{
    if text.len() > 0 && is_whitespace(text.last()) {
        trimmed_end(text.drop_last())
    } else {
        text
    }
}

/// `text` without leading and trailing whitespace.
pub open spec fn trimmed(text: Seq<char>) -> Seq<char> {
    trimmed_end(trimmed_start(text))
}

/// Whether `text` begins with `prefix`.
pub open spec fn has_prefix(text: Seq<char>, prefix: Seq<char>) -> bool {
    prefix.len() <= text.len() && text.subrange(0, prefix.len() as int) == prefix
}

/// The number that a run of decimal digits stands for.
pub open spec fn digits_value(digits: Seq<char>) -> nat
    decreases digits.len(),
{
    if digits.len() == 0 {
        0
    } else {
        digits_value(digits.drop_last()) * 10 + ((digits.last() as u32 - '0' as u32) as nat)
    }
}

/// Whether every character is a decimal digit.
pub open spec fn all_digits(text: Seq<char>) -> bool {
    forall|i: int| 0 <= i < text.len() ==> '0' <= #[trigger] text[i] <= '9'
}

/// The `u64` that `text` spells in decimal: an optional `+`, then one or
/// more digits and nothing else, with a value that fits.
pub open spec fn decimal_u64(text: Seq<char>) -> Option<u64> {
    let digits = if text.len() > 0 && text[0] == '+' {
        text.drop_first()
    } else {
        text
    };
    if digits.len() > 0 && all_digits(digits) && digits_value(digits) <= u64::MAX {
        Some(digits_value(digits) as u64)
    } else {
        None
    }
}

/// Trusted: `str::parse::<u64>`. std documents that it expects an optional
/// `+` sign followed by only decimal digits, and fails on anything else, on
/// the empty string and on a value too large for the type.
#[verifier::external_body]
pub(crate) fn parse_u64(text: &str) -> (number: Option<u64>)
    ensures
        number == decimal_u64(text@),
{
    text.parse::<u64>().ok()
}

/// `text` in lower case, as Unicode defines it.
pub uninterp spec fn lowercased(text: Seq<char>) -> Seq<char>;

/// Trusted: `str::to_lowercase`. std documents that it returns the lowercase
/// equivalent of the slice as a new `String`; the mapping is Unicode's and
/// depends on the characters alone.
#[verifier::external_body]
pub(crate) fn to_lowercase(text: &str) -> (lower: String)
    ensures
        lower@ == lowercased(text@),
{
    text.to_lowercase()
}

/// The views of an optional list of strings.
pub open spec fn optional_texts(list: Option<Vec<String>>) -> Option<Seq<Seq<char>>> {
    match list {
        Some(l) => Some(texts(l@)),
        None => None,
    }
}

/// The character for a decimal digit.
pub open spec fn digit_char(digit: nat) -> char {
    if digit == 0 {
        '0'
    } else if digit == 1 {
        '1'
    } else if digit == 2 {
        '2'
    } else if digit == 3 {
        '3'
    } else if digit == 4 {
        '4'
    } else if digit == 5 {
        '5'
    } else if digit == 6 {
        '6'
    } else if digit == 7 {
        '7'
    } else if digit == 8 {
        '8'
    } else {
        '9'
    }
}

/// A natural number in decimal, without leading zeros.
pub open spec fn nat_decimal(n: nat) -> Seq<char>
    decreases n,
{
    if n < 10 {
        seq![digit_char(n)]
    } else {
        nat_decimal(n / 10).push(digit_char(n % 10))
    }
}

/// An integer in decimal, with `-` in front where it is negative.
pub open spec fn int_decimal(n: int) -> Seq<char> {
    if n < 0 {
        seq!['-'] + nat_decimal((-n) as nat)
    } else {
        nat_decimal(n as nat)
    }
}

/// Trusted: `i32`'s `to_string`, which writes the number in decimal.
#[verifier::external_body]
pub(crate) fn i32_to_text(n: i32) -> (text: String)
    ensures
        text@ == int_decimal(n as int),
{
    n.to_string()
}

/// `text` with a backslash put before every double quote.
pub open spec fn quotes_escaped(text: Seq<char>) -> Seq<char> {
    replaced(text, "\""@, "\\\""@)
}

/// `text` with a backslash put before every double quote.
pub fn escape_quotes(text: &str) -> (escaped: String)
    ensures
        escaped@ == quotes_escaped(text@),
{
    replace_all(text, "\"", "\\\"")
}

/// `text` with every occurrence of `pattern` taken out.
pub fn remove_all(text: &str, pattern: &str) -> (rest: String)
    ensures
        rest@ == without(text@, pattern@),
{
    proof {
        reveal_strlit("");
    }
    assert(""@ =~= Seq::<char>::empty());
    replace_all(text, pattern, "")
}

/// Trusted: `str::replace` with a string pattern. std documents that it
/// replaces all matches of the pattern with the replacement; matches are
/// found from the left and are disjoint, and the empty pattern matches at
/// every character boundary.
#[verifier::external_body]
pub(crate) fn replace_all(text: &str, pattern: &str, with: &str) -> (changed: String)
    ensures
        changed@ == replaced(text@, pattern@, with@),
{
    text.replace(pattern, with)
}

/// Trusted: `str::trim`. std documents that it removes leading and trailing
/// whitespace, as the Unicode property `White_Space` defines it.
#[verifier::external_body]
pub(crate) fn trim(text: &str) -> (rest: String)
    ensures
        rest@ == trimmed(text@),
{
    text.trim().to_string()
}

/// Trusted: `str::starts_with` with a string pattern. std documents that it
/// tells whether the pattern matches a prefix of the slice.
#[verifier::external_body]
pub(crate) fn starts_with(text: &str, prefix: &str) -> (found: bool)
    ensures
        found == has_prefix(text@, prefix@),
{
    text.starts_with(prefix)
}

/// The two texts one after the other.
pub fn join(a: &str, b: &str) -> (joined: String)
    ensures
        joined@ == a@ + b@,
{
    String::from_str(a).concat(b)
}

/// The three texts one after the other.
pub fn join3(a: &str, b: &str, c: &str) -> (joined: String)
    ensures
        joined@ == a@ + b@ + c@,
{
    String::from_str(a).concat(b).concat(c)
}

/// A copy of a list of strings, entry by entry.
pub fn copy_texts(list: &Vec<String>) -> (copy: Vec<String>)
    ensures
        texts(copy@) == texts(list@),
        copy@.len() == list@.len(),
{
    let copy = list.clone();
    assert(copy@ =~= list@);
    copy
}

/// A copy of an optional string.
pub fn copy_optional_text(text: &Option<String>) -> (copy: Option<String>)
    ensures
        optional_text(copy) == optional_text(*text),
{
    match text {
        Some(s) => Some(s.clone()),
        None => None,
    }
}

/// The characters of an optional string slice.
pub open spec fn optional_str(text: Option<&str>) -> Option<Seq<char>> {
    match text {
        Some(s) => Some(s@),
        None => None,
    }
}

/// The characters of an optional string.
pub open spec fn optional_text(text: Option<String>) -> Option<Seq<char>> {
    match text {
        Some(s) => Some(s@),
        None => None,
    }
}

} // verus!
