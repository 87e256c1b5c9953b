//! Text primitives shared by the extractor and the search service: decimal and
//! identifier parsing, case folding, and finding a text in a list.
use vstd::prelude::*;

verus! {

/// Whether `c` is one of the ASCII digits.
pub open spec fn is_digit(c: char) -> bool {
    '0' <= c <= '9'
}

/// Whether every character of `s` is an ASCII digit.
pub open spec fn all_digits(s: Seq<char>) -> bool {
    forall|i: int| 0 <= i < s.len() ==> is_digit(#[trigger] s[i])
}

/// The number that a run of ASCII digits denotes in base ten.
pub open spec fn decimal_value(s: Seq<char>) -> int
    decreases s.len(),
{
    if s.len() == 0 {
        0
    } else {
        decimal_value(s.drop_last()) * 10 + (s.last() as int - '0' as int)
    }
}

/// The 64-bit signed integer that `s` denotes: an optional `+` or `-`, then at
/// least one ASCII digit and nothing else, with a value that fits.
pub open spec fn decimal_i64(s: Seq<char>) -> Option<i64> {
    let signed = s.len() > 0 && (s[0] == '-' || s[0] == '+');
    let digits = if signed { s.skip(1) } else { s };
    let magnitude = decimal_value(digits);
    let value = if s.len() > 0 && s[0] == '-' { -magnitude } else { magnitude };
    if digits.len() > 0 && all_digits(digits) && i64::MIN <= value <= i64::MAX {
        Some(value as i64)
    } else {
        None
    }
}

/// The 128-bit value of the identifier that `uuid::Uuid::parse_str` reads from
/// `s`, or `None` where it rejects `s`.
pub uninterp spec fn uuid_value(s: Seq<char>) -> Option<u128>;

/// The text that `str::to_lowercase` returns for `s`.
pub uninterp spec fn lowercase(s: Seq<char>) -> Seq<char>;

/// The text that `str::trim` leaves of `s`.
pub uninterp spec fn trimmed(s: Seq<char>) -> Seq<char>;

/// The lower-case form of an ASCII letter; any other character unchanged.
pub open spec fn ascii_lower(c: char) -> char {
    if 'A' <= c <= 'Z' {
        ((c as u8) + 32u8) as char
    } else {
        c
    }
}

/// Whether two texts are equal up to the case of their ASCII letters.
pub open spec fn same_ignoring_ascii_case(a: Seq<char>, b: Seq<char>) -> bool {
    a.len() == b.len() && forall|i: int|
        0 <= i < a.len() ==> ascii_lower(#[trigger] a[i]) == ascii_lower(b[i])
}

/// `str::parse::<i64>`: succeeds exactly on an optional sign followed by
/// decimal digits whose value fits, and returns that value.
#[verifier::external_body]
pub(crate) fn parse_i64(s: &str) -> (r: Option<i64>)
    ensures
        r == decimal_i64(s@),
{
    match s.parse::<i64>() {
        Ok(v) => Some(v),
        Err(_) => None,
    }
}

/// `uuid::Uuid::parse_str` followed by `Uuid::as_u128`: the result depends on
/// the text alone.
#[verifier::external_body]
pub(crate) fn parse_uuid(s: &str) -> (r: Option<u128>)
    ensures
        r == uuid_value(s@),
{
    match uuid::Uuid::parse_str(s) {
        Ok(id) => Some(id.as_u128()),
        Err(_) => None,
    }
}

/// `str::to_lowercase`: the result depends on the text alone.
#[verifier::external_body]
pub(crate) fn to_lowercase(s: &str) -> (r: String)
    ensures
        r@ == lowercase(s@),
{
    s.to_lowercase()
}

/// `str::trim`: the result depends on the text alone.
#[verifier::external_body]
pub(crate) fn trim(s: &str) -> (r: &str)
    ensures
        r@ == trimmed(s@),
{
    s.trim()
}

/// `str::eq_ignore_ascii_case`: true exactly when the two texts have the same
/// characters once `A` to `Z` are folded to lower case.
#[verifier::external_body]
pub(crate) fn eq_ignore_ascii_case(a: &str, b: &str) -> (r: bool)
    ensures
        r == same_ignoring_ascii_case(a@, b@),
{
    a.eq_ignore_ascii_case(b)
}

/// The characters of each text of a list.
pub open spec fn texts(names: Seq<String>) -> Seq<Seq<char>> {
    Seq::new(names.len(), |i: int| names[i]@)
}

/// Whether no text occurs twice in a list.
pub open spec fn distinct(names: Seq<Seq<char>>) -> bool {
    forall|i: int, j: int| 0 <= i < j < names.len() ==> names[i] != names[j]
}

/// Finds a text in a list.
pub fn position(names: &Vec<String>, wanted: &String) -> (r: Option<usize>)
    ensures
        match r {
            Some(i) => i < names.len() && names[i as int]@ == wanted@,
            None => !texts(names@).contains(wanted@),
        },
{
    let mut i: usize = 0;
    while i < names.len()
        invariant
            i <= names.len(),
            forall|k: int| 0 <= k < i ==> names[k]@ != wanted@,
        decreases names.len() - i,
    {
        if names[i] == *wanted {
            return Some(i);
        }
        i = i + 1;
    }
    assert(!texts(names@).contains(wanted@)) by {
        if texts(names@).contains(wanted@) {
            let k = choose|k: int| 0 <= k < texts(names@).len() && texts(names@)[k] == wanted@;
            assert(names[k]@ == wanted@);
        }
    }
    None
}

/// A copy of an optional text.
pub fn copy_text(o: &Option<String>) -> (r: Option<String>)
    ensures
        r == *o,
{
    match o {
        Some(s) => Some(s.clone()),
        None => None,
    }
}

/// The characters of an optional text.
pub open spec fn text_view(o: Option<String>) -> Option<Seq<char>> {
    match o {
        Some(s) => Some(s@),
        None => None,
    }
}

} // verus!
