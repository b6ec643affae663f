//! Small input-shape helpers and the language tag shared by the account
//! and client flows.

use vstd::prelude::*;
use vstd::utf8::encode_utf8;

verus! {

/// An inclusive length range for a text input.
pub struct StringRange {
    pub min: usize,
    pub max: usize,
}

/// The UTF-8 byte length of a string — the measure the storage layer's
/// column limits use, and the one every length check below works in.
pub open spec fn byte_len(s: Seq<char>) -> nat {
    encode_utf8(s).len()
}

fn username_length_range() -> (r: StringRange)
    ensures
        r.min == 6 && r.max == 20,
{
    StringRange { min: 6, max: 20 }
}

fn password_length_range() -> (r: StringRange)
    ensures
        r.min == 6 && r.max == 16,
{
    StringRange { min: 6, max: 16 }
}

fn real_name_length_range() -> (r: StringRange)
    ensures
        r.min == 2 && r.max == 50,
{
    StringRange { min: 2, max: 50 }
}

/// True when the byte length of `string` lies inside `range_obj`, both
/// ends included.
pub fn string_length_valid(range_obj: StringRange, string: &String) -> (r: bool)
    ensures
        r == (range_obj.min <= byte_len(string@) && byte_len(string@) <= range_obj.max),
{
    let string_length: usize = string.as_str().as_bytes().len();
    range_obj.min <= string_length && string_length <= range_obj.max
}

/// A real name is acceptable when it is 2 to 50 bytes long.
pub fn validate_real_name(name: &String) -> (r: bool)
    ensures
        r == (2 <= byte_len(name@) && byte_len(name@) <= 50),
{
    string_length_valid(real_name_length_range(), name)
}

/// The stable client id under which the identity provider registers its
/// own site.
pub fn auth_client_id() -> (r: String)
    ensures
        r@ == "auth_site"@,
{
    "auth_site".to_owned()
}

/// What `str::trim` returns for a string: the string with leading and
/// trailing whitespace removed.  Stated as a name; only the fact that
/// nothing is added is used.
pub uninterp spec fn trimmed(s: Seq<char>) -> Seq<char>;

/// Relies on `str::trim`: a pure function of the string that removes
/// leading and trailing whitespace, returning a substring; its result
/// carries no whitespace to remove, so trimming is idempotent.
#[verifier::external_body]
pub(crate) fn trim_str(s: &str) -> (r: String)
    ensures
        r@ == trimmed(s@),
        r@.len() <= s@.len(),
        trimmed(r@) == r@,
{
    s.trim().to_owned()
}

/// The interface languages the site can answer in.
#[derive(Clone, Copy, PartialEq, Eq, Structural, Debug)]
pub enum SupportedLangs {
    French,
    English,
}

/// `s` starts with the two characters `a`, `b`.
pub open spec fn starts_with_pair(s: Seq<char>, a: char, b: char) -> bool {
    s.len() >= 2 && s[0] == a && s[1] == b
}

impl SupportedLangs {
    /// The translation-key suffix of this language.
    pub fn suffix(&self) -> (r: &'static str)
        ensures
            *self is English ==> r@ == "en"@,
            *self is French ==> r@ == "fr"@,
    {
        match self {
            SupportedLangs::English => "en",
            SupportedLangs::French => "fr",
        }
    }

    /// Read a language from an accept-language value or a stored tag;
    /// anything that names neither language falls back to English.
    pub fn from(input: &str) -> (r: SupportedLangs)
        ensures
            starts_with_pair(input@, 'e', 'n') ==> r is English,
            starts_with_pair(input@, 'f', 'r') ==> r is French,
            !starts_with_pair(input@, 'e', 'n') && !starts_with_pair(input@, 'f', 'r')
                ==> r is English,
    {
        let n = input.unicode_len();
        if n >= 2 {
            let c0 = input.get_char(0);
            let c1 = input.get_char(1);
            if c0 == 'e' && c1 == 'n' {
                return SupportedLangs::English;
            }
            if c0 == 'f' && c1 == 'r' {
                return SupportedLangs::French;
            }
        }
        SupportedLangs::English
    }
}

} // verus!
