//! The calls into `regex`, `uuid` and std that the logic relies on, each
//! behind a trusted item: a trusted contract, taken without proof.

use vstd::prelude::*;

verus! {

#[verifier::external_type_specification]
#[verifier::external_body]
pub struct ExRegex(regex::Regex);

/// Whether `regex::Regex::new` builds a regex from the pattern (it refuses
/// invalid syntax and patterns over the default size limit).
pub uninterp spec fn regex_valid(pattern: Seq<char>) -> bool;

/// What `regex::Regex::is_match` answers for the regex built from `pattern`
/// on `haystack`: whether the regex matches anywhere in it.
pub uninterp spec fn regex_is_match(pattern: Seq<char>, haystack: Seq<char>) -> bool;

/// What `regex::Regex::replace_all` returns for the regex built from
/// `pattern`, the haystack and the replacement.
pub uninterp spec fn regex_replace_all(
    pattern: Seq<char>,
    haystack: Seq<char>,
    replacement: Seq<char>,
) -> Seq<char>;

/// What `String::from_utf8_lossy` decodes from the bytes.
pub uninterp spec fn utf8_lossy(bytes: Seq<u8>) -> Seq<char>;

/// A regex together with the pattern it was built from. Only
/// `compile_pattern` builds one, so `regex` is always the regex of `source`.
pub(crate) struct CompiledPattern {
    source: String,
    regex: regex::Regex,
}

impl CompiledPattern {
    /// The pattern this regex was built from.
    pub(crate) closed spec fn source(&self) -> Seq<char> {
        self.source@
    }
}

/// Calls `regex::Regex::new`. Trusted: the result is `Some` exactly when
/// `regex_valid` holds of the pattern, and it remembers the pattern.
#[verifier::external_body]
pub(crate) fn compile_pattern(pattern: &str) -> (res: Option<CompiledPattern>)
    ensures
        res is Some <==> regex_valid(pattern@),
        res matches Some(c) ==> c.source() == pattern@,
{
    match regex::Regex::new(pattern) {
        Ok(regex) => Some(CompiledPattern { source: pattern.to_string(), regex }),
        Err(_) => None,
    }
}

/// Calls `regex::Regex::is_match`. Trusted: the answer is `regex_is_match`
/// of the regex's pattern and the haystack.
#[verifier::external_body]
pub(crate) fn pattern_is_match(re: &CompiledPattern, haystack: &str) -> (res: bool)
    ensures
        res == regex_is_match(re.source(), haystack@),
{
    re.regex.is_match(haystack)
}

/// Calls `regex::Regex::replace_all`. Trusted: the result is
/// `regex_replace_all` of the regex's pattern, the haystack and the
/// replacement, and (as the crate documents) the haystack itself when the
/// regex does not match it.
#[verifier::external_body]
pub(crate) fn pattern_replace_all(re: &CompiledPattern, haystack: &str, replacement: &str) -> (res: String)
    ensures
        res@ == regex_replace_all(re.source(), haystack@, replacement@),
        !regex_is_match(re.source(), haystack@) ==> res@ == haystack@,
{
    re.regex.replace_all(haystack, replacement).into_owned()
}

/// Calls `String::from_utf8_lossy`. Trusted: the result is `utf8_lossy` of
/// the bytes, and bytes that are all ASCII decode one character each.
#[verifier::external_body]
pub(crate) fn utf8_lossy_string(bytes: &[u8]) -> (res: String)
    ensures
        res@ == utf8_lossy(bytes@),
        (forall|i: int| 0 <= i < bytes@.len() ==> bytes@[i] < 128) ==> res@ == bytes@.map_values(
            |b: u8| b as char,
        ),
{
    String::from_utf8_lossy(bytes).into_owned()
}

/// Whether `c` is a lowercase hexadecimal digit.
pub open spec fn is_lower_hex(c: char) -> bool {
    ('0' <= c && c <= '9') || ('a' <= c && c <= 'f')
}

/// The shape of a UUID written as `uuid` displays it: 36 characters,
/// hyphens at 8, 13, 18 and 23, lowercase hexadecimal digits elsewhere.
pub open spec fn is_hyphenated_uuid(s: Seq<char>) -> bool {
    &&& s.len() == 36
    &&& forall|i: int|
        0 <= i < 36 ==> if i == 8 || i == 13 || i == 18 || i == 23 {
            s[i] == '-'
        } else {
            is_lower_hex(#[trigger] s[i])
        }
}

/// A version 7 UUID as `uuid` displays it: hyphenated lowercase text whose
/// version digit (at 14) is `7` and whose variant digit (at 19) is one of
/// `8`, `9`, `a`, `b`.
pub open spec fn is_uuid_v7_text(s: Seq<char>) -> bool {
    &&& is_hyphenated_uuid(s)
    &&& s[14] == '7'
    &&& (s[19] == '8' || s[19] == '9' || s[19] == 'a' || s[19] == 'b')
}

/// Calls `uuid::Uuid::now_v7` and displays the result. Trusted: the value
/// depends on the clock and on chance, so only its shape is stated: the
/// hyphenated form, the version digit and the variant digit.
#[verifier::external_body]
pub(crate) fn new_request_id() -> (res: String)
    ensures
        is_uuid_v7_text(res@),
{
    uuid::Uuid::now_v7().to_string()
}

/// Collects characters into a `String` (std's `FromIterator<char>`).
/// Trusted: the string holds exactly those characters.
#[verifier::external_body]
pub(crate) fn string_from_chars(chars: &[char]) -> (res: String)
    ensures
        res@ == chars@,
{
    chars.iter().collect()
}

} // verus!
