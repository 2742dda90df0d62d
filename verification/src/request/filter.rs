//! Trying the policy rules on a request.

use vstd::prelude::*;

use super::{HeaderField, RequestData};
use crate::config::{PolicyConfig, RulesConfig};
use crate::outside::{
    compile_pattern, pattern_is_match, regex_is_match, regex_valid, string_from_chars, utf8_lossy,
    utf8_lossy_string,
};
use crate::text::{chars_of, extend_chars};

verus! {

/// Why a rule could not be tried on a part of a request.
#[derive(Debug, Clone, Copy, PartialEq, Eq)]
pub enum FilterError {
    /// The rule's pattern is not a regular expression that `regex` accepts.
    InvalidPattern,
    /// A header value holds a byte that is not visible ASCII.
    InvalidHeaderValue,
}

/// A byte that a header value may hold and still be read as text:
/// visible ASCII or a tab.
pub open spec fn is_visible_ascii(b: u8) -> bool {
    (32 <= b && b < 127) || b == 9
}

pub open spec fn all_visible_ascii(bytes: Seq<u8>) -> bool {
    forall|i: int| 0 <= i < bytes.len() ==> is_visible_ascii(#[trigger] bytes[i])
}

/// ASCII bytes read as characters, one each.
pub open spec fn ascii_chars(bytes: Seq<u8>) -> Seq<char> {
    bytes.map_values(|b: u8| b as char)
}

/// A header as the rules see it: `name: value`.
pub open spec fn header_line(h: HeaderField) -> Seq<char> {
    h.name@ + seq![':', ' '] + ascii_chars(h.value@)
}

/// Trying one rule's pattern on a text.
pub open spec fn spec_check_regex_pattern(obj: RulesConfig, val: Seq<char>) -> Result<
    Option<RulesConfig>,
    FilterError,
> {
    if !regex_valid(obj.pattern@) {
        Err(FilterError::InvalidPattern)
    } else if regex_is_match(obj.pattern@, val) {
        Ok(Some(obj))
    } else {
        Ok(None)
    }
}

/// Trying one rule's pattern on the headers, in order: the first header that
/// cannot be read as text, or the first error or match, ends the search.
pub open spec fn spec_check_header(obj: RulesConfig, headers: Seq<HeaderField>) -> Result<
    Option<RulesConfig>,
    FilterError,
>
    decreases headers.len(),
{
    if headers.len() == 0 {
        Ok(None)
    } else if !all_visible_ascii(headers[0].value@) {
        Err(FilterError::InvalidHeaderValue)
    } else {
        match spec_check_regex_pattern(obj, header_line(headers[0])) {
            Ok(None) => spec_check_header(obj, headers.drop_first()),
            other => other,
        }
    }
}

/// A header search that finds a match reports the rule it was searching with.
pub proof fn lemma_header_hit_is_rule(obj: RulesConfig, headers: Seq<HeaderField>)
    ensures
        spec_check_header(obj, headers) matches Ok(Some(r)) ==> r == obj,
    decreases headers.len(),
{
    if headers.len() > 0 && all_visible_ascii(headers[0].value@) {
        lemma_header_hit_is_rule(obj, headers.drop_first());
    }
}

/// Whether a check found the rule matching.
pub open spec fn is_hit(r: Result<Option<RulesConfig>, FilterError>) -> bool {
    r matches Ok(Some(_))
}

/// A rule matches a request when it matches one of the parts it is set to
/// check: the URI path, a header, or the body read as UTF-8.
pub open spec fn rule_matches(rule: RulesConfig, req: RequestData) -> bool {
    ||| rule.option.uri && is_hit(spec_check_regex_pattern(rule, req.uri@))
    ||| rule.option.header && is_hit(spec_check_header(rule, req.headers@))
    ||| rule.option.body && is_hit(spec_check_regex_pattern(rule, utf8_lossy(req.body@)))
}

/// The rule itself when it matches the request, nothing otherwise.
pub open spec fn rule_verdict(rule: RulesConfig, req: RequestData) -> Option<RulesConfig> {
    if rule_matches(rule, req) {
        Some(rule)
    } else {
        None
    }
}

/// Some rule of the list matches the request.
pub open spec fn blocked_by(rules: Seq<RulesConfig>, req: RequestData) -> bool {
    exists|i: int| 0 <= i < rules.len() && rule_matches(#[trigger] rules[i], req)
}

/// A request is refused when some rule of the policy matches it.
pub open spec fn is_blocked(policy: PolicyConfig, req: RequestData) -> bool {
    blocked_by(policy.policy_block@, req)
}

/// A rule set to check no part of a request never matches.
pub proof fn lemma_rule_without_parts_never_matches(rule: RulesConfig, req: RequestData)
    requires
        !rule.option.uri,
        !rule.option.header,
        !rule.option.body,
    ensures
        !rule_matches(rule, req),
{
}

/// Searching the headers with an invalid pattern never finds a match.
proof fn lemma_invalid_pattern_header_miss(obj: RulesConfig, headers: Seq<HeaderField>)
    requires
        !regex_valid(obj.pattern@),
    ensures
        !is_hit(spec_check_header(obj, headers)),
    decreases headers.len(),
{
    if headers.len() > 0 && all_visible_ascii(headers[0].value@) {
        lemma_invalid_pattern_header_miss(obj, headers.drop_first());
    }
}

/// A rule whose pattern is not a valid regular expression never matches.
pub proof fn lemma_invalid_pattern_never_matches(rule: RulesConfig, req: RequestData)
    requires
        !regex_valid(rule.pattern@),
    ensures
        !rule_matches(rule, req),
{
    lemma_invalid_pattern_header_miss(rule, req.headers@);
}

/// Whether a rule matches depends only on the parts of the request it is
/// set to check.
pub proof fn lemma_rule_reads_only_its_parts(rule: RulesConfig, req1: RequestData, req2: RequestData)
    requires
        rule.option.uri ==> req1.uri@ == req2.uri@,
        rule.option.header ==> req1.headers@ == req2.headers@,
        rule.option.body ==> req1.body@ == req2.body@,
    ensures
        rule_matches(rule, req1) == rule_matches(rule, req2),
{
}

/// An empty policy refuses no request.
pub proof fn lemma_empty_policy_blocks_nothing(req: RequestData)
    ensures
        !blocked_by(Seq::<RulesConfig>::empty(), req),
{
}

/// Two rule lists together refuse exactly the requests that either refuses:
/// adding rules never lets a refused request through, and the order of the
/// rules does not change which requests are refused.
pub proof fn lemma_blocking_is_union(a: Seq<RulesConfig>, b: Seq<RulesConfig>, req: RequestData)
    ensures
        blocked_by(a + b, req) == (blocked_by(a, req) || blocked_by(b, req)),
        blocked_by(a + b, req) == blocked_by(b + a, req),
{
    assert forall|i: int| 0 <= i < a.len() implies (a + b)[i] == a[i] && (b + a)[b.len() + i] == a[i] by {}
    assert forall|i: int| 0 <= i < b.len() implies (a + b)[a.len() + i] == b[i] && (b + a)[i] == b[i] by {}
    if blocked_by(a, req) {
        let i = choose|i: int| 0 <= i < a.len() && rule_matches(#[trigger] a[i], req);
        assert(rule_matches((a + b)[i], req));
        assert(rule_matches((b + a)[b.len() + i], req));
    }
    if blocked_by(b, req) {
        let i = choose|i: int| 0 <= i < b.len() && rule_matches(#[trigger] b[i], req);
        assert(rule_matches((a + b)[a.len() + i], req));
        assert(rule_matches((b + a)[i], req));
    }
    if blocked_by(a + b, req) {
        let i = choose|i: int| 0 <= i < (a + b).len() && rule_matches(#[trigger] (a + b)[i], req);
        if i < a.len() {
            assert(rule_matches(a[i], req));
        } else {
            assert(rule_matches(b[i - a.len()], req));
        }
    }
    if blocked_by(b + a, req) {
        let i = choose|i: int| 0 <= i < (b + a).len() && rule_matches(#[trigger] (b + a)[i], req);
        if i < b.len() {
            assert(rule_matches(b[i], req));
        } else {
            assert(rule_matches(a[i - b.len()], req));
        }
    }
}

/// The headers up to and including the one at `i` can all be read as text.
spec fn readable_through(hs: Seq<HeaderField>, i: int) -> bool {
    forall|j: int| 0 <= j <= i ==> all_visible_ascii(#[trigger] hs[j].value@)
}

proof fn lemma_header_hit_iff(obj: RulesConfig, hs: Seq<HeaderField>)
    ensures
        is_hit(spec_check_header(obj, hs)) <==> regex_valid(obj.pattern@) && exists|i: int|
            0 <= i < hs.len() && readable_through(hs, i) && regex_is_match(
                obj.pattern@,
                #[trigger] header_line(hs[i]),
            ),
    decreases hs.len(),
{
    if hs.len() > 0 {
        let rest = hs.drop_first();
        lemma_header_hit_iff(obj, rest);
        if all_visible_ascii(hs[0].value@) && regex_valid(obj.pattern@) {
            if regex_is_match(obj.pattern@, header_line(hs[0])) {
                assert(readable_through(hs, 0));
            } else {
                if is_hit(spec_check_header(obj, rest)) {
                    let k = choose|k: int|
                        0 <= k < rest.len() && readable_through(rest, k) && regex_is_match(
                            obj.pattern@,
                            #[trigger] header_line(rest[k]),
                        );
                    assert(hs[k + 1] == rest[k]);
                    assert forall|j: int| 0 <= j <= k + 1 implies all_visible_ascii(#[trigger] hs[j].value@) by {
                        if j > 0 {
                            assert(hs[j] == rest[j - 1]);
                        }
                    }
                    assert(regex_is_match(obj.pattern@, header_line(hs[k + 1])));
                }
                if exists|i: int|
                    0 <= i < hs.len() && readable_through(hs, i) && regex_is_match(
                        obj.pattern@,
                        #[trigger] header_line(hs[i]),
                    ) {
                    let i = choose|i: int|
                        0 <= i < hs.len() && readable_through(hs, i) && regex_is_match(
                            obj.pattern@,
                            #[trigger] header_line(hs[i]),
                        );
                    assert(i > 0);
                    assert(rest[i - 1] == hs[i]);
                    assert forall|j: int| 0 <= j <= i - 1 implies all_visible_ascii(#[trigger] rest[j].value@) by {
                        assert(rest[j] == hs[j + 1]);
                    }
                    assert(regex_is_match(obj.pattern@, header_line(rest[i - 1])));
                }
            }
        } else if !all_visible_ascii(hs[0].value@) {
            assert forall|i: int| 0 <= i < hs.len() implies !readable_through(hs, i) by {
                assert(!all_visible_ascii(hs[0].value@));
            }
        }
    }
}

/// A rule matches a request exactly when its pattern is a valid regular
/// expression and matches one of the parts the rule is set to check: the
/// URI path; a header written `name: value`, provided every header up to
/// and including it holds only visible ASCII or tabs; or the body decoded
/// as lossy UTF-8. Its verdict is then the rule itself, and nothing
/// otherwise. Every enabled part counts, whichever others are enabled.
pub proof fn lemma_rule_matches_by_parts(rule: RulesConfig, req: RequestData)
    ensures
        rule_matches(rule, req) <==> regex_valid(rule.pattern@) && {
            ||| rule.option.uri && regex_is_match(rule.pattern@, req.uri@)
            ||| rule.option.body && regex_is_match(rule.pattern@, utf8_lossy(req.body@))
            ||| rule.option.header && exists|i: int|
                #![trigger req.headers@[i]]
                0 <= i < req.headers@.len() && (forall|j: int, k: int|
                    0 <= j <= i && 0 <= k < req.headers@[j].value@.len() ==> {
                        let b = #[trigger] req.headers@[j].value@[k];
                        (32 <= b && b < 127) || b == 9
                    }) && regex_is_match(
                    rule.pattern@,
                    req.headers@[i].name@ + seq![':', ' '] + req.headers@[i].value@.map_values(
                        |b: u8| b as char,
                    ),
                )
        },
        rule_matches(rule, req) ==> rule_verdict(rule, req) == Some(rule),
        !rule_matches(rule, req) ==> rule_verdict(rule, req) == None::<RulesConfig>,
{
    let p = rule.pattern@;
    let hs = req.headers@;
    lemma_header_hit_iff(rule, hs);
    assert forall|i: int| 0 <= i < hs.len() implies (readable_through(hs, i) <==> (forall|j: int, k: int|
        0 <= j <= i && 0 <= k < hs[j].value@.len() ==> {
            let b = #[trigger] hs[j].value@[k];
            (32 <= b && b < 127) || b == 9
        })) by {
        if readable_through(hs, i) {
            assert forall|j: int, k: int| 0 <= j <= i && 0 <= k < hs[j].value@.len() implies {
                let b = #[trigger] hs[j].value@[k];
                (32 <= b && b < 127) || b == 9
            } by {
                assert(all_visible_ascii(hs[j].value@));
                assert(is_visible_ascii(hs[j].value@[k]));
            }
        }
        if forall|j: int, k: int|
            0 <= j <= i && 0 <= k < hs[j].value@.len() ==> {
                let b = #[trigger] hs[j].value@[k];
                (32 <= b && b < 127) || b == 9
            } {
            assert forall|j: int| 0 <= j <= i implies all_visible_ascii(#[trigger] hs[j].value@) by {
                assert forall|k: int| 0 <= k < hs[j].value@.len() implies is_visible_ascii(#[trigger] hs[j].value@[k]) by {
                    let b = hs[j].value@[k];
                    assert((32 <= b && b < 127) || b == 9);
                }
            }
        }
    }
    let lhs = exists|i: int|
        0 <= i < hs.len() && readable_through(hs, i) && regex_is_match(p, #[trigger] header_line(hs[i]));
    let rhs = exists|i: int|
        #![trigger hs[i]]
        0 <= i < hs.len() && (forall|j: int, k: int|
            0 <= j <= i && 0 <= k < hs[j].value@.len() ==> {
                let b = #[trigger] hs[j].value@[k];
                (32 <= b && b < 127) || b == 9
            }) && regex_is_match(p, hs[i].name@ + seq![':', ' '] + hs[i].value@.map_values(|b: u8| b as char));
    if lhs {
        let i = choose|i: int|
            0 <= i < hs.len() && readable_through(hs, i) && regex_is_match(p, #[trigger] header_line(hs[i]));
        assert(header_line(hs[i]) == hs[i].name@ + seq![':', ' '] + hs[i].value@.map_values(|b: u8| b as char));
        assert(rhs);
    }
    if rhs {
        let i = choose|i: int|
            #![trigger hs[i]]
            0 <= i < hs.len() && (forall|j: int, k: int|
                0 <= j <= i && 0 <= k < hs[j].value@.len() ==> {
                    let b = #[trigger] hs[j].value@[k];
                    (32 <= b && b < 127) || b == 9
                }) && regex_is_match(p, hs[i].name@ + seq![':', ' '] + hs[i].value@.map_values(|b: u8| b as char));
        assert(header_line(hs[i]) == hs[i].name@ + seq![':', ' '] + hs[i].value@.map_values(|b: u8| b as char));
        assert(readable_through(hs, i));
        assert(lhs);
    }
    assert(is_hit(spec_check_header(rule, hs)) <==> regex_valid(p) && lhs);
}

/// A policy refuses a request exactly when some rule of it, at any
/// position, gives a verdict on the request; adding rules never lets a
/// refused request through.
pub proof fn lemma_blocked_iff_some_rule(policy: PolicyConfig, req: RequestData)
    ensures
        is_blocked(policy, req) <==> exists|i: int|
            0 <= i < policy.policy_block@.len() && #[trigger] rule_verdict(policy.policy_block@[i], req) is Some,
{
    if is_blocked(policy, req) {
        let i = choose|i: int| 0 <= i < policy.policy_block@.len() && rule_matches(#[trigger] policy.policy_block@[i], req);
        assert(rule_verdict(policy.policy_block@[i], req) is Some);
    }
    if exists|i: int|
        0 <= i < policy.policy_block@.len() && #[trigger] rule_verdict(policy.policy_block@[i], req) is Some {
        let i = choose|i: int|
            0 <= i < policy.policy_block@.len() && #[trigger] rule_verdict(policy.policy_block@[i], req) is Some;
        assert(rule_matches(policy.policy_block@[i], req));
    }
}

/// What the text helpers mean: a value can be read as text when every byte
/// is visible ASCII or a tab; read as text, each byte gives the character
/// with the same code; a header is written as its name, `: `, its value.
pub proof fn lemma_text_helpers(h: HeaderField, v: Seq<u8>)
    ensures
        all_visible_ascii(v) <==> forall|k: int|
            0 <= k < v.len() ==> {
                let b = #[trigger] v[k];
                (32 <= b && b < 127) || b == 9
            },
        ascii_chars(v).len() == v.len(),
        forall|k: int| 0 <= k < v.len() ==> #[trigger] ascii_chars(v)[k] == v[k] as char,
        header_line(h) == h.name@ + seq![':', ' '] + h.value@.map_values(|b: u8| b as char),
{
}

/// Trying a pattern on a text: an error exactly when the pattern is not a
/// valid regular expression, else the rule when the regex matches the text
/// and nothing when it does not.
pub proof fn lemma_check_regex_pattern_outcomes(obj: RulesConfig, val: Seq<char>)
    ensures
        spec_check_regex_pattern(obj, val) == Err::<Option<RulesConfig>, FilterError>(FilterError::InvalidPattern)
            <==> !regex_valid(obj.pattern@),
        spec_check_regex_pattern(obj, val) == Ok::<Option<RulesConfig>, FilterError>(Some(obj))
            <==> regex_valid(obj.pattern@) && regex_is_match(obj.pattern@, val),
        spec_check_regex_pattern(obj, val) == Ok::<Option<RulesConfig>, FilterError>(None)
            <==> regex_valid(obj.pattern@) && !regex_is_match(obj.pattern@, val),
{
}

/// A header the search goes past: it reads as text, the pattern is valid,
/// and the regex does not match the header's line.
pub open spec fn header_passed(obj: RulesConfig, h: HeaderField) -> bool {
    &&& all_visible_ascii(h.value@)
    &&& regex_valid(obj.pattern@)
    &&& !regex_is_match(obj.pattern@, header_line(h))
}

/// Searching the headers finds nothing exactly when the search goes past
/// every header.
pub proof fn lemma_check_header_finds_nothing(obj: RulesConfig, hs: Seq<HeaderField>)
    ensures
        spec_check_header(obj, hs) == Ok::<Option<RulesConfig>, FilterError>(None) <==> forall|j: int|
            0 <= j < hs.len() ==> header_passed(obj, #[trigger] hs[j]),
    decreases hs.len(),
{
    if hs.len() > 0 {
        let rest = hs.drop_first();
        lemma_check_header_finds_nothing(obj, rest);
        if header_passed(obj, hs[0]) {
            if forall|j: int| 0 <= j < rest.len() ==> header_passed(obj, #[trigger] rest[j]) {
                assert forall|j: int| 0 <= j < hs.len() implies header_passed(obj, #[trigger] hs[j]) by {
                    if j > 0 {
                        assert(hs[j] == rest[j - 1]);
                    }
                }
            }
            if forall|j: int| 0 <= j < hs.len() ==> header_passed(obj, #[trigger] hs[j]) {
                assert forall|j: int| 0 <= j < rest.len() implies header_passed(obj, #[trigger] rest[j]) by {
                    assert(rest[j] == hs[j + 1]);
                }
            }
        } else {
            assert(!header_passed(obj, hs[0]));
        }
    }
}

/// Searching the headers fails on the pattern exactly when there is a
/// first header, it reads as text, and the pattern is not a valid regex.
pub proof fn lemma_check_header_invalid_pattern(obj: RulesConfig, hs: Seq<HeaderField>)
    ensures
        spec_check_header(obj, hs) == Err::<Option<RulesConfig>, FilterError>(FilterError::InvalidPattern)
            <==> !regex_valid(obj.pattern@) && hs.len() > 0 && all_visible_ascii(hs[0].value@),
    decreases hs.len(),
{
    if hs.len() > 0 && all_visible_ascii(hs[0].value@) && regex_valid(obj.pattern@) {
        lemma_check_header_invalid_pattern(obj, hs.drop_first());
    }
}

/// Searching the headers fails on a header value exactly when the search
/// goes past every header before some header that does not read as text.
pub proof fn lemma_check_header_unreadable(obj: RulesConfig, hs: Seq<HeaderField>)
    ensures
        spec_check_header(obj, hs) == Err::<Option<RulesConfig>, FilterError>(FilterError::InvalidHeaderValue)
            <==> exists|i: int|
            0 <= i < hs.len() && !all_visible_ascii(#[trigger] hs[i].value@) && forall|j: int|
                0 <= j < i ==> header_passed(obj, #[trigger] hs[j]),
    decreases hs.len(),
{
    if hs.len() > 0 {
        let rest = hs.drop_first();
        lemma_check_header_unreadable(obj, rest);
        if !all_visible_ascii(hs[0].value@) {
            assert(!all_visible_ascii(hs[0].value@) && forall|j: int| 0 <= j < 0 ==> header_passed(obj, #[trigger] hs[j]));
        } else if header_passed(obj, hs[0]) {
            if exists|i: int|
                0 <= i < rest.len() && !all_visible_ascii(#[trigger] rest[i].value@) && forall|j: int|
                    0 <= j < i ==> header_passed(obj, #[trigger] rest[j]) {
                let i = choose|i: int|
                    0 <= i < rest.len() && !all_visible_ascii(#[trigger] rest[i].value@) && forall|j: int|
                        0 <= j < i ==> header_passed(obj, #[trigger] rest[j]);
                assert(hs[i + 1] == rest[i]);
                assert forall|j: int| 0 <= j < i + 1 implies header_passed(obj, #[trigger] hs[j]) by {
                    if j > 0 {
                        assert(hs[j] == rest[j - 1]);
                    }
                }
            }
            if exists|i: int|
                0 <= i < hs.len() && !all_visible_ascii(#[trigger] hs[i].value@) && forall|j: int|
                    0 <= j < i ==> header_passed(obj, #[trigger] hs[j]) {
                let i = choose|i: int|
                    0 <= i < hs.len() && !all_visible_ascii(#[trigger] hs[i].value@) && forall|j: int|
                        0 <= j < i ==> header_passed(obj, #[trigger] hs[j]);
                assert(i > 0);
                assert(rest[i - 1] == hs[i]);
                assert forall|j: int| 0 <= j < i - 1 implies header_passed(obj, #[trigger] rest[j]) by {
                    assert(rest[j] == hs[j + 1]);
                }
            }
        } else {
            assert forall|i: int|
                0 <= i < hs.len() && !all_visible_ascii(#[trigger] hs[i].value@) implies !(forall|j: int|
                    0 <= j < i ==> header_passed(obj, #[trigger] hs[j])) by {
                assert(!header_passed(obj, hs[0]));
            }
        }
    }
}

/// A header value read as text, when all its bytes are visible ASCII (as
/// `HeaderValue::to_str` reads it).
pub fn header_value_to_str(value: &[u8]) -> (res: Option<String>)
    ensures
        res is Some <==> all_visible_ascii(value@),
        res matches Some(s) ==> s@ == ascii_chars(value@),
{
    let n = value.len();
    let mut out: Vec<char> = Vec::new();
    for i in 0..n
        invariant
            n == value@.len(),
            forall|j: int| 0 <= j < i ==> is_visible_ascii(#[trigger] value@[j]),
            out@ == ascii_chars(value@.take(i as int)),
    {
        let b = value[i];
        if !((32 <= b && b < 127) || b == 9) {
            return None;
        }
        out.push(b as char);
        assert(ascii_chars(value@.take(i + 1)) =~= ascii_chars(value@.take(i as int)).push(b as char));
    }
    assert(value@.take(n as int) =~= value@);
    Some(string_from_chars(out.as_slice()))
}

/// The outcome of trying a rule's pattern, given what the regex engine
/// answered: nothing when the pattern was refused, else whether it matched.
pub fn pattern_verdict(obj: &RulesConfig, is_match: Option<bool>) -> (res: Result<
    Option<RulesConfig>,
    FilterError,
>)
    ensures
        is_match is None ==> res == Err::<Option<RulesConfig>, FilterError>(FilterError::InvalidPattern),
        is_match == Some(true) ==> res == Ok::<Option<RulesConfig>, FilterError>(Some(*obj)),
        is_match == Some(false) ==> res == Ok::<Option<RulesConfig>, FilterError>(None),
{
    match is_match {
        None => Err(FilterError::InvalidPattern),
        Some(true) => Ok(Some(obj.duplicate())),
        Some(false) => Ok(None),
    }
}

/// Tries the rule's pattern on `val`: the rule when it matches, nothing when
/// it does not, an error when the pattern is not a valid regular expression.
pub fn check_regex_pattern(obj: &RulesConfig, val: &str) -> (res: Result<
    Option<RulesConfig>,
    FilterError,
>)
    ensures
        res == spec_check_regex_pattern(*obj, val@),
{
    let is_match = match compile_pattern(obj.pattern.as_str()) {
        None => None,
        Some(regex) => Some(pattern_is_match(&regex, val)),
    };
    pattern_verdict(obj, is_match)
}

/// Tries the rule's pattern on each header, written `name: value`, in order.
pub fn check_header(obj: &RulesConfig, header: &Vec<HeaderField>) -> (res: Result<
    Option<RulesConfig>,
    FilterError,
>)
    ensures
        res == spec_check_header(*obj, header@),
{
    let n = header.len();
    assert(header@.skip(0) =~= header@);
    for i in 0..n
        invariant
            n == header@.len(),
            spec_check_header(*obj, header@) == spec_check_header(*obj, header@.skip(i as int)),
    {
        let ghost rest = header@.skip(i as int);
        assert(rest[0] == header@[i as int]);
        assert(rest.drop_first() =~= header@.skip(i + 1));
        let field = &header[i];
        match header_value_to_str(field.value.as_slice()) {
            None => {
                return Err(FilterError::InvalidHeaderValue);
            },
            Some(value) => {
                let mut line = chars_of(field.name.as_str());
                line.push(':');
                line.push(' ');
                let value_chars = chars_of(value.as_str());
                extend_chars(&mut line, value_chars.as_slice());
                assert(line@ =~= header_line(header@[i as int]));
                let header_string = string_from_chars(line.as_slice());
                let found = check_regex_pattern(obj, header_string.as_str());
                match found {
                    Ok(None) => {},
                    _ => {
                        return found;
                    },
                }
            },
        }
    }
    assert(header@.skip(n as int).len() == 0);
    Ok(None)
}

/// Tries every rule of the policy on the request. The result has one entry
/// per rule, in order: the rule when it matches the request, nothing
/// otherwise.
pub fn check_rules(list_patterns: &PolicyConfig, req_data: &RequestData) -> (res: Vec<
    Option<RulesConfig>,
>)
    ensures
        res@.len() == list_patterns.policy_block@.len(),
        forall|i: int|
            0 <= i < res@.len() ==> #[trigger] res@[i] == rule_verdict(
                list_patterns.policy_block@[i],
                *req_data,
            ),
{
    let body_string = utf8_lossy_string(req_data.body.as_slice());
    let mut results: Vec<Option<RulesConfig>> = Vec::new();
    let n = list_patterns.policy_block.len();
    for k in 0..n
        invariant
            n == list_patterns.policy_block@.len(),
            body_string@ == utf8_lossy(req_data.body@),
            results@.len() == k,
            forall|i: int|
                0 <= i < k ==> #[trigger] results@[i] == rule_verdict(
                    list_patterns.policy_block@[i],
                    *req_data,
                ),
    {
        let obj = &list_patterns.policy_block[k];
        proof {
            lemma_header_hit_is_rule(*obj, req_data.headers@);
        }
        let mut match_result: Option<RulesConfig> = None;
        if obj.option.uri {
            if let Ok(Some(matched)) = check_regex_pattern(obj, req_data.uri.as_str()) {
                match_result = Some(matched);
            }
        }
        if match_result.is_none() && obj.option.header {
            if let Ok(Some(matched)) = check_header(obj, &req_data.headers) {
                match_result = Some(matched);
            }
        }
        if match_result.is_none() && obj.option.body {
            if let Ok(Some(matched)) = check_regex_pattern(obj, body_string.as_str()) {
                match_result = Some(matched);
            }
        }
        assert(match_result == rule_verdict(*obj, *req_data));
        results.push(match_result);
    }
    results
}

} // verus!
