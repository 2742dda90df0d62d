use novaflow::config::{PolicyConfig, RulesConfig, RulesOptions};
use novaflow::request::filter::{
    check_header, check_regex_pattern, check_rules, header_value_to_str, pattern_verdict, FilterError,
};
use novaflow::request::handler::is_request_blocked;
use novaflow::request::{HeaderField, RequestData};

fn rule(id: i32, pattern: &str, uri: bool, header: bool, body: bool) -> RulesConfig {
    RulesConfig {
        policy_id: id,
        name: format!("rule-{}", id),
        pattern: pattern.to_string(),
        option: RulesOptions { header, body, uri },
    }
}

fn header(name: &str, value: &[u8]) -> HeaderField {
    HeaderField { name: name.to_string(), value: value.to_vec() }
}

fn request(uri: &str, headers: Vec<HeaderField>, body: &[u8]) -> RequestData {
    RequestData {
        body: body.to_vec(),
        headers,
        uri: uri.to_string(),
        method: "GET".to_string(),
        host: "".to_string(),
    }
}

#[test]
fn header_value_with_visible_ascii_reads_as_text() {
    assert_eq!(header_value_to_str(b"text/html; q=0.9\t"), Some("text/html; q=0.9\t".to_string()));
    assert_eq!(header_value_to_str(b""), Some("".to_string()));
    assert_eq!(header_value_to_str(b" ~"), Some(" ~".to_string()));
}

#[test]
fn header_value_with_control_or_high_bytes_is_refused() {
    assert_eq!(header_value_to_str(b"a\x01b"), None);
    assert_eq!(header_value_to_str(b"a\x7fb"), None);
    assert_eq!(header_value_to_str(b"caf\xc3\xa9"), None);
    assert_eq!(header_value_to_str(b"\n"), None);
}

#[test]
fn pattern_match_gives_the_rule() {
    let r = rule(1, "(?i)<script>", true, false, false);
    assert_eq!(check_regex_pattern(&r, "/search?q=<SCRIPT>alert(1)"), Ok(Some(r.clone())));
}

#[test]
fn pattern_miss_gives_nothing() {
    let r = rule(1, "<script>", true, false, false);
    assert_eq!(check_regex_pattern(&r, "/index.html"), Ok(None));
}

#[test]
fn invalid_pattern_is_an_error() {
    let r = rule(1, "(unclosed", true, false, false);
    assert_eq!(check_regex_pattern(&r, "(unclosed"), Err(FilterError::InvalidPattern));
}

#[test]
fn header_is_matched_as_name_colon_value() {
    let r = rule(2, "^user-agent: sqlmap", false, true, false);
    let headers = vec![header("host", b"example.com"), header("user-agent", b"sqlmap/1.7")];
    assert_eq!(check_header(&r, &headers), Ok(Some(r.clone())));
}

#[test]
fn header_search_stops_at_unreadable_value() {
    let r = rule(2, "evil", false, true, false);
    let headers = vec![header("x-bin", b"\x00\x01"), header("x-a", b"evil")];
    assert_eq!(check_header(&r, &headers), Err(FilterError::InvalidHeaderValue));
    let headers = vec![header("x-a", b"evil"), header("x-bin", b"\x00\x01")];
    assert_eq!(check_header(&r, &headers), Ok(Some(r.clone())));
}

#[test]
fn header_search_without_headers_finds_nothing() {
    assert_eq!(check_header(&rule(2, "(", false, true, false), &vec![]), Ok(None));
    assert_eq!(check_header(&rule(2, "a", false, true, false), &vec![]), Ok(None));
}

#[test]
fn header_search_with_invalid_pattern_is_an_error() {
    let headers = vec![header("host", b"example.com")];
    assert_eq!(check_header(&rule(2, "(", false, true, false), &headers), Err(FilterError::InvalidPattern));
}

#[test]
fn one_entry_per_rule_in_order() {
    let rules = vec![
        rule(1, "admin", true, false, false),
        rule(2, "union\\s+select", false, false, true),
        rule(3, "sqlmap", false, true, false),
        rule(4, "nothing-here", true, true, true),
    ];
    let policy = PolicyConfig { policy_block: rules.clone() };
    let req = request("/admin/login", vec![header("user-agent", b"curl")], b"id=1 union  select 2");
    let res = check_rules(&policy, &req);
    assert_eq!(res, vec![Some(rules[0].clone()), Some(rules[1].clone()), None, None]);
    assert!(is_request_blocked(&policy, &req));
}

#[test]
fn rule_only_checks_its_parts() {
    let uri_only = rule(1, "attack", true, false, false);
    let policy = PolicyConfig { policy_block: vec![uri_only] };
    let req = request("/home", vec![header("x", b"attack")], b"attack");
    assert_eq!(check_rules(&policy, &req), vec![None]);
    assert!(!is_request_blocked(&policy, &req));
}

#[test]
fn rule_without_parts_never_matches() {
    let policy = PolicyConfig { policy_block: vec![rule(1, "", false, false, false)] };
    let req = request("/anything", vec![header("a", b"b")], b"c");
    assert_eq!(check_rules(&policy, &req), vec![None]);
}

#[test]
fn rule_with_invalid_pattern_never_matches() {
    let policy = PolicyConfig { policy_block: vec![rule(1, "[", true, true, true)] };
    let req = request("/[", vec![header("a", b"[")], b"[");
    assert_eq!(check_rules(&policy, &req), vec![None]);
    assert!(!is_request_blocked(&policy, &req));
}

#[test]
fn body_is_read_as_lossy_utf8() {
    let replacement = rule(1, "\u{FFFD}attack", false, false, true);
    let policy = PolicyConfig { policy_block: vec![replacement.clone()] };
    let req = request("/", vec![], b"\xffattack");
    assert_eq!(check_rules(&policy, &req), vec![Some(replacement)]);
}

#[test]
fn empty_policy_blocks_nothing() {
    let policy = PolicyConfig { policy_block: vec![] };
    let req = request("/admin", vec![], b"union select");
    assert_eq!(check_rules(&policy, &req), vec![]);
    assert!(!is_request_blocked(&policy, &req));
}

#[test]
fn blocking_is_the_union_of_the_rules() {
    let a = rule(1, "admin", true, false, false);
    let b = rule(2, "secret", false, false, true);
    let req = request("/public", vec![], b"the secret");
    let only_a = PolicyConfig { policy_block: vec![a.clone()] };
    let a_then_b = PolicyConfig { policy_block: vec![a.clone(), b.clone()] };
    let b_then_a = PolicyConfig { policy_block: vec![b, a] };
    assert!(!is_request_blocked(&only_a, &req));
    assert!(is_request_blocked(&a_then_b, &req));
    assert!(is_request_blocked(&b_then_a, &req));
}

#[test]
fn pattern_verdict_follows_the_engine_answer() {
    let r = rule(5, "x", true, false, false);
    assert_eq!(pattern_verdict(&r, None), Err(FilterError::InvalidPattern));
    assert_eq!(pattern_verdict(&r, Some(true)), Ok(Some(r.clone())));
    assert_eq!(pattern_verdict(&r, Some(false)), Ok(None));
}
