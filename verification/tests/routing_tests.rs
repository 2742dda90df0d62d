use novaflow::config::{
    DomainServer, DomainServerConfig, LoggingConfig, PolicyConfig, RulesConfig, RulesOptions,
    SSLServer, ServerConfig, VirtualServer, VirtualServerConfig,
};
use novaflow::domain::handler::domain_handler;
use novaflow::request::handler::{
    after_forward, blocked_response, handle_request, request_handler, try_after_forward, Action,
    Outcome, Route, Upstream,
};
use novaflow::request::{RequestData, BAD_GATEWAY, BLOCKED_REQUEST, HEALTH_OK, NOT_FOUND};
use novaflow::virtualserver::handler::{virtual_route_compiles, virtual_server_handler, virtual_upstream};

const ID: &str = "0190f3c2-5b7e-7a1c-9d2e-1234567890ab";

fn vs(name: &str, path: &str, remote: &str) -> VirtualServer {
    VirtualServer { name: name.to_string(), path: path.to_string(), remote_address: remote.to_string() }
}

fn dom(name: &str, domain: &str, remote: &str) -> DomainServer {
    DomainServer { name: name.to_string(), domain_name: domain.to_string(), remote_address: remote.to_string() }
}

fn server(domains: Vec<DomainServer>, virtuals: Vec<VirtualServer>) -> ServerConfig {
    ServerConfig {
        listen_address: "0.0.0.0".to_string(),
        listen_port: 9000,
        ssl: SSLServer { enabled: false, ca_path: "".to_string(), key_path: "".to_string() },
        logging: LoggingConfig {
            mode: "stdout".to_string(),
            trace_traffic: true,
            file_path: "".to_string(),
            file_name: "".to_string(),
        },
        domain_server: DomainServerConfig { enabled: true, config: domains },
        virtual_server: VirtualServerConfig { enabled: true, config: virtuals },
    }
}

fn sample_server() -> ServerConfig {
    server(
        vec![dom("domain_1", "testserver.com", "http://1.1.1.1")],
        vec![vs("Backend1", "/backend1", "https://www.example.com/")],
    )
}

fn policy() -> PolicyConfig {
    PolicyConfig {
        policy_block: vec![RulesConfig {
            policy_id: 1,
            name: "path traversal".to_string(),
            pattern: "\\.\\./".to_string(),
            option: RulesOptions { header: false, body: false, uri: true },
        }],
    }
}

fn req(host: &str, uri: &str) -> RequestData {
    RequestData {
        body: vec![],
        headers: vec![],
        uri: uri.to_string(),
        method: "GET".to_string(),
        host: host.to_string(),
    }
}

fn respond(a: &Action) -> (u16, String) {
    match a {
        Action::Respond(r) => (r.status, r.body.clone()),
        other => panic!("expected an answer, got {:?}", other),
    }
}

fn forward(a: &Action) -> (Route, usize, String) {
    match a {
        Action::Forward(u) => (u.route, u.index, u.url.clone()),
        other => panic!("expected a forward, got {:?}", other),
    }
}

#[test]
fn blocked_request_gets_403_page_with_its_id() {
    let a = handle_request(&sample_server(), &policy(), &req("testserver.com", "/backend1/../etc/passwd"), ID);
    let (status, body) = respond(&a);
    assert_eq!(status, 403);
    assert_eq!(body, BLOCKED_REQUEST.replace("REPLACE_WITH_UUID_REQUESTS", ID));
    assert!(body.contains(ID));
    assert!(!body.contains("REPLACE_WITH_UUID_REQUESTS"));
}

#[test]
fn blocked_response_names_the_request_id() {
    let r = blocked_response("abc");
    assert_eq!(r.status, 403);
    assert!(r.body.contains("RequestID : abc</p>"));
}

#[test]
fn blocked_request_is_refused_even_with_a_health_path() {
    let a = handle_request(&sample_server(), &policy(), &req("", "/novaflow_healthz/../x"), ID);
    assert_eq!(respond(&a).0, 403);
}

#[test]
fn health_check_is_answered_locally() {
    let a = handle_request(&sample_server(), &policy(), &req("testserver.com", "/novaflow_healthz"), ID);
    assert_eq!(respond(&a), (200, HEALTH_OK.to_string()));
    assert_eq!(HEALTH_OK, "{\"status\": \"ok\"}");
    let a = handle_request(&sample_server(), &policy(), &req("", "/novaflow_healthzz/more"), ID);
    assert_eq!(respond(&a).0, 200);
}

#[test]
fn domain_route_goes_to_remote_address_and_path() {
    let a = handle_request(&sample_server(), &policy(), &req("testserver.com", "/backend1/users"), ID);
    assert_eq!(forward(&a), (Route::Domain, 0, "http://1.1.1.1/backend1/users".to_string()));
}

#[test]
fn first_domain_route_wins() {
    let domains = vec![
        dom("a", "other.com", "http://a"),
        dom("b", "site.com", "http://b"),
        dom("c", "site.com", "http://c"),
    ];
    let up = domain_handler(&domains, &req("site.com", "/x")).unwrap();
    assert_eq!((up.route, up.index, up.url.as_str()), (Route::Domain, 1, "http://b/x"));
    assert!(domain_handler(&domains, &req("Site.com", "/x")).is_none());
    assert!(domain_handler(&vec![], &req("site.com", "/x")).is_none());
}

#[test]
fn virtual_route_strips_its_path() {
    let a = handle_request(&sample_server(), &policy(), &req("unknown.com", "/backend1/users?id=2"), ID);
    assert_eq!(forward(&a), (Route::Virtual, 0, "https://www.example.com//users?id=2".to_string()));
}

#[test]
fn virtual_route_path_is_a_regular_expression() {
    let virtuals = vec![vs("v", "/a.c", "http://up")];
    let a = virtual_server_handler(&virtuals, &req("", "/a.c/x"));
    assert_eq!(forward(&a), (Route::Virtual, 0, "http://up/x".to_string()));
    let virtuals = vec![vs("v", "/api+", "http://up")];
    let a = virtual_server_handler(&virtuals, &req("", "/api+/v1"));
    assert_eq!(forward(&a), (Route::Virtual, 0, "http://up+/v1".to_string()));
}

#[test]
fn first_virtual_route_wins() {
    let virtuals = vec![vs("a", "/api", "http://a"), vs("b", "/api/v2", "http://b")];
    let a = virtual_server_handler(&virtuals, &req("", "/api/v2/users"));
    assert_eq!(forward(&a), (Route::Virtual, 0, "http://a/v2/users".to_string()));
}

#[test]
fn unrouted_request_gets_404() {
    let a = handle_request(&sample_server(), &policy(), &req("unknown.com", "/other"), ID);
    assert_eq!(respond(&a), (404, NOT_FOUND.to_string()));
}

#[test]
fn invalid_virtual_path_is_reported() {
    let s = server(vec![], vec![vs("bad", "/(", "http://up")]);
    assert!(!virtual_route_compiles(&s.virtual_server.config, &req("", "/(x")));
    assert!(virtual_route_compiles(&s.virtual_server.config, &req("", "/other")));
    assert!(request_handler(&s, &policy(), &req("", "/(x")).is_none());
    let blocked = request_handler(&s, &policy(), &req("", "/(x/../")).unwrap();
    assert_eq!(respond(&blocked.0).0, 403);
    let unrouted = request_handler(&s, &policy(), &req("", "/other")).unwrap();
    assert_eq!(respond(&unrouted.0).0, 404);
}

#[test]
fn request_handler_gives_a_uuid_request_id() {
    let (a, id) = request_handler(&sample_server(), &policy(), &req("", "/../")).unwrap();
    assert_eq!(id.len(), 36);
    for (i, c) in id.chars().enumerate() {
        if i == 8 || i == 13 || i == 18 || i == 23 {
            assert_eq!(c, '-');
        } else {
            assert!(c.is_ascii_hexdigit() && !c.is_ascii_uppercase());
        }
    }
    let chars: Vec<char> = id.chars().collect();
    assert_eq!(chars[14], '7');
    assert!(matches!(chars[19], '8' | '9' | 'a' | 'b'));
    assert_eq!(respond(&a).1, BLOCKED_REQUEST.replace("REPLACE_WITH_UUID_REQUESTS", &id));
}

#[test]
fn routing_ignores_the_request_id() {
    let s = sample_server();
    let r = req("testserver.com", "/x");
    let a1 = forward(&handle_request(&s, &policy(), &r, "one"));
    let a2 = forward(&handle_request(&s, &policy(), &r, "two"));
    assert_eq!(a1, a2);
}

fn upstream(route: Route) -> Upstream {
    Upstream { route, index: 0, url: "http://up/x".to_string() }
}

#[test]
fn readable_answer_is_relayed() {
    let s = sample_server();
    let r = req("testserver.com", "/backend1/x");
    assert!(matches!(after_forward(&s, &r, ID, &upstream(Route::Domain), Outcome::Relayed), Action::Relay));
    assert!(matches!(after_forward(&s, &r, ID, &upstream(Route::Virtual), Outcome::Relayed), Action::Relay));
}

#[test]
fn unreadable_domain_answer_gets_502_with_id() {
    let a = after_forward(&sample_server(), &req("testserver.com", "/x"), ID, &upstream(Route::Domain), Outcome::ConvertFailed);
    assert_eq!(respond(&a), (502, BAD_GATEWAY.replace("REPLACE_WITH_UUID_REQUESTS", ID)));
}

#[test]
fn unreadable_virtual_answer_gets_plain_502() {
    let a = after_forward(&sample_server(), &req("", "/backend1"), ID, &upstream(Route::Virtual), Outcome::ConvertFailed);
    assert_eq!(respond(&a), (502, BAD_GATEWAY.to_string()));
}

#[test]
fn unreachable_domain_falls_back_to_virtual_routes() {
    let s = sample_server();
    let r = req("testserver.com", "/backend1/users");
    let a = after_forward(&s, &r, ID, &upstream(Route::Domain), Outcome::SendFailed);
    assert_eq!(forward(&a), (Route::Virtual, 0, "https://www.example.com//users".to_string()));
    let without_domains = server(vec![], s.virtual_server.config.clone());
    let b = handle_request(&without_domains, &policy(), &r, ID);
    assert_eq!(forward(&a), forward(&b));
    let r = req("testserver.com", "/nowhere");
    let a = after_forward(&s, &r, ID, &upstream(Route::Domain), Outcome::SendFailed);
    assert_eq!(respond(&a).0, 404);
}

#[test]
fn unreachable_virtual_server_gets_404() {
    let a = after_forward(&sample_server(), &req("", "/backend1"), ID, &upstream(Route::Virtual), Outcome::SendFailed);
    assert_eq!(respond(&a), (404, NOT_FOUND.to_string()));
}

#[test]
fn try_after_forward_reports_invalid_virtual_path() {
    let s = server(vec![dom("d", "h", "http://d")], vec![vs("bad", "/(", "http://up")]);
    let r = req("h", "/(x");
    assert!(try_after_forward(&s, &r, ID, &upstream(Route::Domain), Outcome::SendFailed).is_none());
    assert!(try_after_forward(&s, &r, ID, &upstream(Route::Domain), Outcome::ConvertFailed).is_some());
    assert!(try_after_forward(&s, &r, ID, &upstream(Route::Virtual), Outcome::SendFailed).is_some());
}

#[test]
fn virtual_upstream_appends_the_stripped_uri() {
    let u = virtual_upstream(&vs("b", "/backend1", "https://www.example.com"), 3, "/users");
    assert_eq!((u.route, u.index, u.url.as_str()), (Route::Virtual, 3, "https://www.example.com/users"));
}

fn with_flags(mut s: ServerConfig, domains: bool, virtuals: bool) -> ServerConfig {
    s.domain_server.enabled = domains;
    s.virtual_server.enabled = virtuals;
    s
}

#[test]
fn disabled_domain_routes_are_skipped() {
    let s = with_flags(sample_server(), false, true);
    let a = handle_request(&s, &policy(), &req("testserver.com", "/backend1/users"), ID);
    assert_eq!(forward(&a), (Route::Virtual, 0, "https://www.example.com//users".to_string()));
    let a = handle_request(&s, &policy(), &req("testserver.com", "/other"), ID);
    assert_eq!(respond(&a), (404, NOT_FOUND.to_string()));
}

#[test]
fn disabled_virtual_servers_give_404() {
    let s = with_flags(sample_server(), true, false);
    let a = handle_request(&s, &policy(), &req("unknown.com", "/backend1/users"), ID);
    assert_eq!(respond(&a), (404, NOT_FOUND.to_string()));
    let a = handle_request(&s, &policy(), &req("testserver.com", "/backend1/users"), ID);
    assert_eq!(forward(&a).0, Route::Domain);
    let a = after_forward(&s, &req("testserver.com", "/backend1/users"), ID, &upstream(Route::Domain), Outcome::SendFailed);
    assert_eq!(respond(&a), (404, NOT_FOUND.to_string()));
}

#[test]
fn disabled_routes_answer_404_and_health_still_works() {
    let s = with_flags(sample_server(), false, false);
    let a = handle_request(&s, &policy(), &req("testserver.com", "/backend1/users"), ID);
    assert_eq!(respond(&a).0, 404);
    let a = handle_request(&s, &policy(), &req("testserver.com", "/novaflow_healthz"), ID);
    assert_eq!(respond(&a).0, 200);
}

#[test]
fn disabled_invalid_virtual_path_is_not_an_error() {
    let s = with_flags(server(vec![dom("d", "h", "http://d")], vec![vs("bad", "/(", "http://up")]), true, false);
    let (a, _) = request_handler(&s, &policy(), &req("", "/(x")).unwrap();
    assert_eq!(respond(&a).0, 404);
    assert!(try_after_forward(&s, &req("h", "/(x"), ID, &upstream(Route::Domain), Outcome::SendFailed).is_some());
}
