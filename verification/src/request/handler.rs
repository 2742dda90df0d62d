//! What the firewall does with a request: refuse it, answer a health check,
//! or route it upstream; and what it does with the upstream's outcome.

use vstd::prelude::*;

use super::filter::{
    check_rules, is_blocked, lemma_blocked_iff_some_rule, lemma_rule_matches_by_parts, rule_matches,
    rule_verdict,
};
use super::{RequestData, BAD_GATEWAY, BLOCKED_REQUEST, HEALTH_OK, HEALTH_PATH, NOT_FOUND, REQUEST_ID_PLACEHOLDER};
use crate::config::{PolicyConfig, ServerConfig};
use crate::domain::handler::{domain_handler, domain_route};
use crate::outside::{is_uuid_v7_text, new_request_id};
use crate::text::{replace_all, replace_str, starts_with};
use crate::virtualserver::handler::{
    virtual_route, virtual_route_compiles, virtual_route_ok, virtual_server_handler,
};

verus! {

/// An answer to the client.
#[derive(Debug, Clone)]
pub struct Reply {
    pub status: u16,
    pub body: String,
}

/// Which kind of route an upstream was chosen by.
#[derive(Debug, Clone, Copy, PartialEq, Eq, Structural)]
pub enum Route {
    /// By the request's host name.
    Domain,
    /// By the request's path prefix.
    Virtual,
}

/// An upstream to send the request to: the route that chose it (and its
/// index in that route list) and the full URL.
#[derive(Debug, Clone)]
pub struct Upstream {
    pub route: Route,
    pub index: usize,
    pub url: String,
}

/// What became of a request sent upstream.
#[derive(Debug, Clone, Copy, PartialEq, Eq, Structural)]
pub enum Outcome {
    /// The upstream answered and its answer can be passed on.
    Relayed,
    /// The upstream answered but its answer could not be read.
    ConvertFailed,
    /// The request could not be sent, or no answer came.
    SendFailed,
}

/// What to do next.
#[derive(Debug, Clone)]
pub enum Action {
    /// Answer the client with this reply.
    Respond(Reply),
    /// Send the request to this upstream, then report the outcome.
    Forward(Upstream),
    /// Answer the client with the upstream's answer.
    Relay,
}

/// A reply as a value: status and body text.
pub struct ReplyView {
    pub status: u16,
    pub body: Seq<char>,
}

/// An upstream as a value.
pub struct UpstreamView {
    pub route: Route,
    pub index: usize,
    pub url: Seq<char>,
}

/// An action as a value.
pub enum ActionView {
    Respond(ReplyView),
    Forward(UpstreamView),
    Relay,
}

impl View for Reply {
    type V = ReplyView;

    open spec fn view(&self) -> ReplyView {
        ReplyView { status: self.status, body: self.body@ }
    }
}

impl View for Upstream {
    type V = UpstreamView;

    open spec fn view(&self) -> UpstreamView {
        UpstreamView { route: self.route, index: self.index, url: self.url@ }
    }
}

impl View for Action {
    type V = ActionView;

    open spec fn view(&self) -> ActionView {
        match self {
            Action::Respond(r) => ActionView::Respond(r@),
            Action::Forward(u) => ActionView::Forward(u@),
            Action::Relay => ActionView::Relay,
        }
    }
}

/// The 403 answer to a refused request; its page names the request ID.
pub open spec fn blocked_reply(request_id: Seq<char>) -> ReplyView {
    ReplyView { status: 403, body: replace_all(BLOCKED_REQUEST@, REQUEST_ID_PLACEHOLDER@, request_id) }
}

/// The 200 answer to a health check.
pub open spec fn health_reply() -> ReplyView {
    ReplyView { status: 200, body: HEALTH_OK@ }
}

/// The 502 answer when a domain upstream's answer cannot be read; its page
/// names the request ID.
pub open spec fn domain_bad_gateway_reply(request_id: Seq<char>) -> ReplyView {
    ReplyView { status: 502, body: replace_all(BAD_GATEWAY@, REQUEST_ID_PLACEHOLDER@, request_id) }
}

/// The 502 answer when a virtual server's answer cannot be read.
pub open spec fn virtual_bad_gateway_reply() -> ReplyView {
    ReplyView { status: 502, body: BAD_GATEWAY@ }
}

/// The 404 answer when no route serves the request.
pub open spec fn not_found_reply() -> ReplyView {
    ReplyView { status: 404, body: NOT_FOUND@ }
}

/// Whether the request is a health check: its path begins with the health path.
pub open spec fn is_health_check(req: RequestData) -> bool {
    HEALTH_PATH@.is_prefix_of(req.uri@)
}

/// What the firewall does with a request that has just arrived, given its
/// request ID: refuse it when a rule matches; else answer a health check;
/// else, when domain routes are enabled, send it to the domain route for its
/// host; else route it by path.
pub open spec fn spec_request_action(
    server: ServerConfig,
    policy: PolicyConfig,
    req: RequestData,
    request_id: Seq<char>,
) -> ActionView {
    if is_blocked(policy, req) {
        ActionView::Respond(blocked_reply(request_id))
    } else if is_health_check(req) {
        ActionView::Respond(health_reply())
    } else {
        match enabled_domain_route(server, req) {
            Some(u) => ActionView::Forward(u),
            None => path_action(server, req),
        }
    }
}

/// The domain route for the request's host, when domain routes are enabled.
pub open spec fn enabled_domain_route(server: ServerConfig, req: RequestData) -> Option<UpstreamView> {
    if server.domain_server.enabled {
        domain_route(server.domain_server.config@, req)
    } else {
        None
    }
}

/// What routing by path gives: the virtual server's route when virtual
/// servers are enabled, a 404 answer otherwise.
pub open spec fn path_action(server: ServerConfig, req: RequestData) -> ActionView {
    if server.virtual_server.enabled {
        virtual_route(server.virtual_server.config@, req)
    } else {
        ActionView::Respond(not_found_reply())
    }
}

/// The request is routed by the virtual servers right away: it is not
/// refused, not a health check, no enabled domain route has its host, and
/// virtual servers are enabled.
pub open spec fn goes_to_virtual(server: ServerConfig, policy: PolicyConfig, req: RequestData) -> bool {
    &&& !is_blocked(policy, req)
    &&& !is_health_check(req)
    &&& enabled_domain_route(server, req) is None
    &&& server.virtual_server.enabled
}

/// What the firewall does once it knows the outcome of sending the request
/// upstream. A domain upstream that cannot be reached hands the request on
/// to routing by path; a virtual server that cannot be reached gives 404.
pub open spec fn spec_outcome_action(
    server: ServerConfig,
    req: RequestData,
    request_id: Seq<char>,
    route: Route,
    outcome: Outcome,
) -> ActionView {
    match outcome {
        Outcome::Relayed => ActionView::Relay,
        Outcome::ConvertFailed => match route {
            Route::Domain => ActionView::Respond(domain_bad_gateway_reply(request_id)),
            Route::Virtual => ActionView::Respond(virtual_bad_gateway_reply()),
        },
        Outcome::SendFailed => match route {
            Route::Domain => path_action(server, req),
            Route::Virtual => ActionView::Respond(not_found_reply()),
        },
    }
}

/// A request that some rule matches is refused with the 403 page naming its
/// request ID, whatever the routes: it is never sent upstream.
pub proof fn lemma_blocked_request_is_refused(
    server: ServerConfig,
    policy: PolicyConfig,
    req: RequestData,
    request_id: Seq<char>,
)
    requires
        is_blocked(policy, req),
    ensures
        spec_request_action(server, policy, req, request_id) == ActionView::Respond(blocked_reply(request_id)),
        !(spec_request_action(server, policy, req, request_id) is Forward),
{
}

/// A health check that no rule refuses is answered by the firewall itself,
/// never sent upstream.
pub proof fn lemma_health_check_answered(
    server: ServerConfig,
    policy: PolicyConfig,
    req: RequestData,
    request_id: Seq<char>,
)
    requires
        !is_blocked(policy, req),
        is_health_check(req),
    ensures
        spec_request_action(server, policy, req, request_id) == ActionView::Respond(health_reply()),
{
}

/// Domain routes come before path routes: a request that is neither refused
/// nor a health check goes to the domain route for its host when domain
/// routes are enabled and one has the host, whatever the virtual servers say.
pub proof fn lemma_domain_route_first(
    server: ServerConfig,
    policy: PolicyConfig,
    req: RequestData,
    request_id: Seq<char>,
)
    requires
        !is_blocked(policy, req),
        !is_health_check(req),
        server.domain_server.enabled,
        domain_route(server.domain_server.config@, req) is Some,
    ensures
        spec_request_action(server, policy, req, request_id) == ActionView::Forward(
            domain_route(server.domain_server.config@, req).unwrap(),
        ),
{
}

/// A domain upstream that cannot be reached is as if its domain route were
/// not there: the request is routed by path exactly as a server with the
/// same virtual server settings and no enabled domain route for the host
/// would route it.
pub proof fn lemma_unreachable_domain_falls_back(
    server: ServerConfig,
    other: ServerConfig,
    policy: PolicyConfig,
    req: RequestData,
    request_id: Seq<char>,
)
    requires
        !is_blocked(policy, req),
        !is_health_check(req),
        enabled_domain_route(other, req) is None,
        other.virtual_server.enabled == server.virtual_server.enabled,
        other.virtual_server.config@ == server.virtual_server.config@,
    ensures
        spec_outcome_action(server, req, request_id, Route::Domain, Outcome::SendFailed)
            == spec_request_action(other, policy, req, request_id),
{
}

/// With domain routes disabled, no request is sent to a domain upstream.
pub proof fn lemma_disabled_domains_never_used(
    server: ServerConfig,
    policy: PolicyConfig,
    req: RequestData,
    request_id: Seq<char>,
)
    requires
        !server.domain_server.enabled,
    ensures
        !(spec_request_action(server, policy, req, request_id) matches ActionView::Forward(u)
            && u.route == Route::Domain),
{
}

/// With virtual servers disabled, no request is sent to a virtual server:
/// a request that reaches routing by path gets the 404 answer.
pub proof fn lemma_disabled_virtual_servers_never_used(
    server: ServerConfig,
    policy: PolicyConfig,
    req: RequestData,
    request_id: Seq<char>,
    route: Route,
    outcome: Outcome,
)
    requires
        !server.virtual_server.enabled,
    ensures
        !(spec_request_action(server, policy, req, request_id) matches ActionView::Forward(u)
            && u.route == Route::Virtual),
        !(spec_outcome_action(server, req, request_id, route, outcome) matches ActionView::Forward(u)),
{
}

/// An upstream answer that can be read is always passed on as it is.
pub proof fn lemma_readable_answer_is_relayed(
    server: ServerConfig,
    req: RequestData,
    request_id: Seq<char>,
    route: Route,
)
    ensures
        spec_outcome_action(server, req, request_id, route, Outcome::Relayed) == ActionView::Relay,
{
}

/// The request ID shows only in the refusal page: where a request goes, and
/// every other answer to it, is the same whatever its ID.
pub proof fn lemma_routing_ignores_request_id(
    server: ServerConfig,
    policy: PolicyConfig,
    req: RequestData,
    id1: Seq<char>,
    id2: Seq<char>,
)
    requires
        !is_blocked(policy, req),
    ensures
        spec_request_action(server, policy, req, id1) == spec_request_action(server, policy, req, id2),
{
}

/// The whole decision on a request that has just arrived, rule by rule:
/// - when some rule of the policy, at any position, gives a verdict on it,
///   the 403 page with the placeholder replaced by the request ID;
/// - else, when its path begins with the health path (whatever its method,
///   headers or body), the 200 health answer;
/// - else, when domain routes are enabled and one has its host, that route;
/// - else, when virtual servers are enabled, routing by path;
/// - else the 404 page.
pub proof fn lemma_request_action_decided(
    server: ServerConfig,
    policy: PolicyConfig,
    req: RequestData,
    request_id: Seq<char>,
)
    ensures
        ({
            let action = spec_request_action(server, policy, req, request_id);
            let refused = exists|i: int|
                0 <= i < policy.policy_block@.len() && #[trigger] rule_verdict(policy.policy_block@[i], req) is Some;
            let health = HEALTH_PATH@.is_prefix_of(req.uri@);
            let by_domain = server.domain_server.enabled && domain_route(server.domain_server.config@, req) is Some;
            &&& refused ==> action == ActionView::Respond(
                ReplyView { status: 403, body: replace_all(BLOCKED_REQUEST@, REQUEST_ID_PLACEHOLDER@, request_id) },
            )
            &&& !refused && health ==> action == ActionView::Respond(ReplyView { status: 200, body: HEALTH_OK@ })
            &&& !refused && !health && by_domain ==> action == ActionView::Forward(
                domain_route(server.domain_server.config@, req).unwrap(),
            )
            &&& !refused && !health && !by_domain && server.virtual_server.enabled ==> action == virtual_route(
                server.virtual_server.config@,
                req,
            )
            &&& !refused && !health && !by_domain && !server.virtual_server.enabled ==> action
                == ActionView::Respond(ReplyView { status: 404, body: NOT_FOUND@ })
        }),
{
    lemma_blocked_iff_some_rule(policy, req);
}

/// A request is routed by the virtual servers straight away exactly when no
/// rule gives a verdict on it, its path does not begin with the health
/// path, no enabled domain route has its host, and virtual servers are
/// enabled. Only then can an invalid virtual path stop the decision.
pub proof fn lemma_goes_to_virtual_exactly(server: ServerConfig, policy: PolicyConfig, req: RequestData)
    ensures
        goes_to_virtual(server, policy, req) <==> {
            &&& !exists|i: int|
                0 <= i < policy.policy_block@.len() && #[trigger] rule_verdict(policy.policy_block@[i], req) is Some
            &&& !HEALTH_PATH@.is_prefix_of(req.uri@)
            &&& !(server.domain_server.enabled && domain_route(server.domain_server.config@, req) is Some)
            &&& server.virtual_server.enabled
        },
{
    lemma_blocked_iff_some_rule(policy, req);
}

/// The decision does not read the request's method: two requests that
/// differ only in their method are treated alike.
pub proof fn lemma_method_is_not_read(
    server: ServerConfig,
    policy: PolicyConfig,
    req1: RequestData,
    req2: RequestData,
    request_id: Seq<char>,
)
    requires
        req1.uri@ == req2.uri@,
        req1.host@ == req2.host@,
        req1.headers@ == req2.headers@,
        req1.body@ == req2.body@,
    ensures
        spec_request_action(server, policy, req1, request_id) == spec_request_action(server, policy, req2, request_id),
{
    lemma_request_action_decided(server, policy, req1, request_id);
    lemma_request_action_decided(server, policy, req2, request_id);
    assert forall|i: int| 0 <= i < policy.policy_block@.len() implies
        #[trigger] rule_verdict(policy.policy_block@[i], req1) == rule_verdict(policy.policy_block@[i], req2) by {
        lemma_rule_matches_by_parts(policy.policy_block@[i], req1);
        lemma_rule_matches_by_parts(policy.policy_block@[i], req2);
    }
    assert(domain_route(server.domain_server.config@, req1) == domain_route(server.domain_server.config@, req2));
    assert(virtual_route(server.virtual_server.config@, req1) == virtual_route(server.virtual_server.config@, req2));
}

/// The decision once the outcome of sending upstream is known: a readable
/// answer is passed on; an unreadable one gives the 502 page, with the
/// request ID for a domain upstream and as it stands for a virtual server;
/// an unreachable virtual server gives the 404 page; an unreachable domain
/// upstream hands the request to routing by path when virtual servers are
/// enabled, and gives the 404 page otherwise.
pub proof fn lemma_outcome_action_decided(
    server: ServerConfig,
    req: RequestData,
    request_id: Seq<char>,
    route: Route,
    outcome: Outcome,
)
    ensures
        ({
            let action = spec_outcome_action(server, req, request_id, route, outcome);
            &&& outcome == Outcome::Relayed ==> action == ActionView::Relay
            &&& outcome == Outcome::ConvertFailed && route == Route::Domain ==> action == ActionView::Respond(
                ReplyView { status: 502, body: replace_all(BAD_GATEWAY@, REQUEST_ID_PLACEHOLDER@, request_id) },
            )
            &&& outcome == Outcome::ConvertFailed && route == Route::Virtual ==> action == ActionView::Respond(
                ReplyView { status: 502, body: BAD_GATEWAY@ },
            )
            &&& outcome == Outcome::SendFailed && route == Route::Virtual ==> action == ActionView::Respond(
                ReplyView { status: 404, body: NOT_FOUND@ },
            )
            &&& outcome == Outcome::SendFailed && route == Route::Domain && server.virtual_server.enabled ==> action
                == virtual_route(server.virtual_server.config@, req)
            &&& outcome == Outcome::SendFailed && route == Route::Domain && !server.virtual_server.enabled ==> action
                == ActionView::Respond(ReplyView { status: 404, body: NOT_FOUND@ })
        }),
{
}

/// Whether some rule of the policy matches the request.
pub fn is_request_blocked(policy_conf: &PolicyConfig, request_data: &RequestData) -> (res: bool)
    ensures
        res == is_blocked(*policy_conf, *request_data),
{
    let matched_rules = check_rules(policy_conf, request_data);
    let n = matched_rules.len();
    for i in 0..n
        invariant
            n == matched_rules@.len(),
            n == policy_conf.policy_block@.len(),
            forall|k: int|
                0 <= k < n ==> (#[trigger] matched_rules@[k] is Some <==> rule_matches(
                    policy_conf.policy_block@[k],
                    *request_data,
                )),
            forall|k: int| 0 <= k < i ==> !rule_matches(#[trigger] policy_conf.policy_block@[k], *request_data),
    {
        if matched_rules[i].is_some() {
            assert(rule_matches(policy_conf.policy_block@[i as int], *request_data));
            return true;
        }
        assert(!rule_matches(policy_conf.policy_block@[i as int], *request_data));
    }
    false
}

/// The 403 answer to a refused request, naming the request ID.
pub fn blocked_response(request_id: &str) -> (res: Reply)
    ensures
        res@ == blocked_reply(request_id@),
{
    proof {
        reveal_strlit("REPLACE_WITH_UUID_REQUESTS");
    }
    Reply { status: 403, body: replace_str(BLOCKED_REQUEST, REQUEST_ID_PLACEHOLDER, request_id) }
}

/// What to do with a request that has just arrived, given its request ID.
pub fn handle_request(
    server_conf: &ServerConfig,
    policy_conf: &PolicyConfig,
    request_data: &RequestData,
    request_id: &str,
) -> (res: Action)
    requires
        goes_to_virtual(*server_conf, *policy_conf, *request_data) ==> virtual_route_ok(
            server_conf.virtual_server.config@,
            *request_data,
        ),
    ensures
        res@ == spec_request_action(*server_conf, *policy_conf, *request_data, request_id@),
{
    if is_request_blocked(policy_conf, request_data) {
        return Action::Respond(blocked_response(request_id));
    }
    if starts_with(request_data.uri.as_str(), HEALTH_PATH) {
        return Action::Respond(Reply { status: 200, body: HEALTH_OK.to_owned() });
    }
    if server_conf.domain_server.enabled {
        if let Some(upstream) = domain_handler(&server_conf.domain_server.config, request_data) {
            return Action::Forward(upstream);
        }
    }
    path_handler(server_conf, request_data)
}

/// Routing by path: the virtual servers when they are enabled, the 404
/// answer otherwise.
pub fn path_handler(server_conf: &ServerConfig, request_data: &RequestData) -> (res: Action)
    requires
        server_conf.virtual_server.enabled ==> virtual_route_ok(server_conf.virtual_server.config@, *request_data),
    ensures
        res@ == path_action(*server_conf, *request_data),
{
    if server_conf.virtual_server.enabled {
        virtual_server_handler(&server_conf.virtual_server.config, request_data)
    } else {
        Action::Respond(Reply { status: 404, body: NOT_FOUND.to_owned() })
    }
}

/// What to do with a request that has just arrived: gives it a fresh request
/// ID and decides as `handle_request` does. Nothing (`None`) when the request
/// would be routed by a virtual server whose path is not a valid regular
/// expression.
pub fn request_handler(
    server_conf: &ServerConfig,
    policy_conf: &PolicyConfig,
    request_data: &RequestData,
) -> (res: Option<(Action, String)>)
    ensures
        res is None <==> goes_to_virtual(*server_conf, *policy_conf, *request_data) && !virtual_route_ok(
            server_conf.virtual_server.config@,
            *request_data,
        ),
        res matches Some((action, request_id)) ==> {
            &&& is_uuid_v7_text(request_id@)
            &&& action@ == spec_request_action(*server_conf, *policy_conf, *request_data, request_id@)
        },
{
    let request_id = new_request_id();
    let can_route = virtual_route_compiles(&server_conf.virtual_server.config, request_data);
    if !can_route {
        let handled_before = is_request_blocked(policy_conf, request_data)
            || starts_with(request_data.uri.as_str(), HEALTH_PATH)
            || (server_conf.domain_server.enabled && domain_handler(
                &server_conf.domain_server.config,
                request_data,
            ).is_some())
            || !server_conf.virtual_server.enabled;
        if !handled_before {
            return None;
        }
    }
    let action = handle_request(server_conf, policy_conf, request_data, request_id.as_str());
    Some((action, request_id))
}

/// What to do once the outcome of sending the request to `upstream` is known.
pub fn after_forward(
    server_conf: &ServerConfig,
    request_data: &RequestData,
    request_id: &str,
    upstream: &Upstream,
    outcome: Outcome,
) -> (res: Action)
    requires
        upstream.route == Route::Domain && outcome == Outcome::SendFailed
            && server_conf.virtual_server.enabled ==> virtual_route_ok(
            server_conf.virtual_server.config@,
            *request_data,
        ),
    ensures
        res@ == spec_outcome_action(*server_conf, *request_data, request_id@, upstream.route, outcome),
{
    match outcome {
        Outcome::Relayed => Action::Relay,
        Outcome::ConvertFailed => match upstream.route {
            Route::Domain => {
                proof {
                    reveal_strlit("REPLACE_WITH_UUID_REQUESTS");
                }
                Action::Respond(
                    Reply { status: 502, body: replace_str(BAD_GATEWAY, REQUEST_ID_PLACEHOLDER, request_id) },
                )
            },
            Route::Virtual => Action::Respond(Reply { status: 502, body: BAD_GATEWAY.to_owned() }),
        },
        Outcome::SendFailed => match upstream.route {
            Route::Domain => path_handler(server_conf, request_data),
            Route::Virtual => Action::Respond(Reply { status: 404, body: NOT_FOUND.to_owned() }),
        },
    }
}

/// What to do once the outcome of sending the request to `upstream` is
/// known, as `after_forward` decides. Nothing (`None`) when a domain upstream
/// could not be reached and the request would then be routed by an enabled
/// virtual server whose path is not a valid regular expression.
pub fn try_after_forward(
    server_conf: &ServerConfig,
    request_data: &RequestData,
    request_id: &str,
    upstream: &Upstream,
    outcome: Outcome,
) -> (res: Option<Action>)
    ensures
        res is None <==> upstream.route == Route::Domain && outcome == Outcome::SendFailed
            && server_conf.virtual_server.enabled && !virtual_route_ok(
            server_conf.virtual_server.config@,
            *request_data,
        ),
        res matches Some(action) ==> action@ == spec_outcome_action(
            *server_conf,
            *request_data,
            request_id@,
            upstream.route,
            outcome,
        ),
{
    if upstream.route == Route::Domain && outcome == Outcome::SendFailed
        && server_conf.virtual_server.enabled && !virtual_route_compiles(&server_conf.virtual_server.config, request_data) {
        return None;
    }
    Some(after_forward(server_conf, request_data, request_id, upstream, outcome))
}

} // verus!
