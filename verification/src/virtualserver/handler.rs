//! Routing by path prefix.

use vstd::prelude::*;

use crate::config::VirtualServer;
use crate::outside::{
    compile_pattern, pattern_replace_all, regex_replace_all, regex_valid, string_from_chars,
    CompiledPattern,
};
use crate::request::handler::{
    not_found_reply, Action, ActionView, Reply, ReplyView, Route, Upstream, UpstreamView,
};
use crate::request::{RequestData, NOT_FOUND};
use crate::text::{chars_of, concat_str, extend_chars, starts_with};

verus! {

/// `i` is the first virtual server whose path is a prefix of `uri`.
pub open spec fn is_first_virtual(vs: Seq<VirtualServer>, uri: Seq<char>, i: int) -> bool {
    &&& 0 <= i < vs.len()
    &&& vs[i].path@.is_prefix_of(uri)
    &&& forall|j: int| 0 <= j < i ==> !(#[trigger] vs[j]).path@.is_prefix_of(uri)
}

/// Some virtual server's path is a prefix of `uri`.
pub open spec fn has_virtual(vs: Seq<VirtualServer>, uri: Seq<char>) -> bool {
    exists|i: int| 0 <= i < vs.len() && (#[trigger] vs[i]).path@.is_prefix_of(uri)
}

/// The index of the first virtual server whose path is a prefix of `uri`.
pub open spec fn first_virtual(vs: Seq<VirtualServer>, uri: Seq<char>) -> int {
    choose|i: int| is_first_virtual(vs, uri, i)
}

/// The regular expression that strips a virtual server's path from the
/// front of the URI: `^` followed by the path.
pub open spec fn route_pattern(path: Seq<char>) -> Seq<char> {
    seq!['^'] + path
}

/// The upstream URL for a virtual server: its address followed by the URI
/// with the route pattern's matches removed.
pub open spec fn virtual_url(v: VirtualServer, uri: Seq<char>) -> Seq<char> {
    v.remote_address@ + regex_replace_all(route_pattern(v.path@), uri, Seq::<char>::empty())
}

/// Where a request goes by its path: to the first virtual server whose path
/// is a prefix of the URI, or a 404 answer when there is none.
pub open spec fn virtual_route(vs: Seq<VirtualServer>, req: RequestData) -> ActionView {
    if has_virtual(vs, req.uri@) {
        let i = first_virtual(vs, req.uri@);
        ActionView::Forward(UpstreamView { route: Route::Virtual, index: i as usize, url: virtual_url(vs[i], req.uri@) })
    } else {
        ActionView::Respond(not_found_reply())
    }
}

/// The route pattern of the virtual server that the request would go to is
/// a valid regular expression (or no virtual server takes the request).
pub open spec fn virtual_route_ok(vs: Seq<VirtualServer>, req: RequestData) -> bool {
    has_virtual(vs, req.uri@) ==> regex_valid(route_pattern(vs[first_virtual(vs, req.uri@)].path@))
}

proof fn lemma_first_exists(vs: Seq<VirtualServer>, uri: Seq<char>, i: int)
    requires
        0 <= i < vs.len(),
        vs[i].path@.is_prefix_of(uri),
    ensures
        exists|k: int| is_first_virtual(vs, uri, k),
    decreases i,
{
    if exists|j: int| 0 <= j < i && (#[trigger] vs[j]).path@.is_prefix_of(uri) {
        let j = choose|j: int| 0 <= j < i && (#[trigger] vs[j]).path@.is_prefix_of(uri);
        lemma_first_exists(vs, uri, j);
    } else {
        assert(is_first_virtual(vs, uri, i));
    }
}

/// The first virtual server for a URI is well defined: it exists when some
/// path is a prefix of the URI, and it is the only index that is first.
pub proof fn lemma_first_virtual(vs: Seq<VirtualServer>, uri: Seq<char>)
    ensures
        has_virtual(vs, uri) ==> is_first_virtual(vs, uri, first_virtual(vs, uri)),
        forall|k: int| #[trigger] is_first_virtual(vs, uri, k) ==> k == first_virtual(vs, uri),
{
    if has_virtual(vs, uri) {
        let i = choose|i: int| 0 <= i < vs.len() && (#[trigger] vs[i]).path@.is_prefix_of(uri);
        lemma_first_exists(vs, uri, i);
    }
    assert forall|k: int| #[trigger] is_first_virtual(vs, uri, k) implies k == first_virtual(vs, uri) by {
        let f = first_virtual(vs, uri);
        assert(is_first_virtual(vs, uri, f));
        if k < f {
            assert(vs[k].path@.is_prefix_of(uri));
        } else if f < k {
            assert(vs[f].path@.is_prefix_of(uri));
        }
    }
}

/// A request is routed by path exactly when some virtual server, at any
/// position of the list, has a path that is a prefix of the URI. It then
/// goes to the first such server, at its address followed by what is left
/// of the URI once the regex `^` + path (anchored at the start) has had its
/// matches replaced by nothing; otherwise it gets the 404 answer. The route
/// can be built exactly when that anchored pattern is a valid regex.
pub proof fn lemma_virtual_route_by_prefix(vs: Seq<VirtualServer>, req: RequestData)
    requires
        vs.len() <= usize::MAX,
    ensures
        virtual_route(vs, req) is Forward <==> exists|i: int|
            0 <= i < vs.len() && (#[trigger] vs[i]).path@.is_prefix_of(req.uri@),
        virtual_route(vs, req) matches ActionView::Forward(u) ==> {
            &&& u.route == Route::Virtual
            &&& 0 <= u.index < vs.len()
            &&& vs[u.index as int].path@.is_prefix_of(req.uri@)
            &&& forall|j: int| 0 <= j < u.index ==> !(#[trigger] vs[j]).path@.is_prefix_of(req.uri@)
            &&& u.url == vs[u.index as int].remote_address@ + regex_replace_all(
                seq!['^'] + vs[u.index as int].path@,
                req.uri@,
                Seq::<char>::empty(),
            )
            &&& (virtual_route_ok(vs, req) <==> regex_valid(seq!['^'] + vs[u.index as int].path@))
        },
        !(virtual_route(vs, req) is Forward) ==> virtual_route(vs, req) == ActionView::Respond(
            ReplyView { status: 404, body: NOT_FOUND@ },
        ) && virtual_route_ok(vs, req),
{
    lemma_first_virtual(vs, req.uri@);
}

/// The index of the virtual server that takes the request, if any.
fn find_virtual(vs_conf: &Vec<VirtualServer>, request_data: &RequestData) -> (res: Option<usize>)
    ensures
        res is Some <==> has_virtual(vs_conf@, request_data.uri@),
        res matches Some(i) ==> i == first_virtual(vs_conf@, request_data.uri@) && is_first_virtual(
            vs_conf@,
            request_data.uri@,
            i as int,
        ),
{
    proof {
        lemma_first_virtual(vs_conf@, request_data.uri@);
    }
    let n = vs_conf.len();
    for k in 0..n
        invariant
            n == vs_conf@.len(),
            forall|j: int| 0 <= j < k ==> !(#[trigger] vs_conf@[j]).path@.is_prefix_of(request_data.uri@),
    {
        if starts_with(request_data.uri.as_str(), vs_conf[k].path.as_str()) {
            assert(is_first_virtual(vs_conf@, request_data.uri@, k as int));
            return Some(k);
        }
    }
    None
}

/// Builds the route pattern of a virtual server.
fn compile_route_pattern(v: &VirtualServer) -> (res: Option<CompiledPattern>)
    ensures
        res is Some <==> regex_valid(route_pattern(v.path@)),
        res matches Some(c) ==> c.source() == route_pattern(v.path@),
{
    let mut pattern: Vec<char> = Vec::new();
    pattern.push('^');
    let path = chars_of(v.path.as_str());
    extend_chars(&mut pattern, path.as_slice());
    let pattern_string = string_from_chars(pattern.as_slice());
    compile_pattern(pattern_string.as_str())
}

/// Whether the route pattern of the virtual server that takes the request
/// (if any) is a valid regular expression.
pub fn virtual_route_compiles(vs_conf: &Vec<VirtualServer>, request_data: &RequestData) -> (res: bool)
    ensures
        res == virtual_route_ok(vs_conf@, *request_data),
{
    match find_virtual(vs_conf, request_data) {
        None => true,
        Some(i) => compile_route_pattern(&vs_conf[i]).is_some(),
    }
}

/// The upstream for the virtual server at `index`, given the URI once the
/// route pattern's matches are removed from it: the server's address
/// followed by that URI.
pub fn virtual_upstream(v: &VirtualServer, index: usize, stripped_uri: &str) -> (res: Upstream)
    ensures
        res@ == (UpstreamView { route: Route::Virtual, index, url: v.remote_address@ + stripped_uri@ }),
{
    let url = concat_str(v.remote_address.as_str(), stripped_uri);
    Upstream { route: Route::Virtual, index, url }
}

/// Where the request goes by its path: the first virtual server whose path
/// is a prefix of the URI, with that prefix pattern stripped from the URI;
/// a 404 answer when no path is a prefix.
pub fn virtual_server_handler(vs_conf: &Vec<VirtualServer>, request_data: &RequestData) -> (res: Action)
    requires
        virtual_route_ok(vs_conf@, *request_data),
    ensures
        res@ == virtual_route(vs_conf@, *request_data),
{
    match find_virtual(vs_conf, request_data) {
        None => Action::Respond(Reply { status: 404, body: NOT_FOUND.to_owned() }),
        Some(i) => {
            let vs = &vs_conf[i];
            let regex = compile_route_pattern(vs).unwrap();
            proof {
                reveal_strlit("");
                assert(""@ =~= Seq::<char>::empty());
            }
            let stripped = pattern_replace_all(&regex, request_data.uri.as_str(), "");
            Action::Forward(virtual_upstream(vs, i, stripped.as_str()))
        },
    }
}

} // verus!
