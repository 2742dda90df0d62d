//! Routing by host name.

use vstd::prelude::*;

use crate::config::DomainServer;
use crate::request::handler::{Route, Upstream, UpstreamView};
use crate::request::RequestData;
use crate::text::concat_str;

verus! {

/// `i` is the first domain route whose domain name is `host`.
pub open spec fn is_first_domain(ds: Seq<DomainServer>, host: Seq<char>, i: int) -> bool {
    &&& 0 <= i < ds.len()
    &&& ds[i].domain_name@ == host
    &&& forall|j: int| 0 <= j < i ==> (#[trigger] ds[j]).domain_name@ != host
}

/// Some domain route has domain name `host`.
pub open spec fn has_domain(ds: Seq<DomainServer>, host: Seq<char>) -> bool {
    exists|i: int| 0 <= i < ds.len() && (#[trigger] ds[i]).domain_name@ == host
}

/// The index of the first domain route whose domain name is `host`.
pub open spec fn first_domain(ds: Seq<DomainServer>, host: Seq<char>) -> int {
    choose|i: int| is_first_domain(ds, host, i)
}

/// Where a request goes by its host name: to the first domain route whose
/// domain name is the host, at that route's address followed by the path.
pub open spec fn domain_route(ds: Seq<DomainServer>, req: RequestData) -> Option<UpstreamView> {
    if has_domain(ds, req.host@) {
        let i = first_domain(ds, req.host@);
        Some(UpstreamView { route: Route::Domain, index: i as usize, url: ds[i].remote_address@ + req.uri@ })
    } else {
        None
    }
}

proof fn lemma_first_exists(ds: Seq<DomainServer>, host: Seq<char>, i: int)
    requires
        0 <= i < ds.len(),
        ds[i].domain_name@ == host,
    ensures
        exists|k: int| is_first_domain(ds, host, k),
    decreases i,
{
    if exists|j: int| 0 <= j < i && (#[trigger] ds[j]).domain_name@ == host {
        let j = choose|j: int| 0 <= j < i && (#[trigger] ds[j]).domain_name@ == host;
        lemma_first_exists(ds, host, j);
    } else {
        assert(is_first_domain(ds, host, i));
    }
}

/// The first domain route for a host is well defined: it exists when some
/// route has that domain name, and it is the only index that is first.
pub proof fn lemma_first_domain(ds: Seq<DomainServer>, host: Seq<char>)
    ensures
        has_domain(ds, host) ==> is_first_domain(ds, host, first_domain(ds, host)),
        forall|k: int| #[trigger] is_first_domain(ds, host, k) ==> k == first_domain(ds, host),
{
    if has_domain(ds, host) {
        let i = choose|i: int| 0 <= i < ds.len() && (#[trigger] ds[i]).domain_name@ == host;
        lemma_first_exists(ds, host, i);
    }
    assert forall|k: int| #[trigger] is_first_domain(ds, host, k) implies k == first_domain(ds, host) by {
        let f = first_domain(ds, host);
        assert(is_first_domain(ds, host, f));
        if k < f {
            assert(ds[k].domain_name@ == host);
        } else if f < k {
            assert(ds[f].domain_name@ == host);
        }
    }
}

/// A request goes to a domain upstream exactly when some domain route, at
/// any position of the list, has the request's host as its domain name; it
/// then goes to the first such route, at that route's address followed by
/// the request's path.
pub proof fn lemma_domain_route_by_host(ds: Seq<DomainServer>, req: RequestData)
    requires
        ds.len() <= usize::MAX,
    ensures
        domain_route(ds, req) is Some <==> exists|i: int|
            0 <= i < ds.len() && (#[trigger] ds[i]).domain_name@ == req.host@,
        domain_route(ds, req) matches Some(u) ==> {
            &&& u.route == Route::Domain
            &&& 0 <= u.index < ds.len()
            &&& ds[u.index as int].domain_name@ == req.host@
            &&& forall|j: int| 0 <= j < u.index ==> (#[trigger] ds[j]).domain_name@ != req.host@
            &&& u.url == ds[u.index as int].remote_address@ + req.uri@
        },
{
    lemma_first_domain(ds, req.host@);
}

/// The upstream for the request by its host name, if a domain route has it.
pub fn domain_handler(domain_conf: &Vec<DomainServer>, request_data: &RequestData) -> (res: Option<
    Upstream,
>)
    ensures
        res is Some <==> domain_route(domain_conf@, *request_data) is Some,
        res matches Some(u) ==> domain_route(domain_conf@, *request_data) == Some(u@),
{
    let n = domain_conf.len();
    proof {
        lemma_first_domain(domain_conf@, request_data.host@);
    }
    for k in 0..n
        invariant
            n == domain_conf@.len(),
            forall|j: int| 0 <= j < k ==> (#[trigger] domain_conf@[j]).domain_name@ != request_data.host@,
    {
        if request_data.host == domain_conf[k].domain_name {
            assert(is_first_domain(domain_conf@, request_data.host@, k as int));
            let url = concat_str(domain_conf[k].remote_address.as_str(), request_data.uri.as_str());
            return Some(Upstream { route: Route::Domain, index: k, url });
        }
    }
    None
}

} // verus!
