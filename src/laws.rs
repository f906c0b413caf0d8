use vstd::prelude::*;
use crate::router::{RoutingTable, routing_key, resolve_spec, lemma_routing_key_port_suffix};
use crate::gateway::{
    InboundRequest, GatewayAction, OutboundOutcome, plan_spec, complete_spec, forward_url_spec,
    no_domain_body, forward_failed_body, NOT_FOUND_STATUS, BAD_GATEWAY_STATUS,
};

verus! {

/// A hostname in the table resolves to its configured backend address, with
/// or without a trailing `:<port>`, whatever the port.
pub proof fn law_resolve_ignores_port(table: RoutingTable, host: Seq<char>, port: Seq<char>)
    requires
        host.len() > 0,
        forall|j: int| 0 <= j < host.len() ==> host[j] != ':',
        table@.contains_key(host),
    ensures
        resolve_spec(table@, host) == Some(table@[host]),
        resolve_spec(table@, host + seq![':'] + port) == Some(table@[host]),
{
    lemma_routing_key_port_suffix(host, port);
}

/// A host that is not in the table resolves to nothing, and the gateway then
/// answers "no domain found" itself, with no outbound call.
pub proof fn law_unknown_host_not_found(table: RoutingTable, req: InboundRequest, action: GatewayAction)
    requires
        !table@.contains_key(routing_key(req.host@)),
        plan_spec(table@, req, action),
    ensures
        resolve_spec(table@, req.host@) == None::<Seq<char>>,
        match action {
            GatewayAction::Respond(resp) => resp.status == NOT_FOUND_STATUS && resp.body@ == no_domain_body(),
            GatewayAction::Forward(_) => false,
        },
{
}

/// Resolution is deterministic: two results of `resolve` on one host and an
/// unchanged table agree.
pub proof fn law_resolve_idempotent(table: RoutingTable, host: Seq<char>, first: Option<Seq<char>>, second: Option<Seq<char>>)
    requires
        first == resolve_spec(table@, host),
        second == resolve_spec(table@, host),
    ensures
        first == second,
{
}

/// A request to a routed host is forwarded to its backend, and whatever the
/// backend answers (any status, 4xx and 5xx included) is relayed verbatim.
pub proof fn law_backend_answer_relayed(
    table: RoutingTable,
    req: InboundRequest,
    action: GatewayAction,
    status: u16,
    body: String,
)
    requires
        table@.contains_key(routing_key(req.host@)),
        routing_key(req.host@).len() > 0,
        plan_spec(table@, req, action),
    ensures
        match action {
            GatewayAction::Forward(out) => out.url@ == forward_url_spec(table@[routing_key(req.host@)], req.path@),
            GatewayAction::Respond(_) => false,
        },
        complete_spec(OutboundOutcome::Success { status, body }) == (status, body@),
{
}

/// A transport failure of the one outbound attempt gives the fixed failure
/// answer; `complete` yields a final response, so no second attempt follows.
pub proof fn law_transport_failure(cause: String)
    ensures
        complete_spec(OutboundOutcome::TransportError(cause)) == (BAD_GATEWAY_STATUS, forward_failed_body()),
{
}

/// Two requests routed to different backends are sent to different URLs,
/// each naming its own backend: one request's call never reaches the other's
/// backend. Backend addresses hold no `/`, and paths are empty or start with `/`.
pub proof fn law_no_cross_talk(
    table: RoutingTable,
    req1: InboundRequest,
    req2: InboundRequest,
    action1: GatewayAction,
    action2: GatewayAction,
)
    requires
        plan_spec(table@, req1, action1),
        plan_spec(table@, req2, action2),
        resolve_spec(table@, req1.host@) is Some,
        resolve_spec(table@, req2.host@) is Some,
        resolve_spec(table@, req1.host@) != resolve_spec(table@, req2.host@),
        forall|a: Seq<char>, j: int| table@.contains_value(a) && 0 <= j < a.len() ==> a[j] != '/',
        req1.path@.len() > 0 ==> req1.path@[0] == '/',
        req2.path@.len() > 0 ==> req2.path@[0] == '/',
    ensures
        match (action1, action2) {
            (GatewayAction::Forward(o1), GatewayAction::Forward(o2)) => {
                &&& o1.url@ == forward_url_spec(resolve_spec(table@, req1.host@).unwrap(), req1.path@)
                &&& o2.url@ == forward_url_spec(resolve_spec(table@, req2.host@).unwrap(), req2.path@)
                &&& o1.url@ != o2.url@
            },
            _ => false,
        },
{
    let b1 = resolve_spec(table@, req1.host@).unwrap();
    let b2 = resolve_spec(table@, req2.host@).unwrap();
    assert(table@.contains_value(b1));
    assert(table@.contains_value(b2));
    lemma_distinct_urls(b1, req1.path@, b2, req2.path@);
}

proof fn lemma_distinct_urls(b1: Seq<char>, p1: Seq<char>, b2: Seq<char>, p2: Seq<char>)
    requires
        b1 != b2,
        forall|j: int| 0 <= j < b1.len() ==> b1[j] != '/',
        forall|j: int| 0 <= j < b2.len() ==> b2[j] != '/',
        p1.len() > 0 ==> p1[0] == '/',
        p2.len() > 0 ==> p2[0] == '/',
    ensures
        forward_url_spec(b1, p1) != forward_url_spec(b2, p2),
{
    let pre = "http://"@;
    let u1 = forward_url_spec(b1, p1);
    let u2 = forward_url_spec(b2, p2);
    let n = pre.len();
    if b1.len() == b2.len() {
        if u1 == u2 {
            assert forall|j: int| 0 <= j < b1.len() implies b1[j] == b2[j] by {
                assert(u1[n + j] == b1[j]);
                assert(u2[n + j] == b2[j]);
            }
            assert(b1 =~= b2);
        }
    } else if b1.len() < b2.len() {
        if u1 == u2 {
            let k: int = (n + b1.len()) as int;
            assert(u2[k] == b2[b1.len() as int]);
            if p1.len() > 0 {
                assert(u1[k] == p1[0]);
            } else {
                assert(u1.len() < u2.len());
            }
        }
    } else {
        if u1 == u2 {
            let k: int = (n + b2.len()) as int;
            assert(u1[k] == b1[b2.len() as int]);
            if p2.len() > 0 {
                assert(u2[k] == p2[0]);
            } else {
                assert(u2.len() < u1.len());
            }
        }
    }
}

} // verus!
