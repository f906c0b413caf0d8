use vstd::prelude::*;
use vstd::string::*;
use crate::router::{RoutingTable, RouteResolution, resolve_spec};

verus! {

/// Status of the response to a request whose host has no route.
pub const NOT_FOUND_STATUS: u16 = 404;

/// Status of the response to a request whose forwarding failed in transport.
pub const BAD_GATEWAY_STATUS: u16 = 502;

/// Body of the response to a request whose host has no route.
pub open spec fn no_domain_body() -> Seq<char> {
    "No domain found"@
}

/// Body of the response to a request whose forwarding failed in transport.
pub open spec fn forward_failed_body() -> Seq<char> {
    "Failed to forward request"@
}

/// Destination of a forwarded request: `http://` + backend address + path.
pub open spec fn forward_url_spec(address: Seq<char>, path: Seq<char>) -> Seq<char> {
    "http://"@ + address + path
}

/// The fields of an inbound request that the gateway reads.
pub struct InboundRequest {
    /// Raw `Host` header, possibly with a `:<port>` suffix.
    pub host: String,
    /// Path including the query string.
    pub path: String,
    pub method: String,
    pub user_agent: String,
}

/// The single outbound call the gateway issues for a routed request.
pub struct OutboundRequest {
    pub url: String,
    pub method: String,
    pub user_agent: String,
}

/// The response handed back to the inbound caller.
pub struct InboundResponse {
    pub status: u16,
    pub body: String,
}

/// Result of the one outbound attempt.
pub enum OutboundOutcome {
    /// The backend answered, with any status; its body in full.
    Success { status: u16, body: String },
    /// Connection, DNS, timeout or protocol failure; the cause as text.
    TransportError(String),
}

/// What the gateway does with an inbound request once it is routed.
pub enum GatewayAction {
    /// Answer at once, without any outbound call.
    Respond(InboundResponse),
    /// Issue this outbound call, then answer with `complete` of its outcome.
    Forward(OutboundRequest),
}

impl InboundResponse {
    pub open spec fn spec_pair(&self) -> (u16, Seq<char>) {
        (self.status, self.body@)
    }
}

/// The response `complete` gives for an outcome, as (status, body).
pub open spec fn complete_spec(outcome: OutboundOutcome) -> (u16, Seq<char>) {
    match outcome {
        OutboundOutcome::Success { status, body } => (status, body@),
        OutboundOutcome::TransportError(_) => (BAD_GATEWAY_STATUS, forward_failed_body()),
    }
}

/// Whether `action` is what the gateway does for `req` under `table`: a
/// "no domain found" answer on a routing miss, else one outbound call to the
/// resolved backend that carries the path, method and user agent unchanged.
pub open spec fn plan_spec(table: Map<Seq<char>, Seq<char>>, req: InboundRequest, action: GatewayAction) -> bool {
    match resolve_spec(table, req.host@) {
        None => match action {
            GatewayAction::Respond(resp) => resp.spec_pair() == (NOT_FOUND_STATUS, no_domain_body()),
            GatewayAction::Forward(_) => false,
        },
        Some(address) => match action {
            GatewayAction::Respond(_) => false,
            GatewayAction::Forward(out) => out.url@ == forward_url_spec(address, req.path@)
                && out.method@ == req.method@ && out.user_agent@ == req.user_agent@,
        },
    }
}

/// The fixed answer to a request whose host has no route.
pub fn no_domain_response() -> (r: InboundResponse)
    ensures
        r.spec_pair() == (NOT_FOUND_STATUS, no_domain_body()),
{
    InboundResponse { status: NOT_FOUND_STATUS, body: String::from_str("No domain found") }
}

/// The fixed answer to a request whose forwarding failed in transport.
pub fn forward_failed_response() -> (r: InboundResponse)
    ensures
        r.spec_pair() == (BAD_GATEWAY_STATUS, forward_failed_body()),
{
    InboundResponse { status: BAD_GATEWAY_STATUS, body: String::from_str("Failed to forward request") }
}

/// Builds `http://<address><path>`; the path is taken verbatim.
pub fn forward_url(address: &str, path: &str) -> (r: String)
    ensures
        r@ == forward_url_spec(address@, path@),
{
    String::from_str("http://").concat(address).concat(path)
}

/// Routes an inbound request: either answers it directly (routing miss) or
/// says which single outbound call to make.
pub fn plan(table: &RoutingTable, req: &InboundRequest) -> (a: GatewayAction)
    ensures
        plan_spec(table@, *req, a),
{
    match table.resolve(req.host.as_str()) {
        RouteResolution::NotFound => GatewayAction::Respond(no_domain_response()),
        RouteResolution::Found(address) => {
            let url = forward_url(address.as_str(), req.path.as_str());
            GatewayAction::Forward(OutboundRequest {
                url,
                method: req.method.clone(),
                user_agent: req.user_agent.clone(),
            })
        },
    }
}

/// Turns the outcome of the outbound call into the inbound response: the
/// backend's status and body verbatim, or the fixed failure answer.
pub fn complete(outcome: OutboundOutcome) -> (r: InboundResponse)
    ensures
        r.spec_pair() == complete_spec(outcome),
{
    match outcome {
        OutboundOutcome::Success { status, body } => InboundResponse { status, body },
        OutboundOutcome::TransportError(_) => forward_failed_response(),
    }
}

} // verus!
