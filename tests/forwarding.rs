use host_gateway::gateway::{
    complete, forward_failed_response, forward_url, no_domain_response, plan, GatewayAction,
    InboundRequest, OutboundOutcome, BAD_GATEWAY_STATUS, NOT_FOUND_STATUS,
};
use host_gateway::router::RoutingTable;

fn scenario_table() -> RoutingTable {
    let mut t = RoutingTable::new();
    t.insert("foo.com".to_string(), "localhost:9001".to_string());
    t
}

fn request(host: &str, path: &str) -> InboundRequest {
    InboundRequest {
        host: host.to_string(),
        path: path.to_string(),
        method: "GET".to_string(),
        user_agent: "curl/8.0".to_string(),
    }
}

#[test]
fn forward_url_concatenates_scheme_address_and_path() {
    assert_eq!(forward_url("localhost:9001", "/bar?x=1&y=%20"), "http://localhost:9001/bar?x=1&y=%20");
    assert_eq!(forward_url("h:1", ""), "http://h:1");
}

#[test]
fn known_host_is_forwarded_then_relayed() {
    let t = scenario_table();
    match plan(&t, &request("foo.com:8080", "/bar")) {
        GatewayAction::Forward(out) => {
            assert_eq!(out.url, "http://localhost:9001/bar");
            assert_eq!(out.method, "GET");
            assert_eq!(out.user_agent, "curl/8.0");
        }
        GatewayAction::Respond(_) => panic!("expected a forward"),
    }
    let resp = complete(OutboundOutcome::Success { status: 200, body: "ok".to_string() });
    assert_eq!(resp.status, 200);
    assert_eq!(resp.body, "ok");
}

#[test]
fn unknown_host_gets_no_domain_response() {
    let t = scenario_table();
    match plan(&t, &request("unknown.com", "/bar")) {
        GatewayAction::Respond(resp) => {
            assert_eq!(resp.status, 404);
            assert_eq!(resp.body, "No domain found");
        }
        GatewayAction::Forward(_) => panic!("no outbound call expected"),
    }
}

#[test]
fn backend_status_and_body_relayed_verbatim() {
    for status in [200u16, 404, 500] {
        let body = format!("echo GET /p status {}", status);
        let resp = complete(OutboundOutcome::Success { status, body: body.clone() });
        assert_eq!(resp.status, status);
        assert_eq!(resp.body, body);
    }
}

#[test]
fn transport_error_gives_bad_gateway() {
    let resp = complete(OutboundOutcome::TransportError("connection refused".to_string()));
    assert_eq!(resp.status, 502);
    assert_eq!(resp.body, "Failed to forward request");
    let again = complete(OutboundOutcome::TransportError("timeout".to_string()));
    assert_eq!(again.status, BAD_GATEWAY_STATUS);
    assert_eq!(again.body, "Failed to forward request");
}

#[test]
fn fixed_responses() {
    let nf = no_domain_response();
    assert_eq!((nf.status, nf.body.as_str()), (NOT_FOUND_STATUS, "No domain found"));
    let ff = forward_failed_response();
    assert_eq!((ff.status, ff.body.as_str()), (502, "Failed to forward request"));
}

#[test]
fn distinct_hosts_go_to_their_own_backends() {
    let mut t = RoutingTable::new();
    let n = 8;
    for i in 0..n {
        t.insert(format!("host{}.test", i), format!("localhost:{}", 9000 + i));
    }
    for i in 0..n {
        match plan(&t, &request(&format!("host{}.test:8080", i), "/same")) {
            GatewayAction::Forward(out) => assert_eq!(out.url, format!("http://localhost:{}/same", 9000 + i)),
            GatewayAction::Respond(_) => panic!("expected a forward"),
        }
    }
}
