use keiko::proxy::{Proxy, Request, RouteDecision, RouterTarget, classify, router_target, RouteClass};
use keiko::rebuild::{InstanceAddr, RebuildPhase, RebuildSupervisor};

fn request(path: &str, content_type: &str) -> Request {
    Request { path: String::from(path), content_type: String::from(content_type) }
}

#[test]
fn the_endpoint_swap_is_atomic_and_counts_generations() {
    let mut p = Proxy::new(String::from("127.0.0.1"), 5050);
    assert!(p.graphql.is_none());
    p.set_graphql_addr(String::from("127.0.0.1"), 40001);
    let first = p.graphql.as_ref().unwrap();
    assert_eq!(first.port, 40001);
    assert_eq!(first.generation, 1);
    p.set_graphql_addr(String::from("127.0.0.1"), 40002);
    let second = p.graphql.as_ref().unwrap();
    assert_eq!(second.port, 40002);
    assert_eq!(second.generation, 2);
    assert_eq!(p.rpc.port, 5050);
}

#[test]
fn each_request_shape_reaches_its_own_backend() {
    let mut p = Proxy::new(String::from("127.0.0.1"), 5050);
    p.set_graphql_addr(String::from("127.0.0.1"), 40001);

    let rpc_req = request("/", "application/grpc");
    assert_eq!(classify(&rpc_req), RouteClass::BinaryRpc);
    match p.route(&rpc_req) {
        RouteDecision::Forward(e) => assert_eq!(e.port, 5050),
        _ => panic!("binary-RPC request must be forwarded"),
    }

    let gql_req = request("/graphql", "application/json");
    assert_eq!(classify(&gql_req), RouteClass::QueryLanguage);
    match p.route(&gql_req) {
        RouteDecision::Forward(e) => assert_eq!(e.port, 40001),
        _ => panic!("query-language request must be forwarded"),
    }
}

#[test]
fn a_query_request_before_the_first_publication_is_unavailable() {
    let p = Proxy::new(String::from("127.0.0.1"), 5050);
    match p.route(&request("/graphql", "application/json")) {
        RouteDecision::ServiceUnavailable => {}
        _ => panic!("endpoint is not yet set"),
    }
}

#[test]
fn an_unroutable_request_is_not_found() {
    let p = Proxy::new(String::from("127.0.0.1"), 5050);
    match p.route(&request("/nowhere", "text/plain")) {
        RouteDecision::NotFound => {}
        _ => panic!("no backend matches"),
    }
}

#[test]
fn the_route_table_matches_paths_most_specific_first() {
    assert_eq!(router_target("/api/fund"), RouterTarget::Fund);
    assert_eq!(router_target("/api/block"), RouterTarget::Block);
    assert_eq!(router_target("/config"), RouterTarget::Config);
    assert_eq!(router_target("/keiko/assets/logo.svg"), RouterTarget::KeikoAssets);
    assert_eq!(router_target("/keiko"), RouterTarget::KeikoIndex);
    assert_eq!(router_target("/keiko/page"), RouterTarget::KeikoIndex);
    assert_eq!(router_target("/assets/app.js"), RouterTarget::Assets);
    assert_eq!(router_target("/"), RouterTarget::Fallback);
    assert_eq!(router_target("/api/fundx"), RouterTarget::Fallback);
}

#[test]
fn a_failed_bind_keeps_the_old_instance_serving() {
    let mut sup = RebuildSupervisor::new();
    let mut proxy = Proxy::new(String::from("127.0.0.1"), 5050);
    sup.instance_started(
        InstanceAddr { host: String::from("127.0.0.1"), port: 40001 },
        &mut proxy,
    );
    assert_eq!(sup.phase, RebuildPhase::Serving);

    sup.rebuild_requested();
    assert_eq!(sup.phase, RebuildPhase::Rebuilding);
    // Binding the replacement fails: the old instance must still be
    // present and serving, and the proxy still points at it.
    let reported = sup.bind_failed();
    assert_eq!(reported, keiko::OrchestratorError::BindFailed);
    assert_eq!(sup.phase, RebuildPhase::Serving);
    let current = sup.current.as_ref().expect("old instance retained");
    assert_eq!(current.port, 40001);
    assert_eq!(proxy.graphql.as_ref().unwrap().port, 40001);
    assert_eq!(proxy.graphql.as_ref().unwrap().generation, 1);
}

#[test]
fn the_broker_close_stops_the_rebuild_loop() {
    let mut sup = RebuildSupervisor::new();
    let mut proxy = Proxy::new(String::from("127.0.0.1"), 5050);
    sup.instance_started(
        InstanceAddr { host: String::from("127.0.0.1"), port: 40001 },
        &mut proxy,
    );
    let released = sup.broker_closed();
    assert_eq!(released.map(|a| a.port), Some(40001));
    assert_eq!(sup.phase, RebuildPhase::Stopped);
}
