use proxy_server::address::SocketAddress;
use proxy_server::cluster::{Cluster, Endpoint, Outcome};
use proxy_server::proxy::{step, Exchange, ProxyAction, ProxyEvent, Report, BAD_GATEWAY_STATUS};

fn endpoint(port: u16) -> Endpoint {
    Endpoint { addr: SocketAddress::V4 { ipv4: 0x7f00_0001, port } }
}

#[test]
fn successful_exchange_forwards_the_response() {
    let e = endpoint(8080);
    let mut cluster = Cluster::new(vec![e]);
    let s1 = step(&mut cluster, Exchange::Idle, ProxyEvent::RequestReceived);
    assert_eq!(s1.action, ProxyAction::Connect { endpoint: e });
    let s2 = step(&mut cluster, s1.next, ProxyEvent::Connected);
    assert_eq!(s2.action, ProxyAction::SendRequest);
    let s3 = step(&mut cluster, s2.next, ProxyEvent::ResponseReceived);
    assert_eq!(s3.action, ProxyAction::ForwardResponse);
    assert_eq!(s3.reported, Some(Report { endpoint: e, outcome: Outcome::Success }));
    assert_eq!(s3.next, Exchange::Done);
}

#[test]
fn failed_connect_is_answered_with_bad_gateway() {
    let e = endpoint(8080);
    let mut cluster = Cluster::new(vec![e]);
    let s1 = step(&mut cluster, Exchange::Idle, ProxyEvent::RequestReceived);
    let s2 = step(&mut cluster, s1.next, ProxyEvent::ConnectFailed);
    assert_eq!(s2.action, ProxyAction::RespondBadGateway);
    assert_eq!(s2.reported, Some(Report { endpoint: e, outcome: Outcome::Failure }));
    assert_eq!(BAD_GATEWAY_STATUS, 502);
}

#[test]
fn failed_send_is_answered_with_bad_gateway() {
    let e = endpoint(8080);
    let mut cluster = Cluster::new(vec![e]);
    let s1 = step(&mut cluster, Exchange::Idle, ProxyEvent::RequestReceived);
    let s2 = step(&mut cluster, s1.next, ProxyEvent::Connected);
    let s3 = step(&mut cluster, s2.next, ProxyEvent::SendFailed);
    assert_eq!(s3.action, ProxyAction::RespondBadGateway);
    assert_eq!(s3.reported, Some(Report { endpoint: e, outcome: Outcome::Failure }));
}

#[test]
fn successive_requests_go_to_successive_endpoints() {
    let (a, b) = (endpoint(1), endpoint(2));
    let mut cluster = Cluster::new(vec![a, b]);
    let first = step(&mut cluster, Exchange::Idle, ProxyEvent::RequestReceived);
    let second = step(&mut cluster, Exchange::Idle, ProxyEvent::RequestReceived);
    let third = step(&mut cluster, Exchange::Idle, ProxyEvent::RequestReceived);
    assert_eq!(first.action, ProxyAction::Connect { endpoint: a });
    assert_eq!(second.action, ProxyAction::Connect { endpoint: b });
    assert_eq!(third.action, ProxyAction::Connect { endpoint: a });
}

#[test]
fn events_after_the_answer_are_ignored() {
    let mut cluster = Cluster::new(vec![endpoint(1)]);
    let s = step(&mut cluster, Exchange::Done, ProxyEvent::ResponseReceived);
    assert_eq!(s.action, ProxyAction::Ignore);
    assert_eq!(s.reported, None);
    assert_eq!(s.next, Exchange::Done);
}
