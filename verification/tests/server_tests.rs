use kvserver::{
    CmdRequest, CmdResponse, ConnAction, ConnEvent, ConnState, MemStorage, Server, Service,
};

type PlainServer =
    Server<MemStorage, fn(&CmdRequest), fn(&CmdResponse), fn(&mut CmdResponse)>;

fn server() -> PlainServer {
    Server::new("127.0.0.1:5000".to_string(), Service::new(MemStorage::new()), 10)
}

#[test]
fn server_keeps_settings() {
    let s = server();
    assert_eq!(s.listen_addr(), "127.0.0.1:5000");
    assert_eq!(s.max_conns(), 10);
}

#[test]
fn serving_connection_answers_requests() {
    let mut s = server();
    let (st, act) =
        s.handle_event(ConnState::Serving, ConnEvent::Request(CmdRequest::set("k".to_string(), vec![7])));
    assert_eq!(st, ConnState::Serving);
    assert!(matches!(act, ConnAction::Reply(ref r) if r.status == 200 && r.value == vec![7]));
    let (st, act) =
        s.handle_event(ConnState::Serving, ConnEvent::Request(CmdRequest::get("k".to_string())));
    assert_eq!(st, ConnState::Serving);
    match act {
        ConnAction::Reply(r) => assert_eq!(r.value, vec![7]),
        _ => panic!("expected a reply"),
    }
}

#[test]
fn ended_stream_drains_until_shutdown() {
    let mut s = server();
    let (st, act) = s.handle_event(ConnState::Serving, ConnEvent::StreamEnded);
    assert_eq!(st, ConnState::Draining);
    assert!(matches!(act, ConnAction::Ignore));
    let (st, act) =
        s.handle_event(ConnState::Draining, ConnEvent::Request(CmdRequest::get("k".to_string())));
    assert_eq!(st, ConnState::Draining);
    assert!(matches!(act, ConnAction::Ignore));
    let (st, act) = s.handle_event(ConnState::Draining, ConnEvent::Shutdown);
    assert_eq!(st, ConnState::Closed);
    assert!(matches!(act, ConnAction::Finish));
}

#[test]
fn shutdown_finishes_serving_connection_once() {
    let mut s = server();
    let (st, act) = s.handle_event(ConnState::Serving, ConnEvent::Shutdown);
    assert_eq!(st, ConnState::Closed);
    assert!(matches!(act, ConnAction::Finish));
    let (st, act) = s.handle_event(ConnState::Closed, ConnEvent::Shutdown);
    assert_eq!(st, ConnState::Closed);
    assert!(matches!(act, ConnAction::Ignore));
}
