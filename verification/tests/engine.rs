use udis::{Cmd, Engine, Event, IpAddress, Reaction, Service, ServiceInfo, Status, Udis, UdisError};

fn host(kind: &str, port: u16) -> Service {
    Service::Host { kind: kind.to_string(), port }
}

fn search(kind: &str) -> Service {
    Service::Search { kind: kind.to_string() }
}

fn server() -> Udis {
    Udis::build("server".to_string(), IpAddress::v4(10, 0, 0, 5), vec![host("hello", 4112)])
}

fn client() -> Udis {
    Udis::build("client".to_string(), IpAddress::v4(10, 0, 0, 6), vec![search("hello")])
}

fn hello_at_server() -> ServiceInfo {
    ServiceInfo {
        name: "server".to_string(),
        kind: "hello".to_string(),
        addr: IpAddress::v4(10, 0, 0, 5),
        port: 4112,
    }
}

fn started(local: Udis) -> Engine {
    Engine::start(local).0
}

fn json_error() -> serde_json::Error {
    serde_json::from_str::<serde_json::Value>("{").expect_err("an unfinished object")
}

fn io_error() -> std::io::Error {
    std::io::Error::new(std::io::ErrorKind::ConnectionRefused, "refused")
}

fn assert_nothing(reaction: &Reaction) {
    assert!(!reaction.announce);
    assert!(reaction.found.is_empty());
}

#[test]
fn the_engine_starts_running_and_announces_itself() {
    let (engine, reaction) = Engine::start(server());
    assert!(engine.is_running());
    assert!(matches!(engine.status(), Status::Running));
    assert_eq!(engine.local(), &server());
    assert_eq!(engine.registry().len(), 0);
    assert!(reaction.announce);
    assert!(reaction.found.is_empty());
}

#[test]
fn its_own_announcement_is_ignored() {
    let mut engine = started(client());
    let reaction = engine.step(Event::Announcement(client()));
    assert_nothing(&reaction);
    assert_eq!(engine.registry().len(), 0);
    assert!(engine.is_running());
}

#[test]
fn its_own_announcement_is_ignored_even_if_it_matches_itself() {
    let both = Udis::build(
        "both".to_string(),
        IpAddress::v4(10, 0, 0, 7),
        vec![host("hello", 4112), search("hello")],
    );
    let mut engine = started(both.clone());
    let reaction = engine.step(Event::Announcement(both));
    assert_nothing(&reaction);
    assert_eq!(engine.registry().len(), 0);
}

#[test]
fn a_repeated_announcement_is_ignored() {
    let mut engine = started(client());
    let first = engine.step(Event::Announcement(server()));
    assert_eq!(first.found, vec![hello_at_server()]);
    assert_eq!(engine.registry().len(), 1);
    let second = engine.step(Event::Announcement(server()));
    assert_nothing(&second);
    assert_eq!(engine.registry().len(), 1);
}

#[test]
fn a_host_announces_itself_again_to_a_searcher() {
    let mut engine = started(server());
    let reaction = engine.step(Event::Announcement(client()));
    assert!(engine.registry().contains(&client()));
    assert_eq!(engine.registry().len(), 1);
    assert!(reaction.announce);
    assert!(reaction.found.is_empty());
    assert!(engine.is_running());
}

#[test]
fn a_searcher_finds_the_host() {
    let mut engine = started(client());
    let reaction = engine.step(Event::Announcement(server()));
    assert!(engine.registry().contains(&server()));
    assert!(!reaction.announce);
    assert_eq!(reaction.found, vec![hello_at_server()]);
    assert!(engine.is_running());
}

#[test]
fn endpoints_with_nothing_in_common_only_register_each_other() {
    let a = Udis::build(
        "a".to_string(),
        IpAddress::v4(10, 0, 0, 1),
        vec![host("x", 1), search("y"), search("X")],
    );
    let b = Udis::build(
        "b".to_string(),
        IpAddress::v4(10, 0, 0, 2),
        vec![host("z", 1), search("w"), host("x", 2)],
    );
    let mut at_a = started(a.clone());
    let mut at_b = started(b.clone());
    assert_nothing(&at_a.step(Event::Announcement(b.clone())));
    assert_nothing(&at_b.step(Event::Announcement(a.clone())));
    assert!(at_a.registry().contains(&b));
    assert!(at_b.registry().contains(&a));
    assert_eq!(at_a.registry().len(), 1);
    assert_eq!(at_b.registry().len(), 1);
}

#[test]
fn several_matches_are_found_in_the_order_of_the_peer() {
    let local = Udis::build(
        "local".to_string(),
        IpAddress::v4(10, 0, 0, 1),
        vec![search("b"), search("a"), host("c", 7)],
    );
    let peer = Udis::build(
        "peer".to_string(),
        IpAddress::V6(0xFE80_0000_0000_0000_0000_0000_0000_0001),
        vec![host("a", 1), search("c"), host("x", 2), host("b", 3)],
    );
    let mut engine = started(local);
    let reaction = engine.step(Event::Announcement(peer));
    assert!(reaction.announce);
    let addr = IpAddress::V6(0xFE80_0000_0000_0000_0000_0000_0000_0001);
    assert_eq!(
        reaction.found,
        vec![
            ServiceInfo { name: "peer".to_string(), kind: "a".to_string(), addr, port: 1 },
            ServiceInfo { name: "peer".to_string(), kind: "b".to_string(), addr, port: 3 },
        ]
    );
}

#[test]
fn a_peer_with_a_changed_service_list_is_a_new_peer() {
    let mut engine = started(client());
    assert_eq!(engine.step(Event::Announcement(server())).found.len(), 1);
    let changed = Udis::build(
        "server".to_string(),
        IpAddress::v4(10, 0, 0, 5),
        vec![host("hello", 4112), host("more", 4113)],
    );
    let reaction = engine.step(Event::Announcement(changed));
    assert_eq!(reaction.found, vec![hello_at_server()]);
    assert_eq!(engine.registry().len(), 2);
}

#[test]
fn shutdown_terminates_with_success() {
    let mut engine = started(client());
    let found = engine.step(Event::Announcement(server())).found;
    let reaction = engine.step(Event::Command(Cmd::Shutdown));
    assert_nothing(&reaction);
    assert!(!engine.is_running());
    assert!(matches!(engine.status(), Status::Terminated(Ok(()))));
    // What was found before the command is still in the caller's hands.
    assert_eq!(found, vec![hello_at_server()]);
    assert!(matches!(engine.finish(), Some(Ok(()))));
}

#[test]
fn a_closed_command_channel_terminates_with_success() {
    let mut engine = started(client());
    assert_nothing(&engine.step(Event::CommandsClosed));
    assert!(matches!(engine.finish(), Some(Ok(()))));
}

#[test]
fn nothing_happens_after_shutdown() {
    let mut engine = started(client());
    engine.step(Event::Command(Cmd::Shutdown));
    assert_nothing(&engine.step(Event::Announcement(server())));
    assert_eq!(engine.registry().len(), 0);
    assert_nothing(&engine.step(Event::Malformed(json_error())));
    assert_nothing(&engine.step(Event::TransportFailed(io_error())));
    assert_nothing(&engine.step(Event::Command(Cmd::Shutdown)));
    assert!(matches!(engine.finish(), Some(Ok(()))));
}

#[test]
fn a_running_engine_has_no_result() {
    let mut engine = started(client());
    engine.step(Event::Announcement(server()));
    assert!(engine.finish().is_none());
}

#[test]
fn a_malformed_datagram_is_fatal() {
    let mut engine = started(client());
    let cause = json_error();
    let text = cause.to_string();
    assert_nothing(&engine.step(Event::Malformed(cause)));
    assert!(!engine.is_running());
    assert_nothing(&engine.step(Event::Announcement(server())));
    assert_eq!(engine.registry().len(), 0);
    assert_nothing(&engine.step(Event::Command(Cmd::Shutdown)));
    match engine.finish() {
        Some(Err(UdisError::FailedToDeserialiseNotifyMsg(kept))) => {
            assert_eq!(kept.to_string(), text);
        }
        other => panic!("expected the decoding error, got {other:?}"),
    }
}

#[test]
fn a_failed_receive_is_passed_over() {
    let mut engine = started(client());
    let would_block = std::io::Error::new(std::io::ErrorKind::WouldBlock, "nothing yet");
    assert_nothing(&engine.step(Event::ReceiveFailed(would_block)));
    assert_nothing(&engine.step(Event::ReceiveFailed(io_error())));
    assert!(engine.is_running());
    assert_eq!(engine.step(Event::Announcement(server())).found, vec![hello_at_server()]);
}

#[test]
fn a_failed_send_is_fatal() {
    let mut engine = started(server());
    assert!(engine.step(Event::Announcement(client())).announce);
    assert_nothing(&engine.step(Event::TransportFailed(io_error())));
    match engine.finish() {
        Some(Err(UdisError::IoError(kept))) => {
            assert_eq!(kept.kind(), std::io::ErrorKind::ConnectionRefused);
        }
        other => panic!("expected the transport error, got {other:?}"),
    }
}

#[test]
fn a_failed_encoding_is_fatal() {
    let mut engine = started(server());
    let cause = json_error();
    let text = cause.to_string();
    assert_nothing(&engine.step(Event::EncodeFailed(cause)));
    match engine.finish() {
        Some(Err(UdisError::FailedToSerialiseNotifyMsg(kept))) => {
            assert_eq!(kept.to_string(), text);
        }
        other => panic!("expected the encoding error, got {other:?}"),
    }
}

#[test]
fn a_lost_consumer_is_fatal() {
    let mut engine = started(client());
    let mut found = engine.step(Event::Announcement(server())).found;
    let undelivered = found.remove(0);
    assert_nothing(&engine.step(Event::OutputClosed(undelivered)));
    match engine.finish() {
        Some(Err(UdisError::FailedToSendServiceInfo(kept))) => {
            assert_eq!(kept, hello_at_server());
        }
        other => panic!("expected the undelivered service, got {other:?}"),
    }
}

#[test]
fn the_first_fatal_error_is_the_result() {
    let mut engine = started(client());
    engine.step(Event::TransportFailed(io_error()));
    engine.step(Event::Malformed(json_error()));
    engine.step(Event::Command(Cmd::Shutdown));
    assert!(matches!(engine.finish(), Some(Err(UdisError::IoError(_)))));
}
