use enclave_proc::listener::{ConnectionListener, ListenerState};

#[test]
fn new_listener_is_empty() {
    let l = ConnectionListener::new();
    assert_eq!(l.endpoint_count(), 0);
    assert_eq!(l.state(), ListenerState::Created);
    assert!(!l.is_accepting());
    assert_eq!(l.enclave_descriptor(), None);
}

#[test]
fn endpoints_are_registered_once() {
    let mut l = ConnectionListener::new();
    l.add_stream_to_epoll(3);
    l.add_stream_to_epoll(3);
    assert_eq!(l.endpoint_count(), 1);
    assert!(l.is_registered(3));
    assert!(!l.is_registered(4));
}

#[test]
fn control_channel_makes_listener_listen() {
    let mut l = ConnectionListener::new();
    l.handle_new_connection(4);
    assert_eq!(l.state(), ListenerState::Listening);
    assert!(l.is_registered(4));
}

#[test]
fn enclave_descriptor_is_tracked_apart() {
    let mut l = ConnectionListener::new();
    l.add_stream_to_epoll(3);
    l.register_enclave_descriptor(9);
    l.register_enclave_descriptor(10);
    assert_eq!(l.enclave_descriptor(), Some(10));
    assert!(!l.is_registered(10));
    assert_eq!(l.endpoint_count(), 2);
}

#[test]
fn stop_twice_is_harmless() {
    let mut l = ConnectionListener::new();
    l.handle_new_connection(4);
    l.start();
    assert!(l.is_accepting());
    l.register_enclave_descriptor(9);
    l.stop();
    l.stop();
    assert_eq!(l.endpoint_count(), 0);
    assert_eq!(l.state(), ListenerState::Stopped);
    assert!(!l.is_accepting());
    assert_eq!(l.enclave_descriptor(), None);
}

#[test]
fn stopped_listener_takes_no_endpoint() {
    let mut l = ConnectionListener::new();
    l.stop();
    l.add_stream_to_epoll(3);
    l.handle_new_connection(4);
    l.register_enclave_descriptor(9);
    l.start();
    assert_eq!(l.endpoint_count(), 0);
    assert_eq!(l.state(), ListenerState::Stopped);
    assert!(!l.is_accepting());
}

#[test]
fn only_enclave_descriptor_reports_flags() {
    let mut l = ConnectionListener::new();
    l.handle_new_connection(4);
    assert_eq!(l.enclave_event_flags(9, 0x10), None);
    l.register_enclave_descriptor(9);
    assert_eq!(l.enclave_event_flags(9, 0x10), Some(0x10));
    assert_eq!(l.enclave_event_flags(9, 0), None);
    assert_eq!(l.enclave_event_flags(4, 0x10), None);
}
