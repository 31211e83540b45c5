use logd::decode::decode_message;
use logd::decode::emit_lines_for_read;
use logd::dispatch::Action;
use logd::dispatch::WAKE_TIMEOUT_SECS;
use logd::dispatch::plan_wake;
use logd::errors::DispatchError;
use logd::registry::Endpoint;
use logd::registry::EndpointVariant;
use logd::registry::Registry;
use logd::roles::LogicalRole;

fn registry_with(entries: &[(LogicalRole, Endpoint)]) -> Registry {
    let mut registry = Registry::new();
    for (role, ep) in entries {
        registry.register(*role, *ep, true).unwrap();
    }
    registry
}

#[test]
fn wake_timeout_is_thirty_seconds() {
    assert_eq!(WAKE_TIMEOUT_SECS, 30);
}

#[test]
fn idle_wake_still_signals_the_watchdog_once() {
    let registry = Registry::new();
    let actions = plan_wake(&registry, &Vec::new()).unwrap();
    assert_eq!(actions, vec![Action::Watchdog]);
}

#[test]
fn every_wake_plans_exactly_one_watchdog() {
    let ep = Endpoint { handle: 3, variant: EndpointVariant::Datagram };
    let registry = registry_with(&[(LogicalRole::LegacySyslog, ep)]);
    for ready in [vec![], vec![1usize], vec![1, 1], vec![1, 1, 1]] {
        let actions = plan_wake(&registry, &ready).unwrap();
        let watchdogs = actions.iter().filter(|a| **a == Action::Watchdog).count();
        assert_eq!(watchdogs, 1);
        assert_eq!(actions[0], Action::Watchdog);
        assert_eq!(actions.len(), ready.len() + 1);
    }
}

#[test]
fn ready_datagram_token_plans_one_direct_read() {
    let ep = Endpoint { handle: 3, variant: EndpointVariant::Datagram };
    let registry = registry_with(&[(LogicalRole::LegacySyslog, ep)]);
    let actions = plan_wake(&registry, &vec![1usize]).unwrap();
    assert_eq!(
        actions,
        vec![Action::Watchdog, Action::Read { handle: 3, role: LogicalRole::LegacySyslog }]
    );
}

#[test]
fn ready_listener_token_plans_accept_then_read() {
    let ep = Endpoint { handle: 6, variant: EndpointVariant::Listener };
    let registry = registry_with(&[(LogicalRole::StdoutCapture, ep)]);
    let actions = plan_wake(&registry, &vec![2usize]).unwrap();
    assert_eq!(
        actions,
        vec![
            Action::Watchdog,
            Action::AcceptThenRead { handle: 6, role: LogicalRole::StdoutCapture },
        ]
    );
}

#[test]
fn ready_file_token_plans_one_direct_read() {
    let ep = Endpoint { handle: 8, variant: EndpointVariant::File };
    let registry = registry_with(&[(LogicalRole::KernelLog, ep)]);
    let actions = plan_wake(&registry, &vec![3usize]).unwrap();
    assert_eq!(
        actions,
        vec![Action::Watchdog, Action::Read { handle: 8, role: LogicalRole::KernelLog }]
    );
}

#[test]
fn token_of_no_role_is_fatal() {
    let ep = Endpoint { handle: 3, variant: EndpointVariant::Datagram };
    let registry = registry_with(&[(LogicalRole::LegacySyslog, ep)]);
    assert_eq!(plan_wake(&registry, &vec![9usize]), Err(DispatchError::UnknownToken));
}

#[test]
fn token_of_an_unregistered_role_is_fatal() {
    let registry = Registry::new();
    assert_eq!(plan_wake(&registry, &vec![1usize]), Err(DispatchError::UnknownToken));
}

#[test]
fn text_bytes_decode_to_one_line() {
    let buf = b"hello\n".to_vec();
    assert_eq!(decode_message(&buf, 6), Some(String::from("hello\n")));
    let lines = emit_lines_for_read(&buf, 6);
    assert_eq!(lines, vec![String::from("hello\n")]);
}

#[test]
fn non_text_bytes_emit_nothing() {
    let buf = vec![0xffu8, 0xfe, 0x80];
    assert_eq!(decode_message(&buf, 3), None);
    assert_eq!(emit_lines_for_read(&buf, 3), Vec::<String>::new());
}

#[test]
fn only_the_reported_count_is_decoded() {
    let mut buf = b"hi".to_vec();
    buf.extend_from_slice(&[0u8; 6]);
    assert_eq!(decode_message(&buf, 2), Some(String::from("hi")));
    let with_padding = decode_message(&buf, 8).unwrap();
    assert_ne!(with_padding, String::from("hi"));
}

#[test]
fn a_partly_valid_buffer_is_noise_as_a_whole() {
    let buf = vec![b'o', b'k', 0xff];
    assert_eq!(decode_message(&buf, 3), None);
    assert_eq!(decode_message(&buf, 2), Some(String::from("ok")));
}

#[test]
fn repeated_identical_datagrams_emit_one_line_each() {
    let buf = b"hello\n".to_vec();
    let mut emitted: Vec<String> = Vec::new();
    for _ in 0..3 {
        let lines = emit_lines_for_read(&buf, 6);
        assert_eq!(lines.len(), 1);
        emitted.extend(lines);
    }
    assert_eq!(emitted, vec![
        String::from("hello\n"),
        String::from("hello\n"),
        String::from("hello\n"),
    ]);
}
