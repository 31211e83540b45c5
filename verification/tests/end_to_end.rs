use std::io::Read;
use std::io::Write;
use std::time::Duration;
use std::time::SystemTime;
use std::time::UNIX_EPOCH;

use mio::net::UnixDatagram;
use mio::net::UnixListener;
use mio::net::UnixStream;
use mio::Events;
use mio::Interest;
use mio::Poll;
use mio::Token;

use logd::decode::emit_lines_for_read;
use logd::dispatch::plan_wake;
use logd::dispatch::Action;
use logd::registry::Endpoint;
use logd::registry::EndpointVariant;
use logd::registry::Registry;
use logd::roles::LogicalRole;

fn ready_tokens(poll: &mut Poll, events: &mut Events) -> Vec<usize> {
    poll.poll(events, Some(Duration::from_secs(5))).unwrap();
    events.iter().map(|e| e.token().0).collect()
}

#[test]
fn datagram_wake_emits_the_message_once() {
    let mut poll = Poll::new().unwrap();
    let mut events = Events::with_capacity(16);
    let (mut receiver, sender) = UnixDatagram::pair().unwrap();

    let ep = Endpoint { handle: 3, variant: EndpointVariant::Datagram };
    let mut registry = Registry::new();
    let token = Token(LogicalRole::LegacySyslog.token());
    poll.registry().register(&mut receiver, token, Interest::READABLE).unwrap();
    registry.register(LogicalRole::LegacySyslog, ep, true).unwrap();

    sender.send(b"hello\n").unwrap();

    let ready = ready_tokens(&mut poll, &mut events);
    assert_eq!(ready, vec![LogicalRole::LegacySyslog.token()]);

    let actions = plan_wake(&registry, &ready).unwrap();
    assert_eq!(
        actions,
        vec![Action::Watchdog, Action::Read { handle: 3, role: LogicalRole::LegacySyslog }]
    );

    let mut emitted: Vec<String> = Vec::new();
    for action in &actions {
        if let Action::Read { .. } = action {
            let mut buf = vec![0u8; 1024];
            let count = receiver.recv(&mut buf).unwrap();
            emitted.extend(emit_lines_for_read(&buf, count));
        }
    }
    assert_eq!(emitted, vec![String::from("hello\n")]);
}

#[test]
fn listener_wake_accepts_once_and_emits_once() {
    let mut poll = Poll::new().unwrap();
    let mut events = Events::with_capacity(16);

    let nanos = SystemTime::now().duration_since(UNIX_EPOCH).unwrap().as_nanos();
    let path = format!("/tmp/logd-test-{}.sock", nanos);
    let mut listener = UnixListener::bind(&path).unwrap();

    let ep = Endpoint { handle: 6, variant: EndpointVariant::Listener };
    let mut registry = Registry::new();
    let token = Token(LogicalRole::StdoutCapture.token());
    poll.registry().register(&mut listener, token, Interest::READABLE).unwrap();
    registry.register(LogicalRole::StdoutCapture, ep, true).unwrap();

    let mut client = UnixStream::connect(&path).unwrap();
    client.write_all(b"x").unwrap();
    client.flush().unwrap();

    let ready = ready_tokens(&mut poll, &mut events);
    assert_eq!(ready, vec![LogicalRole::StdoutCapture.token()]);

    let actions = plan_wake(&registry, &ready).unwrap();
    assert_eq!(
        actions,
        vec![
            Action::Watchdog,
            Action::AcceptThenRead { handle: 6, role: LogicalRole::StdoutCapture },
        ]
    );

    let mut emitted: Vec<String> = Vec::new();
    let mut accepts = 0usize;
    let mut reads = 0usize;
    for action in &actions {
        if let Action::AcceptThenRead { .. } = action {
            let (mut connection, _) = listener.accept().unwrap();
            accepts += 1;
            let mut buf = vec![0u8; 1024];
            let mut count = 0usize;
            for _ in 0..1000 {
                match connection.read(&mut buf) {
                    Ok(n) => {
                        count = n;
                        break;
                    },
                    Err(e) if e.kind() == std::io::ErrorKind::WouldBlock => {},
                    Err(e) => panic!("read failed: {:?}", e),
                }
            }
            reads += 1;
            emitted.extend(emit_lines_for_read(&buf, count));
        }
    }
    assert_eq!(accepts, 1);
    assert_eq!(reads, 1);
    assert_eq!(emitted, vec![String::from("x")]);
}

#[test]
fn sequential_datagrams_emit_one_line_each_in_order() {
    let mut poll = Poll::new().unwrap();
    let mut events = Events::with_capacity(16);
    let (mut receiver, sender) = UnixDatagram::pair().unwrap();

    let ep = Endpoint { handle: 3, variant: EndpointVariant::Datagram };
    let mut registry = Registry::new();
    let token = Token(LogicalRole::LegacySyslog.token());
    poll.registry().register(&mut receiver, token, Interest::READABLE).unwrap();
    registry.register(LogicalRole::LegacySyslog, ep, true).unwrap();

    let mut emitted: Vec<String> = Vec::new();
    for _ in 0..3 {
        sender.send(b"hello\n").unwrap();
        let ready = ready_tokens(&mut poll, &mut events);
        let actions = plan_wake(&registry, &ready).unwrap();
        for action in &actions {
            if let Action::Read { .. } = action {
                let mut buf = vec![0u8; 1024];
                let count = receiver.recv(&mut buf).unwrap();
                emitted.extend(emit_lines_for_read(&buf, count));
            }
        }
    }
    assert_eq!(emitted, vec![
        String::from("hello\n"),
        String::from("hello\n"),
        String::from("hello\n"),
    ]);
}
