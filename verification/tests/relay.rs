use printnanny_nats::relay::{EventBuffer, NatsWorker, MAX_BUFFER_SIZE};

fn ev(i: usize) -> (String, Vec<u8>) {
    (format!("pi.1.event.{}", i), vec![i as u8])
}

#[test]
fn buffer_keeps_order_and_drains() {
    let mut b = EventBuffer::new();
    assert!(b.accept(ev(1)).is_none());
    assert!(b.accept(ev(2)).is_none());
    assert_eq!(b.len(), 2);
    assert_eq!(b.drain(), vec![ev(1), ev(2)]);
    assert_eq!(b.len(), 0);
    assert!(b.drain().is_empty());
}

#[test]
fn full_buffer_drops_oldest() {
    let mut b = EventBuffer::new();
    for i in 0..MAX_BUFFER_SIZE {
        assert!(b.accept(ev(i)).is_none());
    }
    assert_eq!(b.len(), 12);
    assert_eq!(b.accept(ev(12)), Some(ev(0)));
    assert_eq!(b.accept(ev(13)), Some(ev(1)));
    let out = b.drain();
    let expected: Vec<(String, Vec<u8>)> = (2..14).map(ev).collect();
    assert_eq!(out, expected);
}

#[test]
fn worker_defaults_and_tls() {
    let w = NatsWorker::new(None, None, None, None);
    assert_eq!(w.subscribe_subject, "pi.*");
    assert_eq!(w.nats_server_uri, "nats://localhost:4222");
    assert_eq!(w.socket, "/var/run/printnanny/nats-worker.sock");
    assert!(!w.require_tls);
    assert_eq!(w.nats_creds, None);
    let w = NatsWorker::new(
        Some("pi.7.>".to_string()),
        Some("tls://connect.ngs.global".to_string()),
        Some("/run/nats.creds".to_string()),
        Some("/tmp/s.sock".to_string()),
    );
    assert_eq!(w.subscribe_subject, "pi.7.>");
    assert!(w.require_tls);
    assert_eq!(w.socket, "/tmp/s.sock");
}

#[test]
fn relay_step_publishes_pending_before_taking_the_new_event() {
    let mut b = EventBuffer::new();
    let (published, dropped) = b.relay_step(false, Some(ev(1)));
    assert!(published.is_empty());
    assert!(dropped.is_none());
    let (published, dropped) = b.relay_step(false, None);
    assert!(published.is_empty());
    assert!(dropped.is_none());
    assert_eq!(b.len(), 1);
    let (published, dropped) = b.relay_step(true, Some(ev(2)));
    assert_eq!(published, vec![ev(1)]);
    assert!(dropped.is_none());
    assert_eq!(b.len(), 1);
    let (published, _) = b.relay_step(true, None);
    assert_eq!(published, vec![ev(2)]);
    assert_eq!(b.len(), 0);
}

#[test]
fn relay_run_loses_and_reorders_nothing() {
    // thirteen events while unreachable: the first is dropped, the other twelve
    // are published in arrival order once NATS is reachable
    let mut b = EventBuffer::new();
    let mut left: Vec<(String, Vec<u8>)> = Vec::new();
    for i in 0..13 {
        let (published, dropped) = b.relay_step(false, Some(ev(i)));
        left.extend(published);
        left.extend(dropped);
        assert!(b.len() <= MAX_BUFFER_SIZE);
    }
    assert_eq!(left, vec![ev(0)]);
    let (published, dropped) = b.relay_step(true, Some(ev(13)));
    let expected: Vec<(String, Vec<u8>)> = (1..13).map(ev).collect();
    assert_eq!(published, expected);
    assert!(dropped.is_none());
    left.extend(published);
    left.extend(b.drain());
    let all: Vec<(String, Vec<u8>)> = (0..14).map(ev).collect();
    assert_eq!(left, all);
}
