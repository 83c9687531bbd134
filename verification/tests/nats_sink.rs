use printnanny_nats::nats_sink::{NatsSink, NatsSinkError, NatsSinkState};

#[test]
fn sink_defaults_and_properties() {
    let mut s = NatsSink::new();
    assert_eq!(s.settings.nats_address, "127.0.0.1:4222");
    assert_eq!(s.settings.nats_subject, "pi.qc");
    assert_eq!(s.state, NatsSinkState::Stopped);
    s.set_property("nats-subject", "pi.1.qc".to_string());
    s.set_property("nats-address", "10.0.0.2:4222".to_string());
    assert_eq!(s.settings.nats_subject, "pi.1.qc");
    assert_eq!(s.property("nats-address"), "10.0.0.2:4222");
}

#[test]
fn sink_lifecycle() {
    let mut s = NatsSink::new();
    match s.render(vec![1, 2, 3]) {
        Err(e) => {
            assert!(matches!(e, NatsSinkError::RenderWhileStopped));
            assert_eq!(e.message(), "Not started yet");
        }
        Ok(_) => panic!("a stopped sink renders nothing"),
    }
    match s.stop(Ok(())) {
        Err(e) => assert_eq!(e.message(), "NatsSink not started"),
        Ok(()) => panic!("a stopped sink cannot stop"),
    }
    assert!(matches!(s.stop(Ok(())), Err(NatsSinkError::NotStarted)));
    match s.start(Err("connection refused".to_string())) {
        Err(NatsSinkError::ConnectFailed { message }) => assert_eq!(
            message,
            "Failed to open NATS server address 127.0.0.1:4222 with error: connection refused"
        ),
        _ => panic!("expected a connection failure"),
    }
    assert_eq!(s.state, NatsSinkState::Stopped);
    assert!(s.start(Ok(())).is_ok());
    let (subject, bytes) = s.render(vec![7, 0, 255]).ok().unwrap();
    assert_eq!(subject, "pi.qc");
    assert_eq!(bytes, vec![7, 0, 255]);
    assert!(s.rendered(Ok(())).is_ok());
    match s.rendered(Err("no connection".to_string())) {
        Err(e) => assert_eq!(e.message(), "Failed to publish NATS message"),
        Ok(()) => panic!("a failed publication fails the render"),
    }
    assert_eq!(s.state, NatsSinkState::Started);
    match s.stop(Err("timeout".to_string())) {
        Err(NatsSinkError::FlushFailed { message }) => assert_eq!(
            message,
            "Failed to flush NATS connection 127.0.0.1:4222 with error: timeout"
        ),
        _ => panic!("expected a flush failure"),
    }
    assert_eq!(s.state, NatsSinkState::Started);
    assert!(s.stop(Ok(())).is_ok());
    assert_eq!(s.state, NatsSinkState::Stopped);
}
