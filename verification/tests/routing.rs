use printnanny_nats::routing::{NatsEvent, NatsRequest};
use printnanny_nats::subscriber::{
    answer_request, MessageRoute, NatsSubscriber, RequestAnswer, RequestOutcome,
};

#[test]
fn test_replace_subject_pattern() {
    let subject = NatsRequest::replace_subject_pattern(
        "pi.localhost.dbus.org.freedesktop.systemd1.Manager.GetUnit",
        "localhost",
        "{pi_id}",
    );
    assert_eq!(
        subject,
        "pi.{pi_id}.dbus.org.freedesktop.systemd1.Manager.GetUnit"
    );
}

#[test]
fn request_replace_subject_pattern_replaces_every_occurrence() {
    assert_eq!(
        NatsRequest::replace_subject_pattern("pi.a.a.b", "a", "{pi_id}"),
        "pi.{pi_id}.{pi_id}.b"
    );
}

#[test]
fn event_replace_subject_pattern_replaces_first_occurrence() {
    assert_eq!(
        NatsEvent::replace_subject_pattern("pi.a.a.b", "a", "{pi_id}"),
        "pi.{pi_id}.a.b"
    );
}

#[test]
fn requests_are_found_by_their_patterns() {
    let r = NatsRequest::from_subject_pattern(
        "pi.{pi_id}.dbus.org.freedesktop.systemd1.Manager.GetUnitFileState",
    )
    .unwrap();
    assert_eq!(r, NatsRequest::SystemdManagerGetUnitFileStateRequest);
    assert!(r.has_body());
    let r = NatsRequest::from_subject_pattern("pi.{pi_id}.settings.file.load").unwrap();
    assert_eq!(r, NatsRequest::SettingsFileLoadRequest);
    assert!(!r.has_body());
    for r in [
        NatsRequest::CameraLoadRequest,
        NatsRequest::DeviceInfoLoadRequest,
        NatsRequest::CrashReportOsLogsRequest,
        NatsRequest::SystemdManagerStopUnitRequest,
    ] {
        assert_eq!(NatsRequest::from_subject_pattern(r.subject_pattern()).unwrap(), r);
    }
}

#[test]
fn recording_start_has_no_handler() {
    let p = NatsRequest::CameraRecordingStartRequest.subject_pattern();
    assert_eq!(p, "pi.{pi_id}.command.camera.recording.start");
    let e = NatsRequest::from_subject_pattern(p).unwrap_err();
    assert_eq!(e.subject_pattern, p);
    assert!(NatsRequest::from_subject_pattern("pi.{pi_id}.nothing").is_err());
}

#[test]
fn events_are_found_by_their_patterns() {
    assert_eq!(
        NatsEvent::from_subject_pattern("pi.{pi_id}.octoprint.event.gcode").unwrap(),
        NatsEvent::OctoPrintGcode
    );
    assert_eq!(
        NatsEvent::from_subject_pattern("pi.{pi_id}.octoprint.event.printer.job_progress").unwrap(),
        NatsEvent::JobProgressChanged
    );
    assert_eq!(
        NatsEvent::from_subject_pattern("pi.{pi_id}.octoprint.event.server.shutdown").unwrap(),
        NatsEvent::OctoPrintServerShutdown
    );
    assert_eq!(
        NatsEvent::from_subject_pattern("pi.{pi_id}.octoprint.event.server.startup").unwrap(),
        NatsEvent::OctoPrintServerStartup
    );
    assert!(NatsEvent::from_subject_pattern("pi.{pi_id}.octoprint.event").is_err());
}

#[test]
fn subscriber_defaults_and_lowercasing() {
    let s = NatsSubscriber::new(None, None, "MyPi", None, None, None);
    assert_eq!(s.subject, "pi.mypi.>");
    assert_eq!(s.hostname, "mypi");
    assert_eq!(s.nats_server_uri, "nats://localhost:4223");
    assert!(!s.require_tls);
    assert_eq!(s.workers, 8);
    let s = NatsSubscriber::new(
        Some("PI.X.>".to_string()),
        Some("Host".to_string()),
        "ignored",
        Some("tls://nats.example.com:4222".to_string()),
        Some("/etc/creds".to_string()),
        Some(2),
    );
    assert_eq!(s.subject, "pi.x.>");
    assert_eq!(s.hostname, "host");
    assert!(s.require_tls);
    assert_eq!(s.workers, 2);
    assert_eq!(s.nats_creds, Some("/etc/creds".to_string()));
}

#[test]
fn subscriber_routes_requests_and_events() {
    let s = NatsSubscriber::new(None, Some("octopi".to_string()), "x", None, None, None);
    match s.route("pi.octopi.settings.file.load", Some("_INBOX.1".to_string())) {
        MessageRoute::Request {
            subject_pattern,
            reply,
        } => {
            assert_eq!(subject_pattern, "pi.{pi_id}.settings.file.load");
            assert_eq!(reply, "_INBOX.1");
            assert_eq!(
                NatsRequest::from_subject_pattern(&subject_pattern).unwrap(),
                NatsRequest::SettingsFileLoadRequest
            );
        }
        _ => panic!("expected a request"),
    }
    match s.route("pi.octopi.octoprint.event.gcode", None) {
        MessageRoute::Event { subject_pattern } => {
            assert_eq!(subject_pattern, "pi.{pi_id}.octoprint.event.gcode")
        }
        _ => panic!("expected an event"),
    }
}

#[test]
fn requests_that_were_read_are_answered() {
    assert!(matches!(
        answer_request(RequestOutcome::Unreadable, "pi.{pi_id}.x"),
        RequestAnswer::Nothing
    ));
    match answer_request(RequestOutcome::Replied(b"{}".to_vec()), "pi.{pi_id}.x") {
        RequestAnswer::Reply(r) => assert_eq!(r, b"{}".to_vec()),
        _ => panic!("expected the reply"),
    }
    match answer_request(
        RequestOutcome::Failed {
            request: "{\"subject_pattern\":\"pi.{pi_id}.dbus.org.freedesktop.systemd1.Manager.GetUnit\",\"unit_name\":\"x.service\"}".to_string(),
            error: "unit \"x\" not found\n".to_string(),
        },
        "pi.{pi_id}.dbus.org.freedesktop.systemd1.Manager.GetUnit",
    ) {
        RequestAnswer::Error(m) => {
            assert_eq!(
                m,
                "{\"subject_pattern\":\"pi.{pi_id}.dbus.org.freedesktop.systemd1.Manager.GetUnit\",\"request\":{\"subject_pattern\":\"pi.{pi_id}.dbus.org.freedesktop.systemd1.Manager.GetUnit\",\"unit_name\":\"x.service\"},\"error\":\"unit \\\"x\\\" not found\\n\"}"
            );
            let v: serde_json::Value = serde_json::from_str(&m).unwrap();
            assert_eq!(v["error"], "unit \"x\" not found\n");
            assert_eq!(v["request"]["unit_name"], "x.service");
        }
        _ => panic!("expected the error"),
    }
}

#[test]
fn request_error_escapes_as_serde_json_does() {
    let pattern = "pi.{pi_id}.settings.file.load";
    let error = "a\u{1}b\u{8}\u{c}\t\r\\/é\u{1f}\"";
    match answer_request(
        RequestOutcome::Failed {
            request: "{\"subject_pattern\":\"pi.{pi_id}.settings.file.load\"}".to_string(),
            error: error.to_string(),
        },
        pattern,
    ) {
        RequestAnswer::Error(m) => {
            let expected = format!(
                "{{\"subject_pattern\":{},\"request\":{{\"subject_pattern\":\"pi.{{pi_id}}.settings.file.load\"}},\"error\":{}}}",
                serde_json::to_string(pattern).unwrap(),
                serde_json::to_string(error).unwrap()
            );
            assert_eq!(m, expected);
        }
        _ => panic!("expected the error"),
    }
}
