use printnanny_nats::events::{
    EventStamp, PiBootCommandType, PiCamStatusType, PiEventKind, PiSoftwareUpdateCommandType,
    SwupdatePayload,
};
use printnanny_nats::publisher::{
    CloudCommand, CloudEventPublisher, CloudMessage, EventPublisher, OctoPrintEventKind,
    PublishError,
};

fn stamp() -> EventStamp {
    EventStamp {
        id: "66b3a3a0-30b5-41f2-9907-a335de57c921".to_string(),
        created_dt: "2023-02-03T04:05:06+00:00".to_string(),
    }
}

#[test]
fn boot_command_publication() {
    let p = CloudEventPublisher {
        pi_id: 12,
        octoprint_server_id: 3,
    };
    match p.build_event(CloudCommand::BootCommand(PiBootCommandType::Reboot), stamp()) {
        Ok((subject, CloudMessage::Pi(ev))) => {
            assert_eq!(subject, "pi.12.command.boot");
            assert_eq!(ev.kind, PiEventKind::BootCommand(PiBootCommandType::Reboot));
            assert_eq!(ev.pi, 12);
            assert_eq!(ev.id.as_deref(), Some("66b3a3a0-30b5-41f2-9907-a335de57c921"));
            assert_eq!(ev.created_dt.as_deref(), Some("2023-02-03T04:05:06+00:00"));
            assert!(ev.payload.is_none());
        }
        _ => panic!("expected a Pi event"),
    }
}

#[test]
fn swupdate_command_carries_version_and_urls() {
    let p = CloudEventPublisher {
        pi_id: 1,
        octoprint_server_id: 1,
    };
    let update = SwupdatePayload {
        version: "0.4.2".to_string(),
        version_id: "v".to_string(),
        version_codename: "c".to_string(),
        wic_tarball_url: "t".to_string(),
        wic_bmap_url: "b".to_string(),
        manifest_url: "m".to_string(),
        swu_url: "s".to_string(),
    };
    let cmd = CloudCommand::SwupdateCommand {
        event_type: PiSoftwareUpdateCommandType::Swupdate,
        update,
    };
    match p.build_event(cmd, stamp()) {
        Ok((subject, CloudMessage::Pi(ev))) => {
            assert_eq!(subject, "pi.1.command.swupdate");
            assert_eq!(ev.version.as_deref(), Some("0.4.2"));
            assert_eq!(ev.update.unwrap().manifest_url, "m");
        }
        _ => panic!("expected a Pi event"),
    }
}

#[test]
fn octoprint_publication_checks_json_payload() {
    let p = CloudEventPublisher {
        pi_id: 5,
        octoprint_server_id: 77,
    };
    let cmd = CloudCommand::OctoPrintServer {
        event_type: "Startup".to_string(),
        payload: Some("{\"a\": 1}".to_string()),
    };
    match p.build_event(cmd, stamp()) {
        Ok((subject, CloudMessage::OctoPrint(ev))) => {
            assert_eq!(subject, "pi.5.octoprint.server");
            assert_eq!(ev.kind, OctoPrintEventKind::ServerStatus);
            assert_eq!(ev.octoprint_server, 77);
            assert_eq!(ev.payload.as_deref(), Some("{\"a\": 1}"));
        }
        _ => panic!("expected an OctoPrint event"),
    }
    let cmd = CloudCommand::OctoPrintPrinter {
        event_type: "Operational".to_string(),
        payload: Some("not json".to_string()),
    };
    match p.build_event(cmd, stamp()) {
        Err(PublishError::InvalidPayload { payload }) => assert_eq!(payload, "not json"),
        _ => panic!("expected an invalid payload"),
    }
    let cmd = CloudCommand::OctoPrintPrintJob {
        event_type: "PrintStarted".to_string(),
        payload: "[1, 2]".to_string(),
    };
    assert!(p.build_event(cmd, stamp()).is_err());
    let cmd = CloudCommand::OctoPrintPrinter {
        event_type: "Operational".to_string(),
        payload: None,
    };
    assert!(p.build_event(cmd, stamp()).is_ok());
}

#[test]
fn event_publisher_has_no_stamp() {
    let p = EventPublisher { pi_id: 8 };
    let (subject, ev) = p.build_event(CloudCommand::CamStatus(PiCamStatusType::CamError));
    assert_eq!(subject, "pi.8.status.cam");
    assert_eq!(ev.kind, PiEventKind::CamStatus(PiCamStatusType::CamError));
    assert!(ev.id.is_none());
    assert!(ev.created_dt.is_none());
}
