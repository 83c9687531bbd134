use printnanny_nats::commands::{CommandAction, CommandSession, SessionStage, Work, WorkOutcome};
use printnanny_nats::events::{
    EventStamp, PiBootCommandType, PiBootStatusType, PiCamCommandType, PiCamStatusType, PiEvent,
    PiEventKind, PiSoftwareUpdateCommandType, PiSoftwareUpdateStatusType, StatusPayload,
    SwupdatePayload,
};

fn stamp(n: u32) -> EventStamp {
    EventStamp {
        id: format!("id-{}", n),
        created_dt: format!("2023-01-01T00:00:0{}+00:00", n),
    }
}

fn command(kind: PiEventKind, pi: i32) -> PiEvent {
    PiEvent {
        kind,
        pi,
        version: None,
        update: None,
        payload: None,
        id: Some("cmd".to_string()),
        created_dt: None,
    }
}

fn publish(a: &CommandAction) -> (&str, &PiEvent) {
    match a {
        CommandAction::Publish { subject, event } => (subject.as_str(), event),
        _ => panic!("expected a publication"),
    }
}

#[test]
fn reboot_publishes_started_then_runs_reboot() {
    let mut s = CommandSession::new(
        command(PiEventKind::BootCommand(PiBootCommandType::Reboot), 4),
        Some("_INBOX.r".to_string()),
    );
    let actions = s.begin(stamp(1));
    assert_eq!(actions.len(), 2);
    let (subject, ev) = publish(&actions[0]);
    assert_eq!(subject, "pi.4.status.boot");
    assert_eq!(ev.kind, PiEventKind::BootStatus(PiBootStatusType::RebootStarted));
    assert_eq!(ev.pi, 4);
    assert_eq!(ev.id.as_deref(), Some("id-1"));
    match &actions[1] {
        CommandAction::Run(Work::Process { program, args }) => {
            assert_eq!(program, "reboot");
            assert!(args.is_empty());
        }
        _ => panic!("expected the reboot process"),
    }
    assert_eq!(s.stage, SessionStage::Working);
    // a successful reboot answers the reply subject with the started event only
    let actions = s.finish(WorkOutcome::Success, stamp(2));
    assert_eq!(actions.len(), 1);
    let (subject, ev) = publish(&actions[0]);
    assert_eq!(subject, "_INBOX.r");
    assert_eq!(ev.kind, PiEventKind::BootStatus(PiBootStatusType::RebootStarted));
    assert_eq!(ev.id.as_deref(), Some("id-1"));
    assert_eq!(s.stage, SessionStage::Done);
}

#[test]
fn failed_reboot_reports_error_with_payload() {
    let mut s = CommandSession::new(
        command(PiEventKind::BootCommand(PiBootCommandType::Reboot), 4),
        Some("_INBOX.r".to_string()),
    );
    s.begin(stamp(1));
    let failure = StatusPayload::ProcessFailed {
        exit_code: Some(1),
        stdout: "".to_string(),
        stderr: "denied".to_string(),
    };
    let actions = s.finish(WorkOutcome::Failure(failure), stamp(2));
    assert_eq!(actions.len(), 2);
    let (subject, ev) = publish(&actions[0]);
    assert_eq!(subject, "_INBOX.r");
    assert_eq!(ev.kind, PiEventKind::BootStatus(PiBootStatusType::RebootError));
    match &ev.payload {
        Some(StatusPayload::ProcessFailed { exit_code, stderr, .. }) => {
            assert_eq!(*exit_code, Some(1));
            assert_eq!(stderr, "denied");
        }
        _ => panic!("expected the process failure"),
    }
    let (subject, ev2) = publish(&actions[1]);
    assert_eq!(subject, "pi.4.status.boot");
    assert_eq!(ev2.id.as_deref(), Some("id-2"));
}

#[test]
fn shutdown_runs_first_and_reports_started_whatever_happened() {
    let mut s = CommandSession::new(
        command(PiEventKind::BootCommand(PiBootCommandType::Shutdown), 9),
        None,
    );
    let actions = s.begin(stamp(1));
    assert_eq!(actions.len(), 1);
    assert!(matches!(&actions[0], CommandAction::Run(Work::Process { program, .. }) if program == "shutdown"));
    let actions = s.finish(
        WorkOutcome::Failure(StatusPayload::SyncFailed {
            error: "x".to_string(),
        }),
        stamp(2),
    );
    assert_eq!(actions.len(), 1);
    let (subject, ev) = publish(&actions[0]);
    assert_eq!(subject, "pi.9.status.boot");
    assert_eq!(ev.kind, PiEventKind::BootStatus(PiBootStatusType::ShutdownStarted));
    assert!(ev.payload.is_none());
}

#[test]
fn sync_settings_error_carries_error_text() {
    let mut s = CommandSession::new(
        command(PiEventKind::BootCommand(PiBootCommandType::SyncSettings), 2),
        Some("inbox".to_string()),
    );
    let actions = s.begin(stamp(1));
    assert_eq!(actions.len(), 2);
    assert!(matches!(&actions[1], CommandAction::Run(Work::SyncSettings)));
    let actions = s.finish(
        WorkOutcome::Failure(StatusPayload::SyncFailed {
            error: "offline".to_string(),
        }),
        stamp(2),
    );
    let (_, ev) = publish(&actions[1]);
    assert_eq!(ev.kind, PiEventKind::BootStatus(PiBootStatusType::SyncSettingsError));
    assert!(matches!(&ev.payload, Some(StatusPayload::SyncFailed { error }) if error == "offline"));
}

#[test]
fn cam_start_restarts_service() {
    let mut s = CommandSession::new(
        command(PiEventKind::CamCommand(PiCamCommandType::CamStart), 3),
        None,
    );
    let actions = s.begin(stamp(1));
    let (subject, ev) = publish(&actions[0]);
    assert_eq!(subject, "pi.3.status.cam");
    assert_eq!(ev.kind, PiEventKind::CamStatus(PiCamStatusType::CamStarted));
    match &actions[1] {
        CommandAction::Run(Work::Process { program, args }) => {
            assert_eq!(program, "sudo");
            assert_eq!(args, &vec!["systemctl", "restart", "printnanny-cam.service"]);
        }
        _ => panic!("expected systemctl"),
    }
    let actions = s.finish(WorkOutcome::Success, stamp(2));
    assert_eq!(actions.len(), 1);
    let (_, ev) = publish(&actions[0]);
    assert_eq!(ev.kind, PiEventKind::CamStatus(PiCamStatusType::CamStartSuccess));
}

#[test]
fn cam_stop_stops_service() {
    let mut s = CommandSession::new(
        command(PiEventKind::CamCommand(PiCamCommandType::CamStop), 3),
        None,
    );
    let actions = s.begin(stamp(1));
    assert_eq!(actions.len(), 1);
    match &actions[0] {
        CommandAction::Run(Work::Process { args, .. }) => {
            assert_eq!(args, &vec!["systemctl", "stop", "printnanny-cam.service"])
        }
        _ => panic!("expected systemctl"),
    }
    let actions = s.finish(WorkOutcome::Success, stamp(2));
    let (_, ev) = publish(&actions[0]);
    assert_eq!(ev.kind, PiEventKind::CamStatus(PiCamStatusType::CamStopped));
}

#[test]
fn swupdate_reports_to_reply_and_status() {
    let update = SwupdatePayload {
        version: "1.2.3".to_string(),
        version_id: "id".to_string(),
        version_codename: "name".to_string(),
        wic_tarball_url: "a".to_string(),
        wic_bmap_url: "b".to_string(),
        manifest_url: "c".to_string(),
        swu_url: "d".to_string(),
    };
    let mut cmd = command(
        PiEventKind::SwupdateCommand(PiSoftwareUpdateCommandType::Swupdate),
        1,
    );
    cmd.version = Some("1.2.3".to_string());
    cmd.update = Some(update);
    let mut s = CommandSession::new(cmd, Some("inbox".to_string()));
    let actions = s.begin(stamp(1));
    assert_eq!(actions.len(), 3);
    let (subject, ev) = publish(&actions[0]);
    assert_eq!(subject, "inbox");
    assert_eq!(ev.version.as_deref(), Some("1.2.3"));
    let (subject, _) = publish(&actions[1]);
    assert_eq!(subject, "pi.1.status.swupdate");
    assert!(matches!(&actions[2], CommandAction::Run(Work::Swupdate(p)) if p.swu_url == "d"));
    let actions = s.finish(WorkOutcome::Success, stamp(2));
    let (_, ev) = publish(&actions[1]);
    assert_eq!(
        ev.kind,
        PiEventKind::SwupdateStatus(PiSoftwareUpdateStatusType::SwupdateSuccess)
    );
}

#[test]
fn rollback_and_status_events_only_warn() {
    let mut s = CommandSession::new(
        command(
            PiEventKind::SwupdateCommand(PiSoftwareUpdateCommandType::SwupdateRollback),
            1,
        ),
        None,
    );
    let actions = s.begin(stamp(1));
    assert!(matches!(&actions[0], CommandAction::Warn(m) if m == "SwupdateRollback is not yet available"));
    assert_eq!(s.stage, SessionStage::Done);
    let mut s = CommandSession::new(
        command(PiEventKind::CamStatus(PiCamStatusType::CamError), 1),
        None,
    );
    let actions = s.begin(stamp(1));
    assert_eq!(actions.len(), 1);
    assert!(matches!(&actions[0], CommandAction::Warn(_)));
}

#[test]
fn fresh_stamps_are_uuid_v4_and_utc() {
    let a = EventStamp::fresh().unwrap();
    let b = EventStamp::fresh().unwrap();
    assert_eq!(a.id.len(), 36);
    assert_eq!(&a.id[14..15], "4");
    assert!(matches!(&a.id[19..20], "8" | "9" | "a" | "b"));
    assert_ne!(a.id, b.id);
    assert!(a.created_dt.ends_with("+00:00"));
    assert!(a.created_dt.starts_with("20"));
    assert_eq!(&a.created_dt[4..5], "-");
    assert_eq!(&a.created_dt[10..11], "T");
}

#[test]
fn stamp_from_random_bytes_sets_version_and_variant() {
    let s = EventStamp::from_random_bytes([0u8; 16], "2023-01-01T00:00:00+00:00".to_string());
    assert_eq!(s.id, "00000000-0000-4000-8000-000000000000");
    assert_eq!(s.created_dt, "2023-01-01T00:00:00+00:00");
    let s = EventStamp::from_random_bytes([0xffu8; 16], String::new());
    assert_eq!(s.id, "ffffffff-ffff-4fff-bfff-ffffffffffff");
    let bytes = [
        0x12, 0x34, 0x56, 0x78, 0x9a, 0xbc, 0xde, 0xf0, 0x01, 0x23, 0x45, 0x67, 0x89, 0xab, 0xcd,
        0xef,
    ];
    let s = EventStamp::from_random_bytes(bytes, String::new());
    assert_eq!(s.id, "12345678-9abc-4ef0-8123-456789abcdef");
}

#[test]
fn boot_run_publishes_only_boot_statuses_on_status_subject() {
    let mut s = CommandSession::new(
        command(PiEventKind::BootCommand(PiBootCommandType::SyncSettings), 6),
        None,
    );
    let mut actions = s.begin(stamp(1));
    actions.extend(s.finish(WorkOutcome::Success, stamp(2)));
    let mut kinds = Vec::new();
    for a in &actions {
        if let CommandAction::Publish { subject, event } = a {
            assert_eq!(subject, "pi.6.status.boot");
            assert_eq!(event.pi, 6);
            kinds.push(event.kind);
        }
    }
    assert_eq!(
        kinds,
        vec![
            PiEventKind::BootStatus(PiBootStatusType::SyncSettingsStarted),
            PiEventKind::BootStatus(PiBootStatusType::SyncSettingsSuccess)
        ]
    );
}
