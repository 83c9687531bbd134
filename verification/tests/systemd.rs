use printnanny_nats::message::PrintNannyCloudAuthRequest;
use printnanny_nats::message::ConnectPrintNannyCloudRequest;
use printnanny_nats::systemd::{
    parse_unit_file_state, unit_changes, SystemdCall, SystemdManagerEnableUnitRequest,
    SystemdManagerReloadUnitRequest, SystemdManagerStartUnitRequest, SystemdUnitChangeState,
    SystemdUnitFileState,
};

#[test]
fn start_uses_replace_mode() {
    let r = SystemdManagerStartUnitRequest {
        name: "octoprint.service".to_string(),
    };
    match r.call() {
        SystemdCall::StartUnit { name, mode } => {
            assert_eq!(name, "octoprint.service");
            assert_eq!(mode, "replace");
        }
        _ => panic!("expected StartUnit"),
    }
}

#[test]
fn reload_restarts() {
    let r = SystemdManagerReloadUnitRequest {
        name: "octoprint.service".to_string(),
    };
    assert!(matches!(r.call(), SystemdCall::RestartUnit { .. }));
}

#[test]
fn enable_is_persistent_and_unforced() {
    let r = SystemdManagerEnableUnitRequest {
        files: vec!["a.service".to_string(), "b.service".to_string()],
    };
    match r.call() {
        SystemdCall::EnableUnitFiles {
            files,
            runtime,
            force,
        } => {
            assert_eq!(files, vec!["a.service", "b.service"]);
            assert!(!runtime && !force);
        }
        _ => panic!("expected EnableUnitFiles"),
    }
    let reply = r.reply(vec![(
        "symlink".to_string(),
        "/etc/a".to_string(),
        "/lib/a".to_string(),
    )]);
    assert_eq!(reply.changes.len(), 1);
    assert_eq!(reply.request.files.len(), 2);
}

#[test]
fn unit_file_states() {
    assert_eq!(parse_unit_file_state("enabled"), SystemdUnitFileState::Enabled);
    assert_eq!(
        parse_unit_file_state("enabled-runtime"),
        SystemdUnitFileState::EnabledMinusRuntime
    );
    assert_eq!(parse_unit_file_state("static"), SystemdUnitFileState::Static);
    assert_eq!(parse_unit_file_state("invalid"), SystemdUnitFileState::Invalid);
}

#[test]
fn unlink_changes_read_as_symlink() {
    let changes = vec![
        ("unlink".to_string(), "f".to_string(), "d".to_string()),
        ("symlink".to_string(), "g".to_string(), "e".to_string()),
    ];
    let out = unit_changes(&changes);
    assert_eq!(out.len(), 2);
    assert_eq!(out[0].change, SystemdUnitChangeState::Symlink);
    assert_eq!(out[0].file, "f");
    assert_eq!(out[1].destination, "e");
}

#[test]
fn connect_cloud_reply_names_account() {
    let r = ConnectPrintNannyCloudRequest {
        email: "me@example.com".to_string(),
        api_token: "t".to_string(),
        api_uri: "u".to_string(),
    };
    let reply = r.success_reply();
    assert_eq!(
        reply.detail,
        "Success! Connected PrintNanny Cloud account belonging to me@example.com"
    );
    assert_eq!(reply.request.email, "me@example.com");
}

#[test]
fn cloud_auth_replies() {
    let r = PrintNannyCloudAuthRequest {
        email: "testing@test.com".to_string(),
        api_token: "test_token".to_string(),
        api_url: "http://localhost:8080/".to_string(),
    };
    let ok = r.reply(Ok(()));
    assert_eq!(ok.status_code, 200);
    assert_eq!(ok.msg, "Success! Connected account: testing@test.com");
    let err = r.reply(Err("403 Forbidden".to_string()));
    assert_eq!(err.status_code, 403);
    assert_eq!(err.msg, "Error connecting account: 403 Forbidden");
}
