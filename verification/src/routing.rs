//! Routing NATS messages by subject. A Pi receives requests and events on
//! concrete subjects such as `pi.<hostname>.settings.file.load`; with the hostname
//! replaced by `{pi_id}` the subject becomes a pattern, and the pattern says which
//! request or event the message is. The JSON body of a message is read by the
//! caller, for the requests and events whose pattern says they carry one.

use vstd::prelude::*;

use crate::text::{chars_equal, chars_of, replace_all, replace_all_spec, replacen, replacen_spec};

verus! {

/// The requests a Pi answers, one per subject pattern.
#[derive(Clone, Copy, Debug, PartialEq, Eq, Structural)]
pub enum NatsRequest {
    CameraRecordingLoadRequest,
    CameraRecordingStartRequest,
    CameraRecordingStopRequest,
    CameraLoadRequest,
    PrintNannyCloudSyncRequest,
    CrashReportOsLogsRequest,
    DeviceInfoLoadRequest,
    PrintNannyCloudAuthRequest,
    SettingsFileLoadRequest,
    SettingsFileApplyRequest,
    SettingsFileRevertRequest,
    CameraSettingsFileApplyRequest,
    CameraSettingsFileLoadRequest,
    SystemdManagerDisableUnitsRequest,
    SystemdManagerEnableUnitsRequest,
    SystemdManagerGetUnitRequest,
    SystemdManagerGetUnitFileStateRequest,
    SystemdManagerRestartUnitRequest,
    SystemdManagerStartUnitRequest,
    SystemdManagerStopUnitRequest,
}

/// The subject pattern of a request.
pub open spec fn request_pattern(r: NatsRequest) -> Seq<char> {
    match r {
        NatsRequest::CameraRecordingLoadRequest => "pi.{pi_id}.command.camera.recording.load"@,
        NatsRequest::CameraRecordingStartRequest => "pi.{pi_id}.command.camera.recording.start"@,
        NatsRequest::CameraRecordingStopRequest => "pi.{pi_id}.command.camera.recording.stop"@,
        NatsRequest::CameraLoadRequest => "pi.{pi_id}.cameras.load"@,
        NatsRequest::PrintNannyCloudSyncRequest => "pi.{pi_id}.command.cloud.sync"@,
        NatsRequest::CrashReportOsLogsRequest => "pi.{pi_id}.crash_reports.os"@,
        NatsRequest::DeviceInfoLoadRequest => "pi.{pi_id}.device_info.load"@,
        NatsRequest::PrintNannyCloudAuthRequest => "pi.{pi_id}.settings.printnanny.cloud.auth"@,
        NatsRequest::SettingsFileLoadRequest => "pi.{pi_id}.settings.file.load"@,
        NatsRequest::SettingsFileApplyRequest => "pi.{pi_id}.settings.file.apply"@,
        NatsRequest::SettingsFileRevertRequest => "pi.{pi_id}.settings.file.revert"@,
        NatsRequest::CameraSettingsFileApplyRequest => "pi.{pi_id}.settings.camera.apply"@,
        NatsRequest::CameraSettingsFileLoadRequest => "pi.{pi_id}.settings.camera.load"@,
        NatsRequest::SystemdManagerDisableUnitsRequest => "pi.{pi_id}.dbus.org.freedesktop.systemd1.Manager.DisableUnit"@,
        NatsRequest::SystemdManagerEnableUnitsRequest => "pi.{pi_id}.dbus.org.freedesktop.systemd1.Manager.EnableUnit"@,
        NatsRequest::SystemdManagerGetUnitRequest => "pi.{pi_id}.dbus.org.freedesktop.systemd1.Manager.GetUnit"@,
        NatsRequest::SystemdManagerGetUnitFileStateRequest => "pi.{pi_id}.dbus.org.freedesktop.systemd1.Manager.GetUnitFileState"@,
        NatsRequest::SystemdManagerRestartUnitRequest => "pi.{pi_id}.dbus.org.freedesktop.systemd1.Manager.RestartUnit"@,
        NatsRequest::SystemdManagerStartUnitRequest => "pi.{pi_id}.dbus.org.freedesktop.systemd1.Manager.StartUnit"@,
        NatsRequest::SystemdManagerStopUnitRequest => "pi.{pi_id}.dbus.org.freedesktop.systemd1.Manager.StopUnit"@,
    }
}

/// Each request is reached on its own subject pattern, the one the Pi's
/// services answer on: recordings, cameras, cloud sync and authentication,
/// crash reports, device information, settings files, camera settings, and the
/// systemd manager's calls, each under `pi.{pi_id}.`.
pub proof fn lemma_request_pattern_table()
    ensures
        request_pattern(NatsRequest::CameraRecordingLoadRequest) == "pi.{pi_id}.command.camera.recording.load"@,
        request_pattern(NatsRequest::CameraRecordingStartRequest) == "pi.{pi_id}.command.camera.recording.start"@,
        request_pattern(NatsRequest::CameraRecordingStopRequest) == "pi.{pi_id}.command.camera.recording.stop"@,
        request_pattern(NatsRequest::CameraLoadRequest) == "pi.{pi_id}.cameras.load"@,
        request_pattern(NatsRequest::PrintNannyCloudSyncRequest) == "pi.{pi_id}.command.cloud.sync"@,
        request_pattern(NatsRequest::CrashReportOsLogsRequest) == "pi.{pi_id}.crash_reports.os"@,
        request_pattern(NatsRequest::DeviceInfoLoadRequest) == "pi.{pi_id}.device_info.load"@,
        request_pattern(NatsRequest::PrintNannyCloudAuthRequest) == "pi.{pi_id}.settings.printnanny.cloud.auth"@,
        request_pattern(NatsRequest::SettingsFileLoadRequest) == "pi.{pi_id}.settings.file.load"@,
        request_pattern(NatsRequest::SettingsFileApplyRequest) == "pi.{pi_id}.settings.file.apply"@,
        request_pattern(NatsRequest::SettingsFileRevertRequest) == "pi.{pi_id}.settings.file.revert"@,
        request_pattern(NatsRequest::CameraSettingsFileApplyRequest) == "pi.{pi_id}.settings.camera.apply"@,
        request_pattern(NatsRequest::CameraSettingsFileLoadRequest) == "pi.{pi_id}.settings.camera.load"@,
        request_pattern(NatsRequest::SystemdManagerDisableUnitsRequest) == "pi.{pi_id}.dbus.org.freedesktop.systemd1.Manager.DisableUnit"@,
        request_pattern(NatsRequest::SystemdManagerEnableUnitsRequest) == "pi.{pi_id}.dbus.org.freedesktop.systemd1.Manager.EnableUnit"@,
        request_pattern(NatsRequest::SystemdManagerGetUnitRequest) == "pi.{pi_id}.dbus.org.freedesktop.systemd1.Manager.GetUnit"@,
        request_pattern(NatsRequest::SystemdManagerGetUnitFileStateRequest) == "pi.{pi_id}.dbus.org.freedesktop.systemd1.Manager.GetUnitFileState"@,
        request_pattern(NatsRequest::SystemdManagerRestartUnitRequest) == "pi.{pi_id}.dbus.org.freedesktop.systemd1.Manager.RestartUnit"@,
        request_pattern(NatsRequest::SystemdManagerStartUnitRequest) == "pi.{pi_id}.dbus.org.freedesktop.systemd1.Manager.StartUnit"@,
        request_pattern(NatsRequest::SystemdManagerStopUnitRequest) == "pi.{pi_id}.dbus.org.freedesktop.systemd1.Manager.StopUnit"@,
{
}

/// Whether a request is reached through its subject pattern: starting and
/// stopping a recording have patterns, but no handler reads them.
pub open spec fn is_routable_request(r: NatsRequest) -> bool {
    r != NatsRequest::CameraRecordingStartRequest && r != NatsRequest::CameraRecordingStopRequest
}

/// Whether a request carries a JSON body.
pub open spec fn request_has_body(r: NatsRequest) -> bool {
    match r {
        NatsRequest::CameraRecordingLoadRequest => false,
        NatsRequest::CameraRecordingStartRequest => false,
        NatsRequest::CameraRecordingStopRequest => false,
        NatsRequest::CameraLoadRequest => false,
        NatsRequest::PrintNannyCloudSyncRequest => false,
        NatsRequest::CrashReportOsLogsRequest => true,
        NatsRequest::DeviceInfoLoadRequest => false,
        NatsRequest::PrintNannyCloudAuthRequest => true,
        NatsRequest::SettingsFileLoadRequest => false,
        NatsRequest::SettingsFileApplyRequest => true,
        NatsRequest::SettingsFileRevertRequest => true,
        NatsRequest::CameraSettingsFileApplyRequest => true,
        NatsRequest::CameraSettingsFileLoadRequest => false,
        NatsRequest::SystemdManagerDisableUnitsRequest => true,
        NatsRequest::SystemdManagerEnableUnitsRequest => true,
        NatsRequest::SystemdManagerGetUnitRequest => true,
        NatsRequest::SystemdManagerGetUnitFileStateRequest => true,
        NatsRequest::SystemdManagerRestartUnitRequest => true,
        NatsRequest::SystemdManagerStartUnitRequest => true,
        NatsRequest::SystemdManagerStopUnitRequest => true,
    }
}

/// A subject pattern that names no request or event.
#[derive(Clone, Debug)]
pub struct RouteError {
    pub subject_pattern: String,
}

/// No two requests share a subject pattern.
proof fn lemma_request_pattern_unique(a: NatsRequest, b: NatsRequest)
    requires
        a != b,
    ensures
        request_pattern(a) != request_pattern(b),
{
    reveal_strlit("pi.{pi_id}.command.camera.recording.load");
    reveal_strlit("pi.{pi_id}.command.camera.recording.start");
    reveal_strlit("pi.{pi_id}.command.camera.recording.stop");
    reveal_strlit("pi.{pi_id}.cameras.load");
    reveal_strlit("pi.{pi_id}.command.cloud.sync");
    reveal_strlit("pi.{pi_id}.crash_reports.os");
    reveal_strlit("pi.{pi_id}.device_info.load");
    reveal_strlit("pi.{pi_id}.settings.printnanny.cloud.auth");
    reveal_strlit("pi.{pi_id}.settings.file.load");
    reveal_strlit("pi.{pi_id}.settings.file.apply");
    reveal_strlit("pi.{pi_id}.settings.file.revert");
    reveal_strlit("pi.{pi_id}.settings.camera.apply");
    reveal_strlit("pi.{pi_id}.settings.camera.load");
    reveal_strlit("pi.{pi_id}.dbus.org.freedesktop.systemd1.Manager.DisableUnit");
    reveal_strlit("pi.{pi_id}.dbus.org.freedesktop.systemd1.Manager.EnableUnit");
    reveal_strlit("pi.{pi_id}.dbus.org.freedesktop.systemd1.Manager.GetUnit");
    reveal_strlit("pi.{pi_id}.dbus.org.freedesktop.systemd1.Manager.GetUnitFileState");
    reveal_strlit("pi.{pi_id}.dbus.org.freedesktop.systemd1.Manager.RestartUnit");
    reveal_strlit("pi.{pi_id}.dbus.org.freedesktop.systemd1.Manager.StartUnit");
    reveal_strlit("pi.{pi_id}.dbus.org.freedesktop.systemd1.Manager.StopUnit");
    assert(request_pattern(NatsRequest::CameraRecordingLoadRequest).len() == 40);
    assert(request_pattern(NatsRequest::CameraRecordingStartRequest).len() == 41);
    assert(request_pattern(NatsRequest::CameraRecordingStopRequest).len() == 40);
    assert(request_pattern(NatsRequest::CameraLoadRequest).len() == 23);
    assert(request_pattern(NatsRequest::PrintNannyCloudSyncRequest).len() == 29);
    assert(request_pattern(NatsRequest::CrashReportOsLogsRequest).len() == 27);
    assert(request_pattern(NatsRequest::DeviceInfoLoadRequest).len() == 27);
    assert(request_pattern(NatsRequest::PrintNannyCloudAuthRequest).len() == 41);
    assert(request_pattern(NatsRequest::SettingsFileLoadRequest).len() == 29);
    assert(request_pattern(NatsRequest::SettingsFileApplyRequest).len() == 30);
    assert(request_pattern(NatsRequest::SettingsFileRevertRequest).len() == 31);
    assert(request_pattern(NatsRequest::CameraSettingsFileApplyRequest).len() == 32);
    assert(request_pattern(NatsRequest::CameraSettingsFileLoadRequest).len() == 31);
    assert(request_pattern(NatsRequest::SystemdManagerDisableUnitsRequest).len() == 60);
    assert(request_pattern(NatsRequest::SystemdManagerEnableUnitsRequest).len() == 59);
    assert(request_pattern(NatsRequest::SystemdManagerGetUnitRequest).len() == 56);
    assert(request_pattern(NatsRequest::SystemdManagerGetUnitFileStateRequest).len() == 65);
    assert(request_pattern(NatsRequest::SystemdManagerRestartUnitRequest).len() == 60);
    assert(request_pattern(NatsRequest::SystemdManagerStartUnitRequest).len() == 58);
    assert(request_pattern(NatsRequest::SystemdManagerStopUnitRequest).len() == 57);
    assert(request_pattern(NatsRequest::CameraRecordingLoadRequest)[36] != request_pattern(NatsRequest::CameraRecordingStopRequest)[36]);
    assert(request_pattern(NatsRequest::CameraRecordingStartRequest)[11] != request_pattern(NatsRequest::PrintNannyCloudAuthRequest)[11]);
    assert(request_pattern(NatsRequest::PrintNannyCloudSyncRequest)[11] != request_pattern(NatsRequest::SettingsFileLoadRequest)[11]);
    assert(request_pattern(NatsRequest::CrashReportOsLogsRequest)[11] != request_pattern(NatsRequest::DeviceInfoLoadRequest)[11]);
    assert(request_pattern(NatsRequest::SettingsFileRevertRequest)[20] != request_pattern(NatsRequest::CameraSettingsFileLoadRequest)[20]);
    assert(request_pattern(NatsRequest::SystemdManagerDisableUnitsRequest)[49] != request_pattern(NatsRequest::SystemdManagerRestartUnitRequest)[49]);
}

pub proof fn lemma_request_patterns_distinct()
    ensures
        forall|a: NatsRequest, b: NatsRequest|
            a != b ==> #[trigger] request_pattern(a) != #[trigger] request_pattern(b),
{
    assert forall|a: NatsRequest, b: NatsRequest| a != b implies #[trigger] request_pattern(a) != #[trigger] request_pattern(b) by {
        lemma_request_pattern_unique(a, b);
    }
}

impl NatsRequest {
    /// The request's subject pattern, such as
    /// `pi.{pi_id}.dbus.org.freedesktop.systemd1.Manager.GetUnit`.
    pub fn subject_pattern(&self) -> (p: &'static str)
        ensures
            p@ == request_pattern(*self),
    {
        match self {
            NatsRequest::CameraRecordingLoadRequest => "pi.{pi_id}.command.camera.recording.load",
            NatsRequest::CameraRecordingStartRequest => "pi.{pi_id}.command.camera.recording.start",
            NatsRequest::CameraRecordingStopRequest => "pi.{pi_id}.command.camera.recording.stop",
            NatsRequest::CameraLoadRequest => "pi.{pi_id}.cameras.load",
            NatsRequest::PrintNannyCloudSyncRequest => "pi.{pi_id}.command.cloud.sync",
            NatsRequest::CrashReportOsLogsRequest => "pi.{pi_id}.crash_reports.os",
            NatsRequest::DeviceInfoLoadRequest => "pi.{pi_id}.device_info.load",
            NatsRequest::PrintNannyCloudAuthRequest => "pi.{pi_id}.settings.printnanny.cloud.auth",
            NatsRequest::SettingsFileLoadRequest => "pi.{pi_id}.settings.file.load",
            NatsRequest::SettingsFileApplyRequest => "pi.{pi_id}.settings.file.apply",
            NatsRequest::SettingsFileRevertRequest => "pi.{pi_id}.settings.file.revert",
            NatsRequest::CameraSettingsFileApplyRequest => "pi.{pi_id}.settings.camera.apply",
            NatsRequest::CameraSettingsFileLoadRequest => "pi.{pi_id}.settings.camera.load",
            NatsRequest::SystemdManagerDisableUnitsRequest => "pi.{pi_id}.dbus.org.freedesktop.systemd1.Manager.DisableUnit",
            NatsRequest::SystemdManagerEnableUnitsRequest => "pi.{pi_id}.dbus.org.freedesktop.systemd1.Manager.EnableUnit",
            NatsRequest::SystemdManagerGetUnitRequest => "pi.{pi_id}.dbus.org.freedesktop.systemd1.Manager.GetUnit",
            NatsRequest::SystemdManagerGetUnitFileStateRequest => "pi.{pi_id}.dbus.org.freedesktop.systemd1.Manager.GetUnitFileState",
            NatsRequest::SystemdManagerRestartUnitRequest => "pi.{pi_id}.dbus.org.freedesktop.systemd1.Manager.RestartUnit",
            NatsRequest::SystemdManagerStartUnitRequest => "pi.{pi_id}.dbus.org.freedesktop.systemd1.Manager.StartUnit",
            NatsRequest::SystemdManagerStopUnitRequest => "pi.{pi_id}.dbus.org.freedesktop.systemd1.Manager.StopUnit",
        }
    }

    /// Whether the request carries a JSON body to read.
    pub fn has_body(&self) -> (b: bool)
        ensures
            b == request_has_body(*self),
    {
        match self {
            NatsRequest::CameraRecordingLoadRequest => false,
            NatsRequest::CameraRecordingStartRequest => false,
            NatsRequest::CameraRecordingStopRequest => false,
            NatsRequest::CameraLoadRequest => false,
            NatsRequest::PrintNannyCloudSyncRequest => false,
            NatsRequest::CrashReportOsLogsRequest => true,
            NatsRequest::DeviceInfoLoadRequest => false,
            NatsRequest::PrintNannyCloudAuthRequest => true,
            NatsRequest::SettingsFileLoadRequest => false,
            NatsRequest::SettingsFileApplyRequest => true,
            NatsRequest::SettingsFileRevertRequest => true,
            NatsRequest::CameraSettingsFileApplyRequest => true,
            NatsRequest::CameraSettingsFileLoadRequest => false,
            NatsRequest::SystemdManagerDisableUnitsRequest => true,
            NatsRequest::SystemdManagerEnableUnitsRequest => true,
            NatsRequest::SystemdManagerGetUnitRequest => true,
            NatsRequest::SystemdManagerGetUnitFileStateRequest => true,
            NatsRequest::SystemdManagerRestartUnitRequest => true,
            NatsRequest::SystemdManagerStartUnitRequest => true,
            NatsRequest::SystemdManagerStopUnitRequest => true,
        }
    }

    /// `subject` with every occurrence of `pattern` replaced by `replace` (a
    /// hostname by `{pi_id}`, for instance).
    pub fn replace_subject_pattern(subject: &str, pattern: &str, replace: &str) -> (res: String)
        ensures
            res@ == replace_all_spec(subject@, pattern@, replace@),
    {
        replace_all(subject, pattern, replace)
    }

    /// The request that `subject_pattern` names. Fails exactly when no handled
    /// request has that pattern; each handled request is found through its own
    /// pattern.
    pub fn from_subject_pattern(subject_pattern: &str) -> (res: Result<NatsRequest, RouteError>)
        ensures
            match res {
                Ok(r) => is_routable_request(r) && request_pattern(r) == subject_pattern@,
                Err(e) => e.subject_pattern@ == subject_pattern@ && forall|r: NatsRequest|
                    is_routable_request(r) ==> request_pattern(r) != subject_pattern@,
            },
            forall|r: NatsRequest|
                is_routable_request(r) && request_pattern(r) == subject_pattern@ ==> res == Ok::<
                    NatsRequest,
                    RouteError,
                >(r),
    {
        proof {
            lemma_request_patterns_distinct();
        }
        route_request(subject_pattern)
    }
}

fn route_request(subject_pattern: &str) -> (res: Result<NatsRequest, RouteError>)
    ensures
        match res {
            Ok(r) => is_routable_request(r) && request_pattern(r) == subject_pattern@,
            Err(e) => e.subject_pattern@ == subject_pattern@ && forall|r: NatsRequest|
                is_routable_request(r) ==> request_pattern(r) != subject_pattern@,
        },
{
    let cs = chars_of(subject_pattern);
    if chars_equal(&cs, "pi.{pi_id}.command.camera.recording.load") {
        return Ok(NatsRequest::CameraRecordingLoadRequest);
    }
    if chars_equal(&cs, "pi.{pi_id}.command.cloud.sync") {
        return Ok(NatsRequest::PrintNannyCloudSyncRequest);
    }
    if chars_equal(&cs, "pi.{pi_id}.crash_reports.os") {
        return Ok(NatsRequest::CrashReportOsLogsRequest);
    }
    if chars_equal(&cs, "pi.{pi_id}.cameras.load") {
        return Ok(NatsRequest::CameraLoadRequest);
    }
    if chars_equal(&cs, "pi.{pi_id}.device_info.load") {
        return Ok(NatsRequest::DeviceInfoLoadRequest);
    }
    if chars_equal(&cs, "pi.{pi_id}.settings.printnanny.cloud.auth") {
        return Ok(NatsRequest::PrintNannyCloudAuthRequest);
    }
    if chars_equal(&cs, "pi.{pi_id}.settings.file.load") {
        return Ok(NatsRequest::SettingsFileLoadRequest);
    }
    if chars_equal(&cs, "pi.{pi_id}.settings.file.apply") {
        return Ok(NatsRequest::SettingsFileApplyRequest);
    }
    if chars_equal(&cs, "pi.{pi_id}.settings.file.revert") {
        return Ok(NatsRequest::SettingsFileRevertRequest);
    }
    if chars_equal(&cs, "pi.{pi_id}.settings.camera.apply") {
        return Ok(NatsRequest::CameraSettingsFileApplyRequest);
    }
    if chars_equal(&cs, "pi.{pi_id}.settings.camera.load") {
        return Ok(NatsRequest::CameraSettingsFileLoadRequest);
    }
    if chars_equal(&cs, "pi.{pi_id}.dbus.org.freedesktop.systemd1.Manager.DisableUnit") {
        return Ok(NatsRequest::SystemdManagerDisableUnitsRequest);
    }
    if chars_equal(&cs, "pi.{pi_id}.dbus.org.freedesktop.systemd1.Manager.EnableUnit") {
        return Ok(NatsRequest::SystemdManagerEnableUnitsRequest);
    }
    if chars_equal(&cs, "pi.{pi_id}.dbus.org.freedesktop.systemd1.Manager.GetUnit") {
        return Ok(NatsRequest::SystemdManagerGetUnitRequest);
    }
    if chars_equal(&cs, "pi.{pi_id}.dbus.org.freedesktop.systemd1.Manager.GetUnitFileState") {
        return Ok(NatsRequest::SystemdManagerGetUnitFileStateRequest);
    }
    if chars_equal(&cs, "pi.{pi_id}.dbus.org.freedesktop.systemd1.Manager.RestartUnit") {
        return Ok(NatsRequest::SystemdManagerRestartUnitRequest);
    }
    if chars_equal(&cs, "pi.{pi_id}.dbus.org.freedesktop.systemd1.Manager.StartUnit") {
        return Ok(NatsRequest::SystemdManagerStartUnitRequest);
    }
    if chars_equal(&cs, "pi.{pi_id}.dbus.org.freedesktop.systemd1.Manager.StopUnit") {
        return Ok(NatsRequest::SystemdManagerStopUnitRequest);
    }
    Err(RouteError { subject_pattern: subject_pattern.to_owned() })
}

/// The OctoPrint events a Pi handles, one per subject pattern.
#[derive(Clone, Copy, Debug, PartialEq, Eq, Structural)]
pub enum NatsEvent {
    OctoPrintServerStartup,
    OctoPrintServerShutdown,
    PrinterStatusChanged,
    JobProgressChanged,
    JobStatusChanged,
    OctoPrintGcode,
}

/// The subject pattern of an event.
pub open spec fn event_pattern(e: NatsEvent) -> Seq<char> {
    match e {
        NatsEvent::OctoPrintServerStartup => "pi.{pi_id}.octoprint.event.server.startup"@,
        NatsEvent::OctoPrintServerShutdown => "pi.{pi_id}.octoprint.event.server.shutdown"@,
        NatsEvent::PrinterStatusChanged => "pi.{pi_id}.octoprint.event.printer.status"@,
        NatsEvent::JobProgressChanged => "pi.{pi_id}.octoprint.event.printer.job_progress"@,
        NatsEvent::JobStatusChanged => "pi.{pi_id}.octoprint.event.printer.job_status"@,
        NatsEvent::OctoPrintGcode => "pi.{pi_id}.octoprint.event.gcode"@,
    }
}

/// Each OctoPrint event is read on its own subject pattern: the server's startup
/// and shutdown, the printer's status, a job's progress and status, and G-code.
pub proof fn lemma_event_pattern_table()
    ensures
        event_pattern(NatsEvent::OctoPrintServerStartup) == "pi.{pi_id}.octoprint.event.server.startup"@,
        event_pattern(NatsEvent::OctoPrintServerShutdown) == "pi.{pi_id}.octoprint.event.server.shutdown"@,
        event_pattern(NatsEvent::PrinterStatusChanged) == "pi.{pi_id}.octoprint.event.printer.status"@,
        event_pattern(NatsEvent::JobProgressChanged) == "pi.{pi_id}.octoprint.event.printer.job_progress"@,
        event_pattern(NatsEvent::JobStatusChanged) == "pi.{pi_id}.octoprint.event.printer.job_status"@,
        event_pattern(NatsEvent::OctoPrintGcode) == "pi.{pi_id}.octoprint.event.gcode"@,
{
}

/// No two events share a subject pattern.
proof fn lemma_event_pattern_unique(a: NatsEvent, b: NatsEvent)
    requires
        a != b,
    ensures
        event_pattern(a) != event_pattern(b),
{
    reveal_strlit("pi.{pi_id}.octoprint.event.server.startup");
    reveal_strlit("pi.{pi_id}.octoprint.event.server.shutdown");
    reveal_strlit("pi.{pi_id}.octoprint.event.printer.status");
    reveal_strlit("pi.{pi_id}.octoprint.event.printer.job_progress");
    reveal_strlit("pi.{pi_id}.octoprint.event.printer.job_status");
    reveal_strlit("pi.{pi_id}.octoprint.event.gcode");
    assert(event_pattern(NatsEvent::OctoPrintServerStartup).len() == 41);
    assert(event_pattern(NatsEvent::OctoPrintServerShutdown).len() == 42);
    assert(event_pattern(NatsEvent::PrinterStatusChanged).len() == 41);
    assert(event_pattern(NatsEvent::JobProgressChanged).len() == 47);
    assert(event_pattern(NatsEvent::JobStatusChanged).len() == 45);
    assert(event_pattern(NatsEvent::OctoPrintGcode).len() == 32);
    assert(event_pattern(NatsEvent::OctoPrintServerStartup)[27] != event_pattern(NatsEvent::PrinterStatusChanged)[27]);
}

pub proof fn lemma_event_patterns_distinct()
    ensures
        forall|a: NatsEvent, b: NatsEvent|
            a != b ==> #[trigger] event_pattern(a) != #[trigger] event_pattern(b),
{
    assert forall|a: NatsEvent, b: NatsEvent| a != b implies #[trigger] event_pattern(a) != #[trigger] event_pattern(b) by {
        lemma_event_pattern_unique(a, b);
    }
}

impl NatsEvent {
    /// The event's subject pattern, such as `pi.{pi_id}.octoprint.event.gcode`.
    pub fn subject_pattern(&self) -> (p: &'static str)
        ensures
            p@ == event_pattern(*self),
    {
        match self {
            NatsEvent::OctoPrintServerStartup => "pi.{pi_id}.octoprint.event.server.startup",
            NatsEvent::OctoPrintServerShutdown => "pi.{pi_id}.octoprint.event.server.shutdown",
            NatsEvent::PrinterStatusChanged => "pi.{pi_id}.octoprint.event.printer.status",
            NatsEvent::JobProgressChanged => "pi.{pi_id}.octoprint.event.printer.job_progress",
            NatsEvent::JobStatusChanged => "pi.{pi_id}.octoprint.event.printer.job_status",
            NatsEvent::OctoPrintGcode => "pi.{pi_id}.octoprint.event.gcode",
        }
    }

    /// `subject` with the first occurrence of `pattern` replaced by `replace`.
    pub fn replace_subject_pattern(subject: &str, pattern: &str, replace: &str) -> (res: String)
        ensures
            res@ == replacen_spec(subject@, pattern@, replace@, 1),
    {
        replacen(subject, pattern, replace, 1)
    }

    /// The event whose pattern is `subject_pattern`. Fails exactly when no
    /// event has that pattern.
    pub fn from_subject_pattern(subject_pattern: &str) -> (res: Result<NatsEvent, RouteError>)
        ensures
            match res {
                Ok(e) => event_pattern(e) == subject_pattern@,
                Err(err) => err.subject_pattern@ == subject_pattern@ && forall|p: NatsEvent|
                    event_pattern(p) != subject_pattern@,
            },
            forall|p: NatsEvent|
                event_pattern(p) == subject_pattern@ ==> res == Ok::<NatsEvent, RouteError>(p),
    {
        proof {
            lemma_event_patterns_distinct();
        }
        route_event(subject_pattern)
    }
}

fn route_event(subject_pattern: &str) -> (res: Result<NatsEvent, RouteError>)
    ensures
        match res {
            Ok(e) => event_pattern(e) == subject_pattern@,
            Err(err) => err.subject_pattern@ == subject_pattern@ && forall|p: NatsEvent|
                event_pattern(p) != subject_pattern@,
        },
{
    let cs = chars_of(subject_pattern);
    if chars_equal(&cs, "pi.{pi_id}.octoprint.event.server.startup") {
        assert(event_pattern(NatsEvent::OctoPrintServerStartup) == subject_pattern@);
        return Ok(NatsEvent::OctoPrintServerStartup);
    }
    if chars_equal(&cs, "pi.{pi_id}.octoprint.event.server.shutdown") {
        assert(event_pattern(NatsEvent::OctoPrintServerShutdown) == subject_pattern@);
        return Ok(NatsEvent::OctoPrintServerShutdown);
    }
    if chars_equal(&cs, "pi.{pi_id}.octoprint.event.printer.status") {
        assert(event_pattern(NatsEvent::PrinterStatusChanged) == subject_pattern@);
        return Ok(NatsEvent::PrinterStatusChanged);
    }
    if chars_equal(&cs, "pi.{pi_id}.octoprint.event.printer.job_status") {
        assert(event_pattern(NatsEvent::JobStatusChanged) == subject_pattern@);
        return Ok(NatsEvent::JobStatusChanged);
    }
    if chars_equal(&cs, "pi.{pi_id}.octoprint.event.printer.job_progress") {
        assert(event_pattern(NatsEvent::JobProgressChanged) == subject_pattern@);
        return Ok(NatsEvent::JobProgressChanged);
    }
    if chars_equal(&cs, "pi.{pi_id}.octoprint.event.gcode") {
        assert(event_pattern(NatsEvent::OctoPrintGcode) == subject_pattern@);
        return Ok(NatsEvent::OctoPrintGcode);
    }
    Err(RouteError { subject_pattern: subject_pattern.to_owned() })
}

} // verus!
