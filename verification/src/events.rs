//! Pi events: the commands a Pi receives (reboot, start the camera, update its
//! software, ...) and the status events it publishes in answer, each with the
//! subject it travels on.

use vstd::prelude::*;

use crate::subjects::{pi_subject, pi_subject_spec};

verus! {

#[derive(Clone, Copy, Debug, PartialEq, Eq, Structural)]
pub enum PiBootCommandType {
    Reboot,
    Shutdown,
    SyncSettings,
}

#[derive(Clone, Copy, Debug, PartialEq, Eq, Structural)]
pub enum PiBootStatusType {
    RebootStarted,
    RebootError,
    ShutdownStarted,
    SyncSettingsStarted,
    SyncSettingsSuccess,
    SyncSettingsError,
}

#[derive(Clone, Copy, Debug, PartialEq, Eq, Structural)]
pub enum PiCamCommandType {
    CamStart,
    CamStop,
}

#[derive(Clone, Copy, Debug, PartialEq, Eq, Structural)]
pub enum PiCamStatusType {
    CamStarted,
    CamStartSuccess,
    CamStopped,
    CamError,
}

#[derive(Clone, Copy, Debug, PartialEq, Eq, Structural)]
pub enum PiSoftwareUpdateCommandType {
    Swupdate,
    SwupdateRollback,
}

#[derive(Clone, Copy, Debug, PartialEq, Eq, Structural)]
pub enum PiSoftwareUpdateStatusType {
    SwupdateStarted,
    SwupdateSuccess,
    SwupdateError,
}

/// Which event this is: a command or a status, of which family, with its type.
#[derive(Clone, Copy, Debug, PartialEq, Eq, Structural)]
pub enum PiEventKind {
    BootCommand(PiBootCommandType),
    CamCommand(PiCamCommandType),
    SwupdateCommand(PiSoftwareUpdateCommandType),
    BootStatus(PiBootStatusType),
    CamStatus(PiCamStatusType),
    SwupdateStatus(PiSoftwareUpdateStatusType),
}

/// Where a software update is fetched from, and what it installs.
#[derive(Clone, Debug)]
pub struct SwupdatePayload {
    pub version: String,
    pub version_id: String,
    pub version_codename: String,
    pub wic_tarball_url: String,
    pub wic_bmap_url: String,
    pub manifest_url: String,
    pub swu_url: String,
}

pub struct SwupdatePayloadView {
    pub version: Seq<char>,
    pub version_id: Seq<char>,
    pub version_codename: Seq<char>,
    pub wic_tarball_url: Seq<char>,
    pub wic_bmap_url: Seq<char>,
    pub manifest_url: Seq<char>,
    pub swu_url: Seq<char>,
}

impl View for SwupdatePayload {
    type V = SwupdatePayloadView;

    open spec fn view(&self) -> SwupdatePayloadView {
        SwupdatePayloadView {
            version: self.version@,
            version_id: self.version_id@,
            version_codename: self.version_codename@,
            wic_tarball_url: self.wic_tarball_url@,
            wic_bmap_url: self.wic_bmap_url@,
            manifest_url: self.manifest_url@,
            swu_url: self.swu_url@,
        }
    }
}

/// What a failed step of a command left behind, published with the error status.
#[derive(Clone, Debug)]
pub enum StatusPayload {
    /// A process ended unsuccessfully: its exit code (none when a signal ended
    /// it) and its output.
    ProcessFailed { exit_code: Option<i32>, stdout: String, stderr: String },
    /// Synchronising settings with the cloud failed with this error.
    SyncFailed { error: String },
}

pub enum StatusPayloadView {
    ProcessFailed { exit_code: Option<i32>, stdout: Seq<char>, stderr: Seq<char> },
    SyncFailed { error: Seq<char> },
}

impl View for StatusPayload {
    type V = StatusPayloadView;

    open spec fn view(&self) -> StatusPayloadView {
        match self {
            StatusPayload::ProcessFailed { exit_code, stdout, stderr } => {
                StatusPayloadView::ProcessFailed {
                    exit_code: *exit_code,
                    stdout: stdout@,
                    stderr: stderr@,
                }
            },
            StatusPayload::SyncFailed { error } => StatusPayloadView::SyncFailed { error: error@ },
        }
    }
}

/// One Pi event. `version` is present on software update events, `update` on a
/// software update command, `payload` only on status events.
#[derive(Clone, Debug)]
pub struct PiEvent {
    pub kind: PiEventKind,
    pub pi: i32,
    pub version: Option<String>,
    pub update: Option<SwupdatePayload>,
    pub payload: Option<StatusPayload>,
    pub id: Option<String>,
    pub created_dt: Option<String>,
}

pub struct PiEventView {
    pub kind: PiEventKind,
    pub pi: i32,
    pub version: Option<Seq<char>>,
    pub update: Option<SwupdatePayloadView>,
    pub payload: Option<StatusPayloadView>,
    pub id: Option<Seq<char>>,
    pub created_dt: Option<Seq<char>>,
}

pub open spec fn opt_view(o: Option<String>) -> Option<Seq<char>> {
    match o {
        Some(s) => Some(s@),
        None => None,
    }
}

impl View for PiEvent {
    type V = PiEventView;

    open spec fn view(&self) -> PiEventView {
        PiEventView {
            kind: self.kind,
            pi: self.pi,
            version: opt_view(self.version),
            update: match self.update {
                Some(u) => Some(u@),
                None => None,
            },
            payload: match self.payload {
                Some(p) => Some(p@),
                None => None,
            },
            id: opt_view(self.id),
            created_dt: opt_view(self.created_dt),
        }
    }
}

/// The identity and time of a new event: a random id and the creation time.
pub struct EventStamp {
    pub id: String,
    pub created_dt: String,
}

/// The subject suffix of an event family: `command.boot`, `status.cam`, ...
pub open spec fn kind_suffix(kind: PiEventKind) -> Seq<char> {
    match kind {
        PiEventKind::BootCommand(_) => "command.boot"@,
        PiEventKind::CamCommand(_) => "command.cam"@,
        PiEventKind::SwupdateCommand(_) => "command.swupdate"@,
        PiEventKind::BootStatus(_) => "status.boot"@,
        PiEventKind::CamStatus(_) => "status.cam"@,
        PiEventKind::SwupdateStatus(_) => "status.swupdate"@,
    }
}

/// The subject an event of `kind` for the Pi `pi` is published on:
/// `pi.<pi>.<command|status>.<boot|cam|swupdate>`.
pub open spec fn event_subject_spec(kind: PiEventKind, pi: int) -> Seq<char> {
    pi_subject_spec(pi, kind_suffix(kind))
}

pub open spec fn is_status_kind(kind: PiEventKind) -> bool {
    ||| kind is BootStatus
    ||| kind is CamStatus
    ||| kind is SwupdateStatus
}

/// The status event of `kind` answering the command `cmd`, with `payload` and
/// the id and time of `stamp`; a software update status carries the command's version.
pub open spec fn status_event_spec(
    cmd: PiEventView,
    kind: PiEventKind,
    payload: Option<StatusPayloadView>,
    stamp_id: Seq<char>,
    stamp_dt: Seq<char>,
) -> PiEventView {
    PiEventView {
        kind,
        pi: cmd.pi,
        version: if kind is SwupdateStatus {
            cmd.version
        } else {
            None
        },
        update: None,
        payload,
        id: Some(stamp_id),
        created_dt: Some(stamp_dt),
    }
}

pub fn clone_opt_string(o: &Option<String>) -> (res: Option<String>)
    ensures
        opt_view(res) == opt_view(*o),
{
    match o {
        Some(s) => Some(s.clone()),
        None => None,
    }
}

impl SwupdatePayload {
    /// A copy of the payload.
    pub fn duplicate(&self) -> (res: SwupdatePayload)
        ensures
            res@ == self@,
    {
        SwupdatePayload {
            version: self.version.clone(),
            version_id: self.version_id.clone(),
            version_codename: self.version_codename.clone(),
            wic_tarball_url: self.wic_tarball_url.clone(),
            wic_bmap_url: self.wic_bmap_url.clone(),
            manifest_url: self.manifest_url.clone(),
            swu_url: self.swu_url.clone(),
        }
    }
}

impl StatusPayload {
    /// A copy of the payload.
    pub fn duplicate(&self) -> (res: StatusPayload)
        ensures
            res@ == self@,
    {
        match self {
            StatusPayload::ProcessFailed { exit_code, stdout, stderr } => {
                StatusPayload::ProcessFailed {
                    exit_code: *exit_code,
                    stdout: stdout.clone(),
                    stderr: stderr.clone(),
                }
            },
            StatusPayload::SyncFailed { error } => StatusPayload::SyncFailed { error: error.clone() },
        }
    }
}

impl PiEvent {
    /// A copy of the event.
    pub fn duplicate(&self) -> (res: PiEvent)
        ensures
            res@ == self@,
    {
        PiEvent {
            kind: self.kind,
            pi: self.pi,
            version: clone_opt_string(&self.version),
            update: match &self.update {
                Some(u) => Some(u.duplicate()),
                None => None,
            },
            payload: match &self.payload {
                Some(p) => Some(p.duplicate()),
                None => None,
            },
            id: clone_opt_string(&self.id),
            created_dt: clone_opt_string(&self.created_dt),
        }
    }

    /// The subject this event is published on.
    pub fn subject(&self) -> (res: String)
        ensures
            res@ == event_subject_spec(self.kind, self.pi as int),
    {
        let suffix: &str = match self.kind {
            PiEventKind::BootCommand(_) => "command.boot",
            PiEventKind::CamCommand(_) => "command.cam",
            PiEventKind::SwupdateCommand(_) => "command.swupdate",
            PiEventKind::BootStatus(_) => "status.boot",
            PiEventKind::CamStatus(_) => "status.cam",
            PiEventKind::SwupdateStatus(_) => "status.swupdate",
        };
        pi_subject(self.pi, suffix)
    }

    /// The status event of `kind` answering this command, carrying `payload` and
    /// the id and creation time of `stamp`.
    pub fn status_event(&self, kind: PiEventKind, payload: Option<StatusPayload>, stamp: EventStamp) -> (res: PiEvent)
        requires
            is_status_kind(kind),
        ensures
            res@ == status_event_spec(
                self@,
                kind,
                match payload {
                    Some(p) => Some(p@),
                    None => None,
                },
                stamp.id@,
                stamp.created_dt@,
            ),
    {
        let version = if let PiEventKind::SwupdateStatus(_) = kind {
            clone_opt_string(&self.version)
        } else {
            None
        };
        PiEvent {
            kind,
            pi: self.pi,
            version,
            update: None,
            payload,
            id: Some(stamp.id),
            created_dt: Some(stamp.created_dt),
        }
    }
}

} // verus!
