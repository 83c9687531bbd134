//! Publishing an event from the command line: which subject and which event a
//! requested publication stands for. Writing the event to the events socket is
//! left to the caller.

use vstd::prelude::*;

use crate::events::{
    event_subject_spec, opt_view, EventStamp, PiBootCommandType, PiBootStatusType, PiCamCommandType, PiCamStatusType,
    PiEvent, PiEventKind, PiEventView, PiSoftwareUpdateCommandType, PiSoftwareUpdateStatusType,
    SwupdatePayload,
};
use crate::decimal::int_to_decimal;
use crate::subjects::{
    lemma_fill_template, pi_subject, pi_subject_spec, PI_ID_PLACEHOLDER, SUBJECT_COMMAND_BOOT,
    SUBJECT_COMMAND_CAM, SUBJECT_COMMAND_SWUPDATE, SUBJECT_MOONRAKER, SUBJECT_OCTOPRINT_PRINTER_STATUS,
    SUBJECT_OCTOPRINT_PRINT_JOB, SUBJECT_OCTOPRINT_SERVER, SUBJECT_REPETIER, SUBJECT_STATUS_BOOT,
    SUBJECT_STATUS_CAM, SUBJECT_STATUS_SWUPDATE,
};
use crate::text::replacen_spec;

verus! {

/// A publication asked for on the command line, with its arguments.
pub enum CloudCommand {
    BootCommand(PiBootCommandType),
    CamCommand(PiCamCommandType),
    SwupdateCommand { event_type: PiSoftwareUpdateCommandType, update: SwupdatePayload },
    BootStatus(PiBootStatusType),
    CamStatus(PiCamStatusType),
    SwupdateStatus { event_type: PiSoftwareUpdateStatusType, version: String },
    /// An OctoPrint print job event; its payload is JSON text.
    OctoPrintPrintJob { event_type: String, payload: String },
    /// An OctoPrint server event, with an optional JSON object as payload.
    OctoPrintServer { event_type: String, payload: Option<String> },
    /// An OctoPrint printer event, with an optional JSON object as payload.
    OctoPrintPrinter { event_type: String, payload: Option<String> },
    /// A Repetier event (no publisher exists for it).
    Repetier,
    /// A Moonraker event (no publisher exists for it).
    Moonraker,
}

#[derive(Clone, Copy, Debug, PartialEq, Eq, Structural)]
pub enum OctoPrintEventKind {
    ServerStatus,
    PrinterStatus,
    PrintJobStatus,
}

/// An OctoPrint event of a Pi's OctoPrint server; the payload is JSON text.
pub struct OctoPrintEvent {
    pub kind: OctoPrintEventKind,
    pub event_type: String,
    pub pi: i32,
    pub octoprint_server: i32,
    pub payload: Option<String>,
}

/// What is published: a Pi event or an OctoPrint event.
pub enum CloudMessage {
    Pi(PiEvent),
    OctoPrint(OctoPrintEvent),
}

/// Why a publication could not be built.
pub enum PublishError {
    /// The payload given is not a JSON object.
    InvalidPayload { payload: String },
}

/// Publishes events for one Pi and its OctoPrint server.
pub struct CloudEventPublisher {
    pub pi_id: i32,
    pub octoprint_server_id: i32,
}

/// Publishes Pi events for one Pi, without ids or creation times.
pub struct EventPublisher {
    pub pi_id: i32,
}

/// Whether `text` is a JSON object, as `serde_json` reads one.
pub uninterp spec fn parses_as_json_object(text: Seq<char>) -> bool;

/// Calls `serde_json::from_str` to read `text` as a map from strings to JSON
/// values, and reports whether it succeeded. What serde_json accepts takes pages
/// to state; it is named `parses_as_json_object`, and depends on `text` alone.
#[verifier::external_body]
fn json_object_parses(text: &str) -> (ok: bool)
    ensures
        ok == parses_as_json_object(text@),
{
    serde_json::from_str::<std::collections::HashMap<String, serde_json::Value>>(text).is_ok()
}

/// The subject suffix of a publication: `command.boot`, `octoprint.server`, ...
pub open spec fn command_suffix(c: CloudCommand) -> Seq<char> {
    match c {
        CloudCommand::BootCommand(_) => "command.boot"@,
        CloudCommand::CamCommand(_) => "command.cam"@,
        CloudCommand::SwupdateCommand { .. } => "command.swupdate"@,
        CloudCommand::BootStatus(_) => "status.boot"@,
        CloudCommand::CamStatus(_) => "status.cam"@,
        CloudCommand::SwupdateStatus { .. } => "status.swupdate"@,
        CloudCommand::OctoPrintPrintJob { .. } => "octoprint.print_job"@,
        CloudCommand::OctoPrintServer { .. } => "octoprint.server"@,
        CloudCommand::OctoPrintPrinter { .. } => "octoprint.printer"@,
        CloudCommand::Repetier => "repetier"@,
        CloudCommand::Moonraker => "moonraker"@,
    }
}

/// The subject template of a publication's family, with its `{pi_id}`
/// placeholder: the printer's status goes to `SUBJECT_OCTOPRINT_PRINTER_STATUS`,
/// a print job to `SUBJECT_OCTOPRINT_PRINT_JOB`, and so on.
pub open spec fn command_template(c: CloudCommand) -> Seq<char> {
    match c {
        CloudCommand::BootCommand(_) => SUBJECT_COMMAND_BOOT@,
        CloudCommand::CamCommand(_) => SUBJECT_COMMAND_CAM@,
        CloudCommand::SwupdateCommand { .. } => SUBJECT_COMMAND_SWUPDATE@,
        CloudCommand::BootStatus(_) => SUBJECT_STATUS_BOOT@,
        CloudCommand::CamStatus(_) => SUBJECT_STATUS_CAM@,
        CloudCommand::SwupdateStatus { .. } => SUBJECT_STATUS_SWUPDATE@,
        CloudCommand::OctoPrintPrintJob { .. } => SUBJECT_OCTOPRINT_PRINT_JOB@,
        CloudCommand::OctoPrintServer { .. } => SUBJECT_OCTOPRINT_SERVER@,
        CloudCommand::OctoPrintPrinter { .. } => SUBJECT_OCTOPRINT_PRINTER_STATUS@,
        CloudCommand::Repetier => SUBJECT_REPETIER@,
        CloudCommand::Moonraker => SUBJECT_MOONRAKER@,
    }
}

/// A publication goes out on its family's subject template with the Pi id put
/// in place of `{pi_id}`: `pi.5.octoprint.printer` for a printer status of Pi 5.
pub proof fn lemma_subject_fills_template(c: CloudCommand, pi_id: i32)
    ensures
        pi_subject_spec(pi_id as int, command_suffix(c)) == replacen_spec(
            command_template(c),
            PI_ID_PLACEHOLDER@,
            int_to_decimal(pi_id as int),
            1,
        ),
{
    reveal_strlit("pi.{pi_id}.");
    reveal_strlit("pi.{pi_id}.command.boot");
    reveal_strlit("pi.{pi_id}.command.cam");
    reveal_strlit("pi.{pi_id}.command.swupdate");
    reveal_strlit("pi.{pi_id}.status.boot");
    reveal_strlit("pi.{pi_id}.status.cam");
    reveal_strlit("pi.{pi_id}.status.swupdate");
    reveal_strlit("pi.{pi_id}.octoprint.print_job");
    reveal_strlit("pi.{pi_id}.octoprint.server");
    reveal_strlit("pi.{pi_id}.octoprint.printer");
    reveal_strlit("pi.{pi_id}.repetier");
    reveal_strlit("pi.{pi_id}.moonraker");
    reveal_strlit("command.boot");
    reveal_strlit("command.cam");
    reveal_strlit("command.swupdate");
    reveal_strlit("status.boot");
    reveal_strlit("status.cam");
    reveal_strlit("status.swupdate");
    reveal_strlit("octoprint.print_job");
    reveal_strlit("octoprint.server");
    reveal_strlit("octoprint.printer");
    reveal_strlit("repetier");
    reveal_strlit("moonraker");
    assert(command_template(c) =~= "pi.{pi_id}."@ + command_suffix(c));
    lemma_fill_template(command_suffix(c), int_to_decimal(pi_id as int));
}

pub open spec fn is_pi_command(c: CloudCommand) -> bool {
    ||| c is BootCommand
    ||| c is CamCommand
    ||| c is SwupdateCommand
    ||| c is BootStatus
    ||| c is CamStatus
    ||| c is SwupdateStatus
}

pub open spec fn is_octoprint_command(c: CloudCommand) -> bool {
    ||| c is OctoPrintPrintJob
    ||| c is OctoPrintServer
    ||| c is OctoPrintPrinter
}

/// The Pi event that a Pi publication stands for, with the given id and time.
pub open spec fn pi_event_spec(
    c: CloudCommand,
    pi: i32,
    id: Option<Seq<char>>,
    created_dt: Option<Seq<char>>,
) -> PiEventView {
    let (kind, version, update) = match c {
        CloudCommand::BootCommand(t) => (PiEventKind::BootCommand(t), None, None),
        CloudCommand::CamCommand(t) => (PiEventKind::CamCommand(t), None, None),
        CloudCommand::SwupdateCommand { event_type, update } => (
            PiEventKind::SwupdateCommand(event_type),
            Some(update.version@),
            Some(update@),
        ),
        CloudCommand::BootStatus(t) => (PiEventKind::BootStatus(t), None, None),
        CloudCommand::CamStatus(t) => (PiEventKind::CamStatus(t), None, None),
        CloudCommand::SwupdateStatus { event_type, version } => (
            PiEventKind::SwupdateStatus(event_type),
            Some(version@),
            None,
        ),
        _ => (PiEventKind::BootCommand(PiBootCommandType::Reboot), None, None),
    };
    PiEventView { kind, pi, version, update, payload: None, id, created_dt }
}

/// The payload text of an OctoPrint publication that must be a JSON object, if any.
pub open spec fn octoprint_payload(c: CloudCommand) -> Option<Seq<char>> {
    match c {
        CloudCommand::OctoPrintPrintJob { payload, .. } => Some(payload@),
        CloudCommand::OctoPrintServer { payload, .. } => opt_view(payload),
        CloudCommand::OctoPrintPrinter { payload, .. } => opt_view(payload),
        _ => None,
    }
}

/// The OctoPrint publication's payload is acceptable: absent, or a JSON object.
pub open spec fn octoprint_payload_ok(c: CloudCommand) -> bool {
    match octoprint_payload(c) {
        Some(p) => parses_as_json_object(p),
        None => true,
    }
}

pub open spec fn octoprint_kind(c: CloudCommand) -> OctoPrintEventKind {
    match c {
        CloudCommand::OctoPrintPrintJob { .. } => OctoPrintEventKind::PrintJobStatus,
        CloudCommand::OctoPrintServer { .. } => OctoPrintEventKind::ServerStatus,
        _ => OctoPrintEventKind::PrinterStatus,
    }
}

pub open spec fn octoprint_event_type(c: CloudCommand) -> Seq<char> {
    match c {
        CloudCommand::OctoPrintPrintJob { event_type, .. } => event_type@,
        CloudCommand::OctoPrintServer { event_type, .. } => event_type@,
        CloudCommand::OctoPrintPrinter { event_type, .. } => event_type@,
        _ => Seq::empty(),
    }
}

/// The Pi event for a Pi publication.
fn pi_event(c: CloudCommand, pi: i32, id: Option<String>, created_dt: Option<String>) -> (ev: PiEvent)
    requires
        is_pi_command(c),
    ensures
        ev@ == pi_event_spec(c, pi, opt_view(id), opt_view(created_dt)),
{
    let (kind, version, update) = match c {
        CloudCommand::BootCommand(t) => (PiEventKind::BootCommand(t), None, None),
        CloudCommand::CamCommand(t) => (PiEventKind::CamCommand(t), None, None),
        CloudCommand::SwupdateCommand { event_type, update } => {
            let version = update.version.clone();
            (PiEventKind::SwupdateCommand(event_type), Some(version), Some(update))
        },
        CloudCommand::BootStatus(t) => (PiEventKind::BootStatus(t), None, None),
        CloudCommand::CamStatus(t) => (PiEventKind::CamStatus(t), None, None),
        CloudCommand::SwupdateStatus { event_type, version } => (
            PiEventKind::SwupdateStatus(event_type),
            Some(version),
            None,
        ),
        _ => {
            proof {
                assert(false);
            }
            (PiEventKind::BootCommand(PiBootCommandType::Reboot), None, None)
        },
    };
    PiEvent { kind, pi, version, update, payload: None, id, created_dt }
}

fn command_suffix_text(c: &CloudCommand) -> (s: &'static str)
    ensures
        s@ == command_suffix(*c),
{
    match c {
        CloudCommand::BootCommand(_) => "command.boot",
        CloudCommand::CamCommand(_) => "command.cam",
        CloudCommand::SwupdateCommand { .. } => "command.swupdate",
        CloudCommand::BootStatus(_) => "status.boot",
        CloudCommand::CamStatus(_) => "status.cam",
        CloudCommand::SwupdateStatus { .. } => "status.swupdate",
        CloudCommand::OctoPrintPrintJob { .. } => "octoprint.print_job",
        CloudCommand::OctoPrintServer { .. } => "octoprint.server",
        CloudCommand::OctoPrintPrinter { .. } => "octoprint.printer",
        CloudCommand::Repetier => "repetier",
        CloudCommand::Moonraker => "moonraker",
    }
}

/// Checks an optional JSON payload.
fn check_payload(payload: &Option<String>) -> (res: Result<(), PublishError>)
    ensures
        res is Ok <==> match opt_view(*payload) {
            Some(p) => parses_as_json_object(p),
            None => true,
        },
        res matches Err(PublishError::InvalidPayload { payload: bad }) ==> opt_view(*payload)
            == Some(bad@),
{
    match payload {
        Some(p) => if json_object_parses(p.as_str()) {
            Ok(())
        } else {
            Err(PublishError::InvalidPayload { payload: p.clone() })
        },
        None => Ok(()),
    }
}

impl CloudEventPublisher {
    /// The subject and event that the publication `command` stands for: the
    /// subject is `pi.<pi_id>.<family>.<topic>`; a Pi event carries the Pi id and
    /// the id and time of `stamp`; an OctoPrint event carries the Pi id, the
    /// OctoPrint server id and the payload. Fails with `InvalidPayload` exactly
    /// when an OctoPrint payload given is not a JSON object. Repetier and Moonraker
    /// publications have no publisher and are outside the contract.
    pub fn build_event(&self, command: CloudCommand, stamp: EventStamp) -> (res: Result<
        (String, CloudMessage),
        PublishError,
    >)
        requires
            is_pi_command(command) || is_octoprint_command(command),
        ensures
            res is Ok <==> octoprint_payload_ok(command),
            match res {
                Ok((subject, msg)) => {
                    &&& subject@ == pi_subject_spec(self.pi_id as int, command_suffix(command))
                    &&& is_pi_command(command) ==> (msg matches CloudMessage::Pi(ev) && ev@
                        == pi_event_spec(
                        command,
                        self.pi_id,
                        Some(stamp.id@),
                        Some(stamp.created_dt@),
                    ))
                    &&& is_octoprint_command(command) ==> (msg matches CloudMessage::OctoPrint(ev)
                        && ev.kind == octoprint_kind(command) && ev.event_type@
                        == octoprint_event_type(command) && ev.pi == self.pi_id
                        && ev.octoprint_server == self.octoprint_server_id && opt_view(ev.payload)
                        == octoprint_payload(command))
                },
                Err(PublishError::InvalidPayload { payload }) => octoprint_payload(command) == Some(
                    payload@,
                ),
            },
    {
        let suffix = command_suffix_text(&command);
        let subject = pi_subject(self.pi_id, suffix);
        match command {
            CloudCommand::OctoPrintPrintJob { event_type, payload } => {
                let payload = Some(payload);
                match check_payload(&payload) {
                    Ok(()) => {},
                    Err(e) => {
                        return Err(e);
                    },
                }
                let ev = OctoPrintEvent {
                    kind: OctoPrintEventKind::PrintJobStatus,
                    event_type,
                    pi: self.pi_id,
                    octoprint_server: self.octoprint_server_id,
                    payload,
                };
                Ok((subject, CloudMessage::OctoPrint(ev)))
            },
            CloudCommand::OctoPrintServer { event_type, payload } => {
                match check_payload(&payload) {
                    Ok(()) => {},
                    Err(e) => {
                        return Err(e);
                    },
                }
                let ev = OctoPrintEvent {
                    kind: OctoPrintEventKind::ServerStatus,
                    event_type,
                    pi: self.pi_id,
                    octoprint_server: self.octoprint_server_id,
                    payload,
                };
                Ok((subject, CloudMessage::OctoPrint(ev)))
            },
            CloudCommand::OctoPrintPrinter { event_type, payload } => {
                match check_payload(&payload) {
                    Ok(()) => {},
                    Err(e) => {
                        return Err(e);
                    },
                }
                let ev = OctoPrintEvent {
                    kind: OctoPrintEventKind::PrinterStatus,
                    event_type,
                    pi: self.pi_id,
                    octoprint_server: self.octoprint_server_id,
                    payload,
                };
                Ok((subject, CloudMessage::OctoPrint(ev)))
            },
            _ => {
                let ev = pi_event(command, self.pi_id, Some(stamp.id), Some(stamp.created_dt));
                Ok((subject, CloudMessage::Pi(ev)))
            },
        }
    }
}

impl EventPublisher {
    /// The subject and Pi event that the Pi publication `command` stands for,
    /// without an id or a creation time: the subject is
    /// `pi.<pi_id>.<command|status>.<boot|cam|swupdate>`.
    pub fn build_event(&self, command: CloudCommand) -> (res: (String, PiEvent))
        requires
            is_pi_command(command),
        ensures
            res.0@ == pi_subject_spec(self.pi_id as int, command_suffix(command)),
            res.1@ == pi_event_spec(command, self.pi_id, None, None),
    {
        let suffix = command_suffix_text(&command);
        let subject = pi_subject(self.pi_id, suffix);
        let ev = pi_event(command, self.pi_id, None, None);
        (subject, ev)
    }
}

/// A Pi event published from the command line goes out on the subject where
/// events of its family travel, the subject a Pi's command handling listens on
/// and publishes its statuses to.
pub proof fn lemma_publication_on_event_subject(
    c: CloudCommand,
    pi: i32,
    id: Option<Seq<char>>,
    created_dt: Option<Seq<char>>,
)
    requires
        is_pi_command(c),
    ensures
        pi_subject_spec(pi as int, command_suffix(c)) == event_subject_spec(
            pi_event_spec(c, pi, id, created_dt).kind,
            pi as int,
        ),
{
}

} // verus!
