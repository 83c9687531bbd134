//! The NATS subscriber of a Pi: its configuration, and how an incoming message is
//! dispatched. A message that carries a reply subject is a request, answered on
//! that subject; any other message is a one-way event.

use vstd::prelude::*;

use crate::routing::{request_pattern, NatsRequest};
use crate::text::{contains_spec, contains_str, json_string, push_json_string, replacen, replacen_spec};

verus! {

pub const DEFAULT_NATS_URI: &'static str = "nats://localhost:4223";

pub const DEFAULT_NATS_EDGE_APP_NAME: &'static str = "nats-edge-worker";

pub const DEFAULT_NATS_EDGE_SUBJECT: &'static str = "pi.localhost.>";

/// How many messages are handled at once, unless configured otherwise.
pub const DEFAULT_WORKERS: usize = 8;

/// `s` in lowercase, as std's `str::to_lowercase` maps it (by the Unicode
/// lowercase mapping of each character).
pub uninterp spec fn lowercase(s: Seq<char>) -> Seq<char>;

/// Calls std's `str::to_lowercase`. The Unicode mapping it applies takes pages
/// to state; its result is named `lowercase` and depends on `s` alone.
#[verifier::external_body]
fn to_lowercase(s: &str) -> (res: String)
    ensures
        res@ == lowercase(s@),
{
    s.to_lowercase()
}

/// The subject a Pi subscribes to by default: everything under its hostname,
/// `pi.<hostname>.>`.
pub fn get_default_nats_subject(hostname: &str) -> (s: String)
    ensures
        s@ == "pi."@ + hostname@ + ".>"@,
{
    let mut s = String::new();
    s.append("pi.");
    s.append(hostname);
    s.append(".>");
    s
}

/// The configuration of a subscriber.
pub struct NatsSubscriber {
    /// The subject subscribed to, lowercased.
    pub subject: String,
    pub nats_server_uri: String,
    /// The hostname that subjects name the Pi by, lowercased.
    pub hostname: String,
    /// Whether the connection must use TLS: the server URI mentions `tls`.
    pub require_tls: bool,
    /// How many messages are handled at once.
    pub workers: usize,
    pub nats_creds: Option<String>,
}

/// Where a message goes.
pub enum MessageRoute {
    /// A request on `subject_pattern`; its reply is published on `reply`.
    Request { subject_pattern: String, reply: String },
    /// A one-way event on `subject_pattern`.
    Event { subject_pattern: String },
}

impl NatsSubscriber {
    /// A subscriber from its options. The subject defaults to everything under
    /// the system hostname, the hostname to the system hostname, the server to
    /// `nats://localhost:4223` and the workers to 8; subject and hostname are
    /// lowercased. TLS is required exactly when the server URI contains `tls`.
    pub fn new(
        subject: Option<String>,
        hostname: Option<String>,
        system_hostname: &str,
        nats_server_uri: Option<String>,
        nats_creds: Option<String>,
        workers: Option<usize>,
    ) -> (s: NatsSubscriber)
        ensures
            s.subject@ == lowercase(
                match subject {
                    Some(x) => x@,
                    None => "pi."@ + system_hostname@ + ".>"@,
                },
            ),
            s.hostname@ == lowercase(
                match hostname {
                    Some(x) => x@,
                    None => system_hostname@,
                },
            ),
            s.nats_server_uri@ == (match nats_server_uri {
                Some(x) => x@,
                None => DEFAULT_NATS_URI@,
            }),
            s.require_tls == contains_spec(s.nats_server_uri@, "tls"@),
            s.workers == (match workers {
                Some(w) => w,
                None => DEFAULT_WORKERS,
            }),
            s.nats_creds == nats_creds,
    {
        let subject = match subject {
            Some(x) => x,
            None => get_default_nats_subject(system_hostname),
        };
        let hostname = match hostname {
            Some(x) => x,
            None => system_hostname.to_owned(),
        };
        let nats_server_uri = match nats_server_uri {
            Some(x) => x,
            None => DEFAULT_NATS_URI.to_owned(),
        };
        let require_tls = contains_str(nats_server_uri.as_str(), "tls");
        let workers = match workers {
            Some(w) => w,
            None => DEFAULT_WORKERS,
        };
        NatsSubscriber {
            subject: to_lowercase(subject.as_str()),
            nats_server_uri,
            hostname: to_lowercase(hostname.as_str()),
            require_tls,
            workers,
            nats_creds,
        }
    }

    /// Where a message on `subject` goes: its subject pattern is the subject with
    /// the first occurrence of the hostname replaced by `{pi_id}`; with a reply
    /// subject it is a request, without one an event.
    pub fn route(&self, subject: &str, reply: Option<String>) -> (r: MessageRoute)
        ensures
            match r {
                MessageRoute::Request { subject_pattern, reply: inbox } => reply matches Some(x)
                    && inbox@ == x@ && subject_pattern@ == replacen_spec(
                    subject@,
                    self.hostname@,
                    "{pi_id}"@,
                    1,
                ),
                MessageRoute::Event { subject_pattern } => reply is None && subject_pattern@
                    == replacen_spec(subject@, self.hostname@, "{pi_id}"@, 1),
            },
    {
        let subject_pattern = replacen(subject, self.hostname.as_str(), "{pi_id}", 1);
        match reply {
            Some(inbox) => MessageRoute::Request { subject_pattern, reply: inbox },
            None => MessageRoute::Event { subject_pattern },
        }
    }
}

/// How handling a request ended.
pub enum RequestOutcome {
    /// The request's body could not be read as the request its pattern names.
    Unreadable,
    /// The handler answered, with this JSON reply.
    Replied(Vec<u8>),
    /// The handler failed with this error; `request` is the request that was
    /// read, written as compact JSON.
    Failed { request: String, error: String },
}

/// What is published on a request's reply subject.
pub enum RequestAnswer {
    /// The handler's reply.
    Reply(Vec<u8>),
    /// The error message, as JSON text: the request's subject pattern, the
    /// request and the error.
    Error(String),
    /// Nothing: the request could not be read.
    Nothing,
}

/// The JSON error message answering a failed request, as serde_json writes a
/// struct of the three fields `subject_pattern`, `request` and `error`:
/// `{"subject_pattern":"..","request":{..},"error":".."}`.
pub open spec fn request_error_json(
    subject_pattern: Seq<char>,
    request: Seq<char>,
    error: Seq<char>,
) -> Seq<char> {
    "{\"subject_pattern\":"@ + json_string(subject_pattern) + ",\"request\":"@ + request
        + ",\"error\":"@ + json_string(error) + "}"@
}

/// The answer to a request on `subject_pattern`: the reply when the handler
/// answered, the error message when it failed, and nothing when the request
/// could not be read. Every request that was read is answered.
pub fn answer_request(outcome: RequestOutcome, subject_pattern: &str) -> (a: RequestAnswer)
    ensures
        a is Nothing <==> outcome is Unreadable,
        outcome matches RequestOutcome::Replied(r) ==> (a matches RequestAnswer::Reply(x) && x@
            == r@),
        outcome matches RequestOutcome::Failed { request, error } ==> (a matches RequestAnswer::Error(
            m,
        ) && m@ == request_error_json(subject_pattern@, request@, error@)),
{
    match outcome {
        RequestOutcome::Unreadable => RequestAnswer::Nothing,
        RequestOutcome::Replied(r) => RequestAnswer::Reply(r),
        RequestOutcome::Failed { request, error } => {
            let mut m = "{\"subject_pattern\":".to_owned();
            push_json_string(&mut m, subject_pattern);
            m.append(",\"request\":");
            m.append(request.as_str());
            m.append(",\"error\":");
            push_json_string(&mut m, error.as_str());
            m.append("}");
            RequestAnswer::Error(m)
        },
    }
}

/// A hostname that subjects can name a Pi by: not empty, without `.`, and not
/// one of `p`, `pi` and `i`, which would be found inside the leading `pi.`.
pub open spec fn is_subject_hostname(h: Seq<char>) -> bool {
    &&& h.len() > 0
    &&& forall|i: int| 0 <= i < h.len() ==> h[i] != '.'
    &&& h != seq!['p'] && h != seq!['p', 'i'] && h != seq!['i']
}

/// A message sent to a Pi's own subject `pi.<hostname>.<rest>` has the subject
/// pattern `pi.{pi_id}.<rest>`: the subscriber recognises the subjects addressed
/// to its hostname, whatever follows.
pub proof fn lemma_own_subject_pattern(h: Seq<char>, rest: Seq<char>)
    requires
        is_subject_hostname(h),
    ensures
        replacen_spec("pi."@ + h + "."@ + rest, h, "{pi_id}"@, 1) == "pi.{pi_id}."@ + rest,
{
    reveal_strlit("pi.");
    reveal_strlit(".");
    reveal_strlit("{pi_id}");
    reveal_strlit("pi.{pi_id}.");
    let r = "{pi_id}"@;
    let s0 = "pi."@ + h + "."@ + rest;
    let s1 = s0.drop_first();
    let s2 = s1.drop_first();
    let s3 = s2.drop_first();
    let n = h.len();
    assert(s0[0] == 'p' && s0[1] == 'i' && s0[2] == '.');
    assert(s1 =~= seq!['i', '.'] + h + "."@ + rest);
    assert(s2 =~= seq!['.'] + h + "."@ + rest);
    assert(s3 =~= h + "."@ + rest);
    // the hostname is not found at the first three positions
    assert(s0.take(n as int) != h) by {
        if n >= 3 {
            assert(s0.take(n as int)[2] == '.');
        } else if n == 1 {
            assert(s0.take(1) =~= seq!['p']);
        } else {
            assert(s0.take(2) =~= seq!['p', 'i']);
        }
    }
    assert(s1.take(n as int) != h) by {
        if n >= 2 {
            assert(s1.take(n as int)[1] == '.');
        } else {
            assert(s1.take(1) =~= seq!['i']);
        }
    }
    assert(s2.take(n as int) != h) by {
        assert(s2.take(n as int)[0] == '.');
    }
    assert(s3.take(n as int) =~= h);
    assert(s3.skip(n as int) =~= "."@ + rest);
    assert(replacen_spec(s3, h, r, 1) == r + replacen_spec(s3.skip(n as int), h, r, 0));
    assert(replacen_spec(s2, h, r, 1) == seq![s2[0]] + replacen_spec(s3, h, r, 1));
    assert(replacen_spec(s1, h, r, 1) == seq![s1[0]] + replacen_spec(s2, h, r, 1));
    assert(replacen_spec(s0, h, r, 1) == seq![s0[0]] + replacen_spec(s1, h, r, 1));
    assert(seq![s0[0]] + (seq![s1[0]] + (seq![s2[0]] + (r + ("."@ + rest)))) =~= "pi.{pi_id}."@
        + rest);
}

/// Every request pattern begins with `pi.{pi_id}.`.
proof fn lemma_request_pattern_prefix(r: NatsRequest)
    ensures
        request_pattern(r) == "pi.{pi_id}."@ + request_pattern(r).skip(11),
{
    reveal_strlit("pi.{pi_id}.");
    reveal_strlit("pi.{pi_id}.command.camera.recording.load");
    reveal_strlit("pi.{pi_id}.command.camera.recording.start");
    reveal_strlit("pi.{pi_id}.command.camera.recording.stop");
    reveal_strlit("pi.{pi_id}.cameras.load");
    reveal_strlit("pi.{pi_id}.command.cloud.sync");
    reveal_strlit("pi.{pi_id}.crash_reports.os");
    reveal_strlit("pi.{pi_id}.device_info.load");
    reveal_strlit("pi.{pi_id}.settings.printnanny.cloud.auth");
    reveal_strlit("pi.{pi_id}.settings.file.load");
    reveal_strlit("pi.{pi_id}.settings.file.apply");
    reveal_strlit("pi.{pi_id}.settings.file.revert");
    reveal_strlit("pi.{pi_id}.settings.camera.apply");
    reveal_strlit("pi.{pi_id}.settings.camera.load");
    reveal_strlit("pi.{pi_id}.dbus.org.freedesktop.systemd1.Manager.DisableUnit");
    reveal_strlit("pi.{pi_id}.dbus.org.freedesktop.systemd1.Manager.EnableUnit");
    reveal_strlit("pi.{pi_id}.dbus.org.freedesktop.systemd1.Manager.GetUnit");
    reveal_strlit("pi.{pi_id}.dbus.org.freedesktop.systemd1.Manager.GetUnitFileState");
    reveal_strlit("pi.{pi_id}.dbus.org.freedesktop.systemd1.Manager.RestartUnit");
    reveal_strlit("pi.{pi_id}.dbus.org.freedesktop.systemd1.Manager.StartUnit");
    reveal_strlit("pi.{pi_id}.dbus.org.freedesktop.systemd1.Manager.StopUnit");
    match r {
        NatsRequest::CameraRecordingLoadRequest => {
            assert(request_pattern(r).take(11) =~= "pi.{pi_id}."@);
        },
        NatsRequest::CameraRecordingStartRequest => {
            assert(request_pattern(r).take(11) =~= "pi.{pi_id}."@);
        },
        NatsRequest::CameraRecordingStopRequest => {
            assert(request_pattern(r).take(11) =~= "pi.{pi_id}."@);
        },
        NatsRequest::CameraLoadRequest => {
            assert(request_pattern(r).take(11) =~= "pi.{pi_id}."@);
        },
        NatsRequest::PrintNannyCloudSyncRequest => {
            assert(request_pattern(r).take(11) =~= "pi.{pi_id}."@);
        },
        NatsRequest::CrashReportOsLogsRequest => {
            assert(request_pattern(r).take(11) =~= "pi.{pi_id}."@);
        },
        NatsRequest::DeviceInfoLoadRequest => {
            assert(request_pattern(r).take(11) =~= "pi.{pi_id}."@);
        },
        NatsRequest::PrintNannyCloudAuthRequest => {
            assert(request_pattern(r).take(11) =~= "pi.{pi_id}."@);
        },
        NatsRequest::SettingsFileLoadRequest => {
            assert(request_pattern(r).take(11) =~= "pi.{pi_id}."@);
        },
        NatsRequest::SettingsFileApplyRequest => {
            assert(request_pattern(r).take(11) =~= "pi.{pi_id}."@);
        },
        NatsRequest::SettingsFileRevertRequest => {
            assert(request_pattern(r).take(11) =~= "pi.{pi_id}."@);
        },
        NatsRequest::CameraSettingsFileApplyRequest => {
            assert(request_pattern(r).take(11) =~= "pi.{pi_id}."@);
        },
        NatsRequest::CameraSettingsFileLoadRequest => {
            assert(request_pattern(r).take(11) =~= "pi.{pi_id}."@);
        },
        NatsRequest::SystemdManagerDisableUnitsRequest => {
            assert(request_pattern(r).take(11) =~= "pi.{pi_id}."@);
        },
        NatsRequest::SystemdManagerEnableUnitsRequest => {
            assert(request_pattern(r).take(11) =~= "pi.{pi_id}."@);
        },
        NatsRequest::SystemdManagerGetUnitRequest => {
            assert(request_pattern(r).take(11) =~= "pi.{pi_id}."@);
        },
        NatsRequest::SystemdManagerGetUnitFileStateRequest => {
            assert(request_pattern(r).take(11) =~= "pi.{pi_id}."@);
        },
        NatsRequest::SystemdManagerRestartUnitRequest => {
            assert(request_pattern(r).take(11) =~= "pi.{pi_id}."@);
        },
        NatsRequest::SystemdManagerStartUnitRequest => {
            assert(request_pattern(r).take(11) =~= "pi.{pi_id}."@);
        },
        NatsRequest::SystemdManagerStopUnitRequest => {
            assert(request_pattern(r).take(11) =~= "pi.{pi_id}."@);
        },
    }
    assert(request_pattern(r) =~= request_pattern(r).take(11) + request_pattern(r).skip(11));
}

/// A request sent to the subscriber's own hostname, on
/// `pi.<hostname>.<rest of the request's pattern>`, gets the request's pattern
/// as its subject pattern; `NatsRequest::from_subject_pattern` then finds the
/// request whenever it has a handler.
pub proof fn lemma_request_on_own_subject(h: Seq<char>, r: NatsRequest)
    requires
        is_subject_hostname(h),
    ensures
        replacen_spec("pi."@ + h + "."@ + request_pattern(r).skip(11), h, "{pi_id}"@, 1)
            == request_pattern(r),
{
    lemma_request_pattern_prefix(r);
    lemma_own_subject_pattern(h, request_pattern(r).skip(11));
}

} // verus!
