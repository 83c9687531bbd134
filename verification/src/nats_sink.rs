//! The NATS sink element: a pipeline sink that publishes every buffer it
//! renders to a NATS subject. Connecting, flushing and publishing are done by
//! the caller; this is the element's settings and its state.

use vstd::prelude::*;

verus! {

pub const DEFAULT_NATS_ADDRESS: &'static str = "127.0.0.1:4222";

pub const DEFAULT_NATS_SUBJECT: &'static str = "pi.qc";

/// The element's properties.
pub struct NatsSinkSettings {
    pub nats_address: String,
    pub nats_subject: String,
}

/// Whether the element holds a NATS connection.
#[derive(Clone, Copy, Debug, PartialEq, Eq, Structural)]
pub enum NatsSinkState {
    Stopped,
    Started,
}

/// Why the element refused a step.
pub enum NatsSinkError {
    /// The NATS server could not be reached.
    ConnectFailed { message: String },
    /// The element was stopped before it was started.
    NotStarted,
    /// The connection could not be flushed.
    FlushFailed { message: String },
    /// A buffer came while the element was stopped.
    RenderWhileStopped,
    /// A rendered buffer could not be published.
    PublishFailed,
}

/// The element.
pub struct NatsSink {
    pub settings: NatsSinkSettings,
    pub state: NatsSinkState,
}

/// The properties the element has.
pub open spec fn is_sink_property(name: Seq<char>) -> bool {
    name == "nats-address"@ || name == "nats-subject"@
}

impl NatsSink {
    /// A stopped element publishing to `pi.qc` on `127.0.0.1:4222`.
    pub fn new() -> (s: NatsSink)
        ensures
            s.settings.nats_address@ == DEFAULT_NATS_ADDRESS@,
            s.settings.nats_subject@ == DEFAULT_NATS_SUBJECT@,
            s.state == NatsSinkState::Stopped,
    {
        NatsSink {
            settings: NatsSinkSettings {
                nats_address: DEFAULT_NATS_ADDRESS.to_owned(),
                nats_subject: DEFAULT_NATS_SUBJECT.to_owned(),
            },
            state: NatsSinkState::Stopped,
        }
    }

    /// Sets the property `nats-address` or `nats-subject`; the element has no
    /// other property.
    pub fn set_property(&mut self, name: &str, value: String)
        requires
            is_sink_property(name@),
        ensures
            final(self).state == old(self).state,
            name@ == "nats-address"@ ==> final(self).settings.nats_address@ == value@
                && final(self).settings.nats_subject@ == old(self).settings.nats_subject@,
            name@ == "nats-subject"@ ==> final(self).settings.nats_subject@ == value@
                && final(self).settings.nats_address@ == old(self).settings.nats_address@,
    {
        proof {
            reveal_strlit("nats-address");
            reveal_strlit("nats-subject");
            assert("nats-address"@[5] != "nats-subject"@[5]);
        }
        let cs = crate::text::chars_of(name);
        if crate::text::chars_equal(&cs, "nats-address") {
            self.settings.nats_address = value;
        } else {
            self.settings.nats_subject = value;
        }
    }

    /// The value of the property `nats-address`, the only one that can be read.
    pub fn property(&self, name: &str) -> (v: String)
        requires
            name@ == "nats-address"@,
        ensures
            v@ == self.settings.nats_address@,
    {
        self.settings.nats_address.clone()
    }

    /// Starting, once the connection to `settings.nats_address` was tried with
    /// `connected` as outcome: the element is started when it succeeded. A
    /// started element is never started again.
    pub fn start(&mut self, connected: Result<(), String>) -> (res: Result<(), NatsSinkError>)
        requires
            old(self).state == NatsSinkState::Stopped,
        ensures
            final(self).settings == old(self).settings,
            res is Ok <==> connected is Ok,
            final(self).state == (if connected is Ok {
                NatsSinkState::Started
            } else {
                NatsSinkState::Stopped
            }),
            match connected {
                Ok(()) => true,
                Err(e) => (res matches Err(NatsSinkError::ConnectFailed { message }) && message@
                    == "Failed to open NATS server address "@ + old(self).settings.nats_address@
                    + " with error: "@ + e@),
            },
    {
        match connected {
            Ok(()) => {
                self.state = NatsSinkState::Started;
                Ok(())
            },
            Err(e) => {
                let mut message = String::new();
                message.append("Failed to open NATS server address ");
                message.append(self.settings.nats_address.as_str());
                message.append(" with error: ");
                message.append(e.as_str());
                Err(NatsSinkError::ConnectFailed { message })
            },
        }
    }

    /// Stopping. A stopped element refuses with `NotStarted`; a started one flushes
    /// its connection (with outcome `flushed`) and stops when that succeeded.
    pub fn stop(&mut self, flushed: Result<(), String>) -> (res: Result<(), NatsSinkError>)
        ensures
            final(self).settings == old(self).settings,
            old(self).state == NatsSinkState::Stopped ==> (res matches Err(NatsSinkError::NotStarted)
                && final(self).state == NatsSinkState::Stopped),
            old(self).state == NatsSinkState::Started ==> (res is Ok <==> flushed is Ok),
            old(self).state == NatsSinkState::Started && flushed is Ok ==> final(self).state
                == NatsSinkState::Stopped,
            old(self).state == NatsSinkState::Started && flushed is Err ==> final(self).state
                == NatsSinkState::Started,
            old(self).state == NatsSinkState::Started && flushed is Err ==> (res matches Err(
                NatsSinkError::FlushFailed { message },
            ) && message@ == "Failed to flush NATS connection "@ + old(self).settings.nats_address@
                + " with error: "@ + flushed->Err_0@),
    {
        if self.state == NatsSinkState::Stopped {
            return Err(NatsSinkError::NotStarted);
        }
        match flushed {
            Ok(()) => {
                self.state = NatsSinkState::Stopped;
                Ok(())
            },
            Err(e) => {
                let mut message = String::new();
                message.append("Failed to flush NATS connection ");
                message.append(self.settings.nats_address.as_str());
                message.append(" with error: ");
                message.append(e.as_str());
                Err(NatsSinkError::FlushFailed { message })
            },
        }
    }

    /// Rendering `buffer`: a started element publishes exactly the buffer's bytes
    /// on its subject, and this gives the subject and the bytes to publish; a
    /// stopped element refuses the buffer and publishes nothing. The element's
    /// state is left as it was.
    pub fn render(&self, buffer: Vec<u8>) -> (res: Result<(String, Vec<u8>), NatsSinkError>)
        ensures
            self.state == NatsSinkState::Started ==> (res matches Ok((subject, bytes)) && subject@
                == self.settings.nats_subject@ && bytes@ == buffer@),
            self.state == NatsSinkState::Stopped ==> res matches Err(
                NatsSinkError::RenderWhileStopped,
            ),
    {
        if self.state == NatsSinkState::Stopped {
            Err(NatsSinkError::RenderWhileStopped)
        } else {
            Ok((self.settings.nats_subject.clone(), buffer))
        }
    }

    /// The element's answer once the publication of a rendered buffer was tried
    /// with `published` as outcome: a failed publication fails the render.
    pub fn rendered(&self, published: Result<(), String>) -> (res: Result<(), NatsSinkError>)
        ensures
            published is Ok ==> res is Ok,
            published is Err ==> res matches Err(NatsSinkError::PublishFailed),
    {
        match published {
            Ok(()) => Ok(()),
            Err(_) => Err(NatsSinkError::PublishFailed),
        }
    }
}

/// The text an error is reported with.
pub open spec fn sink_error_message(e: NatsSinkError) -> Seq<char> {
    match e {
        NatsSinkError::ConnectFailed { message } => message@,
        NatsSinkError::NotStarted => "NatsSink not started"@,
        NatsSinkError::FlushFailed { message } => message@,
        NatsSinkError::RenderWhileStopped => "Not started yet"@,
        NatsSinkError::PublishFailed => "Failed to publish NATS message"@,
    }
}

impl NatsSinkError {
    /// The text the error is reported with: the connection and flush failures
    /// carry theirs, a stop before a start is "NatsSink not started", a buffer
    /// while stopped is "Not started yet", a failed publication "Failed to
    /// publish NATS message".
    pub fn message(&self) -> (m: String)
        ensures
            m@ == sink_error_message(*self),
    {
        match self {
            NatsSinkError::ConnectFailed { message } => message.clone(),
            NatsSinkError::NotStarted => "NatsSink not started".to_owned(),
            NatsSinkError::FlushFailed { message } => message.clone(),
            NatsSinkError::RenderWhileStopped => "Not started yet".to_owned(),
            NatsSinkError::PublishFailed => "Failed to publish NATS message".to_owned(),
        }
    }
}

} // verus!
