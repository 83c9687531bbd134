//! Handling a command sent to a Pi. A command runs in two steps around one piece
//! of outside work (a process, a settings sync or a software update): `begin`
//! says what to publish and what work to run, `finish` takes the work's outcome
//! and says what to publish then. Every status event goes to the Pi's status
//! subject, and, when the command came with a reply subject, to that subject too.

use vstd::prelude::*;

use crate::subjects::pi_subject_spec;
use crate::events::{
    event_subject_spec, is_status_kind, opt_view, status_event_spec, EventStamp,
    PiBootCommandType, PiBootStatusType, PiCamCommandType, PiCamStatusType, PiEvent, PiEventKind,
    PiEventView, PiSoftwareUpdateCommandType, PiSoftwareUpdateStatusType, StatusPayload,
    StatusPayloadView, SwupdatePayload, SwupdatePayloadView,
};

verus! {

/// Work that a command needs done outside the library.
pub enum Work {
    /// Run `program` with `args` and wait for it.
    Process { program: String, args: Vec<String> },
    /// Synchronise the Pi's settings with the cloud.
    SyncSettings,
    /// Install the software update described by the payload.
    Swupdate(SwupdatePayload),
}

pub enum WorkView {
    Process { program: Seq<char>, args: Seq<Seq<char>> },
    SyncSettings,
    Swupdate(SwupdatePayloadView),
}

impl View for Work {
    type V = WorkView;

    open spec fn view(&self) -> WorkView {
        match self {
            Work::Process { program, args } => WorkView::Process {
                program: program@,
                args: args@.map_values(|a: String| a@),
            },
            Work::SyncSettings => WorkView::SyncSettings,
            Work::Swupdate(p) => WorkView::Swupdate(p@),
        }
    }
}

/// How the work ended.
pub enum WorkOutcome {
    Success,
    /// The work failed; the payload says how, and goes out with the error status.
    Failure(StatusPayload),
}

/// One thing to do, in order.
pub enum CommandAction {
    /// Publish `event` on `subject`.
    Publish { subject: String, event: PiEvent },
    /// Do the work, then hand its outcome to `finish`.
    Run(Work),
    /// Log a warning: the command is not handled.
    Warn(String),
}

pub enum ActionView {
    Publish { subject: Seq<char>, event: PiEventView },
    Run(WorkView),
    Warn(Seq<char>),
}

impl View for CommandAction {
    type V = ActionView;

    open spec fn view(&self) -> ActionView {
        match self {
            CommandAction::Publish { subject, event } => ActionView::Publish {
                subject: subject@,
                event: event@,
            },
            CommandAction::Run(w) => ActionView::Run(w@),
            CommandAction::Warn(m) => ActionView::Warn(m@),
        }
    }
}

pub open spec fn actions_view(a: Seq<CommandAction>) -> Seq<ActionView> {
    a.map_values(|x: CommandAction| x@)
}

#[derive(Clone, Copy, Debug, PartialEq, Eq, Structural)]
pub enum SessionStage {
    /// `begin` has not run yet.
    Ready,
    /// The work is under way; `finish` takes its outcome.
    Working,
    /// Nothing is left to do.
    Done,
}

/// One command being handled.
pub struct CommandSession {
    pub command: PiEvent,
    pub reply: Option<String>,
    /// The status event published when the work started, if one was.
    pub started: Option<PiEvent>,
    pub stage: SessionStage,
}

/// A command is complete: a software update command carries its version and
/// where the update is fetched from.
pub open spec fn command_wf(cmd: PiEventView) -> bool {
    cmd.kind is SwupdateCommand ==> cmd.version is Some && cmd.update is Some
}

/// Publish `ev` to the reply subject, if there is one.
pub open spec fn to_reply(reply: Option<Seq<char>>, ev: PiEventView) -> Seq<ActionView> {
    match reply {
        Some(r) => seq![ActionView::Publish { subject: r, event: ev }],
        None => Seq::<ActionView>::empty(),
    }
}

/// Publish `ev` to the reply subject, if there is one, then to its own subject.
pub open spec fn to_reply_and_status(reply: Option<Seq<char>>, ev: PiEventView) -> Seq<ActionView> {
    to_reply(reply, ev) + seq![
        ActionView::Publish { subject: event_subject_spec(ev.kind, ev.pi as int), event: ev },
    ]
}

/// Publish `ev` to its own subject.
pub open spec fn to_status(ev: PiEventView) -> Seq<ActionView> {
    seq![ActionView::Publish { subject: event_subject_spec(ev.kind, ev.pi as int), event: ev }]
}

pub open spec fn process(program: Seq<char>, args: Seq<Seq<char>>) -> ActionView {
    ActionView::Run(WorkView::Process { program, args })
}

pub open spec fn cam_service_args(verb: Seq<char>) -> Seq<Seq<char>> {
    seq!["systemctl"@, verb, "printnanny-cam.service"@]
}

/// The status event that `begin` publishes for `cmd`, if any.
pub open spec fn started_kind(cmd: PiEventView) -> Option<PiEventKind> {
    match cmd.kind {
        PiEventKind::BootCommand(PiBootCommandType::Reboot) => Some(
            PiEventKind::BootStatus(PiBootStatusType::RebootStarted),
        ),
        PiEventKind::BootCommand(PiBootCommandType::SyncSettings) => Some(
            PiEventKind::BootStatus(PiBootStatusType::SyncSettingsStarted),
        ),
        PiEventKind::CamCommand(PiCamCommandType::CamStart) => Some(
            PiEventKind::CamStatus(PiCamStatusType::CamStarted),
        ),
        PiEventKind::SwupdateCommand(PiSoftwareUpdateCommandType::Swupdate) => Some(
            PiEventKind::SwupdateStatus(PiSoftwareUpdateStatusType::SwupdateStarted),
        ),
        _ => None,
    }
}

/// What `begin` does for `cmd`: the status to publish first, then the work.
/// `started` is the status event built for `started_kind(cmd)`.
pub open spec fn begin_spec(
    cmd: PiEventView,
    reply: Option<Seq<char>>,
    started: PiEventView,
) -> Seq<ActionView> {
    match cmd.kind {
        PiEventKind::BootCommand(PiBootCommandType::Reboot) => to_status(started) + seq![
            process("reboot"@, Seq::empty()),
        ],
        PiEventKind::BootCommand(PiBootCommandType::Shutdown) => seq![
            process("shutdown"@, Seq::empty()),
        ],
        PiEventKind::BootCommand(PiBootCommandType::SyncSettings) => to_status(started) + seq![
            ActionView::Run(WorkView::SyncSettings),
        ],
        PiEventKind::CamCommand(PiCamCommandType::CamStart) => to_status(started) + seq![
            process("sudo"@, cam_service_args("restart"@)),
        ],
        PiEventKind::CamCommand(PiCamCommandType::CamStop) => seq![
            process("sudo"@, cam_service_args("stop"@)),
        ],
        PiEventKind::SwupdateCommand(PiSoftwareUpdateCommandType::Swupdate) => to_reply_and_status(
            reply,
            started,
        ) + seq![ActionView::Run(WorkView::Swupdate(cmd.update->Some_0))],
        PiEventKind::SwupdateCommand(PiSoftwareUpdateCommandType::SwupdateRollback) => seq![
            ActionView::Warn("SwupdateRollback is not yet available"@),
        ],
        _ => seq![ActionView::Warn("No handler configured for this event"@)],
    }
}

/// Whether `begin` leaves work to be done for `cmd`.
pub open spec fn has_work(cmd: PiEventView) -> bool {
    match cmd.kind {
        PiEventKind::BootCommand(_) => true,
        PiEventKind::CamCommand(_) => true,
        PiEventKind::SwupdateCommand(t) => t == PiSoftwareUpdateCommandType::Swupdate,
        _ => false,
    }
}

/// The status that `finish` publishes for `cmd` when the work succeeded, and
/// when it failed.
pub open spec fn finished_kind(cmd: PiEventView, success: bool) -> PiEventKind {
    match cmd.kind {
        PiEventKind::BootCommand(PiBootCommandType::Reboot) => PiEventKind::BootStatus(
            PiBootStatusType::RebootError,
        ),
        PiEventKind::BootCommand(PiBootCommandType::Shutdown) => PiEventKind::BootStatus(
            PiBootStatusType::ShutdownStarted,
        ),
        PiEventKind::BootCommand(PiBootCommandType::SyncSettings) => if success {
            PiEventKind::BootStatus(PiBootStatusType::SyncSettingsSuccess)
        } else {
            PiEventKind::BootStatus(PiBootStatusType::SyncSettingsError)
        },
        PiEventKind::CamCommand(PiCamCommandType::CamStart) => if success {
            PiEventKind::CamStatus(PiCamStatusType::CamStartSuccess)
        } else {
            PiEventKind::CamStatus(PiCamStatusType::CamError)
        },
        PiEventKind::CamCommand(PiCamCommandType::CamStop) => if success {
            PiEventKind::CamStatus(PiCamStatusType::CamStopped)
        } else {
            PiEventKind::CamStatus(PiCamStatusType::CamError)
        },
        _ => if success {
            PiEventKind::SwupdateStatus(PiSoftwareUpdateStatusType::SwupdateSuccess)
        } else {
            PiEventKind::SwupdateStatus(PiSoftwareUpdateStatusType::SwupdateError)
        },
    }
}

/// What `finish` does for `cmd` once the work ended: after a successful reboot
/// the started event goes to the reply subject only (the next status comes with
/// the next boot); a shutdown reports `ShutdownStarted` whatever the process
/// did; otherwise the success or error status goes to the reply subject and the
/// status subject, the error carrying the failure's payload.
pub open spec fn finish_spec(
    cmd: PiEventView,
    reply: Option<Seq<char>>,
    started: PiEventView,
    success: bool,
    finished: PiEventView,
) -> Seq<ActionView> {
    if cmd.kind == PiEventKind::BootCommand(PiBootCommandType::Reboot) && success {
        to_reply(reply, started)
    } else {
        to_reply_and_status(reply, finished)
    }
}

pub open spec fn payload_view(o: Option<StatusPayload>) -> Option<StatusPayloadView> {
    match o {
        Some(p) => Some(p@),
        None => None,
    }
}

/// Appends the publication of `ev` on its own subject.
fn push_status(actions: &mut Vec<CommandAction>, ev: PiEvent)
    ensures
        actions_view(final(actions)@) == actions_view(old(actions)@) + to_status(ev@),
{
    let subject = ev.subject();
    actions.push(CommandAction::Publish { subject, event: ev });
    assert(actions_view(actions@) =~= actions_view(old(actions)@) + to_status(ev@));
}

/// Appends the publication of `ev` on the reply subject, if there is one.
fn push_reply(actions: &mut Vec<CommandAction>, reply: &Option<String>, ev: &PiEvent)
    ensures
        actions_view(final(actions)@) == actions_view(old(actions)@) + to_reply(opt_view(*reply), ev@),
{
    match reply {
        Some(r) => {
            actions.push(CommandAction::Publish { subject: r.clone(), event: ev.duplicate() });
            assert(actions_view(actions@) =~= actions_view(old(actions)@) + to_reply(
                opt_view(*reply),
                ev@,
            ));
        },
        None => {
            assert(actions_view(actions@) =~= actions_view(old(actions)@) + to_reply(
                opt_view(*reply),
                ev@,
            ));
        },
    }
}

/// Appends the publication of `ev` on the reply subject, if there is one, then on
/// its own subject.
fn push_reply_and_status(actions: &mut Vec<CommandAction>, reply: &Option<String>, ev: PiEvent)
    ensures
        actions_view(final(actions)@) == actions_view(old(actions)@) + to_reply_and_status(
            opt_view(*reply),
            ev@,
        ),
{
    let ghost before = actions_view(actions@);
    push_reply(actions, reply, &ev);
    push_status(actions, ev);
    assert(actions_view(actions@) =~= before + to_reply_and_status(opt_view(*reply), ev@));
}

fn push_run(actions: &mut Vec<CommandAction>, work: Work)
    ensures
        actions_view(final(actions)@) == actions_view(old(actions)@).push(ActionView::Run(work@)),
{
    actions.push(CommandAction::Run(work));
    assert(actions_view(actions@) =~= actions_view(old(actions)@).push(ActionView::Run(work@)));
}

fn cam_service_work(verb: &str) -> (w: Work)
    ensures
        w@ == (WorkView::Process { program: "sudo"@, args: cam_service_args(verb@) }),
{
    let args: Vec<String> = vec!["systemctl".to_owned(), verb.to_owned(), "printnanny-cam.service".to_owned()];
    let w = Work::Process { program: "sudo".to_owned(), args };
    assert(args@.map_values(|a: String| a@) =~= cam_service_args(verb@));
    w
}

impl CommandSession {
    /// A session for `command`, received with an optional reply subject.
    pub fn new(command: PiEvent, reply: Option<String>) -> (s: CommandSession)
        ensures
            s.command@ == command@,
            opt_view(s.reply) == opt_view(reply),
            s.started is None,
            s.stage == SessionStage::Ready,
    {
        CommandSession { command, reply, started: None, stage: SessionStage::Ready }
    }

    /// The first step: what to publish before the work, then the work itself.
    /// `stamp` gives the started status its id and time. A command with no work
    /// (a rollback, which is not available yet, or an event that is no command)
    /// gives a warning and ends the session.
    pub fn begin(&mut self, stamp: EventStamp) -> (actions: Vec<CommandAction>)
        requires
            old(self).stage == SessionStage::Ready,
            command_wf(old(self).command@),
        ensures
            final(self).command@ == old(self).command@,
            opt_view(final(self).reply) == opt_view(old(self).reply),
            final(self).stage == (if has_work(old(self).command@) {
                SessionStage::Working
            } else {
                SessionStage::Done
            }),
            started_kind(old(self).command@) is Some ==> final(self).started is Some
                && final(self).started->Some_0@ == status_event_spec(
                old(self).command@,
                started_kind(old(self).command@)->Some_0,
                None,
                stamp.id@,
                stamp.created_dt@,
            ),
            started_kind(old(self).command@) is None ==> final(self).started is None,
            actions_view(actions@) == begin_spec(
                old(self).command@,
                opt_view(old(self).reply),
                status_event_spec(
                    old(self).command@,
                    started_kind(old(self).command@)->Some_0,
                    None,
                    stamp.id@,
                    stamp.created_dt@,
                ),
            ),
    {
        let mut actions: Vec<CommandAction> = Vec::new();
        self.started = None;
        let ghost started_view = status_event_spec(
            self.command@,
            started_kind(self.command@)->Some_0,
            None,
            stamp.id@,
            stamp.created_dt@,
        );
        match self.command.kind {
            PiEventKind::BootCommand(PiBootCommandType::Reboot) => {
                let ev = self.command.status_event(
                    PiEventKind::BootStatus(PiBootStatusType::RebootStarted),
                    None,
                    stamp,
                );
                self.started = Some(ev.duplicate());
                push_status(&mut actions, ev);
                push_run(&mut actions, Work::Process { program: "reboot".to_owned(), args: Vec::new() });
                self.stage = SessionStage::Working;
                assert(Seq::<String>::empty().map_values(|a: String| a@) =~= Seq::<Seq<char>>::empty());
            },
            PiEventKind::BootCommand(PiBootCommandType::Shutdown) => {
                push_run(&mut actions, Work::Process { program: "shutdown".to_owned(), args: Vec::new() });
                self.stage = SessionStage::Working;
                assert(Seq::<String>::empty().map_values(|a: String| a@) =~= Seq::<Seq<char>>::empty());
            },
            PiEventKind::BootCommand(PiBootCommandType::SyncSettings) => {
                let ev = self.command.status_event(
                    PiEventKind::BootStatus(PiBootStatusType::SyncSettingsStarted),
                    None,
                    stamp,
                );
                self.started = Some(ev.duplicate());
                push_status(&mut actions, ev);
                push_run(&mut actions, Work::SyncSettings);
                self.stage = SessionStage::Working;
            },
            PiEventKind::CamCommand(PiCamCommandType::CamStart) => {
                let ev = self.command.status_event(
                    PiEventKind::CamStatus(PiCamStatusType::CamStarted),
                    None,
                    stamp,
                );
                self.started = Some(ev.duplicate());
                push_status(&mut actions, ev);
                push_run(&mut actions, cam_service_work("restart"));
                self.stage = SessionStage::Working;
            },
            PiEventKind::CamCommand(PiCamCommandType::CamStop) => {
                push_run(&mut actions, cam_service_work("stop"));
                self.stage = SessionStage::Working;
            },
            PiEventKind::SwupdateCommand(PiSoftwareUpdateCommandType::Swupdate) => {
                let ev = self.command.status_event(
                    PiEventKind::SwupdateStatus(PiSoftwareUpdateStatusType::SwupdateStarted),
                    None,
                    stamp,
                );
                self.started = Some(ev.duplicate());
                push_reply_and_status(&mut actions, &self.reply, ev);
                let update = match &self.command.update {
                    Some(u) => u.duplicate(),
                    None => {
                        proof {
                            assert(false);
                        }
                        return actions;
                    },
                };
                push_run(&mut actions, Work::Swupdate(update));
                self.stage = SessionStage::Working;
            },
            PiEventKind::SwupdateCommand(PiSoftwareUpdateCommandType::SwupdateRollback) => {
                actions.push(CommandAction::Warn("SwupdateRollback is not yet available".to_owned()));
                self.stage = SessionStage::Done;
                assert(actions_view(actions@) =~= seq![
                    ActionView::Warn("SwupdateRollback is not yet available"@),
                ]);
            },
            _ => {
                actions.push(CommandAction::Warn("No handler configured for this event".to_owned()));
                self.stage = SessionStage::Done;
                assert(actions_view(actions@) =~= seq![
                    ActionView::Warn("No handler configured for this event"@),
                ]);
            },
        }
        assert(actions_view(actions@) =~= begin_spec(
            self.command@,
            opt_view(self.reply),
            started_view,
        ));
        actions
    }

    /// The second step, once the work ended with `outcome`: what to publish.
    /// `stamp` gives the final status its id and time. Ends the session.
    pub fn finish(&mut self, outcome: WorkOutcome, stamp: EventStamp) -> (actions: Vec<CommandAction>)
        requires
            old(self).stage == SessionStage::Working,
            has_work(old(self).command@),
            started_kind(old(self).command@) is Some ==> old(self).started is Some,
        ensures
            final(self).stage == SessionStage::Done,
            final(self).command@ == old(self).command@,
            actions_view(actions@) == finish_spec(
                old(self).command@,
                opt_view(old(self).reply),
                old(self).started->Some_0@,
                outcome is Success,
                status_event_spec(
                    old(self).command@,
                    finished_kind(old(self).command@, outcome is Success),
                    match outcome {
                        WorkOutcome::Failure(p) => if old(self).command.kind
                            == PiEventKind::BootCommand(PiBootCommandType::Shutdown) {
                            None
                        } else {
                            Some(p@)
                        },
                        WorkOutcome::Success => None,
                    },
                    stamp.id@,
                    stamp.created_dt@,
                ),
            ),
    {
        let mut actions: Vec<CommandAction> = Vec::new();
        self.stage = SessionStage::Done;
        let is_reboot = self.command.kind == PiEventKind::BootCommand(PiBootCommandType::Reboot);
        let is_shutdown = self.command.kind == PiEventKind::BootCommand(PiBootCommandType::Shutdown);
        let (success, payload) = match outcome {
            WorkOutcome::Success => (true, None),
            WorkOutcome::Failure(p) => (false, if is_shutdown {
                None
            } else {
                Some(p)
            }),
        };
        if is_reboot && success {
            match &self.started {
                Some(ev) => {
                    push_reply(&mut actions, &self.reply, ev);
                },
                None => {
                    proof {
                        assert(false);
                    }
                },
            }
            assert(actions_view(actions@) =~= Seq::<ActionView>::empty() + to_reply(
                opt_view(self.reply),
                self.started->Some_0@,
            ));
        } else {
            let kind = self.finished_kind(success);
            let ev = self.command.status_event(kind, payload, stamp);
            push_reply_and_status(&mut actions, &self.reply, ev);
            assert(actions_view(actions@) =~= Seq::<ActionView>::empty() + to_reply_and_status(
                opt_view(self.reply),
                ev@,
            ));
        }
        actions
    }

    fn finished_kind(&self, success: bool) -> (k: PiEventKind)
        ensures
            k == finished_kind(self.command@, success),
            is_status_kind(k),
    {
        match self.command.kind {
            PiEventKind::BootCommand(PiBootCommandType::Reboot) => PiEventKind::BootStatus(
                PiBootStatusType::RebootError,
            ),
            PiEventKind::BootCommand(PiBootCommandType::Shutdown) => PiEventKind::BootStatus(
                PiBootStatusType::ShutdownStarted,
            ),
            PiEventKind::BootCommand(PiBootCommandType::SyncSettings) => if success {
                PiEventKind::BootStatus(PiBootStatusType::SyncSettingsSuccess)
            } else {
                PiEventKind::BootStatus(PiBootStatusType::SyncSettingsError)
            },
            PiEventKind::CamCommand(PiCamCommandType::CamStart) => if success {
                PiEventKind::CamStatus(PiCamStatusType::CamStartSuccess)
            } else {
                PiEventKind::CamStatus(PiCamStatusType::CamError)
            },
            PiEventKind::CamCommand(PiCamCommandType::CamStop) => if success {
                PiEventKind::CamStatus(PiCamStatusType::CamStopped)
            } else {
                PiEventKind::CamStatus(PiCamStatusType::CamError)
            },
            _ => if success {
                PiEventKind::SwupdateStatus(PiSoftwareUpdateStatusType::SwupdateSuccess)
            } else {
                PiEventKind::SwupdateStatus(PiSoftwareUpdateStatusType::SwupdateError)
            },
        }
    }
}

/// `a`, if it publishes, publishes a status event of the Pi `pi`, on that
/// event's own subject or on the reply subject.
pub open spec fn publishes_status_of(a: ActionView, pi: i32, reply: Option<Seq<char>>) -> bool {
    a matches ActionView::Publish { subject, event } ==> {
        &&& subject == event_subject_spec(event.kind, event.pi as int) || reply == Some(subject)
        &&& event.pi == pi
        &&& is_status_kind(event.kind)
    }
}

/// Everything a command's handling publishes, in either step, is a status event
/// of the commanded Pi, published on the status subject of its family or on the
/// command's reply subject; nothing else is ever published.
pub proof fn lemma_publications_are_status_events(
    cmd: PiEventView,
    reply: Option<Seq<char>>,
    started_id: Seq<char>,
    started_dt: Seq<char>,
    success: bool,
    payload: Option<StatusPayloadView>,
    finished_id: Seq<char>,
    finished_dt: Seq<char>,
)
    requires
        command_wf(cmd),
    ensures
        ({
            let started = status_event_spec(
                cmd,
                started_kind(cmd)->Some_0,
                None,
                started_id,
                started_dt,
            );
            let finished = status_event_spec(
                cmd,
                finished_kind(cmd, success),
                payload,
                finished_id,
                finished_dt,
            );
            &&& forall|i: int|
                0 <= i < begin_spec(cmd, reply, started).len() ==> publishes_status_of(
                    #[trigger] begin_spec(cmd, reply, started)[i],
                    cmd.pi,
                    reply,
                )
            &&& has_work(cmd) ==> forall|i: int|
                0 <= i < finish_spec(cmd, reply, started, success, finished).len()
                    ==> publishes_status_of(
                    #[trigger] finish_spec(cmd, reply, started, success, finished)[i],
                    cmd.pi,
                    reply,
                )
        }),
{
    let started = status_event_spec(cmd, started_kind(cmd)->Some_0, None, started_id, started_dt);
    let finished = status_event_spec(cmd, finished_kind(cmd, success), payload, finished_id, finished_dt);
    let b = begin_spec(cmd, reply, started);
    let f = finish_spec(cmd, reply, started, success, finished);
    assert(is_status_kind(finished.kind));
    assert forall|i: int| 0 <= i < b.len() implies publishes_status_of(#[trigger] b[i], cmd.pi, reply) by {
        if started_kind(cmd) is Some {
            assert(is_status_kind(started.kind));
        }
    }
    if has_work(cmd) {
        if cmd.kind == PiEventKind::BootCommand(PiBootCommandType::Reboot) && success {
            assert(started_kind(cmd) is Some);
            assert(is_status_kind(started.kind));
        }
        assert forall|i: int| 0 <= i < f.len() implies publishes_status_of(#[trigger] f[i], cmd.pi, reply) by {
            if cmd.kind == PiEventKind::BootCommand(PiBootCommandType::Reboot) && success {
                assert(is_status_kind(started.kind));
            }
        }
    }
}

/// The status subject suffix of a command's family: `status.boot` for boot
/// commands, `status.cam` for camera commands, `status.swupdate` for updates.
pub open spec fn status_suffix_of(cmd_kind: PiEventKind) -> Seq<char> {
    match cmd_kind {
        PiEventKind::BootCommand(_) => "status.boot"@,
        PiEventKind::CamCommand(_) => "status.cam"@,
        _ => "status.swupdate"@,
    }
}

/// `k` is a status of the family of the command kind `cmd_kind`.
pub open spec fn same_family_status(cmd_kind: PiEventKind, k: PiEventKind) -> bool {
    match cmd_kind {
        PiEventKind::BootCommand(_) => k is BootStatus,
        PiEventKind::CamCommand(_) => k is CamStatus,
        PiEventKind::SwupdateCommand(_) => k is SwupdateStatus,
        _ => false,
    }
}

/// Everything that handling `cmd` does, both steps together: what `begin` does,
/// then, when it leaves work, what `finish` does after the work ended.
pub open spec fn run_spec(
    cmd: PiEventView,
    reply: Option<Seq<char>>,
    started: PiEventView,
    success: bool,
    finished: PiEventView,
) -> Seq<ActionView> {
    begin_spec(cmd, reply, started) + if has_work(cmd) {
        finish_spec(cmd, reply, started, success, finished)
    } else {
        Seq::<ActionView>::empty()
    }
}

/// `a`, if it publishes, publishes a status of the commanded Pi, of the family
/// of the command, on the family's status subject or on the reply subject; with
/// no reply subject, on the status subject.
pub open spec fn run_publication_ok(a: ActionView, cmd: PiEventView, reply: Option<Seq<char>>) -> bool {
    a matches ActionView::Publish { subject, event } ==> {
        &&& subject == pi_subject_spec(cmd.pi as int, status_suffix_of(cmd.kind)) || reply == Some(
            subject,
        )
        &&& reply is None ==> subject == pi_subject_spec(cmd.pi as int, status_suffix_of(cmd.kind))
        &&& event.pi == cmd.pi
        &&& same_family_status(cmd.kind, event.kind)
    }
}

/// Over a whole run of a command, each publication is a status of the commanded
/// Pi, of the command's own family (a boot command gives boot statuses), sent to
/// `pi.<pi>.status.<family>` or to the reply subject; without a reply subject,
/// only the status subject is used.
pub proof fn lemma_command_run_publications(
    cmd: PiEventView,
    reply: Option<Seq<char>>,
    started_id: Seq<char>,
    started_dt: Seq<char>,
    success: bool,
    payload: Option<StatusPayloadView>,
    finished_id: Seq<char>,
    finished_dt: Seq<char>,
)
    requires
        command_wf(cmd),
    ensures
        ({
            let started = status_event_spec(
                cmd,
                started_kind(cmd)->Some_0,
                None,
                started_id,
                started_dt,
            );
            let finished = status_event_spec(
                cmd,
                finished_kind(cmd, success),
                payload,
                finished_id,
                finished_dt,
            );
            forall|i: int|
                0 <= i < run_spec(cmd, reply, started, success, finished).len()
                    ==> run_publication_ok(
                    #[trigger] run_spec(cmd, reply, started, success, finished)[i],
                    cmd,
                    reply,
                )
        }),
{
    let started = status_event_spec(cmd, started_kind(cmd)->Some_0, None, started_id, started_dt);
    let finished = status_event_spec(cmd, finished_kind(cmd, success), payload, finished_id, finished_dt);
    let b = begin_spec(cmd, reply, started);
    let f = finish_spec(cmd, reply, started, success, finished);
    let r = run_spec(cmd, reply, started, success, finished);
    assert forall|i: int| 0 <= i < r.len() implies run_publication_ok(#[trigger] r[i], cmd, reply) by {
        if i < b.len() {
            assert(r[i] == b[i]);
        } else {
            assert(has_work(cmd));
            assert(r[i] == f[i - b.len()]);
        }
    }
}

/// `k` is the error status of its family.
pub open spec fn is_error_status(k: PiEventKind) -> bool {
    ||| k == PiEventKind::BootStatus(PiBootStatusType::RebootError)
    ||| k == PiEventKind::BootStatus(PiBootStatusType::SyncSettingsError)
    ||| k == PiEventKind::CamStatus(PiCamStatusType::CamError)
    ||| k == PiEventKind::SwupdateStatus(PiSoftwareUpdateStatusType::SwupdateError)
}

/// When the work of a command fails, the second step reports the error status of
/// the command's family, wherever it publishes (a shutdown, which reports that
/// it started whatever happened, aside); when the work succeeds, it reports no
/// error, and the two reports differ.
pub proof fn lemma_outcome_decides_report(
    cmd: PiEventView,
    reply: Option<Seq<char>>,
    started: PiEventView,
    success: bool,
    payload: Option<StatusPayloadView>,
    id: Seq<char>,
    dt: Seq<char>,
)
    requires
        has_work(cmd),
        cmd.kind != PiEventKind::BootCommand(PiBootCommandType::Shutdown),
        started.pi == cmd.pi,
        same_family_status(cmd.kind, started.kind),
        !is_error_status(started.kind),
    ensures
        ({
            let finished = status_event_spec(cmd, finished_kind(cmd, success), payload, id, dt);
            let f = finish_spec(cmd, reply, started, success, finished);
            &&& !success ==> f.len() >= 1
            &&& forall|i: int|
                0 <= i < f.len() ==> (#[trigger] f[i] matches ActionView::Publish { event, .. } && {
                    &&& event.pi == cmd.pi
                    &&& same_family_status(cmd.kind, event.kind)
                    &&& is_error_status(event.kind) == !success
                })
        }),
        is_error_status(finished_kind(cmd, false)),
        cmd.kind != PiEventKind::BootCommand(PiBootCommandType::Reboot) ==> !is_error_status(
            finished_kind(cmd, true),
        ) && finished_kind(cmd, true) != finished_kind(cmd, false),
{
    let finished = status_event_spec(cmd, finished_kind(cmd, success), payload, id, dt);
    let f = finish_spec(cmd, reply, started, success, finished);
    assert forall|i: int| 0 <= i < f.len() implies (#[trigger] f[i] matches ActionView::Publish {
        event,
        ..
    } && {
        &&& event.pi == cmd.pi
        &&& same_family_status(cmd.kind, event.kind)
        &&& is_error_status(event.kind) == !success
    }) by {}
}

/// When a command comes with a reply subject, its handling always answers on it:
/// the first thing the second step publishes goes to the reply subject.
pub proof fn lemma_reply_is_answered(
    cmd: PiEventView,
    reply: Seq<char>,
    started: PiEventView,
    success: bool,
    finished: PiEventView,
)
    ensures
        finish_spec(cmd, Some(reply), started, success, finished).len() >= 1,
        finish_spec(cmd, Some(reply), started, success, finished)[0] matches ActionView::Publish {
            subject,
            ..
        } && subject == reply,
{
}

} // verus!
