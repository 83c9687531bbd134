//! The NATS worker: it relays events written to a local Unix socket to NATS, and
//! holds them in a bounded first-in first-out buffer while NATS is unreachable.

use vstd::prelude::*;

use crate::text::{contains_spec, contains_str};

verus! {

/// How many events the relay holds while NATS is unreachable.
pub const MAX_BUFFER_SIZE: usize = 12;

pub const DEFAULT_NATS_SOCKET_PATH: &'static str = "/var/run/printnanny/nats-worker.sock";

pub const DEFAULT_NATS_URI: &'static str = "nats://localhost:4222";

pub const DEFAULT_NATS_SUBJECT: &'static str = "pi.*";

/// An event to relay: its subject and its JSON payload.
pub type RelayEvent = (String, Vec<u8>);

pub open spec fn event_view(e: RelayEvent) -> (Seq<char>, Seq<u8>) {
    (e.0@, e.1@)
}

/// Accepting `m` into the pending events `b`: when `b` is full the oldest event
/// makes room.
pub open spec fn accept_spec(b: Seq<(Seq<char>, Seq<u8>)>, m: (Seq<char>, Seq<u8>)) -> Seq<
    (Seq<char>, Seq<u8>),
> {
    if b.len() >= MAX_BUFFER_SIZE {
        b.drop_first().push(m)
    } else {
        b.push(m)
    }
}

/// Accepting the events `ms`, in order, into `b`.
pub open spec fn accept_all(b: Seq<(Seq<char>, Seq<u8>)>, ms: Seq<(Seq<char>, Seq<u8>)>) -> Seq<
    (Seq<char>, Seq<u8>),
>
    decreases ms.len(),
{
    if ms.len() == 0 {
        b
    } else {
        accept_spec(accept_all(b, ms.drop_last()), ms.last())
    }
}

/// An optional event as a sequence of none or one.
pub open spec fn opt_seq<T>(o: Option<T>) -> Seq<T> {
    match o {
        Some(x) => seq![x],
        None => Seq::<T>::empty(),
    }
}

pub open spec fn opt_event_view(o: Option<RelayEvent>) -> Option<(Seq<char>, Seq<u8>)> {
    match o {
        Some(e) => Some(event_view(e)),
        None => None,
    }
}

/// One turn of the relay on the pending events `b`: when NATS is reachable
/// every pending event is published, oldest first; then the event that
/// arrived, if any, is accepted, which drops the oldest pending event when the
/// buffer is full. Gives what is published, what is dropped, and what waits.
pub open spec fn relay_step_spec(
    b: Seq<(Seq<char>, Seq<u8>)>,
    connected: bool,
    incoming: Option<(Seq<char>, Seq<u8>)>,
) -> (Seq<(Seq<char>, Seq<u8>)>, Option<(Seq<char>, Seq<u8>)>, Seq<(Seq<char>, Seq<u8>)>) {
    let published = if connected {
        b
    } else {
        Seq::<(Seq<char>, Seq<u8>)>::empty()
    };
    let kept = if connected {
        Seq::<(Seq<char>, Seq<u8>)>::empty()
    } else {
        b
    };
    match incoming {
        None => (published, None, kept),
        Some(m) => if kept.len() >= MAX_BUFFER_SIZE {
            (published, Some(kept[0]), kept.drop_first().push(m))
        } else {
            (published, None, kept.push(m))
        },
    }
}

/// The turns `steps` (whether NATS was reachable, and what arrived) run from the
/// pending events `b`: every event that left the buffer, published or dropped,
/// in the order it left, and what waits at the end.
pub open spec fn relay_run(b: Seq<(Seq<char>, Seq<u8>)>, steps: Seq<(bool, Option<(Seq<char>, Seq<u8>)>)>) -> (
    Seq<(Seq<char>, Seq<u8>)>,
    Seq<(Seq<char>, Seq<u8>)>,
)
    decreases steps.len(),
{
    if steps.len() == 0 {
        (Seq::<(Seq<char>, Seq<u8>)>::empty(), b)
    } else {
        let (left, pending) = relay_run(b, steps.drop_last());
        let (published, dropped, next) = relay_step_spec(pending, steps.last().0, steps.last().1);
        (left + published + opt_seq(dropped), next)
    }
}

/// The events that arrived over the turns `steps`, in order.
pub open spec fn relay_arrivals(steps: Seq<(bool, Option<(Seq<char>, Seq<u8>)>)>) -> Seq<(Seq<char>, Seq<u8>)>
    decreases steps.len(),
{
    if steps.len() == 0 {
        Seq::<(Seq<char>, Seq<u8>)>::empty()
    } else {
        relay_arrivals(steps.drop_last()) + opt_seq(steps.last().1)
    }
}

/// One turn loses and invents nothing, and keeps the order: what it publishes,
/// then what it drops, then what waits, is what was pending followed by what
/// arrived. At most `MAX_BUFFER_SIZE` events wait after it.
pub proof fn lemma_relay_step_keeps_order(
    b: Seq<(Seq<char>, Seq<u8>)>,
    connected: bool,
    incoming: Option<(Seq<char>, Seq<u8>)>,
)
    requires
        b.len() <= MAX_BUFFER_SIZE,
    ensures
        ({
            let (published, dropped, next) = relay_step_spec(b, connected, incoming);
            &&& published + opt_seq(dropped) + next == b + opt_seq(incoming)
            &&& next.len() <= MAX_BUFFER_SIZE
        }),
{
    let (published, dropped, next) = relay_step_spec(b, connected, incoming);
    let e = Seq::<(Seq<char>, Seq<u8>)>::empty();
    if connected {
        assert(e.push(incoming->Some_0) =~= seq![incoming->Some_0]);
        assert(published + opt_seq(dropped) + next =~= b + opt_seq(incoming));
    } else {
        match incoming {
            None => {
                assert(published + opt_seq(dropped) + next =~= b + opt_seq(incoming));
            },
            Some(m) => {
                if b.len() >= MAX_BUFFER_SIZE {
                    assert(e + seq![b[0]] + b.drop_first().push(m) =~= b + seq![m]);
                } else {
                    assert(e + e + b.push(m) =~= b + seq![m]);
                }
            },
        }
    }
}

/// Over any run of turns from at most `MAX_BUFFER_SIZE` pending events, no
/// event is lost, duplicated or reordered: the events that left the buffer, in
/// the order they left, followed by those still waiting, are the pending ones
/// followed by every arrival in order. At most `MAX_BUFFER_SIZE` events wait.
pub proof fn lemma_relay_run_keeps_order(
    b: Seq<(Seq<char>, Seq<u8>)>,
    steps: Seq<(bool, Option<(Seq<char>, Seq<u8>)>)>,
)
    requires
        b.len() <= MAX_BUFFER_SIZE,
    ensures
        relay_run(b, steps).0 + relay_run(b, steps).1 == b + relay_arrivals(steps),
        relay_run(b, steps).1.len() <= MAX_BUFFER_SIZE,
    decreases steps.len(),
{
    if steps.len() == 0 {
        assert(Seq::<(Seq<char>, Seq<u8>)>::empty() + b =~= b + Seq::<(Seq<char>, Seq<u8>)>::empty());
    } else {
        let prev = steps.drop_last();
        lemma_relay_run_keeps_order(b, prev);
        let (left, pending) = relay_run(b, prev);
        lemma_relay_step_keeps_order(pending, steps.last().0, steps.last().1);
        let (published, dropped, next) = relay_step_spec(pending, steps.last().0, steps.last().1);
        assert(left + published + opt_seq(dropped) + next =~= left + (published + opt_seq(dropped)
            + next));
        assert(b + relay_arrivals(steps) =~= (b + relay_arrivals(prev)) + opt_seq(steps.last().1));
        assert(left + (pending + opt_seq(steps.last().1)) =~= (left + pending) + opt_seq(
            steps.last().1,
        ));
    }
}

/// The events waiting to be relayed, oldest first.
pub struct EventBuffer {
    events: Vec<RelayEvent>,
}

impl View for EventBuffer {
    type V = Seq<(Seq<char>, Seq<u8>)>;

    closed spec fn view(&self) -> Seq<(Seq<char>, Seq<u8>)> {
        self.events@.map_values(|e: RelayEvent| event_view(e))
    }
}

impl EventBuffer {
    #[verifier::type_invariant]
    closed spec fn bounded(self) -> bool {
        self.events@.len() <= MAX_BUFFER_SIZE
    }

    /// An empty buffer.
    pub fn new() -> (b: EventBuffer)
        ensures
            b@ == Seq::<(Seq<char>, Seq<u8>)>::empty(),
    {
        let b = EventBuffer { events: Vec::new() };
        assert(b@ =~= Seq::<(Seq<char>, Seq<u8>)>::empty());
        b
    }

    /// How many events wait.
    pub fn len(&self) -> (n: usize)
        ensures
            n == self@.len(),
            n <= MAX_BUFFER_SIZE,
    {
        proof {
            use_type_invariant(self);
        }
        self.events.len()
    }

    /// Takes `event` in at the back. When `MAX_BUFFER_SIZE` events already wait,
    /// the oldest is dropped to make room, and returned.
    pub fn accept(&mut self, event: RelayEvent) -> (dropped: Option<RelayEvent>)
        ensures
            final(self)@ == accept_spec(old(self)@, event_view(event)),
            final(self)@.len() <= MAX_BUFFER_SIZE,
            old(self)@.len() >= MAX_BUFFER_SIZE ==> dropped is Some && event_view(
                dropped->Some_0,
            ) == old(self)@[0],
            old(self)@.len() < MAX_BUFFER_SIZE ==> dropped is None,
    {
        proof {
            use_type_invariant(&*self);
        }
        let ghost before = self.events@;
        let mut events = Vec::new();
        core::mem::swap(&mut events, &mut self.events);
        let dropped = if events.len() >= MAX_BUFFER_SIZE {
            let head = events.remove(0);
            Some(head)
        } else {
            None
        };
        events.push(event);
        proof {
            if before.len() >= MAX_BUFFER_SIZE {
                assert(events@ =~= before.drop_first().push(event));
                assert(events@.map_values(|e: RelayEvent| event_view(e)) =~= before.map_values(
                    |e: RelayEvent| event_view(e),
                ).drop_first().push(event_view(event)));
            } else {
                assert(events@ =~= before.push(event));
                assert(events@.map_values(|e: RelayEvent| event_view(e)) =~= before.map_values(
                    |e: RelayEvent| event_view(e),
                ).push(event_view(event)));
            }
        }
        self.events = events;
        dropped
    }

    /// One turn of the relay: when NATS is reachable (`connected`), hands out
    /// every waiting event, oldest first, to be published; then takes in the
    /// event that arrived, if any, dropping the oldest when the buffer is full.
    /// Returns what to publish and what was dropped.
    pub fn relay_step(&mut self, connected: bool, incoming: Option<RelayEvent>) -> (res: (
        Vec<RelayEvent>,
        Option<RelayEvent>,
    ))
        ensures
            (res.0@.map_values(|e: RelayEvent| event_view(e)), opt_event_view(res.1), final(self)@)
                == relay_step_spec(old(self)@, connected, opt_event_view(incoming)),
            res.0@.map_values(|e: RelayEvent| event_view(e)) + opt_seq(opt_event_view(res.1))
                + final(self)@ == old(self)@ + opt_seq(opt_event_view(incoming)),
            final(self)@.len() <= MAX_BUFFER_SIZE,
    {
        proof {
            use_type_invariant(&*self);
            lemma_relay_step_keeps_order(self@, connected, opt_event_view(incoming));
        }
        let published = if connected {
            self.drain()
        } else {
            let v: Vec<RelayEvent> = Vec::new();
            assert(v@.map_values(|e: RelayEvent| event_view(e)) =~= Seq::<
                (Seq<char>, Seq<u8>),
            >::empty());
            v
        };
        let dropped = match incoming {
            Some(m) => self.accept(m),
            None => None,
        };
        (published, dropped)
    }

    /// Hands out every waiting event, oldest first, and leaves the buffer empty
    /// (done each time NATS is reachable).
    pub fn drain(&mut self) -> (out: Vec<RelayEvent>)
        ensures
            out@.map_values(|e: RelayEvent| event_view(e)) == old(self)@,
            final(self)@ == Seq::<(Seq<char>, Seq<u8>)>::empty(),
    {
        let mut events = Vec::new();
        core::mem::swap(&mut events, &mut self.events);
        assert(self@ =~= Seq::<(Seq<char>, Seq<u8>)>::empty());
        events
    }
}

/// Accepting events into an empty buffer keeps the most recent
/// `MAX_BUFFER_SIZE` of them, oldest first: an event is lost only when that
/// many newer events arrive before the buffer is drained.
pub proof fn lemma_buffer_keeps_latest(ms: Seq<(Seq<char>, Seq<u8>)>)
    ensures
        accept_all(Seq::empty(), ms) == (if ms.len() <= MAX_BUFFER_SIZE {
            ms
        } else {
            ms.skip(ms.len() - MAX_BUFFER_SIZE)
        }),
    decreases ms.len(),
{
    if ms.len() > 0 {
        let prev = ms.drop_last();
        lemma_buffer_keeps_latest(prev);
        if prev.len() >= MAX_BUFFER_SIZE {
            assert(prev.skip(prev.len() - MAX_BUFFER_SIZE).drop_first().push(ms.last()) =~= ms.skip(
                ms.len() - MAX_BUFFER_SIZE,
            ));
        } else {
            assert(prev.push(ms.last()) =~= ms);
        }
    }
}

/// The configuration of a NATS worker.
pub struct NatsWorker {
    /// The Unix socket that events are read from.
    pub socket: String,
    /// The subject the worker subscribes to.
    pub subscribe_subject: String,
    pub nats_server_uri: String,
    /// Whether the connection must use TLS: the server URI mentions `tls`.
    pub require_tls: bool,
    /// A credentials file, if any.
    pub nats_creds: Option<String>,
}

pub open spec fn or_default(o: Option<String>, d: Seq<char>) -> Seq<char> {
    match o {
        Some(s) => s@,
        None => d,
    }
}

fn or_default_string(o: Option<String>, d: &str) -> (s: String)
    ensures
        s@ == or_default(o, d@),
{
    match o {
        Some(s) => s,
        None => d.to_owned(),
    }
}

impl NatsWorker {
    /// A worker from its options, each falling back to its default: subject
    /// `pi.*`, server `nats://localhost:4222`, socket
    /// `/var/run/printnanny/nats-worker.sock`. TLS is required exactly when the
    /// server URI contains `tls`.
    pub fn new(
        subject: Option<String>,
        nats_server_uri: Option<String>,
        nats_creds: Option<String>,
        socket: Option<String>,
    ) -> (w: NatsWorker)
        ensures
            w.subscribe_subject@ == or_default(subject, DEFAULT_NATS_SUBJECT@),
            w.nats_server_uri@ == or_default(nats_server_uri, DEFAULT_NATS_URI@),
            w.socket@ == or_default(socket, DEFAULT_NATS_SOCKET_PATH@),
            w.nats_creds == nats_creds,
            w.require_tls == contains_spec(w.nats_server_uri@, "tls"@),
    {
        let subscribe_subject = or_default_string(subject, DEFAULT_NATS_SUBJECT);
        let nats_server_uri = or_default_string(nats_server_uri, DEFAULT_NATS_URI);
        let socket = or_default_string(socket, DEFAULT_NATS_SOCKET_PATH);
        let require_tls = contains_str(nats_server_uri.as_str(), "tls");
        NatsWorker { socket, subscribe_subject, nats_server_uri, require_tls, nats_creds }
    }
}

} // verus!
