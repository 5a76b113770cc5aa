//! The telemetry bus client: registers a fixed set of topics on every
//! connect and then streams one binary value frame per topic on a fixed
//! schedule. Any failure drops the client back to Disconnected, and the next
//! successful connect repeats the whole registration sequence before any
//! value frame goes out.
//!
//! The connection itself lives in the unverified shell; the shell feeds
//! connect and send outcomes in as events and performs the actions the
//! client hands back.

use crate::data::Tag;
use crate::text::{dec_chars, push_dec};
use vstd::prelude::*;
use vstd::string::{StrSliceExecFns, StringExecFns};

verus! {

/// Delay before retrying a failed connect, in milliseconds.
pub const RETRY_DELAY_MS: u32 = 2000;

/// Period of the value stream, in milliseconds.
pub const TICK_MS: u32 = 20;

/// The sub-protocol identifier the bus requires during the connection
/// handshake. Opaque, but mandatory.
pub fn subprotocol() -> (r: &'static str)
    ensures
        r@ == "v4.1.networktables.first.wpi.edu"@,
{
    "v4.1.networktables.first.wpi.edu"
}

/// A character that can stand inside a JSON string without escaping:
/// printable ASCII, no quote, no backslash.
pub open spec fn json_safe_char(c: char) -> bool {
    &&& c != '"'
    &&& c != '\\'
    &&& 0x20 <= (c as u32) <= 0x7e
}

/// Text that can stand inside a JSON string without escaping.
pub open spec fn json_safe(s: Seq<char>) -> bool {
    forall|i: int| 0 <= i < s.len() ==> json_safe_char(s[i])
}

/// Decides whether every character of `s` can stand inside a JSON string
/// without escaping.
pub fn is_json_safe(s: &str) -> (r: bool)
    ensures
        r == json_safe(s@),
{
    let n = s.unicode_len();
    for i in 0..n
        invariant
            n == s@.len(),
            forall|j: int| 0 <= j < i ==> json_safe_char(s@[j]),
    {
        let c = s.get_char(i);
        if c == '"' || c == '\\' || (c as u32) < 0x20 || (c as u32) > 0x7e {
            return false;
        }
    }
    true
}

/// A named, typed telemetry channel: registered once per connection,
/// immutable thereafter, re-registered identically on every reconnect.
#[derive(Clone)]
pub struct Topic {
    /// The channel name.
    pub name: String,
    /// The publisher identifier, unique per process.
    pub pubuid: u32,
    /// The declared value type, as the registration message spells it.
    pub value_type: String,
    /// The numeric type tag carried in every binary value frame.
    pub type_tag: u32,
}

impl Topic {
    /// Name and declared type can stand inside a JSON string unescaped, so
    /// the registration message below is well-formed JSON.
    pub open spec fn wf(self) -> bool {
        json_safe(self.name@) && json_safe(self.value_type@)
    }

    /// Builds a topic, accepting only names and type strings that need no
    /// JSON escaping.
    pub fn new(name: String, pubuid: u32, value_type: String, type_tag: u32) -> (r: Option<
        Topic,
    >)
        ensures
            r is Some <==> json_safe(name@) && json_safe(value_type@),
            r matches Some(t) ==> t == (Topic { name, pubuid, value_type, type_tag }) && t.wf(),
    {
        if is_json_safe(name.as_str()) && is_json_safe(value_type.as_str()) {
            Some(Topic { name, pubuid, value_type, type_tag })
        } else {
            None
        }
    }
}

/// The control message that declares one topic: a JSON array holding a
/// single publish request.
pub open spec fn publish_message(name: Seq<char>, pubuid: nat, value_type: Seq<char>) -> Seq<
    char,
> {
    "[{\"method\":\"publish\",\"params\":{\"name\":\""@ + name + "\",\"properties\":{},\"pubuid\":"@
        + dec_chars(pubuid) + ",\"type\":\""@ + value_type + "\"}}]"@
}

/// Renders the registration message for one topic.
pub fn registration_message(t: &Topic) -> (r: String)
    ensures
        r@ == publish_message(t.name@, t.pubuid as nat, t.value_type@),
{
    let mut s = String::new();
    s.append("[{\"method\":\"publish\",\"params\":{\"name\":\"");
    s.append(t.name.as_str());
    s.append("\",\"properties\":{},\"pubuid\":");
    push_dec(&mut s, t.pubuid as u64);
    s.append(",\"type\":\"");
    s.append(t.value_type.as_str());
    s.append("\"}}]");
    proof {
        assert(s@ =~= publish_message(t.name@, t.pubuid as nat, t.value_type@));
    }
    s
}

/// Where the client stands in its connection lifecycle.
#[derive(Clone, Copy, PartialEq, Eq, Structural)]
pub enum Phase {
    /// No connection; waiting to try again.
    Disconnected,
    /// A connection attempt is in flight.
    Connecting,
    /// Connected; the registration with this index is in flight.
    Registering { idx: usize },
    /// All topics declared; value frames flow on every tick.
    Streaming,
}

/// What the shell reports to the client.
#[derive(Clone, Copy, PartialEq, Eq, Structural)]
pub enum Event {
    /// The client should try to connect now.
    Woke,
    /// The connection attempt succeeded.
    ConnectSucceeded,
    /// The connection attempt failed.
    ConnectFailed,
    /// The last message went out.
    SendSucceeded,
    /// The last message could not be sent.
    SendFailed,
    /// The streaming period elapsed.
    TickDue,
}

/// What the client asks the shell to do next.
#[derive(Clone, Copy, PartialEq, Eq, Structural)]
pub enum Action {
    /// Open the persistent connection.
    OpenConnection,
    /// Wait this many milliseconds before waking again.
    Sleep { ms: u32 },
    /// Send the registration message of the topic with this index.
    SendRegistration { idx: usize },
    /// Send one value frame per topic from the current snapshot.
    SendValues,
    /// Nothing to do until the next event.
    Idle,
}

/// The phase after handling one event, for a client with `n` topics.
pub open spec fn next_phase(n: nat, p: Phase, e: Event) -> Phase {
    match (p, e) {
        (Phase::Disconnected, Event::Woke) => Phase::Connecting,
        (Phase::Connecting, Event::ConnectSucceeded) => if n == 0 {
            Phase::Streaming
        } else {
            Phase::Registering { idx: 0 }
        },
        (Phase::Connecting, Event::ConnectFailed) => Phase::Disconnected,
        (Phase::Registering { idx }, Event::SendSucceeded) => if idx + 1 == n {
            Phase::Streaming
        } else {
            Phase::Registering { idx: (idx + 1) as usize }
        },
        (Phase::Registering { .. }, Event::SendFailed) => Phase::Disconnected,
        (Phase::Streaming, Event::SendFailed) => Phase::Disconnected,
        _ => p,
    }
}

/// The action emitted while handling one event, for a client with `n`
/// topics.
pub open spec fn next_action(n: nat, p: Phase, e: Event) -> Action {
    match (p, e) {
        (Phase::Disconnected, Event::Woke) => Action::OpenConnection,
        (Phase::Connecting, Event::ConnectSucceeded) => if n == 0 {
            Action::Idle
        } else {
            Action::SendRegistration { idx: 0 }
        },
        (Phase::Connecting, Event::ConnectFailed) => Action::Sleep { ms: RETRY_DELAY_MS },
        (Phase::Registering { idx }, Event::SendSucceeded) => if idx + 1 == n {
            Action::Idle
        } else {
            Action::SendRegistration { idx: (idx + 1) as usize }
        },
        (Phase::Registering { .. }, Event::SendFailed) => Action::Sleep { ms: RETRY_DELAY_MS },
        (Phase::Streaming, Event::TickDue) => Action::SendValues,
        _ => Action::Idle,
    }
}

/// The send log of the current connection after handling one event: it
/// restarts empty on a successful connect and records every send the client
/// asks for.
pub open spec fn next_session(n: nat, p: Phase, e: Event, sess: Seq<Action>) -> Seq<Action> {
    let base = if p is Connecting && e is ConnectSucceeded {
        Seq::<Action>::empty()
    } else {
        sess
    };
    match next_action(n, p, e) {
        Action::SendRegistration { idx } => base.push(Action::SendRegistration { idx }),
        Action::SendValues => base.push(Action::SendValues),
        _ => base,
    }
}

/// What the send log of a connection must look like in each phase: while
/// registering, exactly the registrations so far, in declared order; while
/// streaming, all registrations in declared order and then only value
/// frames.
pub open spec fn session_ok(n: nat, p: Phase, sess: Seq<Action>) -> bool {
    match p {
        Phase::Registering { idx } => {
            &&& idx < n
            &&& sess.len() == idx + 1
            &&& (forall|j: int|
                0 <= j <= idx ==> sess[j] == (Action::SendRegistration { idx: j as usize }))
        },
        Phase::Streaming => {
            &&& sess.len() >= n
            &&& (forall|j: int|
                0 <= j < n ==> sess[j] == (Action::SendRegistration { idx: j as usize }))
            &&& (forall|j: int| n <= j < sess.len() ==> sess[j] == Action::SendValues)
        },
        _ => true,
    }
}

/// The telemetry bus client: a fixed topic set and the connection state
/// machine, with a ghost log of what was sent on the current connection.
pub struct BusClient {
    topics: Vec<Topic>,
    phase: Phase,
    session: Ghost<Seq<Action>>,
}

impl BusClient {
    /// The topic set, fixed for the client's lifetime.
    pub closed spec fn topics_seq(&self) -> Seq<Topic> {
        self.topics@
    }

    /// How many topics the client declares per connection.
    pub closed spec fn num_topics(&self) -> nat {
        self.topics@.len()
    }

    /// The current lifecycle phase.
    pub closed spec fn phase(&self) -> Phase {
        self.phase
    }

    /// The send log of the current connection.
    pub closed spec fn session(&self) -> Seq<Action> {
        self.session@
    }

    /// The client's invariant: every topic passed validation, publisher
    /// identifiers are pairwise distinct, and the send log matches the
    /// phase.
    pub closed spec fn wf(&self) -> bool {
        &&& (forall|i: int| 0 <= i < self.topics@.len() ==> self.topics@[i].wf())
        &&& (forall|i: int, j: int|
            0 <= i < j < self.topics@.len() ==> self.topics@[i].pubuid != self.topics@[j].pubuid)
        &&& session_ok(self.num_topics(), self.phase, self.session@)
    }

    /// Builds a client over a topic set, accepting it only when every topic
    /// passed validation and the publisher identifiers are pairwise
    /// distinct.
    pub fn new(topics: Vec<Topic>) -> (r: Option<BusClient>)
        ensures
            r matches Some(c) ==> {
                &&& c.wf()
                &&& c.topics_seq() == topics@
                &&& c.phase() is Disconnected
            },
            r is None <==> !((forall|i: int| 0 <= i < topics@.len() ==> topics@[i].wf()) && (
            forall|i: int, j: int|
                0 <= i < j < topics@.len() ==> topics@[i].pubuid != topics@[j].pubuid)),
    {
        let n = topics.len();
        for i in 0..n
            invariant
                n == topics@.len(),
                forall|k: int| 0 <= k < i ==> topics@[k].wf(),
                forall|k: int, l: int| 0 <= k < l < i ==> topics@[k].pubuid != topics@[l].pubuid,
        {
            let t = &topics[i];
            if !(is_json_safe(t.name.as_str()) && is_json_safe(t.value_type.as_str())) {
                return None;
            }
            for j in 0..i
                invariant
                    n == topics@.len(),
                    i < n,
                    forall|k: int| 0 <= k <= i ==> topics@[k].wf(),
                    forall|k: int, l: int|
                        0 <= k < l < i ==> topics@[k].pubuid != topics@[l].pubuid,
                    forall|k: int| 0 <= k < j ==> topics@[k].pubuid != topics@[i as int].pubuid,
            {
                if topics[j].pubuid == topics[i].pubuid {
                    return None;
                }
            }
        }
        Some(BusClient { topics, phase: Phase::Disconnected, session: Ghost(Seq::empty()) })
    }

    /// Where the client stands in its lifecycle right now.
    pub fn current_phase(&self) -> (p: Phase)
        ensures
            p == self.phase(),
    {
        self.phase
    }

    /// How many topics the client declares per connection.
    pub fn topic_count(&self) -> (n: usize)
        ensures
            n == self.num_topics(),
    {
        self.topics.len()
    }

    /// Renders the registration message of the topic with index `idx`.
    pub fn registration(&self, idx: usize) -> (r: String)
        requires
            idx < self.num_topics(),
        ensures
            r@ == publish_message(
                self.topics_seq()[idx as int].name@,
                self.topics_seq()[idx as int].pubuid as nat,
                self.topics_seq()[idx as int].value_type@,
            ),
    {
        registration_message(&self.topics[idx])
    }

    /// Handles one event: moves to the next phase and hands back the action
    /// the shell must perform. A send failure while streaming drops the
    /// client to Disconnected; a successful connect starts the send log
    /// afresh, so the whole registration sequence repeats.
    pub fn step(&mut self, e: Event) -> (a: Action)
        requires
            old(self).wf(),
        ensures
            final(self).wf(),
            final(self).topics_seq() == old(self).topics_seq(),
            final(self).phase() == next_phase(old(self).num_topics(), old(self).phase(), e),
            a == next_action(old(self).num_topics(), old(self).phase(), e),
            final(self).session() == next_session(
                old(self).num_topics(),
                old(self).phase(),
                e,
                old(self).session(),
            ),
            old(self).phase() is Streaming && e is SendFailed
                ==> final(self).phase() is Disconnected,
    {
        let ghost n = self.topics@.len();
        let ghost p0 = self.phase;
        let ghost s0 = self.session@;
        let a: Action = match (self.phase, e) {
            (Phase::Disconnected, Event::Woke) => {
                self.phase = Phase::Connecting;
                Action::OpenConnection
            },
            (Phase::Connecting, Event::ConnectSucceeded) => {
                if self.topics.len() == 0 {
                    self.phase = Phase::Streaming;
                    proof {
                        self.session@ = Seq::empty();
                    }
                    Action::Idle
                } else {
                    self.phase = Phase::Registering { idx: 0 };
                    proof {
                        self.session@ = Seq::empty().push(
                            Action::SendRegistration { idx: 0usize },
                        );
                    }
                    Action::SendRegistration { idx: 0 }
                }
            },
            (Phase::Connecting, Event::ConnectFailed) => {
                self.phase = Phase::Disconnected;
                Action::Sleep { ms: RETRY_DELAY_MS }
            },
            (Phase::Registering { idx }, Event::SendSucceeded) => {
                let len = self.topics.len();
                proof {
                    assert(idx < len);
                }
                if idx + 1 == len {
                    self.phase = Phase::Streaming;
                    Action::Idle
                } else {
                    let next = idx + 1;
                    self.phase = Phase::Registering { idx: next };
                    proof {
                        self.session@ = self.session@.push(Action::SendRegistration { idx: next });
                    }
                    Action::SendRegistration { idx: next }
                }
            },
            (Phase::Registering { .. }, Event::SendFailed) => {
                self.phase = Phase::Disconnected;
                Action::Sleep { ms: RETRY_DELAY_MS }
            },
            (Phase::Streaming, Event::TickDue) => {
                proof {
                    self.session@ = self.session@.push(Action::SendValues);
                }
                Action::SendValues
            },
            (Phase::Streaming, Event::SendFailed) => {
                self.phase = Phase::Disconnected;
                Action::Idle
            },
            _ => Action::Idle,
        };
        proof {
            assert(n == self.topics.len());
            assert(self.session@ =~= next_session(n, p0, e, s0));
            lemma_step_preserves_session_ok(n, p0, e, s0);
        }
        a
    }
}

/// Handling one event keeps the send log consistent with the phase.
proof fn lemma_step_preserves_session_ok(n: nat, p: Phase, e: Event, sess: Seq<Action>)
    requires
        n <= usize::MAX,
        session_ok(n, p, sess),
    ensures
        session_ok(n, next_phase(n, p, e), next_session(n, p, e, sess)),
{
    let p1 = next_phase(n, p, e);
    let s1 = next_session(n, p, e, sess);
    match (p, e) {
        (Phase::Registering { idx }, Event::SendSucceeded) => {
            if idx + 1 < n {
                assert forall|j: int| 0 <= j <= idx + 1 implies s1[j] == (
                Action::SendRegistration { idx: j as usize }) by {
                    if j <= idx {
                        assert(s1[j] == sess[j]);
                    }
                }
            } else {
                assert forall|j: int| 0 <= j < n implies s1[j] == (Action::SendRegistration {
                    idx: j as usize,
                }) by {
                    assert(s1[j] == sess[j]);
                }
            }
        },
        (Phase::Streaming, Event::TickDue) => {
            assert forall|j: int| 0 <= j < n implies s1[j] == (Action::SendRegistration {
                idx: j as usize,
            }) by {
                assert(s1[j] == sess[j]);
            }
            assert forall|j: int| n <= j < s1.len() implies s1[j] == Action::SendValues by {
                if j < sess.len() {
                    assert(s1[j] == sess[j]);
                } else {
                    assert(s1[j] == Action::SendValues);
                }
            }
        },
        _ => {},
    }
}

/// Once the client streams, the current connection's send log shows every
/// topic registration, in declared order, before any value frame.
pub proof fn lemma_registrations_precede_values(c: &BusClient)
    requires
        c.wf(),
        c.phase() is Streaming,
    ensures
        c.session().len() >= c.num_topics(),
        forall|j: int|
            0 <= j < c.num_topics() ==> c.session()[j] == (Action::SendRegistration {
                idx: j as usize,
            }),
        forall|j: int| c.num_topics() <= j < c.session().len() ==> c.session()[j] == Action::SendValues,
{
}

/// The identifiers of the targets that resolved to one, in detector order.
pub open spec fn ids_of(tags: Seq<Tag>) -> Seq<u32>
    decreases tags.len(),
{
    if tags.len() == 0 {
        Seq::empty()
    } else {
        ids_of(tags.drop_last()) + match tags.last().id {
            Some(id) => seq![id],
            None => Seq::empty(),
        }
    }
}

/// The JSON array of the targets that resolved to an identifier, joined
/// from their opaque JSON attributes. Targets without an identifier are
/// left out: the bus consumer only understands identified targets.
pub open spec fn tags_json_inner(tags: Seq<Tag>) -> Seq<char>
    decreases tags.len(),
{
    if tags.len() == 0 {
        Seq::empty()
    } else {
        let rest = tags_json_inner(tags.drop_last());
        match tags.last().id {
            Some(_) => if rest.len() == 0 {
                tags.last().json@
            } else {
                rest + ","@ + tags.last().json@
            },
            None => rest,
        }
    }
}

/// The complete JSON payload for the tags topic.
pub open spec fn tags_json(tags: Seq<Tag>) -> Seq<char> {
    "["@ + tags_json_inner(tags) + "]"@
}

/// What `rmp_serde::to_vec` returns for a `(publisher, flag, type, text)`
/// tuple: a deterministic function of the four fields alone.
pub uninterp spec fn packed_text_frame(uid: u32, flag: i64, ty: u32, val: Seq<char>) -> Seq<u8>;

/// What `rmp_serde::to_vec` returns for a `(publisher, flag, type, ids)`
/// tuple: a deterministic function of the four fields alone.
pub uninterp spec fn packed_ids_frame(uid: u32, flag: i64, ty: u32, vals: Seq<u32>) -> Seq<u8>;

/// Relies on rmp_serde::to_vec: a four-element tuple becomes a four-element
/// MessagePack array, whose first byte is the fixarray marker 0x94; the
/// encoding depends on the tuple alone; and writing integers and text into
/// a byte vector fails only when the vector cannot grow, which this call
/// treats like any other allocation failure.
#[verifier::external_body]
fn pack_text_frame(uid: u32, flag: i64, ty: u32, val: &str) -> (r: Vec<u8>)
    ensures
        r@ == packed_text_frame(uid, flag, ty, val@),
        r@.len() > 0,
        r@[0] == 0x94u8,
{
    rmp_serde::to_vec(&(uid, flag, ty, val)).unwrap()
}

/// Relies on rmp_serde::to_vec, as `pack_text_frame` does, for a tuple whose
/// value is an integer array.
#[verifier::external_body]
fn pack_ids_frame(uid: u32, flag: i64, ty: u32, vals: &Vec<u32>) -> (r: Vec<u8>)
    ensures
        r@ == packed_ids_frame(uid, flag, ty, vals@),
        r@.len() > 0,
        r@[0] == 0x94u8,
{
    rmp_serde::to_vec(&(uid, flag, ty, vals)).unwrap()
}

/// Builds the binary value frames of one streaming tick: for the tags topic
/// the JSON array of identified targets, for the ids topic the parallel
/// identifier array, each packed as the wire's `(publisher, 0, type, value)`
/// tuple.
pub fn value_frames(tags: &Vec<Tag>, tags_topic: &Topic, ids_topic: &Topic) -> (r: (
    Vec<u8>,
    Vec<u8>,
))
    ensures
        r.0@ == packed_text_frame(
            tags_topic.pubuid,
            0,
            tags_topic.type_tag,
            tags_json(tags@),
        ),
        r.1@ == packed_ids_frame(ids_topic.pubuid, 0, ids_topic.type_tag, ids_of(tags@)),
        r.0@.len() > 0 && r.0@[0] == 0x94u8,
        r.1@.len() > 0 && r.1@[0] == 0x94u8,
{
    let (ids, json) = tag_payloads(tags);
    let tags_frame = pack_text_frame(tags_topic.pubuid, 0, tags_topic.type_tag, json.as_str());
    let ids_frame = pack_ids_frame(ids_topic.pubuid, 0, ids_topic.type_tag, &ids);
    (tags_frame, ids_frame)
}

/// Builds the two streamed payloads from the current snapshot's targets:
/// the JSON array of identified targets and the parallel identifier array.
pub fn tag_payloads(tags: &Vec<Tag>) -> (r: (Vec<u32>, String))
    ensures
        r.0@ == ids_of(tags@),
        r.1@ == tags_json(tags@),
{
    let mut ids: Vec<u32> = Vec::new();
    let mut inner = String::new();
    let n = tags.len();
    for i in 0..n
        invariant
            n == tags@.len(),
            ids@ == ids_of(tags@.take(i as int)),
            inner@ == tags_json_inner(tags@.take(i as int)),
    {
        let t = &tags[i];
        proof {
            assert(tags@.take(i + 1).drop_last() =~= tags@.take(i as int));
            assert(tags@.take(i + 1).last() == tags@[i as int]);
        }
        match t.id {
            Some(id) => {
                if !inner.as_str().is_empty() {
                    inner.append(",");
                }
                inner.append(t.json.as_str());
                ids.push(id);
                proof {
                    assert(inner@ =~= tags_json_inner(tags@.take(i + 1)));
                    assert(ids@ =~= ids_of(tags@.take(i + 1)));
                }
            },
            None => {
                proof {
                    assert(inner@ =~= tags_json_inner(tags@.take(i + 1)));
                    assert(ids@ =~= ids_of(tags@.take(i + 1)));
                }
            },
        }
    }
    proof {
        assert(tags@.take(n as int) =~= tags@);
    }
    let mut s = String::new();
    s.append("[");
    s.append(inner.as_str());
    s.append("]");
    proof {
        assert(s@ =~= tags_json(tags@));
    }
    (ids, s)
}

} // verus!
