//! The proto-message inspector: names and summaries of envelope payloads,
//! and the bookkeeping of a listening session.
use vstd::prelude::*;

use vstd::string::StrSliceExecFns;

use crate::text::{seq_starts_with, str_eq, str_starts_with};

verus! {

/// Identity of a peer of the collaboration server.
#[derive(Debug, Clone, Copy, PartialEq, Eq, Structural)]
pub struct PeerId {
    pub owner_id: u32,
    pub id: u32,
}

/// The payload of an envelope, holding what the inspector reads of it.
#[derive(Debug, Clone, PartialEq, Eq)]
pub enum Payload {
    Hello { peer_id: Option<PeerId> },
    Ack,
    Error { message: String },
    Ping,
    Test,
    EndStream,
    CreateRoom,
    CreateRoomResponse,
    JoinRoom,
    JoinRoomResponse,
    UpdateWorktree {
        project_id: u64,
        worktree_id: u64,
        updated_entries_count: usize,
        removed_entries_count: usize,
    },
    UpdateWorktreeSettings,
    CreateBufferForPeer { project_id: u64, peer_id: Option<PeerId> },
    UpdateBuffer { project_id: u64, buffer_id: u64 },
    UpdateDiagnosticSummary { project_id: u64, worktree_id: u64 },
    OpenBufferByPath,
    OpenBufferResponse,
    /// Any payload the inspector does not know by name.
    Other,
}

/// The name under which a payload is reported.
pub open spec fn spec_payload_type_name(p: Payload) -> Seq<char> {
    match p {
        Payload::Hello { .. } => "Hello"@,
        Payload::Ack => "Ack"@,
        Payload::Error { .. } => "Error"@,
        Payload::Ping => "Ping"@,
        Payload::Test => "Test"@,
        Payload::EndStream => "EndStream"@,
        Payload::CreateRoom => "CreateRoom"@,
        Payload::CreateRoomResponse => "CreateRoomResponse"@,
        Payload::JoinRoom => "JoinRoom"@,
        Payload::JoinRoomResponse => "JoinRoomResponse"@,
        Payload::UpdateWorktree { .. } => "UpdateWorktree"@,
        Payload::UpdateWorktreeSettings => "UpdateWorktreeSettings"@,
        Payload::CreateBufferForPeer { .. } => "CreateBufferForPeer"@,
        Payload::UpdateBuffer { .. } => "UpdateBuffer"@,
        Payload::UpdateDiagnosticSummary { .. } => "UpdateDiagnosticSummary"@,
        Payload::OpenBufferByPath => "OpenBufferByPath"@,
        Payload::OpenBufferResponse => "OpenBufferResponse"@,
        Payload::Other => "Unknown"@,
    }
}

/// The name under which a payload is reported.
pub fn payload_type_name(payload: &Payload) -> (r: &'static str)
    ensures
        r@ == spec_payload_type_name(*payload),
{
    match payload {
        Payload::Hello { .. } => "Hello",
        Payload::Ack => "Ack",
        Payload::Error { .. } => "Error",
        Payload::Ping => "Ping",
        Payload::Test => "Test",
        Payload::EndStream => "EndStream",
        Payload::CreateRoom => "CreateRoom",
        Payload::CreateRoomResponse => "CreateRoomResponse",
        Payload::JoinRoom => "JoinRoom",
        Payload::JoinRoomResponse => "JoinRoomResponse",
        Payload::UpdateWorktree { .. } => "UpdateWorktree",
        Payload::UpdateWorktreeSettings => "UpdateWorktreeSettings",
        Payload::CreateBufferForPeer { .. } => "CreateBufferForPeer",
        Payload::UpdateBuffer { .. } => "UpdateBuffer",
        Payload::UpdateDiagnosticSummary { .. } => "UpdateDiagnosticSummary",
        Payload::OpenBufferByPath => "OpenBufferByPath",
        Payload::OpenBufferResponse => "OpenBufferResponse",
        Payload::Other => "Unknown",
    }
}

/// The fields of a payload worth showing, as a JSON object of that shape.
#[derive(Debug, Clone, PartialEq, Eq)]
pub enum PayloadSummary {
    /// `{}`
    Empty,
    /// `{"peer_id": ...}`
    Hello { peer_id: Option<PeerId> },
    /// `{"message": ...}`
    Error { message: String },
    /// `{"project_id", "worktree_id", "updated_entries_count", "removed_entries_count"}`
    UpdateWorktree {
        project_id: u64,
        worktree_id: u64,
        updated_entries_count: usize,
        removed_entries_count: usize,
    },
    /// `{"project_id", "peer_id"}`
    CreateBufferForPeer { project_id: u64, peer_id: Option<PeerId> },
    /// `{"project_id", "buffer_id"}`
    UpdateBuffer { project_id: u64, buffer_id: u64 },
    /// `{"project_id", "worktree_id"}`
    UpdateDiagnosticSummary { project_id: u64, worktree_id: u64 },
}

/// The summary of `p` is `s`.
pub open spec fn summarizes(p: Payload, s: PayloadSummary) -> bool {
    match p {
        Payload::Hello { peer_id } => s == PayloadSummary::Hello { peer_id },
        Payload::Error { message } => s matches PayloadSummary::Error { message: m }
            && m@ == message@,
        Payload::UpdateWorktree {
            project_id,
            worktree_id,
            updated_entries_count,
            removed_entries_count,
        } => s == PayloadSummary::UpdateWorktree {
            project_id,
            worktree_id,
            updated_entries_count,
            removed_entries_count,
        },
        Payload::CreateBufferForPeer { project_id, peer_id } => s
            == PayloadSummary::CreateBufferForPeer { project_id, peer_id },
        Payload::UpdateBuffer { project_id, buffer_id } => s == PayloadSummary::UpdateBuffer {
            project_id,
            buffer_id,
        },
        Payload::UpdateDiagnosticSummary { project_id, worktree_id } => s
            == PayloadSummary::UpdateDiagnosticSummary { project_id, worktree_id },
        _ => s == PayloadSummary::Empty,
    }
}

/// The fields of a payload that the inspector shows.
pub fn payload_summary(payload: &Payload) -> (r: PayloadSummary)
    ensures
        summarizes(*payload, r),
{
    match payload {
        Payload::Hello { peer_id } => PayloadSummary::Hello { peer_id: *peer_id },
        Payload::Error { message } => PayloadSummary::Error {
            message: String::from_str(message.as_str()),
        },
        Payload::UpdateWorktree {
            project_id,
            worktree_id,
            updated_entries_count,
            removed_entries_count,
        } => PayloadSummary::UpdateWorktree {
            project_id: *project_id,
            worktree_id: *worktree_id,
            updated_entries_count: *updated_entries_count,
            removed_entries_count: *removed_entries_count,
        },
        Payload::CreateBufferForPeer { project_id, peer_id } => PayloadSummary::CreateBufferForPeer {
            project_id: *project_id,
            peer_id: *peer_id,
        },
        Payload::UpdateBuffer { project_id, buffer_id } => PayloadSummary::UpdateBuffer {
            project_id: *project_id,
            buffer_id: *buffer_id,
        },
        Payload::UpdateDiagnosticSummary { project_id, worktree_id } => {
            PayloadSummary::UpdateDiagnosticSummary {
                project_id: *project_id,
                worktree_id: *worktree_id,
            }
        },
        _ => PayloadSummary::Empty,
    }
}

/// Every field that a summary shows is the payload's own: the peer of a
/// hello, the message of an error, the ids and entry counts of a worktree
/// update, the project and peer of a buffer created for a peer, the ids of a
/// buffer update and of a diagnostic summary. Payloads with nothing to show
/// are summarized as an empty object.
pub proof fn lemma_summary_fields_come_from_payload(p: Payload, s: PayloadSummary)
    requires
        summarizes(p, s),
    ensures
        p matches Payload::Hello { peer_id } ==> s matches PayloadSummary::Hello { peer_id: q }
            && q == peer_id,
        p matches Payload::Error { message } ==> s matches PayloadSummary::Error { message: m }
            && m@ == message@,
        p matches Payload::UpdateWorktree {
            project_id,
            worktree_id,
            updated_entries_count,
            removed_entries_count,
        } ==> s matches PayloadSummary::UpdateWorktree {
            project_id: a,
            worktree_id: b,
            updated_entries_count: c,
            removed_entries_count: d,
        } && a == project_id && b == worktree_id && c == updated_entries_count && d
            == removed_entries_count,
        p matches Payload::CreateBufferForPeer { project_id, peer_id } ==> s matches PayloadSummary::CreateBufferForPeer {
            project_id: a,
            peer_id: b,
        } && a == project_id && b == peer_id,
        p matches Payload::UpdateBuffer { project_id, buffer_id } ==> s matches PayloadSummary::UpdateBuffer {
            project_id: a,
            buffer_id: b,
        } && a == project_id && b == buffer_id,
        p matches Payload::UpdateDiagnosticSummary { project_id, worktree_id } ==> s matches PayloadSummary::UpdateDiagnosticSummary {
            project_id: a,
            worktree_id: b,
        } && a == project_id && b == worktree_id,
        (p is Ack || p is Ping || p is Test || p is EndStream || p is CreateRoom
            || p is CreateRoomResponse || p is JoinRoom || p is JoinRoomResponse
            || p is UpdateWorktreeSettings || p is OpenBufferByPath || p is OpenBufferResponse
            || p is Other) ==> s is Empty,
{
}

/// A decoded protocol envelope.
#[derive(Debug, Clone, PartialEq, Eq)]
pub struct Envelope {
    pub id: u32,
    pub responding_to: Option<u32>,
    pub payload: Option<Payload>,
}

/// The name under which an envelope is reported: its payload's, or `Empty`.
pub open spec fn envelope_type_name(e: Envelope) -> Seq<char> {
    match e.payload {
        Some(p) => spec_payload_type_name(p),
        None => "Empty"@,
    }
}

/// Every known payload is reported under the name of its message type, any
/// other payload as `Unknown`, and an envelope without a payload as `Empty`.
pub proof fn lemma_payload_names(p: Payload, e: Envelope)
    ensures
        p is Hello ==> spec_payload_type_name(p) == "Hello"@,
        p is Ack ==> spec_payload_type_name(p) == "Ack"@,
        p is Error ==> spec_payload_type_name(p) == "Error"@,
        p is Ping ==> spec_payload_type_name(p) == "Ping"@,
        p is Test ==> spec_payload_type_name(p) == "Test"@,
        p is EndStream ==> spec_payload_type_name(p) == "EndStream"@,
        p is CreateRoom ==> spec_payload_type_name(p) == "CreateRoom"@,
        p is CreateRoomResponse ==> spec_payload_type_name(p) == "CreateRoomResponse"@,
        p is JoinRoom ==> spec_payload_type_name(p) == "JoinRoom"@,
        p is JoinRoomResponse ==> spec_payload_type_name(p) == "JoinRoomResponse"@,
        p is UpdateWorktree ==> spec_payload_type_name(p) == "UpdateWorktree"@,
        p is UpdateWorktreeSettings ==> spec_payload_type_name(p) == "UpdateWorktreeSettings"@,
        p is CreateBufferForPeer ==> spec_payload_type_name(p) == "CreateBufferForPeer"@,
        p is UpdateBuffer ==> spec_payload_type_name(p) == "UpdateBuffer"@,
        p is UpdateDiagnosticSummary ==> spec_payload_type_name(p) == "UpdateDiagnosticSummary"@,
        p is OpenBufferByPath ==> spec_payload_type_name(p) == "OpenBufferByPath"@,
        p is OpenBufferResponse ==> spec_payload_type_name(p) == "OpenBufferResponse"@,
        p is Other ==> spec_payload_type_name(p) == "Unknown"@,
        e.payload is None ==> envelope_type_name(e) == "Empty"@,
        e.payload matches Some(q) ==> envelope_type_name(e) == spec_payload_type_name(q),
{
}

/// What the WebSocket delivered next.
#[derive(Debug, Clone, PartialEq, Eq)]
pub enum SocketEvent {
    /// A binary message of `byte_len` bytes; `envelope` is its decoding, or
    /// `None` when it does not decode as an envelope.
    Binary { byte_len: usize, envelope: Option<Envelope> },
    /// The server closed the connection.
    Close,
    /// A message of another kind (text, ping, ...).
    Other,
    /// The connection failed.
    Error,
}

/// One line of inspector output, in the shape of a JSON object.
#[derive(Debug, Clone, PartialEq, Eq)]
pub enum Record {
    /// `{"seq", "id", "responding_to", "type", "bytes", "summary", "total_messages", "total_bytes"}`
    Verbose {
        seq: u64,
        id: u32,
        responding_to: Option<u32>,
        kind_name: &'static str,
        bytes: usize,
        summary: Option<PayloadSummary>,
        total_messages: u64,
        total_bytes: u64,
    },
    /// `{"seq", "id", "type", "summary"}`
    Compact { seq: u64, id: u32, kind_name: &'static str, summary: Option<PayloadSummary> },
}

/// What the listener does with an event.
#[derive(Debug, Clone, PartialEq, Eq)]
pub enum ListenAction {
    /// Print the record.
    Print(Record),
    /// Report that a binary message did not decode.
    DecodeFailed,
    /// Nothing to report.
    Skip,
    /// The server closed the connection; stop listening.
    Closed,
    /// The connection failed; stop listening.
    Failed,
}

/// `s` is the summary of the envelope's payload, or nothing when it has none.
pub open spec fn summary_of(e: Envelope, s: Option<PayloadSummary>) -> bool {
    match e.payload {
        Some(p) => s matches Some(s) && summarizes(p, s),
        None => s is None,
    }
}

/// `r` reports envelope `e` of `bytes` bytes as message number `seq`, the
/// totals being `total_messages` and `total_bytes`.
pub open spec fn record_reports(
    r: Record,
    e: Envelope,
    bytes: usize,
    seq: u64,
    total_bytes: u64,
    verbose: bool,
) -> bool {
    if verbose {
        r matches Record::Verbose {
            seq: s,
            id,
            responding_to,
            kind_name,
            bytes: b,
            summary,
            total_messages,
            total_bytes: tb,
        } && s == seq && id == e.id && responding_to == e.responding_to && kind_name@
            == envelope_type_name(e) && b == bytes && summary_of(e, summary) && total_messages
            == seq && tb == total_bytes
    } else {
        r matches Record::Compact { seq: s, id, kind_name, summary } && s == seq && id == e.id
            && kind_name@ == envelope_type_name(e) && summary_of(e, summary)
    }
}

/// A listening session: how many envelopes decoded and how many bytes arrived.
#[derive(Debug, Clone, Copy, PartialEq, Eq, Structural)]
pub struct ListenSession {
    pub message_count: u64,
    pub total_bytes: u64,
}

/// The outcome of one event, given the session before it.
pub open spec fn listen_step_ok(
    before: ListenSession,
    after: ListenSession,
    event: SocketEvent,
    filter: Option<Seq<char>>,
    verbose: bool,
    action: ListenAction,
) -> bool {
    match event {
        SocketEvent::Binary { byte_len, envelope } => {
            &&& after.total_bytes == before.total_bytes + byte_len
            &&& match envelope {
                None => after.message_count == before.message_count && action
                    == ListenAction::DecodeFailed,
                Some(e) => {
                    &&& after.message_count == before.message_count + 1
                    &&& if filter matches Some(f) && f != envelope_type_name(e) {
                        action == ListenAction::Skip
                    } else {
                        action matches ListenAction::Print(r) && record_reports(
                            r,
                            e,
                            byte_len,
                            after.message_count,
                            after.total_bytes,
                            verbose,
                        )
                    }
                },
            }
        },
        SocketEvent::Close => after == before && action == ListenAction::Closed,
        SocketEvent::Other => after == before && action == ListenAction::Skip,
        SocketEvent::Error => after == before && action == ListenAction::Failed,
    }
}

impl ListenSession {
    /// A session that has seen nothing.
    pub fn new() -> (r: Self)
        ensures
            r.message_count == 0 && r.total_bytes == 0,
    {
        ListenSession { message_count: 0, total_bytes: 0 }
    }

    /// Account for one event of the WebSocket and say what to report.
    ///
    /// Every binary message adds to the byte total; every one that decodes
    /// adds to the message count, which numbers the records. With a `filter`,
    /// only envelopes of that type name are printed.
    pub fn step(&mut self, event: SocketEvent, filter: &Option<String>, verbose: bool) -> (r:
        ListenAction)
        requires
            event matches SocketEvent::Binary { byte_len, .. } ==> old(self).total_bytes
                + byte_len <= u64::MAX,
            event matches SocketEvent::Binary { envelope: Some(_), .. } ==> old(
                self,
            ).message_count < u64::MAX,
        ensures
            listen_step_ok(
                *old(self),
                *final(self),
                event,
                match filter {
                    Some(f) => Some(f@),
                    None => None,
                },
                verbose,
                r,
            ),
    {
        match event {
            SocketEvent::Binary { byte_len, envelope } => {
                self.total_bytes = self.total_bytes + byte_len as u64;
                match envelope {
                    None => ListenAction::DecodeFailed,
                    Some(envelope) => {
                        self.message_count = self.message_count + 1;
                        let kind_name = match &envelope.payload {
                            Some(p) => payload_type_name(p),
                            None => "Empty",
                        };
                        if let Some(f) = filter {
                            if !str_eq(kind_name, f.as_str()) {
                                return ListenAction::Skip;
                            }
                        }
                        let summary = match &envelope.payload {
                            Some(p) => Some(payload_summary(p)),
                            None => None,
                        };
                        if verbose {
                            ListenAction::Print(
                                Record::Verbose {
                                    seq: self.message_count,
                                    id: envelope.id,
                                    responding_to: envelope.responding_to,
                                    kind_name,
                                    bytes: byte_len,
                                    summary,
                                    total_messages: self.message_count,
                                    total_bytes: self.total_bytes,
                                },
                            )
                        } else {
                            ListenAction::Print(
                                Record::Compact {
                                    seq: self.message_count,
                                    id: envelope.id,
                                    kind_name,
                                    summary,
                                },
                            )
                        }
                    },
                }
            },
            SocketEvent::Close => ListenAction::Closed,
            SocketEvent::Other => ListenAction::Skip,
            SocketEvent::Error => ListenAction::Failed,
        }
    }
}

/// Over any event, the message count and the byte total never decrease, and a
/// printed record is numbered with the message count after the event, so the
/// records of a session are numbered 1, 2, 3, ... in the order they decode.
pub proof fn lemma_session_counts_grow(
    before: ListenSession,
    after: ListenSession,
    event: SocketEvent,
    filter: Option<Seq<char>>,
    verbose: bool,
    action: ListenAction,
)
    requires
        listen_step_ok(before, after, event, filter, verbose, action),
    ensures
        before.message_count <= after.message_count <= before.message_count + 1,
        before.total_bytes <= after.total_bytes,
        action matches ListenAction::Print(r) ==> after.message_count == before.message_count + 1
            && match r {
            Record::Verbose { seq, .. } => seq == after.message_count,
            Record::Compact { seq, .. } => seq == after.message_count,
        },
{
}

/// A printed record shows the decoded envelope it reports: its number (the
/// message count after it), id, type name and, for a payload, a summary of
/// it; a verbose record also shows the reply id, the message's size in bytes
/// and the session totals after it. Records are verbose exactly when asked.
pub proof fn lemma_printed_record_fields(
    before: ListenSession,
    after: ListenSession,
    event: SocketEvent,
    filter: Option<Seq<char>>,
    verbose: bool,
    action: ListenAction,
)
    requires
        listen_step_ok(before, after, event, filter, verbose, action),
        action is Print,
    ensures
        event matches SocketEvent::Binary { byte_len, envelope: Some(e) } && (match action {
            ListenAction::Print(Record::Verbose {
                seq,
                id,
                responding_to,
                kind_name,
                bytes,
                summary,
                total_messages,
                total_bytes,
            }) => verbose && seq == after.message_count && id == e.id && responding_to
                == e.responding_to && kind_name@ == envelope_type_name(e) && bytes == byte_len
                && (summary is Some <==> e.payload is Some) && total_messages == after.message_count
                && total_bytes == after.total_bytes && after.total_bytes == before.total_bytes
                + byte_len,
            ListenAction::Print(Record::Compact { seq, id, kind_name, summary }) => !verbose && seq
                == after.message_count && id == e.id && kind_name@ == envelope_type_name(e) && (
            summary is Some <==> e.payload is Some),
            _ => false,
        }),
{
}

/// How many of `events` are binary messages that decoded as envelopes.
pub open spec fn decoded_count(events: Seq<SocketEvent>) -> nat
    decreases events.len(),
{
    if events.len() == 0 {
        0
    } else {
        decoded_count(events.drop_last()) + if events.last() matches SocketEvent::Binary {
            envelope: Some(_),
            ..
        } {
            1nat
        } else {
            0nat
        }
    }
}

/// The number of bytes of the binary messages among `events`.
pub open spec fn received_bytes(events: Seq<SocketEvent>) -> nat
    decreases events.len(),
{
    if events.len() == 0 {
        0
    } else {
        received_bytes(events.drop_last()) + match events.last() {
            SocketEvent::Binary { byte_len, .. } => byte_len as nat,
            _ => 0nat,
        }
    }
}

/// `sessions` and `actions` are what stepping a new session through `events`
/// gives: `sessions[i]` is the session before `events[i]`, and `actions[i]`
/// what was done with it.
pub open spec fn session_run(
    sessions: Seq<ListenSession>,
    events: Seq<SocketEvent>,
    actions: Seq<ListenAction>,
    filter: Option<Seq<char>>,
    verbose: bool,
) -> bool {
    &&& sessions.len() == events.len() + 1
    &&& actions.len() == events.len()
    &&& sessions[0] == ListenSession { message_count: 0, total_bytes: 0 }
    &&& forall|i: int|
        0 <= i < events.len() ==> #[trigger] listen_step_ok(
            sessions[i],
            sessions[i + 1],
            events[i],
            filter,
            verbose,
            actions[i],
        )
}

/// Across a whole session, the message count is the number of envelopes
/// decoded so far, filtered ones included, and the byte total is the size of
/// all binary messages received so far.
pub proof fn lemma_session_totals(
    sessions: Seq<ListenSession>,
    events: Seq<SocketEvent>,
    actions: Seq<ListenAction>,
    filter: Option<Seq<char>>,
    verbose: bool,
    i: int,
)
    requires
        session_run(sessions, events, actions, filter, verbose),
        0 <= i <= events.len(),
    ensures
        sessions[i].message_count == decoded_count(events.take(i)),
        sessions[i].total_bytes == received_bytes(events.take(i)),
    decreases i,
{
    if i > 0 {
        lemma_session_totals(sessions, events, actions, filter, verbose, i - 1);
        assert(events.take(i).drop_last() =~= events.take(i - 1));
        let j = i - 1;
        assert(listen_step_ok(sessions[j], sessions[j + 1], events[j], filter, verbose, actions[j]));
        assert(events.take(i).last() == events[j]);
    } else {
        assert(events.take(0) =~= Seq::<SocketEvent>::empty());
    }
}

/// In a session, a record is printed for exactly the decoded envelopes whose
/// type name passes the filter; it carries that name and is numbered by the
/// count of envelopes decoded up to and including it, filtered ones included.
pub proof fn lemma_session_records(
    sessions: Seq<ListenSession>,
    events: Seq<SocketEvent>,
    actions: Seq<ListenAction>,
    filter: Option<Seq<char>>,
    verbose: bool,
    i: int,
)
    requires
        session_run(sessions, events, actions, filter, verbose),
        0 <= i < events.len(),
    ensures
        (actions[i] is Print) <==> (events[i] matches SocketEvent::Binary { envelope: Some(e), .. }
            && (filter matches Some(f) ==> f == envelope_type_name(e))),
        actions[i] matches ListenAction::Print(r) ==> events[i] matches SocketEvent::Binary {
            envelope: Some(e),
            byte_len,
        } && record_reports(
            r,
            e,
            byte_len,
            decoded_count(events.take(i + 1)) as u64,
            received_bytes(events.take(i + 1)) as u64,
            verbose,
        ),
{
    lemma_session_totals(sessions, events, actions, filter, verbose, i + 1);
    assert(listen_step_ok(sessions[i], sessions[i + 1], events[i], filter, verbose, actions[i]));
}

/// The host and port of a `ws://` URL: what follows the scheme, or `None`
/// when the URL does not start with `ws://`.
pub fn ws_host_port(url: &str) -> (r: Option<&str>)
    ensures
        r is Some <==> seq_starts_with(url@, "ws://"@),
        r matches Some(h) ==> h@ == url@.subrange("ws://"@.len() as int, url@.len() as int),
{
    let prefix = "ws://";
    if str_starts_with(url, prefix) {
        Some(url.substring_char(prefix.unicode_len(), url.unicode_len()))
    } else {
        None
    }
}

} // verus!
