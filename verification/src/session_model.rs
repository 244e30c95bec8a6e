//! The connection session as a state machine over plain values.
//!
//! A session owns no socket. Whoever drives it holds the client stream, the
//! optional TLS engine and the optional backend stream, performs the one
//! operation that the session asks for, and reports how it ended. Everything
//! that decides what happens next is the function [`step`] of this module:
//! from a state, an input and the time to the next state and the next action.

use crate::forward_table::ForwardTable;
use crate::http_head::{head_status, HeadStatusView};
use vstd::prelude::*;

verus! {

/// Longest stretch, in milliseconds, that an armed inactivity timer may stay
/// untouched before the connection is asked to close.
pub const IDLE_LIMIT_MS: u64 = 300;

/// Most bytes asked of the client in one read when the connection is plain.
pub const PLAIN_CHUNK: usize = 2048;

/// Most bytes asked of the TLS engine in one read of decrypted data.
pub const TLS_CHUNK: usize = 256;

/// Most bytes asked of the backend in one read.
pub const BACKEND_CHUNK: usize = 1024;

/// Which kinds of readiness a stream is registered for.
#[derive(Clone, Copy, Debug, PartialEq, Eq, Structural)]
pub struct Interest {
    pub readable: bool,
    pub writable: bool,
}

/// A readiness notification, as the poll facility delivers it.
#[derive(Clone, Copy, Debug, PartialEq, Eq, Structural)]
pub struct Event {
    pub token: usize,
    pub readable: bool,
    pub writable: bool,
    pub error: bool,
    pub read_closed: bool,
    pub write_closed: bool,
}

/// How the TLS engine judged the records it was given.
#[derive(Clone, Copy, Debug, PartialEq, Eq, Structural)]
pub enum TlsVerdict {
    /// The records were processed.
    Accepted,
    /// The peer sent the alert "certificate unknown".
    CertificateUnknown,
    /// The peer sent the alert "certificate expired".
    CertificateExpired,
    /// Any other error of the TLS engine.
    Fatal,
}

/// What the driver reports to the session.
#[derive(Debug)]
pub enum Input {
    /// A readiness event arrived for one of the session's two tokens.
    Ready { event: Event, tls_wants_write: bool },
    /// The poll returned without an event for this session.
    Tick,
    /// A read returned these bytes; none at the end of the stream.
    Bytes(Vec<u8>),
    /// A write accepted this many bytes, or a TLS transfer moved this many.
    Moved(usize),
    /// The operation would have blocked.
    WouldBlock,
    /// The operation was interrupted and may be tried again.
    Interrupted,
    /// The connection was aborted.
    Aborted,
    /// Any other failure of the operation.
    Failed,
    /// The TLS engine's verdict on new records.
    Tls(TlsVerdict),
    /// Whether the backend connection could be opened.
    Connected(bool),
    /// What the cache holds for the session's host and path.
    Cached(Option<Vec<u8>>),
    /// The operation was carried out and has nothing to report.
    Done,
}

/// What the session asks of the driver. All but the last three want an
/// [`Input`] in return.
#[derive(Clone, Copy, Debug, PartialEq, Eq, Structural)]
pub enum Action {
    /// Write the first chunk queued for the backend, once.
    WriteBackend,
    /// Read at most [`BACKEND_CHUNK`] bytes from the backend.
    ReadBackend,
    /// Shut the backend stream down and release its registration.
    DropBackend,
    /// Tell the cache which path of which host was fetched from which backend.
    RecordCache,
    /// Let the TLS engine write records to the client stream.
    WriteTls,
    /// Let the TLS engine read records from the client stream.
    ReadTls,
    /// Let the TLS engine process the records it has read.
    ProcessTls,
    /// Read request bytes: at most [`PLAIN_CHUNK`] from the client stream, or
    /// at most [`TLS_CHUNK`] of decrypted data where TLS is in use.
    ReadClient,
    /// Ask the cache for a stored response to the session's host and path.
    LookupCache,
    /// Open a stream to the session's backend address and register it, under
    /// the backend token, for writable readiness.
    ConnectBackend,
    /// Write the first chunk queued for the client, once.
    WriteClient,
    /// The dispatch is over and the session stays: register the streams anew
    /// as given, and flush.
    Park { client: Option<Interest>, backend: Option<Interest> },
    /// The session has ended: flush, send the TLS close notification, shut
    /// both streams down in both directions and release their registrations.
    Close,
    /// The session had ended before; there is nothing left to do.
    Gone,
}

/// The operation that the session is waiting on.
#[derive(Clone, Copy, Debug, PartialEq, Eq, Structural)]
pub enum Stage {
    Idle,
    BackendWrite,
    BackendRead,
    BackendDrop,
    CacheRecord,
    TlsWrite,
    TlsRead,
    TlsProcess,
    ClientRead,
    CacheLookup,
    Connecting,
    ClientWrite,
}

/// The six permissions of one dispatch, fixed when its event arrives, and
/// whether the event was the client's.
#[derive(Clone, Copy, Debug, PartialEq, Eq, Structural)]
pub struct Plan {
    pub backend_write: bool,
    pub backend_read: bool,
    pub tls_write: bool,
    pub tls_read: bool,
    pub client_read: bool,
    pub client_write: bool,
    pub on_client: bool,
}

/// Everything a session knows.
pub ghost struct SessionView {
    pub server_token: usize,
    pub forward_token: usize,
    pub do_tls: bool,
    pub request_host: Seq<char>,
    pub path: Seq<char>,
    pub forward_host: Seq<char>,
    pub backend_open: bool,
    pub to_backend: Seq<Seq<u8>>,
    pub request: Seq<u8>,
    pub to_client: Seq<Seq<u8>>,
    pub response: Seq<u8>,
    pub closing: bool,
    pub closed: bool,
    pub bytes_from_client: usize,
    pub bytes_to_client: usize,
    pub armed: Option<u64>,
    pub stage: Stage,
    pub plan: Plan,
    pub rearm_backend: Option<Interest>,
}

/// Interest in both kinds of readiness.
pub open spec fn both() -> Interest {
    Interest { readable: true, writable: true }
}

/// Interest in writable readiness alone.
pub open spec fn write_only() -> Interest {
    Interest { readable: false, writable: true }
}

/// The plan that permits nothing.
pub open spec fn no_plan() -> Plan {
    Plan {
        backend_write: false,
        backend_read: false,
        tls_write: false,
        tls_read: false,
        client_read: false,
        client_write: false,
        on_client: false,
    }
}

/// A timer armed at `armed_at` has run out at `now`.
pub open spec fn stale(armed_at: u64, now: u64) -> bool {
    now - armed_at > IDLE_LIMIT_MS
}

/// The sum of two counters, held at the largest value once it is reached.
pub open spec fn counted(a: usize, b: int) -> usize {
    if a + b > usize::MAX {
        usize::MAX
    } else {
        (a + b) as usize
    }
}

/// All bytes of a queue of chunks, first chunk first.
pub open spec fn queued_bytes(q: Seq<Seq<u8>>) -> Seq<u8>
    decreases q.len(),
{
    if q.len() == 0 {
        Seq::empty()
    } else {
        q[0] + queued_bytes(q.drop_first())
    }
}

/// The state in which a session starts.
pub open spec fn initial(server_token: usize, forward_token: usize, do_tls: bool) -> SessionView {
    SessionView {
        server_token,
        forward_token,
        do_tls,
        request_host: Seq::empty(),
        path: Seq::empty(),
        forward_host: Seq::empty(),
        backend_open: false,
        to_backend: Seq::empty(),
        request: Seq::empty(),
        to_client: Seq::empty(),
        response: Seq::empty(),
        closing: false,
        closed: false,
        bytes_from_client: 0,
        bytes_to_client: 0,
        armed: None,
        stage: Stage::Idle,
        plan: no_plan(),
        rearm_backend: None,
    }
}

/// The state after the inactivity timer has been looked at.
pub open spec fn expire(s: SessionView, now: u64) -> SessionView {
    match s.armed {
        Some(t) => if stale(t, now) {
            SessionView { closing: true, ..s }
        } else {
            s
        },
        None => s,
    }
}

/// The permissions that an event grants.
pub open spec fn plan_for(s: SessionView, event: Event, tls_wants_write: bool) -> Plan {
    let on_backend = event.token == s.forward_token && s.backend_open;
    Plan {
        backend_write: on_backend && event.writable,
        backend_read: on_backend && event.readable,
        tls_write: !on_backend && s.do_tls && event.writable && tls_wants_write,
        tls_read: !on_backend && s.do_tls && event.readable,
        client_read: event.readable,
        client_write: event.writable,
        on_client: event.token == s.server_token,
    }
}

/// The end of a dispatch: a session that was asked to close is closed, any
/// other is parked with its registrations renewed.
pub open spec fn finish(s: SessionView) -> (SessionView, Action) {
    if s.closing {
        (
            SessionView {
                closed: true,
                stage: Stage::Idle,
                plan: no_plan(),
                rearm_backend: None,
                ..s
            },
            Action::Close,
        )
    } else {
        (
            SessionView { stage: Stage::Idle, plan: no_plan(), rearm_backend: None, ..s },
            Action::Park {
                client: if s.plan.on_client {
                    Some(both())
                } else {
                    None
                },
                backend: if s.backend_open {
                    s.rearm_backend
                } else {
                    None
                },
            },
        )
    }
}

/// Whether the phase numbered `phase` has anything to do. The phases are, in
/// their fixed order: backend write, backend read, TLS write, TLS read, client
/// read, client write.
pub open spec fn phase_due(s: SessionView, phase: int) -> bool {
    if phase == 0 {
        s.plan.backend_write && s.backend_open && s.to_backend.len() > 0
    } else if phase == 1 {
        s.plan.backend_read && s.backend_open
    } else if phase == 2 {
        s.plan.tls_write
    } else if phase == 3 {
        s.plan.tls_read
    } else if phase == 4 {
        s.plan.client_read
    } else if phase == 5 {
        s.plan.client_write && s.to_client.len() > 0
    } else {
        false
    }
}

/// The stage in which a phase begins, and the action that begins it.
pub open spec fn phase_start(phase: int) -> (Stage, Action) {
    if phase == 0 {
        (Stage::BackendWrite, Action::WriteBackend)
    } else if phase == 1 {
        (Stage::BackendRead, Action::ReadBackend)
    } else if phase == 2 {
        (Stage::TlsWrite, Action::WriteTls)
    } else if phase == 3 {
        (Stage::TlsRead, Action::ReadTls)
    } else if phase == 4 {
        (Stage::ClientRead, Action::ReadClient)
    } else {
        (Stage::ClientWrite, Action::WriteClient)
    }
}

/// The state and the action with which the phase numbered `phase` begins.
pub open spec fn begin(s: SessionView, phase: int) -> (SessionView, Action) {
    (SessionView { stage: phase_start(phase).0, ..s }, phase_start(phase).1)
}

/// Goes on with the first phase from `phase` on that has anything to do, or
/// ends the dispatch if there is none.
pub open spec fn advance(s: SessionView, phase: int) -> (SessionView, Action) {
    if phase <= 0 && phase_due(s, 0) {
        begin(s, 0)
    } else if phase <= 1 && phase_due(s, 1) {
        begin(s, 1)
    } else if phase <= 2 && phase_due(s, 2) {
        begin(s, 2)
    } else if phase <= 3 && phase_due(s, 3) {
        begin(s, 3)
    } else if phase <= 4 && phase_due(s, 4) {
        begin(s, 4)
    } else if phase <= 5 && phase_due(s, 5) {
        begin(s, 5)
    } else {
        finish(s)
    }
}

/// The backend stream is given up: the driver is asked to drop it, and the
/// dispatch goes on with the phases of the client.
pub open spec fn drop_backend(s: SessionView) -> (SessionView, Action) {
    (
        SessionView { backend_open: false, rearm_backend: None, stage: Stage::BackendDrop, ..s },
        Action::DropBackend,
    )
}

/// A session at rest receives an input.
pub open spec fn on_idle(s: SessionView, input: Input, now: u64) -> (SessionView, Action) {
    match input {
        Input::Ready { event, tls_wants_write } => {
            let s1 = expire(s, now);
            let plan = plan_for(s1, event, tls_wants_write);
            let on_backend = event.token == s1.forward_token && s1.backend_open;
            if on_backend && (event.error || event.write_closed || event.read_closed) {
                drop_backend(SessionView { plan: no_plan(), ..s1 })
            } else if event.error {
                finish(SessionView { closing: true, plan: no_plan(), ..s1 })
            } else if event.write_closed || event.read_closed {
                advance(SessionView { closing: true, plan, rearm_backend: None, ..s1 }, 0)
            } else {
                advance(SessionView { plan, rearm_backend: None, ..s1 }, 0)
            }
        },
        Input::Tick => finish(SessionView { plan: no_plan(), rearm_backend: None, ..expire(s, now) }),
        _ => finish(SessionView { plan: no_plan(), rearm_backend: None, ..s }),
    }
}

/// The first chunk of a queue after `n` of its bytes have been taken: the
/// chunk leaves the queue when nothing of it is left.
pub open spec fn taken(q: Seq<Seq<u8>>, n: int) -> Seq<Seq<u8>> {
    if q.len() == 0 {
        q
    } else if n >= q[0].len() {
        q.drop_first()
    } else {
        q.update(0, q[0].skip(n))
    }
}

/// The backend has answered the request to write.
pub open spec fn on_backend_write(s: SessionView, input: Input) -> (SessionView, Action) {
    match input {
        Input::Moved(n) => {
            if s.to_backend.len() == 0 || n >= s.to_backend[0].len() {
                advance(
                    SessionView {
                        to_backend: taken(s.to_backend, n as int),
                        rearm_backend: Some(both()),
                        ..s
                    },
                    1,
                )
            } else if n == 0 {
                drop_backend(SessionView { to_backend: s.to_backend.drop_first(), ..s })
            } else {
                (SessionView { to_backend: taken(s.to_backend, n as int), ..s }, Action::WriteBackend)
            }
        },
        Input::WouldBlock => advance(s, 1),
        Input::Interrupted => (s, Action::WriteBackend),
        _ => drop_backend(
            SessionView {
                to_backend: if s.to_backend.len() > 0 {
                    s.to_backend.drop_first()
                } else {
                    s.to_backend
                },
                ..s
            },
        ),
    }
}

/// The backend's answer is taken to be whole: a response that holds bytes is
/// first reported to the cache, an empty one is passed over.
pub open spec fn response_whole(s: SessionView) -> (SessionView, Action) {
    if s.response.len() > 0 {
        (SessionView { stage: Stage::CacheRecord, ..s }, Action::RecordCache)
    } else {
        advance(SessionView { rearm_backend: Some(both()), ..s }, 2)
    }
}

/// The backend has answered the request to read.
pub open spec fn on_backend_read(s: SessionView, input: Input) -> (SessionView, Action) {
    match input {
        Input::Bytes(d) => {
            let s1 = SessionView { response: s.response + d@, ..s };
            if d@.len() < BACKEND_CHUNK {
                response_whole(s1)
            } else {
                (s1, Action::ReadBackend)
            }
        },
        Input::WouldBlock => response_whole(s),
        Input::Interrupted => (s, Action::ReadBackend),
        _ => drop_backend(s),
    }
}

/// The backend stream has been dropped.
pub open spec fn on_backend_drop(s: SessionView) -> (SessionView, Action) {
    advance(s, 2)
}

/// The cache has been told of the response: the response is queued for the
/// client.
pub open spec fn on_cache_record(s: SessionView) -> (SessionView, Action) {
    advance(
        SessionView {
            to_client: s.to_client.push(s.response),
            response: Seq::empty(),
            rearm_backend: Some(both()),
            ..s
        },
        2,
    )
}

/// The TLS engine has written records.
pub open spec fn on_tls_write(s: SessionView, input: Input) -> (SessionView, Action) {
    match input {
        Input::Moved(_) | Input::WouldBlock | Input::Interrupted | Input::Aborted => advance(s, 3),
        _ => advance(SessionView { closing: true, ..s }, 3),
    }
}

/// The TLS engine has read records: whatever came of it, it processes them
/// next.
pub open spec fn on_tls_read(s: SessionView, input: Input) -> (SessionView, Action) {
    let closing = match input {
        Input::Moved(n) => n == 0,
        Input::WouldBlock | Input::Interrupted => false,
        _ => true,
    };
    (
        SessionView { closing: s.closing || closing, stage: Stage::TlsProcess, ..s },
        Action::ProcessTls,
    )
}

/// The TLS engine has processed its records. Two alerts about the client's
/// view of the certificate are let pass; any other error ends the session.
pub open spec fn on_tls_process(s: SessionView, input: Input) -> (SessionView, Action) {
    match input {
        Input::Tls(TlsVerdict::Accepted)
        | Input::Tls(TlsVerdict::CertificateUnknown)
        | Input::Tls(TlsVerdict::CertificateExpired) => advance(s, 4),
        _ => advance(SessionView { closing: true, ..s }, 4),
    }
}

/// Most bytes that one read of the client may return.
pub open spec fn client_chunk(s: SessionView) -> usize {
    if s.do_tls {
        TLS_CHUNK
    } else {
        PLAIN_CHUNK
    }
}

/// The client has paused: what has been gathered is looked at. A session that
/// knows its backend passes the bytes on; one that does not looks for a whole
/// request head, and waits if there is none yet.
pub open spec fn request_whole(s: SessionView) -> (SessionView, Action) {
    if s.request.len() == 0 {
        advance(s, 5)
    } else if s.forward_host.len() > 0 {
        (SessionView { stage: Stage::CacheLookup, ..s }, Action::LookupCache)
    } else {
        match head_status(s.request) {
            HeadStatusView::Routed(r) => (
                SessionView {
                    request_host: r.host,
                    path: r.path,
                    stage: Stage::CacheLookup,
                    ..s
                },
                Action::LookupCache,
            ),
            HeadStatusView::Incomplete => advance(s, 5),
            HeadStatusView::Malformed => advance(SessionView { closing: true, ..s }, 5),
        }
    }
}

/// The client has answered the request to read.
pub open spec fn on_client_read(s: SessionView, input: Input) -> (SessionView, Action) {
    match input {
        Input::Bytes(d) => {
            let s1 = SessionView {
                request: s.request + d@,
                armed: None,
                bytes_from_client: counted(s.bytes_from_client, d@.len() as int),
                ..s
            };
            if d@.len() < client_chunk(s) {
                request_whole(s1)
            } else {
                (s1, Action::ReadClient)
            }
        },
        Input::WouldBlock => request_whole(s),
        Input::Interrupted => (s, Action::ReadClient),
        _ => advance(SessionView { closing: true, ..s }, 5),
    }
}

/// The request is passed on to the backend: it is queued, and the backend is
/// opened first if it is not open, at the address mapped from the request's
/// host, else at the default address. Where there is neither, the session is
/// asked to close.
pub open spec fn activate_forward_stream(s: SessionView, forwards: ForwardTable) -> (
    SessionView,
    Action,
) {
    let s1 = SessionView { to_backend: s.to_backend.push(s.request), request: Seq::empty(), ..s };
    if s.backend_open {
        advance(SessionView { rearm_backend: Some(write_only()), ..s1 }, 5)
    } else {
        match forwards.target(s.request_host) {
            Some(address) => (
                SessionView { forward_host: address, stage: Stage::Connecting, ..s1 },
                Action::ConnectBackend,
            ),
            None => advance(SessionView { closing: true, ..s1 }, 5),
        }
    }
}

/// The cache has answered. A stored response goes to the client as it is and
/// the backend is left alone. Without one the request is passed on to the
/// backend.
pub open spec fn on_cache_lookup(s: SessionView, input: Input, forwards: ForwardTable) -> (
    SessionView,
    Action,
) {
    match input {
        Input::Cached(Some(body)) => advance(
            SessionView { to_client: s.to_client.push(body@), request: Seq::empty(), ..s },
            5,
        ),
        _ => activate_forward_stream(s, forwards),
    }
}

/// The attempt to open the backend stream has ended.
pub open spec fn on_connecting(s: SessionView, input: Input) -> (SessionView, Action) {
    match input {
        Input::Connected(true) => advance(
            SessionView { backend_open: true, rearm_backend: None, ..s },
            5,
        ),
        _ => advance(SessionView { closing: true, ..s }, 5),
    }
}

/// The client has answered the request to write. A chunk that went out whole
/// arms the inactivity timer and ends the phase; of a chunk that went out in
/// part the rest stays first in the queue and is written next.
pub open spec fn on_client_write(s: SessionView, input: Input, now: u64) -> (SessionView, Action) {
    match input {
        Input::Moved(n) => {
            if s.to_client.len() == 0 {
                finish(s)
            } else if n >= s.to_client[0].len() {
                finish(
                    SessionView {
                        to_client: s.to_client.drop_first(),
                        bytes_to_client: counted(s.bytes_to_client, s.to_client[0].len() as int),
                        armed: Some(now),
                        ..s
                    },
                )
            } else if n == 0 {
                finish(SessionView { closing: true, ..s })
            } else {
                (
                    SessionView {
                        to_client: taken(s.to_client, n as int),
                        bytes_to_client: counted(s.bytes_to_client, n as int),
                        ..s
                    },
                    Action::WriteClient,
                )
            }
        },
        Input::WouldBlock => finish(s),
        Input::Interrupted => (s, Action::WriteClient),
        _ => finish(SessionView { closing: true, ..s }),
    }
}

/// One step of a session: from its state, what the driver reports and the
/// time, to its next state and what it asks of the driver next.
pub open spec fn step(s: SessionView, input: Input, now: u64, forwards: ForwardTable) -> (
    SessionView,
    Action,
) {
    if s.closed {
        (s, Action::Gone)
    } else {
        match s.stage {
            Stage::Idle => on_idle(s, input, now),
            Stage::BackendWrite => on_backend_write(s, input),
            Stage::BackendRead => on_backend_read(s, input),
            Stage::BackendDrop => on_backend_drop(s),
            Stage::CacheRecord => on_cache_record(s),
            Stage::TlsWrite => on_tls_write(s, input),
            Stage::TlsRead => on_tls_read(s, input),
            Stage::TlsProcess => on_tls_process(s, input),
            Stage::ClientRead => on_client_read(s, input),
            Stage::CacheLookup => on_cache_lookup(s, input, forwards),
            Stage::Connecting => on_connecting(s, input),
            Stage::ClientWrite => on_client_write(s, input, now),
        }
    }
}

/// One of the two streams of a session.
#[derive(Clone, Copy, Debug, PartialEq, Eq, Structural)]
pub enum Leg {
    Client,
    Backend,
}

/// The stream that a registration under `token` is meant for: the backend's
/// where the token is the backend's and its stream is open, else the
/// client's; none once the session is closed.
pub open spec fn registered_leg(s: SessionView, token: usize) -> Option<Leg> {
    if s.closed {
        None
    } else if token == s.forward_token && s.backend_open {
        Some(Leg::Backend)
    } else {
        Some(Leg::Client)
    }
}

/// One operation of the teardown of a session.
#[derive(Clone, Copy, Debug, PartialEq, Eq, Structural)]
pub enum CloseStep {
    FlushTls,
    SendCloseNotify,
    FlushClient,
    ShutdownClient,
    ShutdownBackend,
    DeregisterBackend,
    DeregisterClient,
}

/// The teardown of a session, in order: the TLS engine is flushed and sends
/// its close notification where TLS is in use; the client stream is flushed
/// and shut down in both directions; the backend stream, where there is one,
/// is shut down in both directions; and the registrations are released, the
/// backend's first.
pub open spec fn teardown(do_tls: bool, backend_open: bool) -> Seq<CloseStep> {
    (if do_tls {
        seq![CloseStep::FlushTls, CloseStep::SendCloseNotify]
    } else {
        Seq::<CloseStep>::empty()
    }) + seq![CloseStep::FlushClient, CloseStep::ShutdownClient] + (if backend_open {
        seq![CloseStep::ShutdownBackend, CloseStep::DeregisterBackend]
    } else {
        Seq::<CloseStep>::empty()
    }) + seq![CloseStep::DeregisterClient]
}

/// The action ends a dispatch.
pub open spec fn ends_dispatch(a: Action) -> bool {
    a is Park || a is Close || a is Gone
}

/// The action is addressed to the cache.
pub open spec fn asks_cache(a: Action) -> bool {
    a is LookupCache || a is RecordCache
}

/// What one call of the session's event handler comes to when the cache,
/// should it be asked, answers `found`: the step itself, or the step followed
/// by the step that takes in the cache's answer.
pub open spec fn served_with(
    s: SessionView,
    input: Input,
    now: u64,
    forwards: ForwardTable,
    found: Option<Vec<u8>>,
) -> (SessionView, Action) {
    let first = step(s, input, now, forwards);
    if first.1 is LookupCache {
        step(first.0, Input::Cached(found), now, forwards)
    } else if first.1 is RecordCache {
        step(first.0, Input::Done, now, forwards)
    } else {
        first
    }
}

/// What one call of the session's event handler may come to, whatever the
/// cache answers.
pub open spec fn served(
    s: SessionView,
    input: Input,
    now: u64,
    forwards: ForwardTable,
    t: SessionView,
    a: Action,
) -> bool {
    exists|found: Option<Vec<u8>>| (t, a) == #[trigger] served_with(s, input, now, forwards, found)
}

} // verus!
