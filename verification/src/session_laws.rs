//! What holds of every session, whatever the driver reports.

use crate::forward_table::ForwardTable;
use crate::http_head::{head_end, head_status, HeadStatusView, RouteView};
use crate::session_model::{
    advance, asks_cache, client_chunk, ends_dispatch, expire, finish, no_plan, on_backend_drop,
    on_backend_read, on_backend_write, on_cache_lookup, on_cache_record, on_client_read,
    on_client_write, on_connecting, on_idle, on_tls_process, on_tls_read, on_tls_write, phase_due,
    queued_bytes, stale, step, taken, Action, Event, Input, SessionView, Stage, TlsVerdict,
    BACKEND_CHUNK,
};
use crate::text::occurs_at;
use vstd::prelude::*;

verus! {

/// The action that a stage waits on; a session at rest waits on none.
pub open spec fn awaited(stage: Stage) -> Option<Action> {
    match stage {
        Stage::Idle => None,
        Stage::BackendWrite => Some(Action::WriteBackend),
        Stage::BackendRead => Some(Action::ReadBackend),
        Stage::BackendDrop => Some(Action::DropBackend),
        Stage::CacheRecord => Some(Action::RecordCache),
        Stage::TlsWrite => Some(Action::WriteTls),
        Stage::TlsRead => Some(Action::ReadTls),
        Stage::TlsProcess => Some(Action::ProcessTls),
        Stage::ClientRead => Some(Action::ReadClient),
        Stage::CacheLookup => Some(Action::LookupCache),
        Stage::Connecting => Some(Action::ConnectBackend),
        Stage::ClientWrite => Some(Action::WriteClient),
    }
}

/// Two states differ at most in what a dispatch keeps for itself: the stage,
/// the plan, the pending registration of the backend, and whether the session
/// has been closed.
pub open spec fn same_but_dispatch(s: SessionView, t: SessionView) -> bool {
    t == (SessionView {
        stage: t.stage,
        plan: t.plan,
        rearm_backend: t.rearm_backend,
        closed: t.closed,
        ..s
    })
}

/// Scheduling keeps the data. Going on with the phases changes nothing but
/// the dispatch's own bookkeeping. It either begins a phase, whose stage then
/// waits on the action that is asked for, or ends the dispatch: with `Close`
/// for a session that was asked to close, which is closed from then on, and
/// with `Park` otherwise. It never asks for the cache, for a connection or
/// for the backend to be dropped.
pub proof fn law_scheduling_keeps_the_data(s: SessionView, phase: int)
    requires
        !s.closed,
    ensures
        same_but_dispatch(s, advance(s, phase).0),
        !asks_cache(advance(s, phase).1),
        !(advance(s, phase).1 is Gone),
        !(advance(s, phase).1 is ConnectBackend),
        !(advance(s, phase).1 is DropBackend),
        ends_dispatch(advance(s, phase).1) ==> advance(s, phase) == finish(s),
        !ends_dispatch(advance(s, phase).1) ==> awaited(advance(s, phase).0.stage) == Some(
            advance(s, phase).1,
        ) && !advance(s, phase).0.closed,
        advance(s, phase).1 is Close <==> advance(s, phase).0.closed,
        advance(s, phase).0.closed ==> s.closing,
        phase_of(advance(s, phase).0.stage) >= phase || advance(s, phase).0.stage is Idle,
        forall|q: int|
            phase <= q < phase_of(advance(s, phase).0.stage) ==> !#[trigger] phase_due(s, q),
{
}

/// The place of a stage in the fixed order of a dispatch: the writing and
/// the reading of the backend, the writing and the reading of TLS records,
/// the reading and the writing of the client. A session at rest has none.
pub open spec fn phase_of(stage: Stage) -> int {
    match stage {
        Stage::Idle => -1,
        Stage::BackendWrite => 0,
        Stage::BackendRead | Stage::BackendDrop | Stage::CacheRecord => 1,
        Stage::TlsWrite => 2,
        Stage::TlsRead | Stage::TlsProcess => 3,
        Stage::ClientRead | Stage::CacheLookup | Stage::Connecting => 4,
        Stage::ClientWrite => 5,
    }
}

/// What every step keeps in order: the tokens and the use of TLS stay, a
/// request to close is not taken back, no byte counter goes down, and the
/// session is left either at rest, having ended the dispatch, or in the stage
/// that belongs to the action it has just asked for. Within a dispatch the
/// stages follow the fixed order and never go back: the backend is served
/// before the TLS records and these before the client. `Close` is answered
/// exactly when the session becomes closed, and `Gone` never by a session that
/// was open.
pub open spec fn orderly(s: SessionView, t: SessionView, a: Action) -> bool {
    &&& t.stage is Idle || phase_of(s.stage) <= phase_of(t.stage)
    &&& t.server_token == s.server_token
    &&& t.forward_token == s.forward_token
    &&& t.do_tls == s.do_tls
    &&& s.closing ==> t.closing
    &&& t.bytes_from_client >= s.bytes_from_client
    &&& t.bytes_to_client >= s.bytes_to_client
    &&& !(a is Gone)
    &&& a is Close <==> t.closed
    &&& if ends_dispatch(a) {
        t.stage is Idle
    } else {
        awaited(t.stage) == Some(a)
    }
}

proof fn lemma_idle(s: SessionView, input: Input, now: u64, forwards: ForwardTable)
    requires
        !s.closed,
        s.stage is Idle,
    ensures
        orderly(s, on_idle(s, input, now).0, on_idle(s, input, now).1),
{
}

proof fn lemma_backend_write(s: SessionView, input: Input, now: u64, forwards: ForwardTable)
    requires
        !s.closed,
        s.stage is BackendWrite,
    ensures
        orderly(s, on_backend_write(s, input).0, on_backend_write(s, input).1),
{
}

proof fn lemma_backend_read(s: SessionView, input: Input, now: u64, forwards: ForwardTable)
    requires
        !s.closed,
        s.stage is BackendRead,
    ensures
        orderly(s, on_backend_read(s, input).0, on_backend_read(s, input).1),
{
}

proof fn lemma_backend_drop(s: SessionView, input: Input, now: u64, forwards: ForwardTable)
    requires
        !s.closed,
        s.stage is BackendDrop,
    ensures
        orderly(s, on_backend_drop(s).0, on_backend_drop(s).1),
{
}

proof fn lemma_cache_record(s: SessionView, input: Input, now: u64, forwards: ForwardTable)
    requires
        !s.closed,
        s.stage is CacheRecord,
    ensures
        orderly(s, on_cache_record(s).0, on_cache_record(s).1),
{
}

proof fn lemma_tls_write(s: SessionView, input: Input, now: u64, forwards: ForwardTable)
    requires
        !s.closed,
        s.stage is TlsWrite,
    ensures
        orderly(s, on_tls_write(s, input).0, on_tls_write(s, input).1),
{
}

proof fn lemma_tls_read(s: SessionView, input: Input, now: u64, forwards: ForwardTable)
    requires
        !s.closed,
        s.stage is TlsRead,
    ensures
        orderly(s, on_tls_read(s, input).0, on_tls_read(s, input).1),
{
}

proof fn lemma_tls_process(s: SessionView, input: Input, now: u64, forwards: ForwardTable)
    requires
        !s.closed,
        s.stage is TlsProcess,
    ensures
        orderly(s, on_tls_process(s, input).0, on_tls_process(s, input).1),
{
}

proof fn lemma_client_read(s: SessionView, input: Input, now: u64, forwards: ForwardTable)
    requires
        !s.closed,
        s.stage is ClientRead,
    ensures
        orderly(s, on_client_read(s, input).0, on_client_read(s, input).1),
{
}

proof fn lemma_cache_lookup(s: SessionView, input: Input, now: u64, forwards: ForwardTable)
    requires
        !s.closed,
        s.stage is CacheLookup,
    ensures
        orderly(s, on_cache_lookup(s, input, forwards).0, on_cache_lookup(s, input, forwards).1),
{
}

proof fn lemma_connecting(s: SessionView, input: Input, now: u64, forwards: ForwardTable)
    requires
        !s.closed,
        s.stage is Connecting,
    ensures
        orderly(s, on_connecting(s, input).0, on_connecting(s, input).1),
{
}

proof fn lemma_client_write(s: SessionView, input: Input, now: u64, forwards: ForwardTable)
    requires
        !s.closed,
        s.stage is ClientWrite,
    ensures
        orderly(s, on_client_write(s, input, now).0, on_client_write(s, input, now).1),
{
}

/// Every step of an open session keeps it in order: see [`orderly`].
pub proof fn law_step_is_orderly(s: SessionView, input: Input, now: u64, forwards: ForwardTable)
    requires
        !s.closed,
    ensures
        orderly(s, step(s, input, now, forwards).0, step(s, input, now, forwards).1),
{
    match s.stage {
        Stage::Idle => lemma_idle(s, input, now, forwards),
        Stage::BackendWrite => lemma_backend_write(s, input, now, forwards),
        Stage::BackendRead => lemma_backend_read(s, input, now, forwards),
        Stage::BackendDrop => lemma_backend_drop(s, input, now, forwards),
        Stage::CacheRecord => lemma_cache_record(s, input, now, forwards),
        Stage::TlsWrite => lemma_tls_write(s, input, now, forwards),
        Stage::TlsRead => lemma_tls_read(s, input, now, forwards),
        Stage::TlsProcess => lemma_tls_process(s, input, now, forwards),
        Stage::ClientRead => lemma_client_read(s, input, now, forwards),
        Stage::CacheLookup => lemma_cache_lookup(s, input, now, forwards),
        Stage::Connecting => lemma_connecting(s, input, now, forwards),
        Stage::ClientWrite => lemma_client_write(s, input, now, forwards),
    }
}

/// The answer of the cache is never followed by another question to the
/// cache: the step that takes it in asks for something else.
pub proof fn law_cache_is_asked_once(s: SessionView, input: Input, now: u64, forwards: ForwardTable)
    requires
        !s.closed,
        s.stage is CacheLookup || s.stage is CacheRecord,
    ensures
        !asks_cache(step(s, input, now, forwards).1),
{
}

/// A closed session stays closed and asks for nothing: every further step
/// answers `Gone` and leaves the state as it is.
pub proof fn law_closed_is_final(s: SessionView, input: Input, now: u64, forwards: ForwardTable)
    requires
        s.closed,
    ensures
        step(s, input, now, forwards) == (s, Action::Gone),
{
}

/// A buffer that holds a whole request head is not empty.
proof fn lemma_routed_is_not_empty(buf: Seq<u8>)
    requires
        head_status(buf) is Routed,
    ensures
        buf.len() >= 4,
{
    let i = choose|i: int| occurs_at(buf, head_end(), i);
    assert(occurs_at(buf, head_end(), i));
    assert(head_end().len() == 4);
}

/// Routing goes by the `Host` header. A session without a backend reads the
/// last bytes of a request head whose `Host` header names `route.host`, and
/// the cache holds nothing for it: then the request is queued for the backend
/// and the backend is opened at the address that the forward lookup table
/// maps from that host, or at the default address where the table does not
/// know the host; where there is no default either, the session is asked to
/// close and no backend is opened.
pub proof fn law_request_is_routed_by_host(
    s: SessionView,
    last: Vec<u8>,
    answer: Input,
    now: u64,
    forwards: ForwardTable,
    route: RouteView,
)
    requires
        !s.closed,
        s.stage is ClientRead,
        !s.backend_open,
        s.forward_host.len() == 0,
        last@.len() < client_chunk(s),
        head_status(s.request + last@) == HeadStatusView::Routed(route),
        !(answer matches Input::Cached(Some(_))),
    ensures
        ({
            let (t, a) = step(s, Input::Bytes(last), now, forwards);
            let (u, b) = step(t, answer, now, forwards);
            &&& a == Action::LookupCache
            &&& t.request_host == route.host
            &&& t.path == route.path
            &&& u.to_backend == s.to_backend.push(s.request + last@)
            &&& match forwards.target(route.host) {
                Some(address) => b == Action::ConnectBackend && u.forward_host == address
                    && u.closing == s.closing,
                None => u.closing && !(b is ConnectBackend) && !u.backend_open,
            }
        }),
        forwards.forwards().contains_key(route.host) ==> forwards.target(route.host) == Some(
            forwards.forwards()[route.host],
        ),
        !forwards.forwards().contains_key(route.host) ==> forwards.target(route.host)
            == forwards.fallback(),
{
    lemma_routed_is_not_empty(s.request + last@);
}

/// Once a backend stream has been given up, the next request that the cache
/// cannot answer opens a new one, at the address that the table gives for the
/// session's host; and when the driver reports the stream open, the session
/// holds a backend again.
pub proof fn law_miss_without_backend_connects(
    s: SessionView,
    answer: Input,
    now: u64,
    forwards: ForwardTable,
    address: Seq<char>,
)
    requires
        !s.closed,
        s.stage is CacheLookup,
        !s.backend_open,
        !(answer matches Input::Cached(Some(_))),
        forwards.target(s.request_host) == Some(address),
    ensures
        ({
            let (t, a) = step(s, answer, now, forwards);
            let (u, b) = step(t, Input::Connected(true), now, forwards);
            &&& a == Action::ConnectBackend
            &&& t.forward_host == address
            &&& t.to_backend == s.to_backend.push(s.request)
            &&& t.closing == s.closing
            &&& u.backend_open
            &&& u.closing == s.closing
            &&& u.to_backend == t.to_backend
        }),
{
}

/// The answer of the backend is relayed as it came. When a read of the
/// backend comes back short, the bytes gathered from it are first reported to
/// the cache and then queued for the client, whole and unchanged, as one
/// chunk behind what was queued before; the backend stays open.
pub proof fn law_response_is_relayed_unchanged(
    s: SessionView,
    last: Vec<u8>,
    now: u64,
    forwards: ForwardTable,
)
    requires
        !s.closed,
        s.stage is BackendRead,
        last@.len() < BACKEND_CHUNK,
        (s.response + last@).len() > 0,
    ensures
        ({
            let (t, a) = step(s, Input::Bytes(last), now, forwards);
            let (u, b) = step(t, Input::Done, now, forwards);
            &&& a == Action::RecordCache
            &&& t.response == s.response + last@
            &&& t.to_client == s.to_client
            &&& u.to_client == s.to_client.push(s.response + last@)
            &&& u.response == Seq::<u8>::empty()
            &&& u.backend_open == s.backend_open
            &&& u.closing == s.closing
        }),
{
}

/// The cache shortcut. Whenever the cache answers with a stored response, the
/// session queues exactly those bytes for the client, drops the request, and
/// leaves the backend alone: it queues nothing for it, asks for no connection
/// and keeps its backend address and the state of its stream as they were.
/// This holds of every state, so a repeated request is served in the same
/// way and with the same bytes.
pub proof fn law_cache_hit_skips_backend(
    s: SessionView,
    body: Vec<u8>,
    now: u64,
    forwards: ForwardTable,
)
    requires
        !s.closed,
        s.stage is CacheLookup,
    ensures
        ({
            let (t, a) = step(s, Input::Cached(Some(body)), now, forwards);
            &&& t.to_client == s.to_client.push(body@)
            &&& t.request == Seq::<u8>::empty()
            &&& t.to_backend == s.to_backend
            &&& t.backend_open == s.backend_open
            &&& t.forward_host == s.forward_host
            &&& t.closing == s.closing
            &&& !(a is ConnectBackend)
            &&& !(t.stage is Connecting)
        }),
{
}

/// The bytes of a queue are the part taken from its first chunk followed by
/// the bytes of what is left.
pub proof fn lemma_queued_bytes_taken(q: Seq<Seq<u8>>, n: int)
    requires
        q.len() > 0,
        0 <= n,
    ensures
        queued_bytes(q) == q[0].take(if n >= q[0].len() {
            q[0].len() as int
        } else {
            n
        }) + queued_bytes(taken(q, n)),
{
    if n >= q[0].len() {
        assert(q[0].take(q[0].len() as int) =~= q[0]);
    } else {
        let r = taken(q, n);
        assert(r.drop_first() =~= q.drop_first());
        assert(q[0] =~= q[0].take(n) + q[0].skip(n));
        assert(q[0].take(n) + (r[0] + queued_bytes(r.drop_first())) =~= (q[0].take(n) + r[0])
            + queued_bytes(q.drop_first()));
    }
}

/// At-least-once delivery to the client. Of the bytes queued for the client
/// none is lost, repeated or reordered by a write that goes through in part:
/// what was queued before is what the write took, followed by what is queued
/// after. A write that took a proper part of the first chunk is followed at
/// once by another write; a write that would have blocked, or was
/// interrupted, leaves the queue as it is and does not ask the session to
/// close. Every write that moves a byte leaves fewer bytes queued, so the
/// queue runs empty after finitely many of them.
pub proof fn law_partial_write_resumes(
    s: SessionView,
    input: Input,
    now: u64,
    forwards: ForwardTable,
)
    requires
        !s.closed,
        s.stage is ClientWrite,
        s.to_client.len() > 0,
    ensures
        ({
            let (t, a) = step(s, input, now, forwards);
            let first = s.to_client[0];
            match input {
                Input::Moved(n) => if n >= first.len() {
                    queued_bytes(s.to_client) == first + queued_bytes(t.to_client) && t.closing
                        == s.closing
                } else if n > 0 {
                    queued_bytes(s.to_client) == first.take(n as int) + queued_bytes(t.to_client)
                        && a == Action::WriteClient && t.closing == s.closing
                } else {
                    t.to_client == s.to_client
                },
                Input::WouldBlock => t.to_client == s.to_client && t.closing == s.closing,
                Input::Interrupted => t.to_client == s.to_client && t.closing == s.closing && a
                    == Action::WriteClient,
                _ => t.to_client == s.to_client,
            }
        }),
        input matches Input::Moved(n) && n > 0 && s.to_client[0].len() > 0 ==> queued_bytes(
            step(s, input, now, forwards).0.to_client,
        ).len() < queued_bytes(s.to_client).len(),
{
    match input {
        Input::Moved(n) => {
            lemma_queued_bytes_taken(s.to_client, n as int);
            assert(s.to_client[0].take(s.to_client[0].len() as int) =~= s.to_client[0]);
        },
        _ => {},
    }
}

/// The same of the bytes queued for the backend: a write that goes through
/// in part loses, repeats and reorders nothing, and one that would have
/// blocked or was interrupted leaves the queue and the backend stream as they
/// are.
pub proof fn law_partial_forward_resumes(
    s: SessionView,
    input: Input,
    now: u64,
    forwards: ForwardTable,
)
    requires
        !s.closed,
        s.stage is BackendWrite,
        s.to_backend.len() > 0,
    ensures
        ({
            let (t, a) = step(s, input, now, forwards);
            let first = s.to_backend[0];
            match input {
                Input::Moved(n) => if n >= first.len() {
                    queued_bytes(s.to_backend) == first + queued_bytes(t.to_backend)
                        && t.backend_open == s.backend_open
                } else if n > 0 {
                    queued_bytes(s.to_backend) == first.take(n as int) + queued_bytes(t.to_backend)
                        && a == Action::WriteBackend && t.backend_open == s.backend_open
                } else {
                    true
                },
                Input::WouldBlock => t.to_backend == s.to_backend && t.backend_open
                    == s.backend_open,
                Input::Interrupted => t.to_backend == s.to_backend && t.backend_open
                    == s.backend_open && a == Action::WriteBackend,
                _ => true,
            }
        }),
{
    match input {
        Input::Moved(n) => {
            lemma_queued_bytes_taken(s.to_backend, n as int);
            assert(s.to_backend[0].take(s.to_backend[0].len() as int) =~= s.to_backend[0]);
        },
        _ => {},
    }
}

/// After a write that would have blocked, the next writable event of the
/// client takes the queue up where it stands: a session at rest that has
/// bytes queued for the client, and is not asked to close, answers such an
/// event by asking for a write, with the queue untouched.
pub proof fn law_write_resumes_on_next_event(
    s: SessionView,
    event: Event,
    now: u64,
    forwards: ForwardTable,
)
    requires
        !s.closed,
        s.stage is Idle,
        s.server_token != s.forward_token,
        s.to_client.len() > 0,
        s.armed matches Some(t) ==> !stale(t, now),
        event == (Event {
            token: s.server_token,
            readable: false,
            writable: true,
            error: false,
            read_closed: false,
            write_closed: false,
        }),
    ensures
        ({
            let (t, a) = step(s, Input::Ready { event, tls_wants_write: false }, now, forwards);
            a == Action::WriteClient && t.to_client == s.to_client && t.closing == s.closing
        }),
{
}

/// Idle expiry. A session at rest whose inactivity timer was armed longer ago
/// than the limit is closed on the next pass of the loop, without any
/// readiness event: the step that takes in the tick answers `Close`. If an
/// event does arrive, the session is asked to close all the same.
pub proof fn law_idle_session_expires(
    s: SessionView,
    event: Event,
    tls_wants_write: bool,
    now: u64,
    forwards: ForwardTable,
    armed_at: u64,
)
    requires
        !s.closed,
        s.stage is Idle,
        s.armed == Some(armed_at),
        stale(armed_at, now),
    ensures
        step(s, Input::Tick, now, forwards).1 == Action::Close,
        step(s, Input::Tick, now, forwards).0.closed,
        step(s, Input::Ready { event, tls_wants_write }, now, forwards).0.closing,
{
}

/// A session at rest that is not asked to close, and whose timer has not run
/// out, outlives a tick: the step answers `Park` and changes nothing.
pub proof fn law_fresh_session_stays(s: SessionView, now: u64, forwards: ForwardTable)
    requires
        !s.closed,
        !s.closing,
        s.stage is Idle,
        s.armed matches Some(t) ==> !stale(t, now),
    ensures
        step(s, Input::Tick, now, forwards).1 is Park,
        !step(s, Input::Tick, now, forwards).0.closed,
        !step(s, Input::Tick, now, forwards).0.closing,
{
}

/// A dispatch whose plan permits nothing ends at once.
pub proof fn lemma_no_plan_finishes(s: SessionView, phase: int)
    requires
        s.plan == no_plan(),
    ensures
        advance(s, phase) == finish(s),
{
}

/// Backend isolation. An event on the backend's token that reports an error
/// or a closed direction gives up the backend stream and nothing else: the
/// driver is asked to drop the stream, the queues, the buffers and the route
/// stay, and the session is asked to close only if its inactivity timer has
/// run out as well. Once the stream is dropped, a session that is not asked
/// to close is parked and stays open.
pub proof fn law_backend_failure_is_local(
    s: SessionView,
    event: Event,
    tls_wants_write: bool,
    now: u64,
    forwards: ForwardTable,
)
    requires
        !s.closed,
        s.stage is Idle,
        s.backend_open,
        event.token == s.forward_token,
        event.error || event.read_closed || event.write_closed,
    ensures
        ({
            let (t, a) = step(s, Input::Ready { event, tls_wants_write }, now, forwards);
            let (u, b) = step(t, Input::Done, now, forwards);
            &&& a == Action::DropBackend
            &&& !t.backend_open
            &&& !t.closed
            &&& t.to_client == s.to_client
            &&& t.to_backend == s.to_backend
            &&& t.request == s.request
            &&& t.response == s.response
            &&& t.request_host == s.request_host
            &&& t.forward_host == s.forward_host
            &&& t.closing == expire(s, now).closing
            &&& !t.closing ==> b is Park && !u.closed && !u.closing && !u.backend_open
        }),
{
    let t = step(s, Input::Ready { event, tls_wants_write }, now, forwards).0;
    lemma_no_plan_finishes(t, 2);
}

/// The same where the failure shows while the backend is read or written: a
/// failed operation on the backend stream has the stream dropped and does not
/// ask the session to close.
pub proof fn law_backend_io_failure_is_local(s: SessionView, now: u64, forwards: ForwardTable)
    requires
        !s.closed,
        s.stage is BackendRead || s.stage is BackendWrite,
    ensures
        ({
            let (t, a) = step(s, Input::Failed, now, forwards);
            &&& a == Action::DropBackend
            &&& !t.backend_open
            &&& !t.closed
            &&& t.closing == s.closing
            &&& t.to_client == s.to_client
            &&& t.request == s.request
        }),
{
}

/// A failure on the client's side ends the session: a failed read or write of
/// the client stream, a failed transfer or a fatal error of the TLS engine,
/// and a request head that cannot be parsed each ask the session to close.
pub proof fn law_client_failure_closes(s: SessionView, now: u64, forwards: ForwardTable)
    requires
        !s.closed,
    ensures
        s.stage is ClientRead || s.stage is ClientWrite || s.stage is TlsWrite || s.stage is TlsRead
            ==> step(s, Input::Failed, now, forwards).0.closing,
        s.stage is TlsProcess ==> step(
            s,
            Input::Tls(TlsVerdict::Fatal),
            now,
            forwards,
        ).0.closing,
        s.stage is TlsProcess && !s.closing ==> !step(
            s,
            Input::Tls(TlsVerdict::CertificateUnknown),
            now,
            forwards,
        ).0.closing && !step(s, Input::Tls(TlsVerdict::CertificateExpired), now, forwards).0.closing,
        s.stage is ClientRead && s.request.len() > 0 && s.forward_host.len() == 0 && head_status(
            s.request,
        ) is Malformed ==> step(s, Input::WouldBlock, now, forwards).0.closing,
{
}

/// The backend is opened for a request, and once. A connection is asked for
/// only in answer to a cache lookup that found nothing, by a session that
/// holds no backend stream, and at the address that the table gives for the
/// session's host. A session comes to hold a backend stream only when the
/// driver reports that connection open. And the cache is asked only after the
/// client was read: by a session that knows its backend already, or once the
/// bytes gathered hold a whole request head, whose host and path the session
/// then carries.
pub open spec fn head_first(
    s: SessionView,
    input: Input,
    forwards: ForwardTable,
    t: SessionView,
    a: Action,
) -> bool {
    &&& a is ConnectBackend ==> s.stage is CacheLookup && !s.backend_open && forwards.target(
        s.request_host,
    ) == Some(t.forward_host)
    &&& !s.backend_open && t.backend_open ==> s.stage is Connecting && input == Input::Connected(
        true,
    )
    &&& a is LookupCache ==> s.stage is ClientRead && (s.forward_host.len() > 0 || (head_status(
        t.request,
    ) matches HeadStatusView::Routed(r) && t.request_host == r.host && t.path == r.path))
}

proof fn lemma_head_idle(s: SessionView, input: Input, now: u64, forwards: ForwardTable)
    requires
        !s.closed,
        s.stage is Idle,
    ensures
        head_first(s, input, forwards, on_idle(s, input, now).0, on_idle(s, input, now).1),
{
}

proof fn lemma_head_backend_write(s: SessionView, input: Input, now: u64, forwards: ForwardTable)
    requires
        !s.closed,
        s.stage is BackendWrite,
    ensures
        head_first(s, input, forwards, on_backend_write(s, input).0, on_backend_write(s, input).1),
{
}

proof fn lemma_head_backend_read(s: SessionView, input: Input, now: u64, forwards: ForwardTable)
    requires
        !s.closed,
        s.stage is BackendRead,
    ensures
        head_first(s, input, forwards, on_backend_read(s, input).0, on_backend_read(s, input).1),
{
}

proof fn lemma_head_backend_drop(s: SessionView, input: Input, now: u64, forwards: ForwardTable)
    requires
        !s.closed,
        s.stage is BackendDrop,
    ensures
        head_first(s, input, forwards, on_backend_drop(s).0, on_backend_drop(s).1),
{
}

proof fn lemma_head_cache_record(s: SessionView, input: Input, now: u64, forwards: ForwardTable)
    requires
        !s.closed,
        s.stage is CacheRecord,
    ensures
        head_first(s, input, forwards, on_cache_record(s).0, on_cache_record(s).1),
{
}

proof fn lemma_head_tls_write(s: SessionView, input: Input, now: u64, forwards: ForwardTable)
    requires
        !s.closed,
        s.stage is TlsWrite,
    ensures
        head_first(s, input, forwards, on_tls_write(s, input).0, on_tls_write(s, input).1),
{
}

proof fn lemma_head_tls_read(s: SessionView, input: Input, now: u64, forwards: ForwardTable)
    requires
        !s.closed,
        s.stage is TlsRead,
    ensures
        head_first(s, input, forwards, on_tls_read(s, input).0, on_tls_read(s, input).1),
{
}

proof fn lemma_head_tls_process(s: SessionView, input: Input, now: u64, forwards: ForwardTable)
    requires
        !s.closed,
        s.stage is TlsProcess,
    ensures
        head_first(s, input, forwards, on_tls_process(s, input).0, on_tls_process(s, input).1),
{
}

proof fn lemma_head_client_read(s: SessionView, input: Input, now: u64, forwards: ForwardTable)
    requires
        !s.closed,
        s.stage is ClientRead,
    ensures
        head_first(s, input, forwards, on_client_read(s, input).0, on_client_read(s, input).1),
{
}

proof fn lemma_head_cache_lookup(s: SessionView, input: Input, now: u64, forwards: ForwardTable)
    requires
        !s.closed,
        s.stage is CacheLookup,
    ensures
        head_first(
            s,
            input,
            forwards,
            on_cache_lookup(s, input, forwards).0,
            on_cache_lookup(s, input, forwards).1,
        ),
{
}

proof fn lemma_head_connecting(s: SessionView, input: Input, now: u64, forwards: ForwardTable)
    requires
        !s.closed,
        s.stage is Connecting,
    ensures
        head_first(s, input, forwards, on_connecting(s, input).0, on_connecting(s, input).1),
{
}

proof fn lemma_head_client_write(s: SessionView, input: Input, now: u64, forwards: ForwardTable)
    requires
        !s.closed,
        s.stage is ClientWrite,
    ensures
        head_first(
            s,
            input,
            forwards,
            on_client_write(s, input, now).0,
            on_client_write(s, input, now).1,
        ),
{
}

/// Every step of an open session opens the backend for a request, and once:
/// see [`head_first`].
pub proof fn law_backend_follows_the_head(
    s: SessionView,
    input: Input,
    now: u64,
    forwards: ForwardTable,
)
    requires
        !s.closed,
    ensures
        head_first(
            s,
            input,
            forwards,
            step(s, input, now, forwards).0,
            step(s, input, now, forwards).1,
        ),
{
    match s.stage {
        Stage::Idle => lemma_head_idle(s, input, now, forwards),
        Stage::BackendWrite => lemma_head_backend_write(s, input, now, forwards),
        Stage::BackendRead => lemma_head_backend_read(s, input, now, forwards),
        Stage::BackendDrop => lemma_head_backend_drop(s, input, now, forwards),
        Stage::CacheRecord => lemma_head_cache_record(s, input, now, forwards),
        Stage::TlsWrite => lemma_head_tls_write(s, input, now, forwards),
        Stage::TlsRead => lemma_head_tls_read(s, input, now, forwards),
        Stage::TlsProcess => lemma_head_tls_process(s, input, now, forwards),
        Stage::ClientRead => lemma_head_client_read(s, input, now, forwards),
        Stage::CacheLookup => lemma_head_cache_lookup(s, input, now, forwards),
        Stage::Connecting => lemma_head_connecting(s, input, now, forwards),
        Stage::ClientWrite => lemma_head_client_write(s, input, now, forwards),
    }
}

/// What a run of writes takes from a queue: for each write the part of the
/// first chunk that it moved, one after the other.
pub open spec fn written(q: Seq<Seq<u8>>, moves: Seq<usize>) -> Seq<u8>
    decreases moves.len(),
{
    if moves.len() == 0 || q.len() == 0 {
        Seq::empty()
    } else {
        q[0].take(
            if moves[0] >= q[0].len() {
                q[0].len() as int
            } else {
                moves[0] as int
            },
        ) + written(taken(q, moves[0] as int), moves.drop_first())
    }
}

/// The queue that a run of writes leaves.
pub open spec fn unwritten(q: Seq<Seq<u8>>, moves: Seq<usize>) -> Seq<Seq<u8>>
    decreases moves.len(),
{
    if moves.len() == 0 || q.len() == 0 {
        q
    } else {
        unwritten(taken(q, moves[0] as int), moves.drop_first())
    }
}

/// However a queue is written out, in however many parts, the bytes that
/// went out followed by the bytes still queued are the bytes that were
/// queued at the start: nothing is lost, repeated or out of order.
pub proof fn law_writes_deliver_in_order(q: Seq<Seq<u8>>, moves: Seq<usize>)
    ensures
        written(q, moves) + queued_bytes(unwritten(q, moves)) == queued_bytes(q),
    decreases moves.len(),
{
    if moves.len() == 0 || q.len() == 0 {
        assert(written(q, moves) + queued_bytes(q) =~= queued_bytes(q));
    } else {
        let next = taken(q, moves[0] as int);
        lemma_queued_bytes_taken(q, moves[0] as int);
        law_writes_deliver_in_order(next, moves.drop_first());
        let part = q[0].take(
            if moves[0] >= q[0].len() {
                q[0].len() as int
            } else {
                moves[0] as int
            },
        );
        assert((part + written(next, moves.drop_first())) + queued_bytes(
            unwritten(next, moves.drop_first()),
        ) =~= part + (written(next, moves.drop_first()) + queued_bytes(
            unwritten(next, moves.drop_first()),
        )));
    }
}

} // verus!
