//! The connection session: one per accepted client connection.
//!
//! [`ConnectionSource`] holds the buffers, queues, counters and flags of a
//! session and carries out the steps that [`crate::session_model`] defines.
//! It is driven from outside: the driver owns the streams, performs the
//! operation the session asks for and hands back how it ended.

use crate::cacher::Cacher;
use crate::forward_table::ForwardTable;
use crate::http_head::{read_head, HeadStatus};
use crate::session_laws::{law_cache_is_asked_once, law_step_is_orderly};
use crate::session_model::{
    activate_forward_stream, advance, asks_cache, begin, both, drop_backend, expire, finish,
    initial, no_plan, on_backend_read, on_backend_write, on_cache_lookup, on_cache_record,
    on_client_read, on_client_write, on_connecting, on_idle, on_tls_process, on_tls_read,
    on_tls_write, phase_due, registered_leg, request_whole, response_whole, served, served_with,
    step, teardown, Action, CloseStep, Input, Interest, Leg, Plan, SessionView, Stage, TlsVerdict,
    BACKEND_CHUNK, IDLE_LIMIT_MS, PLAIN_CHUNK, TLS_CHUNK,
};
use std::collections::VecDeque;
use vstd::prelude::*;

verus! {

/// The chunks of a queue, each by its bytes.
pub open spec fn chunks(q: Seq<Vec<u8>>) -> Seq<Seq<u8>> {
    Seq::new(q.len(), |i: int| q[i]@)
}

fn push_chunk(q: &mut VecDeque<Vec<u8>>, chunk: Vec<u8>)
    ensures
        chunks(final(q)@) == chunks(old(q)@).push(chunk@),
{
    q.push_back(chunk);
    assert(chunks(q@) =~= chunks(old(q)@).push(chunk@));
}

fn pop_chunk(q: &mut VecDeque<Vec<u8>>)
    requires
        old(q)@.len() > 0,
    ensures
        chunks(final(q)@) == chunks(old(q)@).drop_first(),
{
    let _ = q.pop_front();
    assert(chunks(q@) =~= chunks(old(q)@).drop_first());
}

fn cut_chunk(q: &mut VecDeque<Vec<u8>>, n: usize)
    requires
        old(q)@.len() > 0,
        n <= old(q)@[0]@.len(),
    ensures
        chunks(final(q)@) == chunks(old(q)@).update(0, chunks(old(q)@)[0].skip(n as int)),
{
    match q.pop_front() {
        Some(mut front) => {
            let rest = front.split_off(n);
            q.push_front(rest);
            assert(chunks(q@) =~= chunks(old(q)@).update(0, chunks(old(q)@)[0].skip(n as int)));
        },
        None => {},
    }
}

/// The operations that tear a session down, in order. They are what the
/// action `Close` asks for, of a session that uses TLS or not and holds a
/// backend stream or not.
pub fn close_steps(do_tls: bool, backend_open: bool) -> (r: Vec<CloseStep>)
    ensures
        r@ == teardown(do_tls, backend_open),
{
    let mut steps: Vec<CloseStep> = Vec::new();
    if do_tls {
        steps.push(CloseStep::FlushTls);
        steps.push(CloseStep::SendCloseNotify);
    }
    steps.push(CloseStep::FlushClient);
    steps.push(CloseStep::ShutdownClient);
    if backend_open {
        steps.push(CloseStep::ShutdownBackend);
        steps.push(CloseStep::DeregisterBackend);
    }
    steps.push(CloseStep::DeregisterClient);
    assert(steps@ =~= teardown(do_tls, backend_open));
    steps
}

/// The session of one client connection.
pub struct ConnectionSource {
    server_token: usize,
    forward_token: usize,
    do_tls: bool,
    request_host: String,
    http_get_path: String,
    forward_host: String,
    forward_stream: bool,
    send_to_forward: VecDeque<Vec<u8>>,
    buf_forward: Vec<u8>,
    send_to_client: VecDeque<Vec<u8>>,
    buf_client: Vec<u8>,
    closing: bool,
    done_closing: bool,
    bytes_sent: usize,
    bytes_received: usize,
    activity_timeout: Option<u64>,
    stage: Stage,
    plan: Plan,
    rearm_forward: Option<Interest>,
}

impl View for ConnectionSource {
    type V = SessionView;

    closed spec fn view(&self) -> SessionView {
        SessionView {
            server_token: self.server_token,
            forward_token: self.forward_token,
            do_tls: self.do_tls,
            request_host: self.request_host@,
            path: self.http_get_path@,
            forward_host: self.forward_host@,
            backend_open: self.forward_stream,
            to_backend: chunks(self.send_to_forward@),
            request: self.buf_forward@,
            to_client: chunks(self.send_to_client@),
            response: self.buf_client@,
            closing: self.closing,
            closed: self.done_closing,
            bytes_from_client: self.bytes_sent,
            bytes_to_client: self.bytes_received,
            armed: self.activity_timeout,
            stage: self.stage,
            plan: self.plan,
            rearm_backend: self.rearm_forward,
        }
    }
}

fn both_ways() -> (r: Interest)
    ensures
        r == both(),
{
    Interest { readable: true, writable: true }
}

fn nothing_planned() -> (r: Plan)
    ensures
        r == no_plan(),
{
    Plan {
        backend_write: false,
        backend_read: false,
        tls_write: false,
        tls_read: false,
        client_read: false,
        client_write: false,
        on_client: false,
    }
}

impl ConnectionSource {
    /// A fresh session for a connection that was just accepted. `do_tls` says
    /// whether it arrived on the encrypted listener.
    pub fn new(server_token: usize, forward_token: usize, do_tls: bool) -> (r: Self)
        ensures
            r@ == initial(server_token, forward_token, do_tls),
    {
        let r = ConnectionSource {
            server_token,
            forward_token,
            do_tls,
            request_host: String::new(),
            http_get_path: String::new(),
            forward_host: String::new(),
            forward_stream: false,
            send_to_forward: VecDeque::new(),
            buf_forward: Vec::new(),
            send_to_client: VecDeque::new(),
            buf_client: Vec::new(),
            closing: false,
            done_closing: false,
            bytes_sent: 0,
            bytes_received: 0,
            activity_timeout: None,
            stage: Stage::Idle,
            plan: nothing_planned(),
            rearm_forward: None,
        };
        assert(chunks(r.send_to_forward@) =~= Seq::<Seq<u8>>::empty());
        assert(chunks(r.send_to_client@) =~= Seq::<Seq<u8>>::empty());
        r
    }

    /// The client's token.
    pub fn server_token(&self) -> (r: usize)
        ensures
            r == self@.server_token,
    {
        self.server_token
    }

    /// The backend's token.
    pub fn forward_token(&self) -> (r: usize)
        ensures
            r == self@.forward_token,
    {
        self.forward_token
    }

    /// Whether the connection arrived on the encrypted listener.
    pub fn do_tls(&self) -> (r: bool)
        ensures
            r == self@.do_tls,
    {
        self.do_tls
    }

    /// The host that the first request head named.
    pub fn request_host(&self) -> (r: &String)
        ensures
            r@ == self@.request_host,
    {
        &self.request_host
    }

    /// The path that the first request head asked for.
    pub fn http_get_path(&self) -> (r: &String)
        ensures
            r@ == self@.path,
    {
        &self.http_get_path
    }

    /// The backend address that the session was routed to; empty before.
    pub fn forward_host(&self) -> (r: &String)
        ensures
            r@ == self@.forward_host,
    {
        &self.forward_host
    }

    /// Whether the session holds a backend stream.
    pub fn backend_open(&self) -> (r: bool)
        ensures
            r == self@.backend_open,
    {
        self.forward_stream
    }

    /// Whether the session has been asked to close.
    pub fn is_closing(&self) -> (r: bool)
        ensures
            r == self@.closing,
    {
        self.closing
    }

    /// Whether the session has been closed.
    pub fn is_closed(&self) -> (r: bool)
        ensures
            r == self@.closed,
    {
        self.done_closing
    }

    /// Bytes read from the client so far.
    pub fn bytes_from_client(&self) -> (r: usize)
        ensures
            r == self@.bytes_from_client,
    {
        self.bytes_sent
    }

    /// Bytes written to the client so far.
    pub fn bytes_to_client(&self) -> (r: usize)
        ensures
            r == self@.bytes_to_client,
    {
        self.bytes_received
    }

    /// When the inactivity timer was armed, if it is.
    pub fn activity_timeout(&self) -> (r: Option<u64>)
        ensures
            r == self@.armed,
    {
        self.activity_timeout
    }

    /// The operation that the session waits on.
    pub fn stage(&self) -> (r: Stage)
        ensures
            r == self@.stage,
    {
        self.stage
    }

    /// The chunk that `WriteClient` is to write: the first of the queue.
    pub fn client_chunk(&self) -> (r: Option<&Vec<u8>>)
        ensures
            match r {
                Some(c) => self@.to_client.len() > 0 && c@ == self@.to_client[0],
                None => self@.to_client.len() == 0,
            },
    {
        if self.send_to_client.len() > 0 {
            Some(&self.send_to_client[0])
        } else {
            None
        }
    }

    /// The chunk that `WriteBackend` is to write: the first of the queue.
    pub fn backend_chunk(&self) -> (r: Option<&Vec<u8>>)
        ensures
            match r {
                Some(c) => self@.to_backend.len() > 0 && c@ == self@.to_backend[0],
                None => self@.to_backend.len() == 0,
            },
    {
        if self.send_to_forward.len() > 0 {
            Some(&self.send_to_forward[0])
        } else {
            None
        }
    }

    /// Number of chunks queued for the client.
    pub fn client_queue_len(&self) -> (r: usize)
        ensures
            r == self@.to_client.len(),
    {
        self.send_to_client.len()
    }

    /// Number of chunks queued for the backend.
    pub fn backend_queue_len(&self) -> (r: usize)
        ensures
            r == self@.to_backend.len(),
    {
        self.send_to_forward.len()
    }

    /// The request bytes gathered from the client and not yet passed on.
    pub fn request(&self) -> (r: &Vec<u8>)
        ensures
            r@ == self@.request,
    {
        &self.buf_forward
    }

    /// The response bytes gathered from the backend and not yet passed on.
    pub fn response(&self) -> (r: &Vec<u8>)
        ensures
            r@ == self@.response,
    {
        &self.buf_client
    }

    /// The stream that a registration under `token` is meant for.
    pub fn register(&self, token: usize) -> (r: Option<Leg>)
        ensures
            r == registered_leg(self@, token),
    {
        if self.done_closing {
            None
        } else if token == self.forward_token && self.forward_stream {
            Some(Leg::Backend)
        } else {
            Some(Leg::Client)
        }
    }

    /// The first registration of a session that was just accepted: the stream
    /// to register under `token`, with the interests to register it for.
    pub fn call_with_new_client(&self, token: usize, interests: Interest) -> (r: Option<
        (Leg, Interest),
    >)
        ensures
            r == match registered_leg(self@, token) {
                Some(leg) => Some((leg, interests)),
                None => None,
            },
    {
        match self.register(token) {
            Some(leg) => Some((leg, interests)),
            None => None,
        }
    }

    /// The operations that tear the session down, in order.
    pub fn close_all(&self) -> (r: Vec<CloseStep>)
        ensures
            r@ == teardown(self@.do_tls, self@.backend_open),
    {
        close_steps(self.do_tls, self.forward_stream)
    }

    fn finish(&mut self) -> (a: Action)
        ensures
            (final(self)@, a) == finish(old(self)@),
    {
        let on_client = self.plan.on_client;
        let rearm = self.rearm_forward;
        self.stage = Stage::Idle;
        self.plan = nothing_planned();
        self.rearm_forward = None;
        if self.closing {
            self.done_closing = true;
            Action::Close
        } else {
            Action::Park {
                client: if on_client {
                    Some(both_ways())
                } else {
                    None
                },
                backend: if self.forward_stream {
                    rearm
                } else {
                    None
                },
            }
        }
    }

    fn due(&self, phase: u8) -> (r: bool)
        ensures
            r == phase_due(self@, phase as int),
    {
        if phase == 0 {
            self.plan.backend_write && self.forward_stream && self.send_to_forward.len() > 0
        } else if phase == 1 {
            self.plan.backend_read && self.forward_stream
        } else if phase == 2 {
            self.plan.tls_write
        } else if phase == 3 {
            self.plan.tls_read
        } else if phase == 4 {
            self.plan.client_read
        } else if phase == 5 {
            self.plan.client_write && self.send_to_client.len() > 0
        } else {
            false
        }
    }

    fn begin(&mut self, phase: u8) -> (a: Action)
        ensures
            (final(self)@, a) == begin(old(self)@, phase as int),
    {
        if phase == 0 {
            self.stage = Stage::BackendWrite;
            Action::WriteBackend
        } else if phase == 1 {
            self.stage = Stage::BackendRead;
            Action::ReadBackend
        } else if phase == 2 {
            self.stage = Stage::TlsWrite;
            Action::WriteTls
        } else if phase == 3 {
            self.stage = Stage::TlsRead;
            Action::ReadTls
        } else if phase == 4 {
            self.stage = Stage::ClientRead;
            Action::ReadClient
        } else {
            self.stage = Stage::ClientWrite;
            Action::WriteClient
        }
    }

    fn advance(&mut self, phase: u8) -> (a: Action)
        ensures
            (final(self)@, a) == advance(old(self)@, phase as int),
    {
        let mut p: u8 = 0;
        while p < 6
            invariant
                *self == *old(self),
                p <= 6,
                forall|q: int| 0 <= q < p ==> !(phase <= q && phase_due(self@, q)),
            decreases 6 - p,
        {
            if phase <= p && self.due(p) {
                return self.begin(p);
            }
            p += 1;
        }
        self.finish()
    }

    fn drop_backend(&mut self) -> (a: Action)
        ensures
            (final(self)@, a) == drop_backend(old(self)@),
    {
        self.forward_stream = false;
        self.rearm_forward = None;
        self.stage = Stage::BackendDrop;
        Action::DropBackend
    }

    fn expire(&mut self, now: u64)
        ensures
            final(self)@ == expire(old(self)@, now),
    {
        match self.activity_timeout {
            Some(t) => {
                if now > t && now - t > IDLE_LIMIT_MS {
                    self.closing = true;
                }
            },
            None => {},
        }
    }

    fn on_idle(&mut self, input: Input, now: u64) -> (a: Action)
        ensures
            (final(self)@, a) == on_idle(old(self)@, input, now),
    {
        match input {
            Input::Ready { event, tls_wants_write } => {
                self.expire(now);
                let on_backend = event.token == self.forward_token && self.forward_stream;
                if on_backend && (event.error || event.write_closed || event.read_closed) {
                    self.plan = nothing_planned();
                    self.drop_backend()
                } else if event.error {
                    self.closing = true;
                    self.plan = nothing_planned();
                    self.finish()
                } else {
                    if event.write_closed || event.read_closed {
                        self.closing = true;
                    }
                    self.plan = Plan {
                        backend_write: on_backend && event.writable,
                        backend_read: on_backend && event.readable,
                        tls_write: !on_backend && self.do_tls && event.writable && tls_wants_write,
                        tls_read: !on_backend && self.do_tls && event.readable,
                        client_read: event.readable,
                        client_write: event.writable,
                        on_client: event.token == self.server_token,
                    };
                    self.rearm_forward = None;
                    self.advance(0)
                }
            },
            Input::Tick => {
                self.expire(now);
                self.plan = nothing_planned();
                self.rearm_forward = None;
                self.finish()
            },
            _ => {
                self.plan = nothing_planned();
                self.rearm_forward = None;
                self.finish()
            },
        }
    }

    fn forward_writer(&mut self, input: Input) -> (a: Action)
        ensures
            (final(self)@, a) == on_backend_write(old(self)@, input),
    {
        match input {
            Input::Moved(n) => {
                if self.send_to_forward.len() == 0 {
                    self.rearm_forward = Some(both_ways());
                    self.advance(1)
                } else if n >= self.send_to_forward[0].len() {
                    pop_chunk(&mut self.send_to_forward);
                    self.rearm_forward = Some(both_ways());
                    self.advance(1)
                } else if n == 0 {
                    pop_chunk(&mut self.send_to_forward);
                    self.drop_backend()
                } else {
                    cut_chunk(&mut self.send_to_forward, n);
                    Action::WriteBackend
                }
            },
            Input::WouldBlock => self.advance(1),
            Input::Interrupted => Action::WriteBackend,
            _ => {
                if self.send_to_forward.len() > 0 {
                    pop_chunk(&mut self.send_to_forward);
                }
                self.drop_backend()
            },
        }
    }

    fn response_whole(&mut self) -> (a: Action)
        ensures
            (final(self)@, a) == response_whole(old(self)@),
    {
        if self.buf_client.len() > 0 {
            self.stage = Stage::CacheRecord;
            Action::RecordCache
        } else {
            self.rearm_forward = Some(both_ways());
            self.advance(2)
        }
    }

    fn forward_reader(&mut self, input: Input) -> (a: Action)
        ensures
            (final(self)@, a) == on_backend_read(old(self)@, input),
    {
        match input {
            Input::Bytes(d) => {
                let mut d = d;
                let short = d.len() < BACKEND_CHUNK;
                self.buf_client.append(&mut d);
                if short {
                    self.response_whole()
                } else {
                    Action::ReadBackend
                }
            },
            Input::WouldBlock => self.response_whole(),
            Input::Interrupted => Action::ReadBackend,
            _ => self.drop_backend(),
        }
    }

    fn on_cache_record(&mut self) -> (a: Action)
        ensures
            (final(self)@, a) == on_cache_record(old(self)@),
    {
        let mut whole: Vec<u8> = Vec::new();
        whole.append(&mut self.buf_client);
        assert(whole@ =~= old(self)@.response);
        push_chunk(&mut self.send_to_client, whole);
        self.rearm_forward = Some(both_ways());
        self.advance(2)
    }

    fn on_tls_write(&mut self, input: Input) -> (a: Action)
        ensures
            (final(self)@, a) == on_tls_write(old(self)@, input),
    {
        match input {
            Input::Moved(_) | Input::WouldBlock | Input::Interrupted | Input::Aborted => {},
            _ => {
                self.closing = true;
            },
        }
        self.advance(3)
    }

    fn on_tls_read(&mut self, input: Input) -> (a: Action)
        ensures
            (final(self)@, a) == on_tls_read(old(self)@, input),
    {
        let ended = match input {
            Input::Moved(n) => n == 0,
            Input::WouldBlock | Input::Interrupted => false,
            _ => true,
        };
        if ended {
            self.closing = true;
        }
        self.stage = Stage::TlsProcess;
        Action::ProcessTls
    }

    fn on_tls_process(&mut self, input: Input) -> (a: Action)
        ensures
            (final(self)@, a) == on_tls_process(old(self)@, input),
    {
        match input {
            Input::Tls(TlsVerdict::Accepted)
            | Input::Tls(TlsVerdict::CertificateUnknown)
            | Input::Tls(TlsVerdict::CertificateExpired) => {},
            _ => {
                self.closing = true;
            },
        }
        self.advance(4)
    }

    fn set_forward_adress(&mut self) -> (a: Action)
        ensures
            (final(self)@, a) == request_whole(old(self)@),
    {
        if self.buf_forward.len() == 0 {
            self.advance(5)
        } else if !self.forward_host.as_str().is_empty() {
            self.stage = Stage::CacheLookup;
            Action::LookupCache
        } else {
            match read_head(&self.buf_forward) {
                HeadStatus::Routed(r) => {
                    self.request_host = r.host;
                    self.http_get_path = r.path;
                    self.stage = Stage::CacheLookup;
                    Action::LookupCache
                },
                HeadStatus::Incomplete => self.advance(5),
                HeadStatus::Malformed => {
                    self.closing = true;
                    self.advance(5)
                },
            }
        }
    }

    fn client_reader(&mut self, input: Input) -> (a: Action)
        ensures
            (final(self)@, a) == on_client_read(old(self)@, input),
    {
        match input {
            Input::Bytes(d) => {
                let mut d = d;
                let limit: usize = if self.do_tls {
                    TLS_CHUNK
                } else {
                    PLAIN_CHUNK
                };
                let short = d.len() < limit;
                self.activity_timeout = None;
                self.bytes_sent = self.bytes_sent.saturating_add(d.len());
                self.buf_forward.append(&mut d);
                if short {
                    self.set_forward_adress()
                } else {
                    Action::ReadClient
                }
            },
            Input::WouldBlock => self.set_forward_adress(),
            Input::Interrupted => Action::ReadClient,
            _ => {
                self.closing = true;
                self.advance(5)
            },
        }
    }

    fn activate_forward_stream(&mut self, forwards: &ForwardTable) -> (a: Action)
        requires
            forwards.wf(),
        ensures
            (final(self)@, a) == activate_forward_stream(old(self)@, *forwards),
    {
        let mut whole: Vec<u8> = Vec::new();
        whole.append(&mut self.buf_forward);
        assert(whole@ =~= old(self)@.request);
        push_chunk(&mut self.send_to_forward, whole);
        if self.forward_stream {
            self.rearm_forward = Some(Interest { readable: false, writable: true });
            self.advance(5)
        } else {
            match forwards.resolve(self.request_host.as_str()) {
                Some(address) => {
                    self.forward_host = address.clone();
                    self.stage = Stage::Connecting;
                    Action::ConnectBackend
                },
                None => {
                    self.closing = true;
                    self.advance(5)
                },
            }
        }
    }

    fn on_cache_lookup(&mut self, input: Input, forwards: &ForwardTable) -> (a: Action)
        requires
            forwards.wf(),
        ensures
            (final(self)@, a) == on_cache_lookup(old(self)@, input, *forwards),
    {
        match input {
            Input::Cached(Some(body)) => {
                push_chunk(&mut self.send_to_client, body);
                self.buf_forward.clear();
                self.advance(5)
            },
            _ => self.activate_forward_stream(forwards),
        }
    }

    fn on_connecting(&mut self, input: Input) -> (a: Action)
        ensures
            (final(self)@, a) == on_connecting(old(self)@, input),
    {
        match input {
            Input::Connected(true) => {
                self.forward_stream = true;
                self.rearm_forward = None;
            },
            _ => {
                self.closing = true;
            },
        }
        self.advance(5)
    }

    fn client_wrote(&mut self, n: usize, now: u64) -> (a: Action)
        ensures
            (final(self)@, a) == on_client_write(old(self)@, Input::Moved(n), now),
    {
        if self.send_to_client.len() == 0 {
            return self.finish();
        }
        assert(chunks(self.send_to_client@)[0] == self.send_to_client@[0]@);
        let whole: usize = self.send_to_client[0].len();
        if n >= whole {
            pop_chunk(&mut self.send_to_client);
            self.bytes_received = self.bytes_received.saturating_add(whole);
            self.activity_timeout = Some(now);
            self.finish()
        } else if n == 0 {
            self.closing = true;
            self.finish()
        } else {
            cut_chunk(&mut self.send_to_client, n);
            self.bytes_received = self.bytes_received.saturating_add(n);
            Action::WriteClient
        }
    }

    fn client_writer(&mut self, input: Input, now: u64) -> (a: Action)
        ensures
            (final(self)@, a) == on_client_write(old(self)@, input, now),
    {
        match input {
            Input::Moved(n) => self.client_wrote(n, now),
            Input::WouldBlock => self.finish(),
            Input::Interrupted => Action::WriteClient,
            _ => {
                self.closing = true;
                self.finish()
            },
        }
    }

    /// Carries out one step: takes in what the driver reports and says what
    /// it is to do next.
    pub fn step(&mut self, input: Input, now: u64, forwards: &ForwardTable) -> (a: Action)
        requires
            forwards.wf(),
        ensures
            (final(self)@, a) == step(old(self)@, input, now, *forwards),
    {
        if self.done_closing {
            return Action::Gone;
        }
        match self.stage {
            Stage::Idle => self.on_idle(input, now),
            Stage::BackendWrite => self.forward_writer(input),
            Stage::BackendRead => self.forward_reader(input),
            Stage::BackendDrop => self.advance(2),
            Stage::CacheRecord => self.on_cache_record(),
            Stage::TlsWrite => self.on_tls_write(input),
            Stage::TlsRead => self.on_tls_read(input),
            Stage::TlsProcess => self.on_tls_process(input),
            Stage::ClientRead => self.client_reader(input),
            Stage::CacheLookup => self.on_cache_lookup(input, forwards),
            Stage::Connecting => self.on_connecting(input),
            Stage::ClientWrite => self.client_writer(input, now),
        }
    }

    /// Handles what the driver reports, and consults the cache on the way:
    /// where the step asks for a cache lookup or a cache record, the call is
    /// made on `cacher` and the session goes on with its answer.
    pub fn handle_connection_event<C: Cacher>(
        &mut self,
        input: Input,
        now: u64,
        forwards: &ForwardTable,
        cacher: &mut C,
    ) -> (a: Action)
        requires
            forwards.wf(),
        ensures
            served(old(self)@, input, now, *forwards, final(self)@, a),
            !asks_cache(a),
    {
        let ghost start = self@;
        let first = self.step(input, now, forwards);
        let ghost mid = self@;
        assert((mid, first) == step(start, input, now, *forwards));
        proof {
            if !start.closed {
                law_step_is_orderly(start, input, now, *forwards);
                if asks_cache(first) {
                    law_cache_is_asked_once(mid, Input::Done, now, *forwards);
                }
            }
        }
        match first {
            Action::LookupCache => {
                let found = cacher.cache_read_path(
                    self.request_host.as_str(),
                    self.http_get_path.as_str(),
                );
                let found: Option<Vec<u8>> = *found;
                let ghost answer = found;
                proof {
                    law_cache_is_asked_once(mid, Input::Cached(answer), now, *forwards);
                }
                let a = self.step(Input::Cached(found), now, forwards);
                assert((self@, a) == served_with(start, input, now, *forwards, answer));
                a
            },
            Action::RecordCache => {
                let _ = cacher.cache_update_and_test_path(
                    self.request_host.as_str(),
                    self.forward_host.as_str(),
                    self.http_get_path.as_str(),
                    &self.buf_client,
                );
                let a = self.step(Input::Done, now, forwards);
                assert((self@, a) == served_with(start, input, now, *forwards, None));
                a
            },
            other => {
                assert((self@, other) == served_with(start, input, now, *forwards, None));
                other
            },
        }
    }
}

} // verus!
