use sni_proxy::cache_iterator::CacheIterator;
use sni_proxy::cacher::Cacher;
use sni_proxy::connection_source::ConnectionSource;
use sni_proxy::forward_table::ForwardTable;
use sni_proxy::session_model::{
    Action, CloseStep, Event, Input, Interest, Leg, Stage, TlsVerdict, BACKEND_CHUNK,
    IDLE_LIMIT_MS, PLAIN_CHUNK, TLS_CHUNK,
};

struct MemoryCache {
    stored: Vec<(String, String, Vec<u8>)>,
    recorded: Vec<(String, String, String, Vec<u8>)>,
    lookups: usize,
}

impl MemoryCache {
    fn empty() -> MemoryCache {
        MemoryCache { stored: Vec::new(), recorded: Vec::new(), lookups: 0 }
    }

    fn with(host: &str, path: &str, body: Vec<u8>) -> MemoryCache {
        MemoryCache {
            stored: vec![(host.to_string(), path.to_string(), body)],
            recorded: Vec::new(),
            lookups: 0,
        }
    }
}

impl Cacher for MemoryCache {
    fn cache_update_and_test_path(
        &mut self,
        host: &str,
        forward: &str,
        http_path: &str,
        data: &Vec<u8>,
    ) -> std::io::Result<bool> {
        self.recorded.push((
            host.to_string(),
            forward.to_string(),
            http_path.to_string(),
            data.clone(),
        ));
        Ok(true)
    }

    fn cache_read_path(&self, host: &str, http_path: &str) -> Box<Option<Vec<u8>>> {
        for (h, p, body) in &self.stored {
            if h == host && p == http_path {
                return Box::new(Some(body.clone()));
            }
        }
        Box::new(None)
    }
}

fn ready(token: usize, readable: bool, writable: bool) -> Input {
    Input::Ready {
        event: Event {
            token,
            readable,
            writable,
            error: false,
            read_closed: false,
            write_closed: false,
        },
        tls_wants_write: false,
    }
}

fn both() -> Interest {
    Interest { readable: true, writable: true }
}

fn example_table(default_forward: Option<&str>) -> ForwardTable {
    let mut table = ForwardTable::new(default_forward.map(|d| d.to_string()));
    table.insert("example.com".to_string(), "10.0.0.5:8080".to_string());
    table
}

fn example_request() -> Vec<u8> {
    b"GET /index.html HTTP/1.1\r\nHost: example.com\r\n\r\n".to_vec()
}

#[test]
fn plain_request_is_forwarded_and_answer_relayed() {
    let table = example_table(None);
    let mut cache = MemoryCache::empty();
    let mut s = ConnectionSource::new(2, 3, false);
    let request = example_request();
    let answer = b"HTTP/1.1 200 OK\r\ncontent-length: 5\r\n\r\nhello".to_vec();

    let a = s.handle_connection_event(ready(2, true, false), 0, &table, &mut cache);
    assert_eq!(a, Action::ReadClient);
    let a = s.handle_connection_event(Input::Bytes(request.clone()), 0, &table, &mut cache);
    assert_eq!(a, Action::ConnectBackend);
    assert_eq!(s.forward_host(), "10.0.0.5:8080");
    assert_eq!(s.request_host(), "example.com");
    assert_eq!(s.http_get_path(), "/index.html");
    assert_eq!(s.bytes_from_client(), request.len());
    assert!(!s.backend_open());
    let a = s.handle_connection_event(Input::Connected(true), 0, &table, &mut cache);
    assert_eq!(a, Action::Park { client: Some(both()), backend: None });
    assert!(s.backend_open());
    assert_eq!(s.stage(), Stage::Idle);

    let a = s.handle_connection_event(ready(3, false, true), 1, &table, &mut cache);
    assert_eq!(a, Action::WriteBackend);
    assert_eq!(s.backend_chunk(), Some(&request));
    let a = s.handle_connection_event(Input::Moved(request.len()), 1, &table, &mut cache);
    assert_eq!(a, Action::Park { client: None, backend: Some(both()) });
    assert_eq!(s.backend_queue_len(), 0);

    let a = s.handle_connection_event(ready(3, true, false), 2, &table, &mut cache);
    assert_eq!(a, Action::ReadBackend);
    let a = s.handle_connection_event(Input::Bytes(answer.clone()), 2, &table, &mut cache);
    assert_eq!(a, Action::ReadClient);
    assert_eq!(cache.recorded.len(), 1);
    assert_eq!(
        cache.recorded[0],
        (
            "example.com".to_string(),
            "10.0.0.5:8080".to_string(),
            "/index.html".to_string(),
            answer.clone()
        )
    );
    let a = s.handle_connection_event(Input::WouldBlock, 2, &table, &mut cache);
    assert_eq!(a, Action::Park { client: None, backend: Some(both()) });
    assert_eq!(s.client_chunk(), Some(&answer));

    let a = s.handle_connection_event(ready(2, false, true), 3, &table, &mut cache);
    assert_eq!(a, Action::WriteClient);
    let a = s.handle_connection_event(Input::Moved(answer.len()), 3, &table, &mut cache);
    assert_eq!(a, Action::Park { client: Some(both()), backend: None });
    assert_eq!(s.client_queue_len(), 0);
    assert_eq!(s.bytes_to_client(), answer.len());
    assert_eq!(s.activity_timeout(), Some(3));
    assert!(!s.is_closing());
}

#[test]
fn cached_response_is_served_without_backend() {
    let table = example_table(None);
    let stored = CacheIterator::http_get_file(&Vec::new(), &b"hi".to_vec());
    let mut cache = MemoryCache::with("example.com", "/index.html", stored);
    let mut s = ConnectionSource::new(2, 3, false);
    let expected =
        b"HTTP/1.1 200 OK\r\nServer: SNI-PROXY-CACHE/0.0.1\r\ncontent-length: 2\r\n\r\nhi".to_vec();

    let a = s.handle_connection_event(ready(2, true, true), 0, &table, &mut cache);
    assert_eq!(a, Action::ReadClient);
    let a = s.handle_connection_event(Input::Bytes(example_request()), 0, &table, &mut cache);
    assert_eq!(a, Action::WriteClient);
    assert_eq!(s.client_chunk(), Some(&expected));
    assert!(!s.backend_open());
    assert_eq!(s.forward_host(), "");
    assert_eq!(s.backend_queue_len(), 0);
    let a = s.handle_connection_event(Input::Moved(expected.len()), 0, &table, &mut cache);
    assert_eq!(a, Action::Park { client: Some(both()), backend: None });
    assert!(cache.recorded.is_empty());
}

#[test]
fn repeated_cached_requests_give_identical_bytes() {
    let table = example_table(None);
    let stored = CacheIterator::http_get_file(&Vec::new(), &b"hi".to_vec());
    let mut cache = MemoryCache::with("example.com", "/index.html", stored.clone());
    let mut s = ConnectionSource::new(2, 3, false);
    for round in 0..3u64 {
        let a = s.handle_connection_event(ready(2, true, true), round, &table, &mut cache);
        assert_eq!(a, Action::ReadClient);
        let a =
            s.handle_connection_event(Input::Bytes(example_request()), round, &table, &mut cache);
        assert_eq!(a, Action::WriteClient);
        assert_eq!(s.client_chunk(), Some(&stored));
        let a =
            s.handle_connection_event(Input::Moved(stored.len()), round, &table, &mut cache);
        assert!(matches!(a, Action::Park { .. }));
        assert!(!s.backend_open());
    }
}

#[test]
fn unknown_host_goes_to_default_backend() {
    let table = example_table(Some("192.168.1.9:80"));
    let mut cache = MemoryCache::empty();
    let mut s = ConnectionSource::new(4, 5, false);
    let request = b"GET / HTTP/1.1\r\nHost: other.org\r\n\r\n".to_vec();
    s.handle_connection_event(ready(4, true, false), 0, &table, &mut cache);
    let a = s.handle_connection_event(Input::Bytes(request), 0, &table, &mut cache);
    assert_eq!(a, Action::ConnectBackend);
    assert_eq!(s.forward_host(), "192.168.1.9:80");
    assert_eq!(s.request_host(), "other.org");
}

#[test]
fn unknown_host_without_default_closes() {
    let table = example_table(None);
    let mut cache = MemoryCache::empty();
    let mut s = ConnectionSource::new(4, 5, false);
    let request = b"GET / HTTP/1.1\r\nHost: other.org\r\n\r\n".to_vec();
    s.handle_connection_event(ready(4, true, false), 0, &table, &mut cache);
    let a = s.handle_connection_event(Input::Bytes(request), 0, &table, &mut cache);
    assert_eq!(a, Action::Close);
    assert!(s.is_closed());
    assert!(!s.backend_open());
}

#[test]
fn head_is_awaited_across_reads() {
    let table = example_table(None);
    let mut cache = MemoryCache::empty();
    let mut s = ConnectionSource::new(2, 3, false);
    s.handle_connection_event(ready(2, true, false), 0, &table, &mut cache);
    let a = s.handle_connection_event(
        Input::Bytes(b"GET /index.html HTTP/1.1\r\nHo".to_vec()),
        0,
        &table,
        &mut cache,
    );
    assert_eq!(a, Action::Park { client: Some(both()), backend: None });
    assert_eq!(s.request().len(), 28);
    assert_eq!(s.request_host(), "");
    s.handle_connection_event(ready(2, true, false), 1, &table, &mut cache);
    let a = s.handle_connection_event(
        Input::Bytes(b"st: example.com\r\n\r\n".to_vec()),
        1,
        &table,
        &mut cache,
    );
    assert_eq!(a, Action::ConnectBackend);
    assert_eq!(s.request_host(), "example.com");
    assert_eq!(s.backend_chunk(), Some(&example_request()));
}

#[test]
fn malformed_head_closes_the_session() {
    let table = example_table(Some("192.168.1.9:80"));
    let mut cache = MemoryCache::empty();
    let mut s = ConnectionSource::new(2, 3, false);
    s.handle_connection_event(ready(2, true, false), 0, &table, &mut cache);
    let a = s.handle_connection_event(
        Input::Bytes(b"\x01\x02 nonsense\r\n\r\n".to_vec()),
        0,
        &table,
        &mut cache,
    );
    assert_eq!(a, Action::Close);
    assert!(s.is_closing());
    assert!(s.is_closed());
}

#[test]
fn full_read_is_followed_by_another_read() {
    let table = example_table(None);
    let mut cache = MemoryCache::empty();
    let mut s = ConnectionSource::new(2, 3, false);
    s.handle_connection_event(ready(2, true, false), 0, &table, &mut cache);
    let a = s.handle_connection_event(
        Input::Bytes(vec![b'a'; PLAIN_CHUNK]),
        0,
        &table,
        &mut cache,
    );
    assert_eq!(a, Action::ReadClient);
    let a = s.handle_connection_event(Input::Interrupted, 0, &table, &mut cache);
    assert_eq!(a, Action::ReadClient);
    let a = s.handle_connection_event(Input::WouldBlock, 0, &table, &mut cache);
    assert_eq!(a, Action::Park { client: Some(both()), backend: None });
    assert_eq!(s.request().len(), PLAIN_CHUNK);
    assert_eq!(s.bytes_from_client(), PLAIN_CHUNK);
}

#[test]
fn partial_write_keeps_the_unwritten_rest() {
    let table = example_table(None);
    let body = b"0123456789".to_vec();
    let mut cache = MemoryCache::with("example.com", "/index.html", body.clone());
    let mut s = ConnectionSource::new(2, 3, false);
    s.handle_connection_event(ready(2, true, true), 0, &table, &mut cache);
    let a = s.handle_connection_event(Input::Bytes(example_request()), 0, &table, &mut cache);
    assert_eq!(a, Action::WriteClient);

    let mut delivered: Vec<u8> = Vec::new();
    delivered.extend_from_slice(&s.client_chunk().unwrap()[..4]);
    let a = s.handle_connection_event(Input::Moved(4), 0, &table, &mut cache);
    assert_eq!(a, Action::WriteClient);
    assert_eq!(s.client_chunk(), Some(&b"456789".to_vec()));
    let a = s.handle_connection_event(Input::WouldBlock, 0, &table, &mut cache);
    assert_eq!(a, Action::Park { client: Some(both()), backend: None });
    assert_eq!(s.client_chunk(), Some(&b"456789".to_vec()));
    assert!(!s.is_closing());
    assert_eq!(s.activity_timeout(), None);

    let a = s.handle_connection_event(ready(2, false, true), 1, &table, &mut cache);
    assert_eq!(a, Action::WriteClient);
    delivered.extend_from_slice(&s.client_chunk().unwrap()[..5]);
    let a = s.handle_connection_event(Input::Moved(5), 1, &table, &mut cache);
    assert_eq!(a, Action::WriteClient);
    let a = s.handle_connection_event(Input::Interrupted, 1, &table, &mut cache);
    assert_eq!(a, Action::WriteClient);
    delivered.extend_from_slice(&s.client_chunk().unwrap()[..1]);
    let a = s.handle_connection_event(Input::Moved(1), 1, &table, &mut cache);
    assert_eq!(a, Action::Park { client: Some(both()), backend: None });
    assert_eq!(delivered, body);
    assert_eq!(s.client_queue_len(), 0);
    assert_eq!(s.bytes_to_client(), 10);
    assert_eq!(s.activity_timeout(), Some(1));
}

#[test]
fn write_of_nothing_closes_the_session() {
    let table = example_table(None);
    let mut cache = MemoryCache::with("example.com", "/index.html", b"abc".to_vec());
    let mut s = ConnectionSource::new(2, 3, false);
    s.handle_connection_event(ready(2, true, true), 0, &table, &mut cache);
    s.handle_connection_event(Input::Bytes(example_request()), 0, &table, &mut cache);
    let a = s.handle_connection_event(Input::Moved(0), 0, &table, &mut cache);
    assert_eq!(a, Action::Close);
}

#[test]
fn failed_client_write_closes_the_session() {
    let table = example_table(None);
    let mut cache = MemoryCache::with("example.com", "/index.html", b"abc".to_vec());
    let mut s = ConnectionSource::new(2, 3, false);
    s.handle_connection_event(ready(2, true, true), 0, &table, &mut cache);
    s.handle_connection_event(Input::Bytes(example_request()), 0, &table, &mut cache);
    let a = s.handle_connection_event(Input::Failed, 0, &table, &mut cache);
    assert_eq!(a, Action::Close);
    assert!(s.is_closed());
}

#[test]
fn idle_session_is_closed_by_a_tick() {
    let table = example_table(None);
    let mut cache = MemoryCache::with("example.com", "/index.html", b"abc".to_vec());
    let mut s = ConnectionSource::new(2, 3, false);
    s.handle_connection_event(ready(2, true, true), 1000, &table, &mut cache);
    s.handle_connection_event(Input::Bytes(example_request()), 1000, &table, &mut cache);
    s.handle_connection_event(Input::Moved(3), 1000, &table, &mut cache);
    assert_eq!(s.activity_timeout(), Some(1000));

    let a = s.handle_connection_event(Input::Tick, 1000 + IDLE_LIMIT_MS, &table, &mut cache);
    assert_eq!(a, Action::Park { client: None, backend: None });
    assert!(!s.is_closing());
    let a = s.handle_connection_event(Input::Tick, 1001 + IDLE_LIMIT_MS, &table, &mut cache);
    assert_eq!(a, Action::Close);
    assert!(s.is_closed());
    let a = s.handle_connection_event(Input::Tick, 5000, &table, &mut cache);
    assert_eq!(a, Action::Gone);
    let a = s.handle_connection_event(ready(2, true, true), 5000, &table, &mut cache);
    assert_eq!(a, Action::Gone);
}

#[test]
fn new_request_disarms_the_timer() {
    let table = example_table(None);
    let mut cache = MemoryCache::with("example.com", "/index.html", b"abc".to_vec());
    let mut s = ConnectionSource::new(2, 3, false);
    s.handle_connection_event(ready(2, true, true), 1000, &table, &mut cache);
    s.handle_connection_event(Input::Bytes(example_request()), 1000, &table, &mut cache);
    s.handle_connection_event(Input::Moved(3), 1000, &table, &mut cache);
    assert_eq!(s.activity_timeout(), Some(1000));
    s.handle_connection_event(ready(2, true, false), 1100, &table, &mut cache);
    s.handle_connection_event(Input::Bytes(example_request()), 1100, &table, &mut cache);
    assert_eq!(s.activity_timeout(), None);
    let a = s.handle_connection_event(Input::Tick, 9000, &table, &mut cache);
    assert!(matches!(a, Action::Park { .. }) || a == Action::WriteClient);
    assert!(!s.is_closing());
}

fn session_with_backend(table: &ForwardTable, cache: &mut MemoryCache) -> ConnectionSource {
    let mut s = ConnectionSource::new(2, 3, false);
    s.handle_connection_event(ready(2, true, false), 0, table, cache);
    let a = s.handle_connection_event(Input::Bytes(example_request()), 0, table, cache);
    assert_eq!(a, Action::ConnectBackend);
    s.handle_connection_event(Input::Connected(true), 0, table, cache);
    assert!(s.backend_open());
    s
}

#[test]
fn backend_error_drops_only_the_backend() {
    let table = example_table(None);
    let mut cache = MemoryCache::empty();
    let mut s = session_with_backend(&table, &mut cache);
    let event = Event {
        token: 3,
        readable: false,
        writable: false,
        error: true,
        read_closed: false,
        write_closed: false,
    };
    let a = s.handle_connection_event(
        Input::Ready { event, tls_wants_write: false },
        1,
        &table,
        &mut cache,
    );
    assert_eq!(a, Action::DropBackend);
    assert!(!s.backend_open());
    assert!(!s.is_closing());
    let a = s.handle_connection_event(Input::Done, 1, &table, &mut cache);
    assert_eq!(a, Action::Park { client: None, backend: None });
    assert!(!s.is_closed());

    s.handle_connection_event(ready(2, true, false), 2, &table, &mut cache);
    let a = s.handle_connection_event(Input::Bytes(example_request()), 2, &table, &mut cache);
    assert_eq!(a, Action::ConnectBackend);
    assert_eq!(s.forward_host(), "10.0.0.5:8080");
    let a = s.handle_connection_event(Input::Connected(true), 2, &table, &mut cache);
    assert!(matches!(a, Action::Park { .. }));
    assert!(s.backend_open());
}

#[test]
fn backend_hangup_drops_only_the_backend() {
    let table = example_table(None);
    let mut cache = MemoryCache::empty();
    let mut s = session_with_backend(&table, &mut cache);
    let event = Event {
        token: 3,
        readable: true,
        writable: false,
        error: false,
        read_closed: true,
        write_closed: false,
    };
    let a = s.handle_connection_event(
        Input::Ready { event, tls_wants_write: false },
        1,
        &table,
        &mut cache,
    );
    assert_eq!(a, Action::DropBackend);
    assert!(!s.is_closing());
}

#[test]
fn failed_backend_read_drops_only_the_backend() {
    let table = example_table(None);
    let mut cache = MemoryCache::empty();
    let mut s = session_with_backend(&table, &mut cache);
    let a = s.handle_connection_event(ready(3, true, false), 1, &table, &mut cache);
    assert_eq!(a, Action::ReadBackend);
    let a = s.handle_connection_event(Input::Failed, 1, &table, &mut cache);
    assert_eq!(a, Action::DropBackend);
    assert!(!s.backend_open());
    assert!(!s.is_closing());
    let a = s.handle_connection_event(Input::Done, 1, &table, &mut cache);
    assert_eq!(a, Action::ReadClient);
}

#[test]
fn client_error_closes_at_once() {
    let table = example_table(None);
    let mut cache = MemoryCache::empty();
    let mut s = session_with_backend(&table, &mut cache);
    let event = Event {
        token: 2,
        readable: true,
        writable: true,
        error: true,
        read_closed: false,
        write_closed: false,
    };
    let a = s.handle_connection_event(
        Input::Ready { event, tls_wants_write: false },
        1,
        &table,
        &mut cache,
    );
    assert_eq!(a, Action::Close);
    assert!(s.is_closed());
    assert_eq!(
        s.close_all(),
        vec![
            CloseStep::FlushClient,
            CloseStep::ShutdownClient,
            CloseStep::ShutdownBackend,
            CloseStep::DeregisterBackend,
            CloseStep::DeregisterClient
        ]
    );
}

#[test]
fn client_hangup_closes_after_the_phases() {
    let table = example_table(None);
    let mut cache = MemoryCache::empty();
    let mut s = ConnectionSource::new(2, 3, false);
    let event = Event {
        token: 2,
        readable: true,
        writable: false,
        error: false,
        read_closed: true,
        write_closed: false,
    };
    let a = s.handle_connection_event(
        Input::Ready { event, tls_wants_write: false },
        1,
        &table,
        &mut cache,
    );
    assert_eq!(a, Action::ReadClient);
    assert!(s.is_closing());
    let a = s.handle_connection_event(Input::Bytes(Vec::new()), 1, &table, &mut cache);
    assert_eq!(a, Action::Close);
}

#[test]
fn tls_phases_run_in_order() {
    let table = example_table(None);
    let mut cache = MemoryCache::empty();
    let mut s = ConnectionSource::new(6, 7, true);
    let event = Event {
        token: 6,
        readable: true,
        writable: true,
        error: false,
        read_closed: false,
        write_closed: false,
    };
    let a = s.handle_connection_event(
        Input::Ready { event, tls_wants_write: true },
        0,
        &table,
        &mut cache,
    );
    assert_eq!(a, Action::WriteTls);
    let a = s.handle_connection_event(Input::Moved(90), 0, &table, &mut cache);
    assert_eq!(a, Action::ReadTls);
    let a = s.handle_connection_event(Input::Moved(120), 0, &table, &mut cache);
    assert_eq!(a, Action::ProcessTls);
    let a = s.handle_connection_event(Input::Tls(TlsVerdict::Accepted), 0, &table, &mut cache);
    assert_eq!(a, Action::ReadClient);
    let a = s.handle_connection_event(
        Input::Bytes(vec![b'x'; TLS_CHUNK]),
        0,
        &table,
        &mut cache,
    );
    assert_eq!(a, Action::ReadClient);
    let a = s.handle_connection_event(Input::WouldBlock, 0, &table, &mut cache);
    assert_eq!(a, Action::Park { client: Some(both()), backend: None });
    assert_eq!(
        s.close_all(),
        vec![
            CloseStep::FlushTls,
            CloseStep::SendCloseNotify,
            CloseStep::FlushClient,
            CloseStep::ShutdownClient,
            CloseStep::DeregisterClient
        ]
    );
}

#[test]
fn tolerated_alerts_keep_the_session() {
    let table = example_table(None);
    for verdict in [TlsVerdict::CertificateUnknown, TlsVerdict::CertificateExpired] {
        let mut cache = MemoryCache::empty();
        let mut s = ConnectionSource::new(6, 7, true);
        s.handle_connection_event(ready(6, true, false), 0, &table, &mut cache);
        let a = s.handle_connection_event(Input::WouldBlock, 0, &table, &mut cache);
        assert_eq!(a, Action::ProcessTls);
        let a = s.handle_connection_event(Input::Tls(verdict), 0, &table, &mut cache);
        assert_eq!(a, Action::ReadClient);
        assert!(!s.is_closing());
    }
}

#[test]
fn fatal_tls_error_closes_the_session() {
    let table = example_table(None);
    let mut cache = MemoryCache::empty();
    let mut s = ConnectionSource::new(6, 7, true);
    s.handle_connection_event(ready(6, true, false), 0, &table, &mut cache);
    s.handle_connection_event(Input::Moved(10), 0, &table, &mut cache);
    let a = s.handle_connection_event(Input::Tls(TlsVerdict::Fatal), 0, &table, &mut cache);
    assert_eq!(a, Action::ReadClient);
    assert!(s.is_closing());
    let a = s.handle_connection_event(Input::WouldBlock, 0, &table, &mut cache);
    assert_eq!(a, Action::Close);
}

#[test]
fn end_of_tls_stream_closes_the_session() {
    let table = example_table(None);
    let mut cache = MemoryCache::empty();
    let mut s = ConnectionSource::new(6, 7, true);
    s.handle_connection_event(ready(6, true, false), 0, &table, &mut cache);
    let a = s.handle_connection_event(Input::Moved(0), 0, &table, &mut cache);
    assert_eq!(a, Action::ProcessTls);
    assert!(s.is_closing());
}

#[test]
fn long_backend_answer_is_read_in_chunks() {
    let table = example_table(None);
    let mut cache = MemoryCache::empty();
    let mut s = session_with_backend(&table, &mut cache);
    s.handle_connection_event(ready(3, true, false), 1, &table, &mut cache);
    let a = s.handle_connection_event(
        Input::Bytes(vec![b'a'; BACKEND_CHUNK]),
        1,
        &table,
        &mut cache,
    );
    assert_eq!(a, Action::ReadBackend);
    let a = s.handle_connection_event(Input::Bytes(vec![b'b'; 10]), 1, &table, &mut cache);
    assert_eq!(a, Action::ReadClient);
    assert_eq!(s.client_chunk().map(|c| c.len()), Some(BACKEND_CHUNK + 10));
    assert_eq!(s.response().len(), 0);
}

#[test]
fn second_request_reuses_the_backend() {
    let table = example_table(None);
    let mut cache = MemoryCache::empty();
    let mut s = session_with_backend(&table, &mut cache);
    s.handle_connection_event(ready(2, true, false), 1, &table, &mut cache);
    let a = s.handle_connection_event(Input::Bytes(example_request()), 1, &table, &mut cache);
    assert_eq!(
        a,
        Action::Park {
            client: Some(both()),
            backend: Some(Interest { readable: false, writable: true })
        }
    );
    assert_eq!(s.backend_queue_len(), 2);
}

#[test]
fn failed_connect_closes_the_session() {
    let table = example_table(None);
    let mut cache = MemoryCache::empty();
    let mut s = ConnectionSource::new(2, 3, false);
    s.handle_connection_event(ready(2, true, false), 0, &table, &mut cache);
    s.handle_connection_event(Input::Bytes(example_request()), 0, &table, &mut cache);
    let a = s.handle_connection_event(Input::Connected(false), 0, &table, &mut cache);
    assert_eq!(a, Action::Close);
    assert!(!s.backend_open());
}

#[test]
fn step_leaves_cache_to_the_caller() {
    let table = example_table(None);
    let mut s = ConnectionSource::new(2, 3, false);
    let a = s.step(ready(2, true, false), 0, &table);
    assert_eq!(a, Action::ReadClient);
    let a = s.step(Input::Bytes(example_request()), 0, &table);
    assert_eq!(a, Action::LookupCache);
    assert_eq!(s.stage(), Stage::CacheLookup);
    let a = s.step(Input::Cached(Some(b"stored".to_vec())), 0, &table);
    assert_eq!(a, Action::Park { client: Some(both()), backend: None });
    assert_eq!(s.client_chunk(), Some(&b"stored".to_vec()));
}

#[test]
fn registration_goes_to_the_right_stream() {
    let table = example_table(None);
    let mut cache = MemoryCache::empty();
    let fresh = ConnectionSource::new(2, 3, false);
    let readable = Interest { readable: true, writable: false };
    assert_eq!(fresh.call_with_new_client(2, readable), Some((Leg::Client, readable)));
    assert_eq!(fresh.register(3), Some(Leg::Client));
    assert_eq!(fresh.server_token(), 2);
    assert_eq!(fresh.forward_token(), 3);
    assert!(!fresh.do_tls());
    let s = session_with_backend(&table, &mut cache);
    assert_eq!(s.register(3), Some(Leg::Backend));
    assert_eq!(s.register(2), Some(Leg::Client));
}
