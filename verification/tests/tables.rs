use sni_proxy::cacher::Cacher;
use sni_proxy::event_loop::{EventLoop, Route, FIRST_TOKEN, HTTPS_SERVER, HTTP_SERVER};
use sni_proxy::cert_database::{CertDomainName, Certificate};
use sni_proxy::forward_table::{get_forwards, is_loopback, ForwardTable};
use sni_proxy::name_map::NameMap;
use sni_proxy::session_model::{Action, Event, Input, Interest};
use sni_proxy::settings::{alpn_protocols, http_bind, https_bind, POLL_TIMEOUT_MS};
use sni_proxy::sni_resolver::{
    add_certificate_to_resolver, MariaSNIResolver, MyResolvesServerCertUsingSNI,
};

struct NoCache;

impl Cacher for NoCache {
    fn cache_update_and_test_path(
        &mut self,
        _host: &str,
        _forward: &str,
        _http_path: &str,
        _data: &Vec<u8>,
    ) -> std::io::Result<bool> {
        Ok(true)
    }

    fn cache_read_path(&self, _host: &str, _http_path: &str) -> Box<Option<Vec<u8>>> {
        Box::new(None)
    }
}

fn record(id: i32, forward: &str, names: &[&str]) -> Certificate {
    Certificate {
        id,
        fullchain: String::new(),
        privkey: String::new(),
        forward: forward.to_string(),
        active: "1".to_string(),
        domain_names: Some(
            names
                .iter()
                .map(|n| CertDomainName {
                    id: 0,
                    cert_id: id,
                    dn: n.to_string(),
                    ca_primary: String::new(),
                })
                .collect(),
        ),
    }
}

fn readable_on(token: usize) -> Input {
    Input::Ready {
        event: Event {
            token,
            readable: true,
            writable: false,
            error: false,
            read_closed: false,
            write_closed: false,
        },
        tls_wants_write: false,
    }
}

#[test]
fn name_map_replaces_and_finds() {
    let mut m: NameMap<u32> = NameMap::new();
    assert!(m.is_empty());
    m.insert("a.example".to_string(), 1);
    m.insert("b.example".to_string(), 2);
    m.insert("a.example".to_string(), 3);
    assert_eq!(m.len(), 2);
    assert_eq!(m.get("a.example"), Some(&3));
    assert_eq!(m.get("b.example"), Some(&2));
    assert_eq!(m.get("c.example"), None);
    assert!(m.contains_key("b.example"));
    assert!(!m.contains_key("B.example"));
}

#[test]
fn forward_table_maps_hosts_and_falls_back() {
    let mut with_default = ForwardTable::new(Some("192.168.1.9:80".to_string()));
    with_default.insert("example.com".to_string(), "10.0.0.5:8080".to_string());
    assert_eq!(with_default.resolve("example.com"), Some(&"10.0.0.5:8080".to_string()));
    assert_eq!(with_default.resolve("other.org"), Some(&"192.168.1.9:80".to_string()));
    assert_eq!(with_default.get("other.org"), None);

    let mut without = ForwardTable::new(None);
    without.insert("example.com".to_string(), "10.0.0.5:8080".to_string());
    assert_eq!(without.resolve("example.com"), Some(&"10.0.0.5:8080".to_string()));
    assert_eq!(without.resolve("other.org"), None);
    assert_eq!(without.resolve(""), None);
}

#[test]
fn forwards_leave_out_loopback_backends() {
    let certs = vec![
        record(1, "10.0.0.5:8080", &["example.com", "www.example.com"]),
        record(2, "127.0.0.1:8080", &["self.example"]),
        record(3, "localhost:9000", &["local.example"]),
        record(4, "10.0.127.5:80", &["inner.example"]),
        record(5, "10.0.0.6:80", &["example.com"]),
    ];
    let table = get_forwards(&certs, None);
    assert_eq!(table.get("www.example.com"), Some(&"10.0.0.5:8080".to_string()));
    assert_eq!(table.get("example.com"), Some(&"10.0.0.6:80".to_string()));
    assert_eq!(table.get("self.example"), None);
    assert_eq!(table.get("local.example"), None);
    assert_eq!(table.get("inner.example"), Some(&"10.0.127.5:80".to_string()));
}

#[test]
fn forwards_skip_records_without_names() {
    let mut nameless = record(1, "10.0.0.5:8080", &[]);
    nameless.domain_names = None;
    let table = get_forwards(&vec![nameless], Some("10.0.0.1:80".to_string()));
    assert_eq!(table.get("example.com"), None);
    assert_eq!(table.resolve("example.com"), Some(&"10.0.0.1:80".to_string()));
}

#[test]
fn loopback_addresses_are_recognised() {
    assert!(is_loopback("127.0.0.1:80"));
    assert!(is_loopback("127.1.2.3"));
    assert!(is_loopback("localhost:8080"));
    assert!(is_loopback("[::1]:443"));
    assert!(!is_loopback("10.0.0.5:8080"));
    assert!(!is_loopback("1.127.0.1:80"));
    assert!(!is_loopback(""));
}

#[test]
fn first_credential_is_the_default() {
    let mut r: MyResolvesServerCertUsingSNI<&'static str> = MyResolvesServerCertUsingSNI::new();
    assert_eq!(r.resolve(Some("example.com")), None);
    assert_eq!(r.resolve(None), None);
    assert!(r.add("example.com", "first").is_ok());
    assert!(r.add("other.org", "second").is_ok());
    assert_eq!(r.resolve(Some("example.com")), Some(&"first"));
    assert_eq!(r.resolve(Some("other.org")), Some(&"second"));
    assert_eq!(r.resolve(Some("unknown.net")), Some(&"first"));
    assert_eq!(r.resolve(None), Some(&"first"));
    assert!(r.add("example.com", "third").is_ok());
    assert_eq!(r.resolve(Some("example.com")), Some(&"third"));
    assert_eq!(r.resolve(Some("unknown.net")), Some(&"first"));
}

#[test]
fn one_credential_serves_all_its_names() {
    let mut r: MyResolvesServerCertUsingSNI<u8> = MyResolvesServerCertUsingSNI::new();
    add_certificate_to_resolver(
        "domain.name.com",
        &vec!["www.domain.name.com".to_string(), "alt.name.com".to_string()],
        7,
        &mut r,
    );
    r.add_with_alternates("other-domain.name.com", &Vec::new(), 9);
    assert_eq!(r.resolve(Some("domain.name.com")), Some(&7));
    assert_eq!(r.resolve(Some("www.domain.name.com")), Some(&7));
    assert_eq!(r.resolve(Some("alt.name.com")), Some(&7));
    assert_eq!(r.resolve(Some("other-domain.name.com")), Some(&9));
    assert_eq!(r.resolve(Some("nobody.name.com")), Some(&7));
}

#[test]
fn records_resolve_by_name_and_configured_default() {
    let certs = vec![
        record(1, "10.0.0.5:8080", &["example.com", "www.example.com"]),
        record(2, "10.0.0.6:80", &["other.org"]),
    ];
    let mut r: MariaSNIResolver<String> = MariaSNIResolver::new();
    r.populate(&certs, vec!["key-1".to_string(), "key-2".to_string()], Some("2".to_string()));
    assert_eq!(r.resolve(Some("www.example.com")), Some(&"key-1".to_string()));
    assert_eq!(r.resolve(Some("other.org")), Some(&"key-2".to_string()));
    assert_eq!(r.resolve(Some("unknown.net")), Some(&"key-2".to_string()));
    assert_eq!(r.resolve(None), Some(&"key-2".to_string()));
}

#[test]
fn records_without_default_give_none_for_unknown_names() {
    let certs = vec![record(1, "10.0.0.5:8080", &["example.com"])];
    let mut r: MariaSNIResolver<u32> = MariaSNIResolver::new();
    r.populate(&certs, vec![11], None);
    assert_eq!(r.resolve(Some("example.com")), Some(&11));
    assert_eq!(r.resolve(Some("unknown.net")), None);
    assert_eq!(r.resolve(None), None);
    let mut other: MariaSNIResolver<u32> = MariaSNIResolver::new();
    other.populate(&certs, vec![11], Some("5".to_string()));
    assert_eq!(other.resolve(Some("unknown.net")), None);
    let mut padded: MariaSNIResolver<u32> = MariaSNIResolver::new();
    padded.populate(&certs, vec![11], Some("01".to_string()));
    assert_eq!(padded.resolve(Some("unknown.net")), None);
}

#[test]
fn later_record_with_same_id_replaces_the_credential() {
    let certs = vec![
        record(1, "10.0.0.5:8080", &["example.com"]),
        record(1, "10.0.0.5:8080", &["www.example.com"]),
        record(3, "10.0.0.7:80", &["spare.example"]),
    ];
    let mut r: MariaSNIResolver<u32> = MariaSNIResolver::new();
    r.populate(&certs, vec![10, 20], Some("1".to_string()));
    assert_eq!(r.resolve(Some("example.com")), Some(&20));
    assert_eq!(r.resolve(Some("www.example.com")), Some(&20));
    assert_eq!(r.resolve(Some("spare.example")), Some(&20));
    assert_eq!(r.resolve(None), Some(&20));
}

#[test]
fn accepted_connections_get_fresh_token_pairs() {
    let mut l = EventLoop::new();
    assert_eq!(l.len(), 0);
    assert_eq!(l.do_server_accept(false), Some(FIRST_TOKEN));
    assert_eq!(l.do_server_accept(true), Some(4));
    assert_eq!(l.len(), 2);
    let first = l.session(2).unwrap();
    assert_eq!(first.server_token(), 2);
    assert_eq!(first.forward_token(), 3);
    assert!(!first.do_tls());
    let second = l.session(4).unwrap();
    assert_eq!(second.forward_token(), 5);
    assert!(second.do_tls());
    assert!(l.session(3).is_none());
}

#[test]
fn tokens_lead_to_listeners_and_sessions() {
    let mut l = EventLoop::new();
    l.do_server_accept(false);
    assert_eq!(l.route(HTTPS_SERVER), Route::Listener { tls: true });
    assert_eq!(l.route(HTTP_SERVER), Route::Listener { tls: false });
    assert_eq!(l.route(2), Route::Session(2));
    assert_eq!(l.route(3), Route::Session(2));
    assert_eq!(l.route(4), Route::Unknown);
    assert_eq!(l.route(5), Route::Unknown);
}

#[test]
fn discarded_session_leaves_no_token_behind() {
    let mut l = EventLoop::new();
    l.do_server_accept(false);
    l.do_server_accept(false);
    l.discard(2);
    assert_eq!(l.route(2), Route::Unknown);
    assert_eq!(l.route(3), Route::Unknown);
    assert_eq!(l.route(5), Route::Session(4));
    assert_eq!(l.len(), 1);
    l.discard(2);
    assert_eq!(l.len(), 1);
    assert_eq!(l.do_server_accept(false), Some(6));
}

#[test]
fn dispatch_reaches_the_session_and_forgets_it_when_closed() {
    let mut l = EventLoop::new();
    let table = ForwardTable::new(None);
    let mut cache = NoCache;
    l.do_server_accept(false);
    let a = l.dispatch(2, readable_on(2), 0, &table, &mut cache);
    assert_eq!(a, Action::ReadClient);
    let a = l.dispatch(
        2,
        Input::Bytes(b"GET / HTTP/1.1\r\nHost: nowhere.example\r\n\r\n".to_vec()),
        0,
        &table,
        &mut cache,
    );
    assert_eq!(a, Action::Close);
    assert_eq!(l.len(), 0);
    assert_eq!(l.route(2), Route::Unknown);
    assert_eq!(l.route(3), Route::Unknown);
    let a = l.dispatch(2, readable_on(2), 1, &table, &mut cache);
    assert_eq!(a, Action::Gone);
}

#[test]
fn dispatch_by_backend_token_finds_the_session() {
    let mut l = EventLoop::new();
    let mut table = ForwardTable::new(None);
    table.insert("example.com".to_string(), "10.0.0.5:8080".to_string());
    let mut cache = NoCache;
    l.do_server_accept(false);
    l.dispatch(2, readable_on(2), 0, &table, &mut cache);
    let a = l.dispatch(
        2,
        Input::Bytes(b"GET / HTTP/1.1\r\nHost: example.com\r\n\r\n".to_vec()),
        0,
        &table,
        &mut cache,
    );
    assert_eq!(a, Action::ConnectBackend);
    let a = l.dispatch(2, Input::Connected(true), 0, &table, &mut cache);
    assert_eq!(
        a,
        Action::Park { client: Some(Interest { readable: true, writable: true }), backend: None }
    );
    let writable = Input::Ready {
        event: Event {
            token: 3,
            readable: false,
            writable: true,
            error: false,
            read_closed: false,
            write_closed: false,
        },
        tls_wants_write: false,
    };
    let a = l.dispatch(3, writable, 1, &table, &mut cache);
    assert_eq!(a, Action::WriteBackend);
    assert_eq!(l.session(2).unwrap().forward_host(), "10.0.0.5:8080");
}

struct OneAnswer;

impl Cacher for OneAnswer {
    fn cache_update_and_test_path(
        &mut self,
        _host: &str,
        _forward: &str,
        _http_path: &str,
        _data: &Vec<u8>,
    ) -> std::io::Result<bool> {
        Ok(true)
    }

    fn cache_read_path(&self, _host: &str, _http_path: &str) -> Box<Option<Vec<u8>>> {
        Box::new(Some(b"stored".to_vec()))
    }
}

#[test]
fn idle_sessions_expire_through_the_loop() {
    let mut l = EventLoop::new();
    let table = ForwardTable::new(None);
    let mut cache = OneAnswer;
    l.do_server_accept(false);
    l.do_server_accept(false);
    let a = l.dispatch(2, Input::Tick, 10_000, &table, &mut cache);
    assert_eq!(a, Action::Park { client: None, backend: None });
    assert_eq!(l.expired(10_000), Vec::<usize>::new());

    let both_ready = Input::Ready {
        event: Event {
            token: 4,
            readable: true,
            writable: true,
            error: false,
            read_closed: false,
            write_closed: false,
        },
        tls_wants_write: false,
    };
    assert_eq!(l.dispatch(4, both_ready, 1000, &table, &mut cache), Action::ReadClient);
    let request = b"GET / HTTP/1.1\r\nHost: example.com\r\n\r\n".to_vec();
    assert_eq!(l.dispatch(4, Input::Bytes(request), 1000, &table, &mut cache), Action::WriteClient);
    let a = l.dispatch(4, Input::Moved(6), 1000, &table, &mut cache);
    assert!(matches!(a, Action::Park { .. }));
    assert_eq!(l.session(4).unwrap().activity_timeout(), Some(1000));

    assert_eq!(l.expired(1300), Vec::<usize>::new());
    assert_eq!(l.expired(1301), vec![4]);
    assert_eq!(l.dispatch(4, Input::Tick, 1301, &table, &mut cache), Action::Close);
    assert_eq!(l.len(), 1);
    assert_eq!(l.expired(5000), Vec::<usize>::new());
    assert_eq!(l.route(2), Route::Session(2));
}

#[test]
fn listeners_bind_to_defaults_unless_configured() {
    assert_eq!(http_bind(None), "0.0.0.0:80");
    assert_eq!(https_bind(None), "0.0.0.0:443");
    assert_eq!(http_bind(Some("127.0.0.1:8080".to_string())), "127.0.0.1:8080");
    assert_eq!(https_bind(Some("127.0.0.1:8443".to_string())), "127.0.0.1:8443");
    assert_eq!(alpn_protocols(), vec!["http/1.2".to_string(), "http/1.1".to_string()]);
    assert_eq!(POLL_TIMEOUT_MS, 500);
}
