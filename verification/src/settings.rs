//! What the proxy is started with.

use vstd::prelude::*;

verus! {

/// Longest time, in milliseconds, that one poll may wait for events, so that
/// idle sessions are looked at even when nothing happens.
pub const POLL_TIMEOUT_MS: u64 = 500;

/// Number of events that one poll may deliver.
pub const EVENT_CAPACITY: usize = 16192;

/// The address that a listener binds to: the configured one, or the default.
pub open spec fn bound<'a>(configured: Option<String>, default: &'a str) -> Seq<char> {
    match configured {
        Some(a) => a@,
        None => default@,
    }
}

/// The address of the listener for plain connections: the configured one, or
/// port 80 on every interface.
pub fn http_bind(configured: Option<String>) -> (r: String)
    ensures
        r@ == bound(configured, "0.0.0.0:80"),
{
    match configured {
        Some(a) => a,
        None => "0.0.0.0:80".to_owned(),
    }
}

/// The address of the listener for TLS connections: the configured one, or
/// port 443 on every interface.
pub fn https_bind(configured: Option<String>) -> (r: String)
    ensures
        r@ == bound(configured, "0.0.0.0:443"),
{
    match configured {
        Some(a) => a,
        None => "0.0.0.0:443".to_owned(),
    }
}

/// The protocols that the TLS listener offers, in order of preference.
pub open spec fn offered_protocols() -> Seq<Seq<char>> {
    seq!["http/1.2"@, "http/1.1"@]
}

/// The protocols that the TLS listener offers, in order of preference.
pub fn alpn_protocols() -> (r: Vec<String>)
    ensures
        r@.len() == 2,
        r@[0]@ == offered_protocols()[0],
        r@[1]@ == offered_protocols()[1],
{
    let mut r: Vec<String> = Vec::new();
    r.push("http/1.2".to_owned());
    r.push("http/1.1".to_owned());
    r
}

} // verus!
