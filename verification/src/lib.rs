//! A TLS-terminating reverse proxy that routes by host name, as a library of
//! decisions: the session state machine, the event loop's tables, the
//! forward lookup table and the certificate resolver, each on plain values.

pub mod cache_iterator;
pub mod cacher;
pub mod cert_database;
pub mod connection_source;
pub mod credentials;
pub mod event_loop;
pub mod forward_table;
pub mod http_head;
pub mod name_map;
pub mod outcome;
pub mod session_laws;
pub mod session_model;
pub mod settings;
pub mod sni_resolver;
pub mod text;
