//! From the results of I/O and of the TLS engine to what a session is told.

use crate::session_model::{Input, TlsVerdict};
use vstd::prelude::*;

verus! {

/// Tells the kinds of I/O errors apart, by `std::io::Error::kind`: would
/// block, interrupted, connection aborted, and the rest.
///
/// Trusted: the answer is one of `WouldBlock`, `Interrupted`, `Aborted` and
/// `Failed`.
#[verifier::external_body]
fn failure_of(e: &std::io::Error) -> (r: Input)
    ensures
        r is WouldBlock || r is Interrupted || r is Aborted || r is Failed,
{
    match e.kind() {
        std::io::ErrorKind::WouldBlock => Input::WouldBlock,
        std::io::ErrorKind::Interrupted => Input::Interrupted,
        std::io::ErrorKind::ConnectionAborted => Input::Aborted,
        _ => Input::Failed,
    }
}

/// Tells the errors of `rustls` apart: the two alerts about the certificate
/// that a session lets pass, and the rest.
///
/// Trusted: the answer is never `Accepted`.
#[verifier::external_body]
fn alert_of(e: &rustls::TLSError) -> (r: TlsVerdict)
    ensures
        !(r is Accepted),
{
    match e {
        rustls::TLSError::AlertReceived(
            rustls::internal::msgs::enums::AlertDescription::CertificateUnknown,
        ) => TlsVerdict::CertificateUnknown,
        rustls::TLSError::AlertReceived(
            rustls::internal::msgs::enums::AlertDescription::CertificateExpired,
        ) => TlsVerdict::CertificateExpired,
        _ => TlsVerdict::Fatal,
    }
}

/// What a session is told of a write, or of a transfer of TLS records: the
/// number of bytes moved, or the kind of failure.
pub fn write_error_handling(result: std::io::Result<usize>) -> (r: Input)
    ensures
        match result {
            Ok(n) => r == Input::Moved(n),
            Err(_) => r is WouldBlock || r is Interrupted || r is Aborted || r is Failed,
        },
{
    match result {
        Ok(n) => Input::Moved(n),
        Err(e) => failure_of(&e),
    }
}

/// What a session is told of a read into `buf`: the bytes that were read, or
/// the kind of failure. A count beyond the buffer is a failure.
pub fn read_error_handling(result: std::io::Result<usize>, buf: &Vec<u8>) -> (r: Input)
    ensures
        match result {
            Ok(n) => if n <= buf@.len() {
                r matches Input::Bytes(d) && d@ == buf@.take(n as int)
            } else {
                r is Failed
            },
            Err(_) => r is WouldBlock || r is Interrupted || r is Aborted || r is Failed,
        },
{
    match result {
        Ok(n) => {
            if n > buf.len() {
                return Input::Failed;
            }
            let mut d: Vec<u8> = Vec::new();
            let mut i: usize = 0;
            while i < n
                invariant
                    i <= n <= buf@.len(),
                    d@ == buf@.take(i as int),
                decreases n - i,
            {
                d.push(buf[i]);
                i += 1;
                assert(d@ =~= buf@.take(i as int));
            }
            Input::Bytes(d)
        },
        Err(e) => failure_of(&e),
    }
}

/// What a session is told after the TLS engine has processed new records.
pub fn process_error_handling(result: Result<(), rustls::TLSError>) -> (r: Input)
    ensures
        match result {
            Ok(_) => r == Input::Tls(TlsVerdict::Accepted),
            Err(_) => r matches Input::Tls(v) && !(v is Accepted),
        },
{
    match result {
        Ok(_) => Input::Tls(TlsVerdict::Accepted),
        Err(e) => Input::Tls(alert_of(&e)),
    }
}

} // verus!
