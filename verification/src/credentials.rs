//! Credentials in PEM text: the certificate chain and the private key of a
//! certificate record, as the bytes that the TLS engine is given.

use crate::cert_database::Certificate;
use vstd::prelude::*;

verus! {

/// The DER contents of the certificates that `rustls` finds in the PEM text
/// `text`; none where it gives the text up.
pub uninterp spec fn pem_certificates(text: Seq<char>) -> Option<Seq<Seq<u8>>>;

/// The DER contents of the RSA private keys that `rustls` finds in `text`.
pub uninterp spec fn pem_rsa_keys(text: Seq<char>) -> Option<Seq<Seq<u8>>>;

/// The DER contents of the PKCS#8 private keys that `rustls` finds in `text`.
pub uninterp spec fn pem_pkcs8_keys(text: Seq<char>) -> Option<Seq<Seq<u8>>>;

/// A list of byte strings, each by its bytes.
pub open spec fn blobs(v: Seq<Vec<u8>>) -> Seq<Seq<u8>> {
    Seq::new(v.len(), |i: int| v[i]@)
}

/// An optional list of byte strings, each by its bytes.
pub open spec fn found(r: Option<Vec<Vec<u8>>>) -> Option<Seq<Seq<u8>>> {
    match r {
        Some(v) => Some(blobs(v@)),
        None => None,
    }
}

/// Runs `rustls::internal::pemfile::certs` on the bytes of `text`.
///
/// Trusted: the sections found depend on the text alone; an error of the
/// reader or of the decoding is `None`.
#[verifier::external_body]
fn read_certs(text: &str) -> (r: Option<Vec<Vec<u8>>>)
    ensures
        found(r) == pem_certificates(text@),
{
    rustls::internal::pemfile::certs(&mut text.as_bytes()).ok().map(
        |v| v.into_iter().map(|c| c.0).collect(),
    )
}

/// Runs `rustls::internal::pemfile::rsa_private_keys` on the bytes of `text`.
///
/// Trusted: the sections found depend on the text alone; an error of the
/// reader or of the decoding is `None`.
#[verifier::external_body]
fn read_rsa_keys(text: &str) -> (r: Option<Vec<Vec<u8>>>)
    ensures
        found(r) == pem_rsa_keys(text@),
{
    rustls::internal::pemfile::rsa_private_keys(&mut text.as_bytes()).ok().map(
        |v| v.into_iter().map(|k| k.0).collect(),
    )
}

/// Runs `rustls::internal::pemfile::pkcs8_private_keys` on the bytes of
/// `text`.
///
/// Trusted: the sections found depend on the text alone; an error of the
/// reader or of the decoding is `None`.
#[verifier::external_body]
fn read_pkcs8_keys(text: &str) -> (r: Option<Vec<Vec<u8>>>)
    ensures
        found(r) == pem_pkcs8_keys(text@),
{
    rustls::internal::pemfile::pkcs8_private_keys(&mut text.as_bytes()).ok().map(
        |v| v.into_iter().map(|k| k.0).collect(),
    )
}

/// Why a credential could not be had from its PEM text.
#[derive(Clone, Copy, Debug, PartialEq, Eq, Structural)]
pub enum CredentialError {
    /// The certificate chain could not be read.
    BadCertificates,
    /// The text of the private key could not be read.
    BadKey,
    /// The text holds no private key.
    NoKey,
    /// The chain holds no certificate.
    NoCertificate,
    /// The first certificate of the chain carries no alternate names that
    /// could be read.
    NoAlternateNames,
}

/// A certificate chain and its private key, in DER.
#[derive(Debug)]
pub struct KeyMaterial {
    pub chain: Vec<Vec<u8>>,
    pub key: Vec<u8>,
}

pub ghost struct KeyMaterialView {
    pub chain: Seq<Seq<u8>>,
    pub key: Seq<u8>,
}

impl View for KeyMaterial {
    type V = KeyMaterialView;

    open spec fn view(&self) -> KeyMaterialView {
        KeyMaterialView { chain: blobs(self.chain@), key: self.key@ }
    }
}

/// The key of a certificate record: the first RSA key, or, where the text
/// holds no RSA key, the first PKCS#8 key.
pub open spec fn record_key(rsa: Option<Seq<Seq<u8>>>, pkcs8: Option<Seq<Seq<u8>>>) -> Result<
    Seq<u8>,
    CredentialError,
> {
    match rsa {
        None => Err(CredentialError::BadKey),
        Some(keys) => if keys.len() > 0 {
            Ok(keys[0])
        } else {
            match pkcs8 {
                None => Err(CredentialError::BadKey),
                Some(others) => if others.len() > 0 {
                    Ok(others[0])
                } else {
                    Err(CredentialError::NoKey)
                },
            }
        },
    }
}

/// The key of a key file: the first PKCS#8 key, or, where the text holds no
/// PKCS#8 key, the first RSA key. Both kinds must be readable.
pub open spec fn file_key(rsa: Option<Seq<Seq<u8>>>, pkcs8: Option<Seq<Seq<u8>>>) -> Result<
    Seq<u8>,
    CredentialError,
> {
    match (rsa, pkcs8) {
        (Some(keys), Some(others)) => if others.len() > 0 {
            Ok(others[0])
        } else if keys.len() > 0 {
            Ok(keys[0])
        } else {
            Err(CredentialError::NoKey)
        },
        _ => Err(CredentialError::BadKey),
    }
}

/// The credential of a record whose chain and keys were read as given.
pub open spec fn record_material(
    chain: Option<Seq<Seq<u8>>>,
    rsa: Option<Seq<Seq<u8>>>,
    pkcs8: Option<Seq<Seq<u8>>>,
) -> Result<KeyMaterialView, CredentialError> {
    match chain {
        None => Err(CredentialError::BadCertificates),
        Some(c) => match record_key(rsa, pkcs8) {
            Ok(key) => Ok(KeyMaterialView { chain: c, key }),
            Err(e) => Err(e),
        },
    }
}

/// The view of a result that carries bytes.
pub open spec fn key_view(r: Result<Vec<u8>, CredentialError>) -> Result<Seq<u8>, CredentialError> {
    match r {
        Ok(k) => Ok(k@),
        Err(e) => Err(e),
    }
}

/// The view of a result that carries a credential.
pub open spec fn material_view(r: Result<KeyMaterial, CredentialError>) -> Result<
    KeyMaterialView,
    CredentialError,
> {
    match r {
        Ok(m) => Ok(m@),
        Err(e) => Err(e),
    }
}

fn first_of(keys: Vec<Vec<u8>>) -> (r: Option<Vec<u8>>)
    ensures
        match r {
            Some(k) => keys@.len() > 0 && k@ == keys@[0]@,
            None => keys@.len() == 0,
        },
{
    let mut keys = keys;
    if keys.len() == 0 {
        None
    } else {
        Some(keys.swap_remove(0))
    }
}

/// Picks the key of a certificate record from what the two readers found.
pub fn select_record_key(rsa: Option<Vec<Vec<u8>>>, pkcs8: Option<Vec<Vec<u8>>>) -> (r: Result<
    Vec<u8>,
    CredentialError,
>)
    ensures
        key_view(r) == record_key(found(rsa), found(pkcs8)),
{
    match rsa {
        None => Err(CredentialError::BadKey),
        Some(keys) => {
            assert(blobs(keys@).len() == keys@.len());
            assert(keys@.len() > 0 ==> blobs(keys@)[0] == keys@[0]@);
            match first_of(keys) {
                Some(k) => Ok(k),
                None => match pkcs8 {
                    None => Err(CredentialError::BadKey),
                    Some(others) => {
                        assert(blobs(others@).len() == others@.len());
                        assert(others@.len() > 0 ==> blobs(others@)[0] == others@[0]@);
                        match first_of(others) {
                            Some(k) => Ok(k),
                            None => Err(CredentialError::NoKey),
                        }
                    },
                },
            }
        },
    }
}

/// Picks the key of a key file from what the two readers found.
pub fn select_file_key(rsa: Option<Vec<Vec<u8>>>, pkcs8: Option<Vec<Vec<u8>>>) -> (r: Result<
    Vec<u8>,
    CredentialError,
>)
    ensures
        key_view(r) == file_key(found(rsa), found(pkcs8)),
{
    match (rsa, pkcs8) {
        (Some(keys), Some(others)) => {
            assert(blobs(keys@).len() == keys@.len());
            assert(keys@.len() > 0 ==> blobs(keys@)[0] == keys@[0]@);
            assert(blobs(others@).len() == others@.len());
            assert(others@.len() > 0 ==> blobs(others@)[0] == others@[0]@);
            match first_of(others) {
                Some(k) => Ok(k),
                None => match first_of(keys) {
                    Some(k) => Ok(k),
                    None => Err(CredentialError::NoKey),
                },
            }
        },
        _ => Err(CredentialError::BadKey),
    }
}

/// The certificates of a PEM text, in DER.
pub fn load_certs(pem: &str) -> (r: Result<Vec<Vec<u8>>, CredentialError>)
    ensures
        match r {
            Ok(chain) => pem_certificates(pem@) == Some(blobs(chain@)),
            Err(e) => pem_certificates(pem@).is_none() && e == CredentialError::BadCertificates,
        },
{
    match read_certs(pem) {
        Some(chain) => Ok(chain),
        None => Err(CredentialError::BadCertificates),
    }
}

/// The private key of a PEM text, in DER: its first PKCS#8 key, or else its
/// first RSA key.
pub fn load_private_key(pem: &str) -> (r: Result<Vec<u8>, CredentialError>)
    ensures
        key_view(r) == file_key(pem_rsa_keys(pem@), pem_pkcs8_keys(pem@)),
{
    let rsa = read_rsa_keys(pem);
    let pkcs8 = read_pkcs8_keys(pem);
    select_file_key(rsa, pkcs8)
}

impl Certificate {
    /// The credential of the record: its chain, and its first RSA key or,
    /// without one, its first PKCS#8 key.
    pub fn verify_and_get_ck(&self) -> (r: Result<KeyMaterial, CredentialError>)
        ensures
            material_view(r) == record_material(
                pem_certificates(self.fullchain@),
                pem_rsa_keys(self.privkey@),
                pem_pkcs8_keys(self.privkey@),
            ),
    {
        let chain = match read_certs(self.fullchain.as_str()) {
            Some(c) => c,
            None => {
                return Err(CredentialError::BadCertificates);
            },
        };
        let rsa = read_rsa_keys(self.privkey.as_str());
        let pkcs8 = read_pkcs8_keys(self.privkey.as_str());
        match select_record_key(rsa, pkcs8) {
            Ok(key) => Ok(KeyMaterial { chain, key }),
            Err(e) => Err(e),
        }
    }
}

/// The text that `x509-parser` gives, in its debug form, for the general
/// names of the subject alternative name extension of the certificate `der`;
/// none where the certificate cannot be parsed or has no such extension.
pub uninterp spec fn x509_general_names(der: Seq<u8>) -> Option<Seq<char>>;

/// What the first group of `pattern` holds at each match that `regex` finds
/// in `text`, in order, a group that took no part counting as empty; none
/// where the pattern does not compile.
pub uninterp spec fn regex_first_groups(pattern: Seq<char>, text: Seq<char>) -> Option<
    Seq<Seq<char>>,
>;

/// A list of texts, each by its characters.
pub open spec fn texts(v: Seq<String>) -> Seq<Seq<char>> {
    Seq::new(v.len(), |i: int| v[i]@)
}

/// An optional list of texts, each by its characters.
pub open spec fn listed(r: Option<Vec<String>>) -> Option<Seq<Seq<char>>> {
    match r {
        Some(v) => Some(texts(v@)),
        None => None,
    }
}

/// An optional text by its characters.
pub open spec fn written(r: Option<String>) -> Option<Seq<char>> {
    match r {
        Some(s) => Some(s@),
        None => None,
    }
}

/// Parses `der` with `x509_parser::parse_x509_der`, takes the subject
/// alternative name extension and formats its general names with `{:?}`.
///
/// Trusted: the text depends on `der` alone.
#[verifier::external_body]
fn general_names_text(der: &[u8]) -> (r: Option<String>)
    ensures
        written(r) == x509_general_names(der@),
{
    let (_, cert) = x509_parser::parse_x509_der(der).ok()?;
    let (_, san) = cert.tbs_certificate.subject_alternative_name()?;
    Some(format!("{:?}", san.general_names))
}

/// Compiles `pattern` with `regex::Regex::new` and collects the first group
/// of each of its matches in `text`.
///
/// Trusted: the list depends on the two arguments alone.
#[verifier::external_body]
fn first_groups(pattern: &str, text: &str) -> (r: Option<Vec<String>>)
    ensures
        listed(r) == regex_first_groups(pattern@, text@),
{
    let re = regex::Regex::new(pattern).ok()?;
    Some(
        re.captures_iter(text).map(
            |c| c.get(1).map(|m| m.as_str().to_string()).unwrap_or_default(),
        ).collect(),
    )
}

/// The pattern that finds the quoted names in the debug form of a list of
/// general names: what stands between `("` and `")`, as short as possible.
pub open spec fn quoted_name() -> Seq<char> {
    "\\(\"(.*?)\"\\)"@
}

/// The names quoted in `text`, which is the debug form of a list of general
/// names.
pub fn quoted_names(text: &str) -> (r: Option<Vec<String>>)
    ensures
        listed(r) == regex_first_groups(quoted_name(), text@),
{
    first_groups("\\(\"(.*?)\"\\)", text)
}

/// The alternate names of a certificate: the DNS names, mail addresses and
/// URIs of its subject alternative name extension.
pub fn alternate_names(der: &Vec<u8>) -> (r: Option<Vec<String>>)
    ensures
        listed(r) == match x509_general_names(der@) {
            Some(text) => regex_first_groups(quoted_name(), text),
            None => None,
        },
        listed(r) == names_in(der@),
{
    match general_names_text(der.as_slice()) {
        Some(text) => quoted_names(text.as_str()),
        None => None,
    }
}

/// The alternate names that are read from the certificate `der`.
pub open spec fn names_in(der: Seq<u8>) -> Option<Seq<Seq<char>>> {
    match x509_general_names(der) {
        Some(text) => regex_first_groups(quoted_name(), text),
        None => None,
    }
}

/// A credential kept in files: the chain and the key, and the alternate
/// names of the chain's first certificate.
#[derive(Debug)]
pub struct FileCredential {
    pub material: KeyMaterial,
    pub alt_names: Vec<String>,
}

pub ghost struct FileCredentialView {
    pub material: KeyMaterialView,
    pub alt_names: Seq<Seq<char>>,
}

impl View for FileCredential {
    type V = FileCredentialView;

    open spec fn view(&self) -> FileCredentialView {
        FileCredentialView { material: self.material@, alt_names: texts(self.alt_names@) }
    }
}

/// The credential that comes of a chain and a key as they were read: it
/// needs a chain that holds a certificate, and alternate names in the first.
pub open spec fn file_credential(material: Result<KeyMaterialView, CredentialError>) -> Result<
    FileCredentialView,
    CredentialError,
> {
    match material {
        Err(e) => Err(e),
        Ok(m) => if m.chain.len() == 0 {
            Err(CredentialError::NoCertificate)
        } else {
            match names_in(m.chain[0]) {
                Some(alt_names) => Ok(FileCredentialView { material: m, alt_names }),
                None => Err(CredentialError::NoAlternateNames),
            }
        },
    }
}

/// The view of a result that carries a credential with its names.
pub open spec fn credential_view(r: Result<FileCredential, CredentialError>) -> Result<
    FileCredentialView,
    CredentialError,
> {
    match r {
        Ok(c) => Ok(c@),
        Err(e) => Err(e),
    }
}

/// Reads a credential from the PEM text of its chain and of its key: the
/// chain, the first RSA key or else the first PKCS#8 key, and the alternate
/// names of the chain's first certificate.
pub fn read_file_credential(fullchain: &str, privkey: &str) -> (r: Result<
    FileCredential,
    CredentialError,
>)
    ensures
        credential_view(r) == file_credential(
            record_material(
                pem_certificates(fullchain@),
                pem_rsa_keys(privkey@),
                pem_pkcs8_keys(privkey@),
            ),
        ),
{
    let chain = match read_certs(fullchain) {
        Some(c) => c,
        None => {
            return Err(CredentialError::BadCertificates);
        },
    };
    let rsa = read_rsa_keys(privkey);
    let pkcs8 = read_pkcs8_keys(privkey);
    let key = match select_record_key(rsa, pkcs8) {
        Ok(key) => key,
        Err(e) => {
            return Err(e);
        },
    };
    if chain.len() == 0 {
        return Err(CredentialError::NoCertificate);
    }
    assert(blobs(chain@)[0] == chain@[0]@);
    match alternate_names(&chain[0]) {
        Some(alt_names) => Ok(FileCredential { material: KeyMaterial { chain, key }, alt_names }),
        None => Err(CredentialError::NoAlternateNames),
    }
}

} // verus!
