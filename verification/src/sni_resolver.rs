//! Choosing the credential for a TLS handshake by the requested server name.
//!
//! Two tables are kept here. [`MyResolvesServerCertUsingSNI`] is filled name
//! by name and takes the first credential it is given as its default.
//! [`MariaSNIResolver`] is filled from certificate records and takes the
//! record with a configured id as its default. Both answer a lookup in the
//! same way: the credential filed under the requested name, else the
//! default, else none. The credential itself is whatever the TLS engine
//! needs; the tables only store it and hand it back.

use crate::cert_database::{id_string, id_text, CertDomainName, Certificate};
use crate::name_map::NameMap;
use std::collections::HashMap;
use vstd::prelude::*;

verus! {

broadcast use vstd::std_specs::hash::group_hash_axioms;

/// The error type of the TLS engine, carried through as it is.
#[verifier::external_type_specification]
#[verifier::external_body]
pub struct ExTlsError(rustls::TLSError);

/// The name that a handshake asks for, by its characters.
pub open spec fn asked(name: Option<&str>) -> Option<Seq<char>> {
    match name {
        Some(n) => Some(n@),
        None => None,
    }
}

/// The policy of both tables: the credential filed under the requested name,
/// else the default, else none.
pub open spec fn chosen<K>(names: Map<Seq<char>, K>, fallback: Option<K>, name: Option<Seq<char>>)
    -> Option<K> {
    match name {
        Some(n) => if names.contains_key(n) {
            Some(names[n])
        } else {
            fallback
        },
        None => fallback,
    }
}

/// A table of credentials by server name whose default is the first
/// credential ever added.
pub struct MyResolvesServerCertUsingSNI<K> {
    by_name: NameMap<usize>,
    keys: Vec<K>,
}

/// `names` after each of `more` has been pointed at `ck`.
pub open spec fn with_alternates<K>(names: Map<Seq<char>, K>, more: Seq<String>, ck: K) -> Map<
    Seq<char>,
    K,
>
    decreases more.len(),
{
    if more.len() == 0 {
        names
    } else {
        with_alternates(names.insert(more[0]@, ck), more.drop_first(), ck)
    }
}

impl<K> MyResolvesServerCertUsingSNI<K> {
    pub closed spec fn wf(&self) -> bool {
        &&& self.by_name.wf()
        &&& forall|n: Seq<char>| #[trigger]
            self.by_name.map().contains_key(n) ==> self.by_name.map()[n] < self.keys@.len()
    }

    /// The credential filed under each name.
    pub closed spec fn names(&self) -> Map<Seq<char>, K> {
        self.by_name.map().map_values(|i: usize| self.keys@[i as int])
    }

    /// The default credential: the first that was added.
    pub closed spec fn fallback(&self) -> Option<K> {
        if self.keys@.len() > 0 {
            Some(self.keys@[0])
        } else {
            None
        }
    }

    /// The credential for a handshake that asks for `name`.
    pub open spec fn selected(&self, name: Option<Seq<char>>) -> Option<K> {
        chosen(self.names(), self.fallback(), name)
    }

    /// An empty table.
    pub fn new() -> (r: Self)
        ensures
            r.wf(),
            r.names() == Map::<Seq<char>, K>::empty(),
            r.fallback().is_none(),
    {
        let r = MyResolvesServerCertUsingSNI { by_name: NameMap::new(), keys: Vec::new() };
        assert(r.names() =~= Map::<Seq<char>, K>::empty());
        r
    }

    fn file(&mut self, name: String, slot: usize)
        requires
            old(self).wf(),
            slot < old(self).keys@.len(),
        ensures
            final(self).wf(),
            final(self).keys@ == old(self).keys@,
            final(self).names() == old(self).names().insert(name@, old(self).keys@[slot as int]),
            final(self).fallback() == old(self).fallback(),
    {
        self.by_name.insert(name, slot);
        assert(self.names() =~= old(self).names().insert(name@, old(self).keys@[slot as int]));
    }

    fn keep(&mut self, ck: K) -> (slot: usize)
        requires
            old(self).wf(),
        ensures
            final(self).wf(),
            slot < final(self).keys@.len(),
            final(self).keys@[slot as int] == ck,
            final(self).names() == old(self).names(),
            final(self).fallback() == match old(self).fallback() {
                Some(first) => Some(first),
                None => Some(ck),
            },
    {
        let slot = self.keys.len();
        self.keys.push(ck);
        assert(self.names() =~= old(self).names());
        slot
    }

    /// Files `ck` under `name`, in place of what stood there. The first
    /// credential ever added becomes the default. This never fails.
    pub fn add(&mut self, name: &str, ck: K) -> (r: Result<(), rustls::TLSError>)
        requires
            old(self).wf(),
        ensures
            r is Ok,
            final(self).wf(),
            final(self).names() == old(self).names().insert(name@, ck),
            final(self).fallback() == match old(self).fallback() {
                Some(first) => Some(first),
                None => Some(ck),
            },
    {
        let slot = self.keep(ck);
        self.file(name.to_owned(), slot);
        Ok(())
    }

    /// Files one credential under a host name and under each of its
    /// alternate names.
    pub fn add_with_alternates(&mut self, hostname: &str, alt_names: &Vec<String>, ck: K)
        requires
            old(self).wf(),
        ensures
            final(self).wf(),
            final(self).names() == with_alternates(
                old(self).names().insert(hostname@, ck),
                alt_names@,
                ck,
            ),
            final(self).fallback() == match old(self).fallback() {
                Some(first) => Some(first),
                None => Some(ck),
            },
    {
        let slot = self.keep(ck);
        self.file(hostname.to_owned(), slot);
        let ghost goal = with_alternates(old(self).names().insert(hostname@, ck), alt_names@, ck);
        let ghost settled = self.fallback();
        let mut i: usize = 0;
        assert(alt_names@.skip(0) =~= alt_names@);
        while i < alt_names.len()
            invariant
                i <= alt_names@.len(),
                self.wf(),
                slot < self.keys@.len(),
                self.keys@[slot as int] == ck,
                self.fallback() == settled,
                with_alternates(self.names(), alt_names@.skip(i as int), ck) == goal,
            decreases alt_names@.len() - i,
        {
            let ghost rest = alt_names@.skip(i as int);
            assert(rest.drop_first() =~= alt_names@.skip(i + 1));
            assert(rest[0] == alt_names@[i as int]);
            self.file(alt_names[i].clone(), slot);
            i += 1;
        }
    }

    /// The credential for a handshake that asks for `name`; a handshake
    /// without a server name asks for none.
    pub fn resolve(&self, name: Option<&str>) -> (r: Option<&K>)
        requires
            self.wf(),
        ensures
            match r {
                Some(ck) => self.selected(asked(name)) == Some(*ck),
                None => self.selected(asked(name)).is_none(),
            },
    {
        let found: Option<usize> = match name {
            Some(n) => match self.by_name.get(n) {
                Some(slot) => Some(*slot),
                None => None,
            },
            None => None,
        };
        match found {
            Some(slot) => Some(&self.keys[slot]),
            None => if self.keys.len() > 0 {
                Some(&self.keys[0])
            } else {
                None
            },
        }
    }

    /// Fallback to the default. A handshake that asks for a name that the
    /// table does not hold, or for none, is given the default credential;
    /// and the table has a default as soon as it holds anything.
    pub proof fn law_unknown_name_gets_default(&self, name: Option<Seq<char>>)
        requires
            self.wf(),
        ensures
            (name matches Some(n) ==> !self.names().contains_key(n)) ==> self.selected(name)
                == self.fallback(),
            (exists|n: Seq<char>| self.names().contains_key(n)) ==> self.fallback() is Some,
            self.names() == Map::<Seq<char>, K>::empty() && self.fallback() is None
                ==> self.selected(name) is None,
    {
        if exists|n: Seq<char>| self.names().contains_key(n) {
            let n = choose|n: Seq<char>| self.names().contains_key(n);
            assert(self.by_name.map().contains_key(n));
        }
    }
}

/// Files the credential `ck` of a certificate in `resolver`, under the host
/// name it is kept for and under each of the alternate names that the
/// certificate carries.
pub fn add_certificate_to_resolver<K>(
    hostname: &str,
    alt_names: &Vec<String>,
    ck: K,
    resolver: &mut MyResolvesServerCertUsingSNI<K>,
)
    requires
        old(resolver).wf(),
    ensures
        final(resolver).wf(),
        final(resolver).names() == with_alternates(
            old(resolver).names().insert(hostname@, ck),
            alt_names@,
            ck,
        ),
        final(resolver).fallback() == match old(resolver).fallback() {
            Some(first) => Some(first),
            None => Some(ck),
        },
{
    resolver.add_with_alternates(hostname, alt_names, ck);
}

/// What a table filled from certificate records holds.
pub ghost struct RecordsView<K> {
    /// The id of the record that each name belongs to.
    pub ids: Map<Seq<char>, i32>,
    /// The credential of each record, by the record's id.
    pub certs: Map<i32, K>,
    /// The id of the default record.
    pub default_id: Option<i32>,
}

/// `ids` after each of `names` has been pointed at `id`.
pub open spec fn with_record_names(ids: Map<Seq<char>, i32>, names: Seq<CertDomainName>, id: i32)
    -> Map<Seq<char>, i32>
    decreases names.len(),
{
    if names.len() == 0 {
        ids
    } else {
        with_record_names(ids.insert(names[0].dn@, id), names.drop_first(), id)
    }
}

/// The table after one record has been taken in with its credential: the
/// record becomes the default if its id, written in decimal, is the
/// configured text; its credential is filed under its id; and each of its
/// names is pointed at that id.
pub open spec fn with_record<K>(
    v: RecordsView<K>,
    cert: Certificate,
    ck: K,
    configured: Option<Seq<char>>,
) -> RecordsView<K> {
    RecordsView {
        ids: match cert.domain_names {
            Some(names) => with_record_names(v.ids, names@, cert.id),
            None => v.ids,
        },
        certs: v.certs.insert(cert.id, ck),
        default_id: if configured == Some(id_text(cert.id)) {
            Some(cert.id)
        } else {
            v.default_id
        },
    }
}

/// The table after the records have been taken in, in order, each with the
/// credential at the same place; records without a credential, and
/// credentials without a record, are left out.
pub open spec fn with_records<K>(
    v: RecordsView<K>,
    certs: Seq<Certificate>,
    cks: Seq<K>,
    configured: Option<Seq<char>>,
) -> RecordsView<K>
    decreases certs.len(),
{
    if certs.len() == 0 || cks.len() == 0 {
        v
    } else {
        with_records(
            with_record(v, certs[0], cks[0], configured),
            certs.drop_first(),
            cks.drop_first(),
            configured,
        )
    }
}

/// The configured id of the default record, by its characters.
pub open spec fn written_id(configured: Option<String>) -> Option<Seq<char>> {
    match configured {
        Some(text) => Some(text@),
        None => None,
    }
}

/// The credential of the default record, if there is one.
pub open spec fn default_of<K>(v: RecordsView<K>) -> Option<K> {
    match v.default_id {
        Some(d) => if v.certs.contains_key(d) {
            Some(v.certs[d])
        } else {
            None
        },
        None => None,
    }
}

/// The credential that the table gives for `name`: that of the record the
/// name belongs to, else that of the default record, else none.
pub open spec fn record_for<K>(v: RecordsView<K>, name: Option<Seq<char>>) -> Option<K> {
    match name {
        Some(n) => if v.ids.contains_key(n) && v.certs.contains_key(v.ids[n]) {
            Some(v.certs[v.ids[n]])
        } else {
            default_of(v)
        },
        None => default_of(v),
    }
}

/// A table of credentials filled from certificate records.
pub struct MariaSNIResolver<K> {
    default_cert: Option<i32>,
    name_to_cert_id_lookup: NameMap<i32>,
    cert_id_to_cert_lookup: HashMap<i32, K>,
}

fn reversed<K>(v: Vec<K>) -> (r: Vec<K>)
    ensures
        r@ == v@.reverse(),
{
    let mut v = v;
    let mut r: Vec<K> = Vec::new();
    let ghost whole = v@;
    while v.len() > 0
        invariant
            v@.len() + r@.len() == whole.len(),
            v@ == whole.take(v@.len() as int),
            forall|j: int| 0 <= j < r@.len() ==> r@[j] == whole[whole.len() - 1 - j],
        decreases v@.len(),
    {
        match v.pop() {
            Some(x) => {
                r.push(x);
            },
            None => {},
        }
    }
    assert(r@ =~= whole.reverse());
    r
}

impl<K> View for MariaSNIResolver<K> {
    type V = RecordsView<K>;

    closed spec fn view(&self) -> RecordsView<K> {
        RecordsView {
            ids: self.name_to_cert_id_lookup.map(),
            certs: self.cert_id_to_cert_lookup@,
            default_id: self.default_cert,
        }
    }
}

impl<K> MariaSNIResolver<K> {
    pub closed spec fn wf(&self) -> bool {
        self.name_to_cert_id_lookup.wf()
    }

    /// An empty table without a default.
    pub fn new() -> (r: Self)
        ensures
            r.wf(),
            r@ == (RecordsView::<K> { ids: Map::empty(), certs: Map::empty(), default_id: None }),
    {
        MariaSNIResolver {
            default_cert: None,
            name_to_cert_id_lookup: NameMap::new(),
            cert_id_to_cert_lookup: HashMap::new(),
        }
    }

    fn add_record(&mut self, cert: &Certificate, ck: K, configured: &Option<String>)
        requires
            old(self).wf(),
        ensures
            final(self).wf(),
            final(self)@ == with_record(old(self)@, *cert, ck, written_id(*configured)),
    {
        match configured {
            Some(text) => {
                if id_string(cert.id) == *text {
                    self.default_cert = Some(cert.id);
                }
            },
            None => {},
        }
        self.cert_id_to_cert_lookup.insert(cert.id, ck);
        match &cert.domain_names {
            Some(names) => {
                let mut i: usize = 0;
                let ghost start = self.name_to_cert_id_lookup.map();
                assert(names@.skip(0) =~= names@);
                while i < names.len()
                    invariant
                        i <= names@.len(),
                        self.wf(),
                        self.default_cert == (if written_id(*configured) == Some(
                            id_text(cert.id),
                        ) {
                            Some(cert.id)
                        } else {
                            old(self).default_cert
                        }),
                        self.cert_id_to_cert_lookup@ == old(self).cert_id_to_cert_lookup@.insert(
                            cert.id,
                            ck,
                        ),
                        with_record_names(
                            self.name_to_cert_id_lookup.map(),
                            names@.skip(i as int),
                            cert.id,
                        ) == with_record_names(start, names@, cert.id),
                    decreases names@.len() - i,
                {
                    let ghost rest = names@.skip(i as int);
                    assert(rest.drop_first() =~= names@.skip(i + 1));
                    assert(rest[0] == names@[i as int]);
                    self.name_to_cert_id_lookup.insert(names[i].dn.clone(), cert.id);
                    i += 1;
                }
            },
            None => {},
        }
    }

    /// Takes in the certificate records, each with its credential, which
    /// stands at the same place in `credentials`. The record whose id, written
    /// in decimal, is `configured` becomes the default.
    pub fn populate(
        &mut self,
        certs: &Vec<Certificate>,
        credentials: Vec<K>,
        configured: Option<String>,
    )
        requires
            old(self).wf(),
        ensures
            final(self).wf(),
            final(self)@ == with_records(
                old(self)@,
                certs@,
                credentials@,
                written_id(configured),
            ),
    {
        let ghost configured_text = written_id(configured);
        let mut stack = reversed(credentials);
        let ghost goal = with_records(self@, certs@, credentials@, configured_text);
        let mut i: usize = 0;
        assert(certs@.skip(0) =~= certs@);
        assert(credentials@.skip(0) =~= credentials@);
        while i < certs.len() && stack.len() > 0
            invariant
                i <= certs@.len(),
                i <= credentials@.len(),
                self.wf(),
                stack@ == credentials@.skip(i as int).reverse(),
                configured_text == written_id(configured),
                with_records(
                    self@,
                    certs@.skip(i as int),
                    credentials@.skip(i as int),
                    configured_text,
                ) == goal,
            decreases certs@.len() - i,
        {
            let ghost rest = certs@.skip(i as int);
            let ghost left = credentials@.skip(i as int);
            assert(rest.drop_first() =~= certs@.skip(i + 1));
            assert(left.drop_first() =~= credentials@.skip(i + 1));
            assert(rest[0] == certs@[i as int]);
            assert(stack@.len() == left.len());
            assert(stack@[stack@.len() - 1] == left[0]);
            match stack.pop() {
                Some(ck) => {
                    assert(stack@ =~= left.drop_first().reverse());
                    self.add_record(&certs[i], ck, &configured);
                },
                None => {},
            }
            i += 1;
        }
        assert(stack@.len() == credentials@.skip(i as int).len());
    }

    /// The credential for a handshake that asks for `name`; a handshake
    /// without a server name asks for none.
    pub fn resolve(&self, name: Option<&str>) -> (r: Option<&K>)
        requires
            self.wf(),
        ensures
            match r {
                Some(ck) => record_for(self@, asked(name)) == Some(*ck),
                None => record_for(self@, asked(name)).is_none(),
            },
    {
        let by_name: Option<&K> = match name {
            Some(n) => match self.name_to_cert_id_lookup.get(n) {
                Some(id) => self.cert_id_to_cert_lookup.get(id),
                None => None,
            },
            None => None,
        };
        match by_name {
            Some(ck) => Some(ck),
            None => match self.default_cert {
                Some(d) => self.cert_id_to_cert_lookup.get(&d),
                None => None,
            },
        }
    }

    /// Fallback to the default. A handshake that asks for a name that the
    /// table does not hold, or for none, is given the credential of the
    /// default record; a table without a default record then gives none.
    pub proof fn law_unknown_name_gets_default(&self, name: Option<Seq<char>>)
        requires
            self.wf(),
        ensures
            (name matches Some(n) ==> !self@.ids.contains_key(n)) ==> record_for(self@, name)
                == default_of(self@),
            self@.default_id is None ==> default_of(self@) is None,
    {
    }
}

} // verus!
