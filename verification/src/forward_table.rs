//! The forward lookup table: which backend a host name is routed to.
//!
//! The table is built once, from the certificate records, and only read
//! afterwards. A host that it does not know goes to the configured default
//! backend, if there is one.

use crate::cert_database::{CertDomainName, Certificate};
use crate::name_map::NameMap;
use crate::text::{chars_of, chars_match_at, starts_with_seq};
use vstd::prelude::*;

verus! {

/// The address names this machine itself: an IPv4 address of the block
/// `127.0.0.0/8`, the name `localhost`, or the IPv6 address `::1` in brackets.
pub open spec fn denotes_loopback(address: Seq<char>) -> bool {
    ||| starts_with_seq(address, seq!['1', '2', '7', '.'])
    ||| starts_with_seq(address, seq!['l', 'o', 'c', 'a', 'l', 'h', 'o', 's', 't'])
    ||| starts_with_seq(address, seq!['[', ':', ':', '1', ']'])
}

/// Whether the address names this machine itself.
pub fn is_loopback(address: &str) -> (r: bool)
    ensures
        r == denotes_loopback(address@),
{
    let a = chars_of(address);
    let mut v4: Vec<char> = Vec::new();
    v4.push('1');
    v4.push('2');
    v4.push('7');
    v4.push('.');
    assert(v4@ =~= seq!['1', '2', '7', '.']);
    let mut name: Vec<char> = Vec::new();
    name.push('l');
    name.push('o');
    name.push('c');
    name.push('a');
    name.push('l');
    name.push('h');
    name.push('o');
    name.push('s');
    name.push('t');
    assert(name@ =~= seq!['l', 'o', 'c', 'a', 'l', 'h', 'o', 's', 't']);
    let mut v6: Vec<char> = Vec::new();
    v6.push('[');
    v6.push(':');
    v6.push(':');
    v6.push('1');
    v6.push(']');
    assert(v6@ =~= seq!['[', ':', ':', '1', ']']);
    chars_match_at(&a, &v4, 0) || chars_match_at(&a, &name, 0) || chars_match_at(&a, &v6, 0)
}

/// The map `m` after every name of `names` has been pointed at `forward`.
pub open spec fn with_names(
    m: Map<Seq<char>, Seq<char>>,
    names: Seq<CertDomainName>,
    forward: Seq<char>,
) -> Map<Seq<char>, Seq<char>>
    decreases names.len(),
{
    if names.len() == 0 {
        m
    } else {
        with_names(m.insert(names[0].dn@, forward), names.drop_first(), forward)
    }
}

/// The map `m` after one certificate record has been taken in: its names
/// point at its backend, unless that backend is this machine or the record
/// has no list of names.
pub open spec fn with_certificate(m: Map<Seq<char>, Seq<char>>, cert: Certificate) -> Map<
    Seq<char>,
    Seq<char>,
> {
    if denotes_loopback(cert.forward@) {
        m
    } else {
        match cert.domain_names {
            Some(names) => with_names(m, names@, cert.forward@),
            None => m,
        }
    }
}

/// The map `m` after the records `certs` have been taken in, in order.
pub open spec fn with_certificates(m: Map<Seq<char>, Seq<char>>, certs: Seq<Certificate>) -> Map<
    Seq<char>,
    Seq<char>,
>
    decreases certs.len(),
{
    if certs.len() == 0 {
        m
    } else {
        with_certificates(with_certificate(m, certs[0]), certs.drop_first())
    }
}

/// Host names and the backends they are forwarded to, with an optional
/// default backend.
pub struct ForwardTable {
    table: NameMap<String>,
    default_forward: Option<String>,
}

impl ForwardTable {
    pub closed spec fn wf(&self) -> bool {
        self.table.wf()
    }

    /// The backend address of each known host.
    pub closed spec fn forwards(&self) -> Map<Seq<char>, Seq<char>> {
        self.table.map().map_values(|a: String| a@)
    }

    /// The default backend.
    pub closed spec fn fallback(&self) -> Option<Seq<char>> {
        match self.default_forward {
            Some(a) => Some(a@),
            None => None,
        }
    }

    /// Where requests for `host` go: to the backend mapped from it, else to
    /// the default, else nowhere.
    pub open spec fn target(&self, host: Seq<char>) -> Option<Seq<char>> {
        if self.forwards().contains_key(host) {
            Some(self.forwards()[host])
        } else {
            self.fallback()
        }
    }

    /// A table that knows no host.
    pub fn new(default_forward: Option<String>) -> (r: Self)
        ensures
            r.wf(),
            r.forwards() =~= Map::<Seq<char>, Seq<char>>::empty(),
            r.fallback() == match default_forward {
                Some(a) => Some(a@),
                None => None,
            },
    {
        ForwardTable { table: NameMap::new(), default_forward }
    }

    /// Routes `host` to `address`.
    pub fn insert(&mut self, host: String, address: String)
        requires
            old(self).wf(),
        ensures
            final(self).wf(),
            final(self).forwards() =~= old(self).forwards().insert(host@, address@),
            final(self).fallback() == old(self).fallback(),
    {
        self.table.insert(host, address);
    }

    /// The backend address for `host`.
    pub fn resolve(&self, host: &str) -> (r: Option<&String>)
        requires
            self.wf(),
        ensures
            match r {
                Some(a) => self.target(host@) == Some(a@),
                None => self.target(host@).is_none(),
            },
    {
        match self.table.get(host) {
            Some(a) => Some(a),
            None => match &self.default_forward {
                Some(d) => Some(d),
                None => None,
            },
        }
    }

    /// The backend mapped from `host` itself, the default left aside.
    pub fn get(&self, host: &str) -> (r: Option<&String>)
        requires
            self.wf(),
        ensures
            match r {
                Some(a) => self.forwards().contains_key(host@) && self.forwards()[host@] == a@,
                None => !self.forwards().contains_key(host@),
            },
    {
        self.table.get(host)
    }

    fn add_names(&mut self, names: &Vec<CertDomainName>, forward: &String)
        requires
            old(self).wf(),
        ensures
            final(self).wf(),
            final(self).forwards() == with_names(old(self).forwards(), names@, forward@),
            final(self).fallback() == old(self).fallback(),
    {
        let mut i: usize = 0;
        assert(names@.skip(0) =~= names@);
        while i < names.len()
            invariant
                i <= names@.len(),
                self.wf(),
                self.fallback() == old(self).fallback(),
                with_names(self.forwards(), names@.skip(i as int), forward@) == with_names(
                    old(self).forwards(),
                    names@,
                    forward@,
                ),
            decreases names@.len() - i,
        {
            let ghost rest = names@.skip(i as int);
            assert(rest.drop_first() =~= names@.skip(i + 1));
            assert(rest[0] == names@[i as int]);
            self.insert(names[i].dn.clone(), forward.clone());
            i += 1;
        }
    }

    /// Takes in one certificate record.
    pub fn add_certificate(&mut self, cert: &Certificate)
        requires
            old(self).wf(),
        ensures
            final(self).wf(),
            final(self).forwards() == with_certificate(old(self).forwards(), *cert),
            final(self).fallback() == old(self).fallback(),
    {
        if is_loopback(cert.forward.as_str()) {
            return ;
        }
        match &cert.domain_names {
            Some(names) => {
                self.add_names(names, &cert.forward);
            },
            None => {},
        }
    }
}

/// Builds the forward lookup table from the certificate records: every name
/// of a record is routed to the record's backend, later records overriding
/// earlier ones, and records whose backend is this machine are left out.
pub fn get_forwards(certs: &Vec<Certificate>, default_forward: Option<String>) -> (r: ForwardTable)
    ensures
        r.wf(),
        r.forwards() == with_certificates(Map::empty(), certs@),
        r.fallback() == match default_forward {
            Some(a) => Some(a@),
            None => None,
        },
{
    let mut table = ForwardTable::new(default_forward);
    let mut i: usize = 0;
    assert(certs@.skip(0) =~= certs@);
    while i < certs.len()
        invariant
            i <= certs@.len(),
            table.wf(),
            table.fallback() == match default_forward {
                Some(a) => Some(a@),
                None => None,
            },
            with_certificates(table.forwards(), certs@.skip(i as int)) == with_certificates(
                Map::empty(),
                certs@,
            ),
        decreases certs@.len() - i,
    {
        let ghost rest = certs@.skip(i as int);
        assert(rest.drop_first() =~= certs@.skip(i + 1));
        assert(rest[0] == certs@[i as int]);
        table.add_certificate(&certs[i]);
        i += 1;
    }
    table
}

} // verus!
