//! Certificate records as the database holds them: the query that fetches
//! the names of a record, and the record with its names filled in.

use crate::cache_iterator::{decimal, decimal_chars};
use crate::text::{chars_of, string_of};
use vstd::prelude::*;

verus! {

/// One name under which a certificate is known.
#[derive(Debug, PartialEq, Eq)]
pub struct CertDomainName {
    pub id: i32,
    pub cert_id: i32,
    pub dn: String,
    pub ca_primary: String,
}

/// A certificate record: the credential in PEM text, the backend that its
/// hosts are forwarded to, and the names it is valid for.
#[derive(Debug, PartialEq, Eq)]
pub struct Certificate {
    pub id: i32,
    pub fullchain: String,
    pub privkey: String,
    pub forward: String,
    pub active: String,
    pub domain_names: Option<Vec<CertDomainName>>,
}

/// The text that `strfmt` makes of `template` when the one variable `key`
/// stands for `value`; none where it refuses the template.
pub uninterp spec fn strfmt_one(template: Seq<char>, key: Seq<char>, value: Seq<char>) -> Option<
    Seq<char>,
>;

/// An optional text by its characters.
pub open spec fn text_of(r: Option<String>) -> Option<Seq<char>> {
    match r {
        Some(s) => Some(s@),
        None => None,
    }
}

/// The template asks for a fill, a width or another format of a variable:
/// a colon stands between an opening brace and the next closing one.
/// `inside` says whether an opening brace has been passed already.
pub open spec fn has_format_spec(template: Seq<char>, inside: bool) -> bool
    decreases template.len(),
{
    if template.len() == 0 {
        false
    } else if template[0] == '{' {
        has_format_spec(template.drop_first(), true)
    } else if template[0] == '}' {
        has_format_spec(template.drop_first(), false)
    } else if template[0] == ':' && inside {
        true
    } else {
        has_format_spec(template.drop_first(), inside)
    }
}

/// Whether the template asks for a format of a variable.
pub fn asks_format(template: &str) -> (r: bool)
    ensures
        r == has_format_spec(template@, false),
{
    let t = chars_of(template);
    let mut inside = false;
    let mut i: usize = 0;
    assert(t@.skip(0) =~= t@);
    while i < t.len()
        invariant
            i <= t@.len(),
            t@ == template@,
            has_format_spec(t@.skip(i as int), inside) == has_format_spec(template@, false),
        decreases t@.len() - i,
    {
        let ghost rest = t@.skip(i as int);
        assert(rest.drop_first() =~= t@.skip(i + 1));
        assert(rest[0] == t@[i as int]);
        let c = t[i];
        if c == '{' {
            inside = true;
        } else if c == '}' {
            inside = false;
        } else if c == ':' && inside {
            return true;
        }
        i += 1;
    }
    false
}

/// Runs `strfmt::strfmt` on `template` with a map that holds `value` under
/// `key` and nothing else.
///
/// Trusted: the text depends on the three arguments alone; an error of the
/// formatter is `None`. Templates that ask for a format are kept away from
/// it, because a width is taken as it is written, however large.
#[verifier::external_body]
fn format_one(template: &str, key: &str, value: &str) -> (r: Option<String>)
    requires
        !has_format_spec(template@, false),
    ensures
        text_of(r) == strfmt_one(template@, key@, value@),
{
    let mut vars = std::collections::HashMap::new();
    vars.insert(key.to_string(), value.to_string());
    strfmt::strfmt(template, &vars).ok()
}

/// What comes of the template when the one variable `key` stands for
/// `value`: nothing where it asks for a format, else what `strfmt` makes of
/// it.
pub open spec fn filled_in(template: Seq<char>, key: Seq<char>, value: Seq<char>) -> Option<
    Seq<char>,
> {
    if has_format_spec(template, false) {
        None
    } else {
        strfmt_one(template, key, value)
    }
}

/// The decimal numeral of a record id, with a minus sign where it is
/// negative.
pub open spec fn id_text(id: i32) -> Seq<char> {
    if id < 0 {
        seq!['-'] + decimal((-(id as int)) as nat)
    } else {
        decimal(id as nat)
    }
}

/// The decimal numeral of a record id.
pub fn id_string(id: i32) -> (r: String)
    ensures
        r@ == id_text(id),
{
    if id < 0 {
        let magnitude: i64 = -(id as i64);
        let digits = decimal_chars(magnitude as usize);
        let mut out: Vec<char> = Vec::new();
        out.push('-');
        let mut i: usize = 0;
        while i < digits.len()
            invariant
                i <= digits@.len(),
                out@ == seq!['-'] + digits@.take(i as int),
            decreases digits@.len() - i,
        {
            out.push(digits[i]);
            i += 1;
            assert(out@ =~= seq!['-'] + digits@.take(i as int));
        }
        assert(digits@.take(digits@.len() as int) =~= digits@);
        string_of(&out)
    } else {
        let digits = decimal_chars(id as usize);
        string_of(&digits)
    }
}

impl Certificate {
    /// The query that fetches the names of this record: `template` with the
    /// record's id in place of the variable `cert_id`. There is none where
    /// the template asks for a format of the variable, names another
    /// variable, or is otherwise refused.
    pub fn dn_query(&self, template: &str) -> (r: Option<String>)
        ensures
            text_of(r) == filled_in(template@, "cert_id"@, id_text(self.id)),
    {
        if asks_format(template) {
            return None;
        }
        let id = id_string(self.id);
        format_one(template, "cert_id", id.as_str())
    }

    /// Gives the record the names that the database holds for it.
    pub fn fill_dn(&mut self, names: Vec<CertDomainName>)
        ensures
            final(self).domain_names == Some(names),
            final(self).id == old(self).id,
            final(self).fullchain == old(self).fullchain,
            final(self).privkey == old(self).privkey,
            final(self).forward == old(self).forward,
            final(self).active == old(self).active,
    {
        self.domain_names = Some(names);
    }
}

} // verus!
