//! DNS records as the provider reports them, and the two provider requests
//! that a reconciliation pass makes.

use vstd::prelude::*;

use crate::addr::{Ipv4Addr, Ipv6Addr};

verus! {

/// The typed content of a DNS record.
#[allow(clippy::upper_case_acronyms)]
#[derive(Clone, Debug, PartialEq, Eq)]
pub enum DnsContent {
    A { content: Ipv4Addr },
    AAAA { content: Ipv6Addr },
    CNAME { content: String },
    NS { content: String },
    MX { content: String, priority: u16 },
    TXT { content: String },
    SRV { content: String },
}

/// A DNS record in a zone.
#[derive(Clone, Debug, PartialEq, Eq)]
pub struct DnsRecord {
    pub zone_id: String,
    pub id: String,
    pub name: String,
    pub ttl: u32,
    pub proxied: bool,
    pub content: DnsContent,
}

/// A copy of `c`, field for field.
pub fn copy_content(c: &DnsContent) -> (r: DnsContent)
    ensures
        r == *c,
{
    match c {
        DnsContent::A { content } => DnsContent::A { content: *content },
        DnsContent::AAAA { content } => DnsContent::AAAA { content: *content },
        DnsContent::CNAME { content } => DnsContent::CNAME { content: content.clone() },
        DnsContent::NS { content } => DnsContent::NS { content: content.clone() },
        DnsContent::MX { content, priority } => DnsContent::MX {
            content: content.clone(),
            priority: *priority,
        },
        DnsContent::TXT { content } => DnsContent::TXT { content: content.clone() },
        DnsContent::SRV { content } => DnsContent::SRV { content: content.clone() },
    }
}

/// A request to list the records of a zone, optionally only those with a
/// given name.
#[derive(Clone, Debug, PartialEq, Eq)]
pub struct ListDnsRecordsBuilder {
    pub zone_id: String,
    pub name: Option<String>,
}

impl ListDnsRecordsBuilder {
    /// Lists every record of the zone `zone_id`.
    pub fn new(zone_id: &str) -> (r: ListDnsRecordsBuilder)
        ensures
            r.zone_id@ == zone_id@,
            r.name.is_none(),
    {
        ListDnsRecordsBuilder { zone_id: zone_id.to_owned(), name: None }
    }

    /// Restricts the listing to records named `name`.
    pub fn name(self, name: String) -> (r: ListDnsRecordsBuilder)
        ensures
            r.zone_id == self.zone_id,
            r.name == Some(name),
    {
        ListDnsRecordsBuilder { zone_id: self.zone_id, name: Some(name) }
    }
}

/// A request to overwrite one record. It carries the record's ttl, proxied
/// flag and name unchanged, so that only the content is replaced.
#[derive(Clone, Debug, PartialEq, Eq)]
pub struct UpdateDnsRecordBuilder {
    pub zone_id: String,
    pub record_id: String,
    pub ttl: Option<u32>,
    pub proxied: Option<bool>,
    pub name: String,
    pub content: DnsContent,
}

/// `u` rewrites `rec` with the content `c` and keeps everything else.
pub open spec fn is_update_of(u: UpdateDnsRecordBuilder, rec: DnsRecord, c: DnsContent) -> bool {
    &&& u.zone_id == rec.zone_id
    &&& u.record_id == rec.id
    &&& u.ttl == Some(rec.ttl)
    &&& u.proxied == Some(rec.proxied)
    &&& u.name == rec.name
    &&& u.content == c
}

impl UpdateDnsRecordBuilder {
    /// An update of `record` that writes back what it holds now.
    pub fn new(record: &DnsRecord) -> (r: UpdateDnsRecordBuilder)
        ensures
            is_update_of(r, *record, record.content),
    {
        UpdateDnsRecordBuilder {
            zone_id: record.zone_id.clone(),
            record_id: record.id.clone(),
            ttl: Some(record.ttl),
            proxied: Some(record.proxied),
            name: record.name.clone(),
            content: copy_content(&record.content),
        }
    }

    /// The same update, writing `content` instead.
    pub fn content(self, content: DnsContent) -> (r: UpdateDnsRecordBuilder)
        ensures
            r == (UpdateDnsRecordBuilder { content, ..self }),
    {
        UpdateDnsRecordBuilder { content, ..self }
    }
}

} // verus!
