use vstd::prelude::*;
use crate::name::DomainName;

verus! {

/// The response code of a DNS message, as the core reads it. Codes the logic
/// never distinguishes are carried under `Other`.
#[derive(Clone, Copy, PartialEq, Eq, Structural, Debug)]
pub enum ResponseCode {
    NoError,
    ServFail,
    NXDomain,
    Refused,
    YXRRSet,
    NXRRSet,
    Other(u16),
}

/// The data of a resource record, reduced to what the core inspects: a CNAME
/// target, a TXT value, an SOA marker, or anything else.
pub enum RecordData {
    Cname(DomainName),
    Txt(String),
    Soa,
    Other,
}

/// One resource record of a response section.
pub struct DnsRecord {
    pub owner: DomainName,
    pub data: RecordData,
}

/// A DNS response, reduced to the parts the core reads: the response code,
/// the answer section, and the authority section.
pub struct DnsResponse {
    pub code: ResponseCode,
    pub answers: Vec<DnsRecord>,
    pub authority: Vec<DnsRecord>,
}

/// The record types the core queries for.
#[derive(Clone, Copy, PartialEq, Eq, Structural, Debug)]
pub enum QueryType {
    Txt,
    Soa,
}

} // verus!
