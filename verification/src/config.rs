//! Process configuration: the address family and the reconciler's settings.

use vstd::prelude::*;

verus! {

/// The address family a record points at: `A` for IPv4, `AAAA` for IPv6.
#[derive(Clone, PartialEq, Eq, Structural)]
pub enum IpType {
    A,
    AAAA,
}

/// The DNS record type string that belongs to an address family.
pub open spec fn spec_record_type(t: IpType) -> Seq<char> {
    match t {
        IpType::A => "A"@,
        IpType::AAAA => "AAAA"@,
    }
}

impl IpType {
    /// The record type string sent to the provider: `"A"` or `"AAAA"`.
    pub fn record_type(&self) -> (r: String)
        ensures
            r@ == spec_record_type(*self),
    {
        match self {
            IpType::A => "A".to_owned(),
            IpType::AAAA => "AAAA".to_owned(),
        }
    }
}

/// The reconciler's settings, loaded once at startup and read-only afterwards.
#[derive(Clone)]
pub struct Config {
    /// TTL, in seconds, for records the reconciler creates.
    pub ttl: u64,
    /// Seconds to sleep between reconciliation cycles.
    pub sleep: u64,
    /// Name of the DNS zone that holds the target records.
    pub zone: String,
    /// API credential sent with every provider request.
    pub token: String,
    /// Address family to discover and to publish.
    pub ip_type: IpType,
    /// Subdomain names whose records are kept up to date.
    pub sub_domains: Vec<String>,
}

} // verus!
