//! The provider-owned entities the reconciler reads, and the write
//! actions it decides on.

use vstd::prelude::*;

verus! {

/// One zone as the provider reports it: an administrative container
/// for a domain's records.
#[derive(Clone, Debug, PartialEq)]
pub struct Zone {
    /// The provider's identifier for the zone.
    pub id: String,
    /// The zone's domain name.
    pub name: String,
}

/// One DNS record as the provider reports it. The provider is the source
/// of truth: the reconciler only reads a fresh snapshot each cycle and
/// issues create or update requests against it.
#[derive(Clone, Debug, PartialEq)]
pub struct DnsRecord {
    /// The provider's identifier for the record.
    pub id: String,
    /// The record's name (the subdomain part).
    pub name: String,
    /// The record type string, such as `"A"` or `"AAAA"`.
    pub record_type: String,
    /// The record's value: an IP address literal.
    pub value: String,
    /// The record's time to live, in seconds.
    pub ttl: u64,
    /// The identifier of the zone the record belongs to.
    pub zone_id: String,
}

/// What one reconciliation step decides for one target name: leave the
/// record alone, replace an existing record's value, or create a record.
#[derive(Clone, Debug, PartialEq)]
pub enum Action {
    /// The record already holds the discovered IP: no request is issued.
    NoOp,
    /// Replace the value of an existing record. The carried record holds
    /// the remote record's identifier and all its other fields unchanged,
    /// with only `value` set to the discovered IP.
    Update { record: DnsRecord },
    /// Create a record with these fields.
    Create {
        name: String,
        record_type: String,
        value: String,
        ttl: u64,
        zone_id: String,
    },
}

/// Whether an action issues a write request to the provider.
pub open spec fn is_write(a: Action) -> bool {
    !(a is NoOp)
}

/// How many write requests a plan issues.
pub open spec fn write_count(plan: Seq<Action>) -> nat
    decreases plan.len(),
{
    if plan.len() == 0 {
        0
    } else {
        (if is_write(plan[0]) {
            1nat
        } else {
            0nat
        }) + write_count(plan.drop_first())
    }
}

} // verus!
