//! IP discovery parameters: which socket addresses the routing-table
//! trick uses for each address family.
//!
//! The discovery itself is a connectionless socket opened by the
//! surrounding process: it binds to the family's wildcard address,
//! connects toward a well-known public anchor without sending anything,
//! and reads back the local address the OS selected for that route. This
//! module decides, from the configured address family, which bind address
//! and which anchor that socket must use.

use vstd::prelude::*;

use crate::config::{spec_record_type, IpType};

verus! {

/// The wildcard address the discovery socket binds to for a family.
pub open spec fn spec_bind_addr(t: IpType) -> Seq<char> {
    match t {
        IpType::A => "0.0.0.0:0"@,
        IpType::AAAA => "[::]:0"@,
    }
}

/// The public anchor the discovery socket connects toward for a family:
/// a well-known IPv4 address for `A`, a well-known IPv6 address for
/// `AAAA`, both on port 80. No packet is ever sent to it.
pub open spec fn spec_anchor_addr(t: IpType) -> Seq<char> {
    match t {
        IpType::A => "8.8.8.8:80"@,
        IpType::AAAA => "[2001:4860:4860::8888]:80"@,
    }
}

/// The local wildcard address to bind the discovery socket to.
pub fn discovery_bind_addr(t: &IpType) -> (r: String)
    ensures
        r@ == spec_bind_addr(*t),
{
    match t {
        IpType::A => "0.0.0.0:0".to_owned(),
        IpType::AAAA => "[::]:0".to_owned(),
    }
}

/// The public anchor address to connect the discovery socket toward.
pub fn discovery_anchor_addr(t: &IpType) -> (r: String)
    ensures
        r@ == spec_anchor_addr(*t),
{
    match t {
        IpType::A => "8.8.8.8:80".to_owned(),
        IpType::AAAA => "[2001:4860:4860::8888]:80".to_owned(),
    }
}

/// Address-family consistency: for each family, the record type string,
/// the discovery socket's bind address and its anchor all belong to that
/// family — `A` pairs the IPv4 wildcard and IPv4 anchor with record type
/// `"A"`, and `AAAA` pairs the IPv6 wildcard and IPv6 anchor with record
/// type `"AAAA"`. No mixed pairing is possible.
pub proof fn lemma_address_family_consistency(t: IpType)
    ensures
        t is A ==> spec_record_type(t) == "A"@ && spec_bind_addr(t) == "0.0.0.0:0"@
            && spec_anchor_addr(t) == "8.8.8.8:80"@,
        t is AAAA ==> spec_record_type(t) == "AAAA"@ && spec_bind_addr(t) == "[::]:0"@
            && spec_anchor_addr(t) == "[2001:4860:4860::8888]:80"@,
        spec_record_type(t) == "AAAA"@ <==> t is AAAA,
        spec_anchor_addr(t) == "[2001:4860:4860::8888]:80"@ <==> t is AAAA,
{
    reveal_strlit("A");
    reveal_strlit("AAAA");
    reveal_strlit("8.8.8.8:80");
    reveal_strlit("[2001:4860:4860::8888]:80");
}

} // verus!
