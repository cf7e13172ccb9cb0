//! The reconciliation core: pick the zone, match records to target names,
//! and decide the minimal write that converges each record on the
//! discovered IP.

use vstd::prelude::*;

use crate::config::{spec_record_type, Config};
use crate::record::{is_write, write_count, Action, DnsRecord, Zone};

verus! {

/// The zone identifier the reconciler works against: the first zone of the
/// provider's response. The provider filters the listing by the configured
/// zone name, so the first element is the match.
pub fn select_zone_id(zones: &Vec<Zone>) -> (r: Option<String>)
    ensures
        match r {
            Some(id) => zones@.len() > 0 && id@ == zones@[0].id@,
            None => zones@.len() == 0,
        },
{
    if zones.len() == 0 {
        None
    } else {
        Some(zones[0].id.clone())
    }
}

/// The first record in `records`, scanning from position `i`, whose name
/// equals `name`; `None` if no record from `i` on matches.
pub open spec fn first_match_from(records: Seq<DnsRecord>, name: Seq<char>, i: int) -> Option<
    DnsRecord,
>
    decreases records.len() - i,
{
    if i < 0 || i >= records.len() {
        None
    } else if records[i].name@ == name {
        Some(records[i])
    } else {
        first_match_from(records, name, i + 1)
    }
}

/// The first record in `records` whose name equals `name`.
pub open spec fn spec_first_match(records: Seq<DnsRecord>, name: Seq<char>) -> Option<DnsRecord> {
    first_match_from(records, name, 0)
}

/// The first record whose name equals `name`, or `None` if no record's
/// name does.
pub fn find_record<'a>(records: &'a Vec<DnsRecord>, name: &String) -> (r: Option<&'a DnsRecord>)
    ensures
        match r {
            Some(rec) => spec_first_match(records@, name@) == Some(*rec),
            None => spec_first_match(records@, name@) is None,
        },
{
    let mut i: usize = 0;
    while i < records.len()
        invariant
            0 <= i <= records@.len(),
            spec_first_match(records@, name@) == first_match_from(records@, name@, i as int),
            decreases records@.len() - i,
    {
        if records[i].name == *name {
            return Some(&records[i]);
        }
        i += 1;
    }
    None
}

/// Whether some configured subdomain name equals `name`.
pub open spec fn spec_contains_name(sub_domains: Seq<String>, name: Seq<char>) -> bool {
    exists|i: int| 0 <= i < sub_domains.len() && sub_domains[i]@ == name
}

/// Whether `name` is one of the configured subdomain names.
pub fn contains_name(sub_domains: &Vec<String>, name: &String) -> (b: bool)
    ensures
        b == spec_contains_name(sub_domains@, name@),
{
    let mut i: usize = 0;
    while i < sub_domains.len()
        invariant
            0 <= i <= sub_domains@.len(),
            forall|j: int| 0 <= j < i ==> (#[trigger] sub_domains@[j])@ != name@,
        decreases sub_domains@.len() - i,
    {
        if sub_domains[i] == *name {
            return true;
        }
        i += 1;
    }
    false
}

/// The subsequence of `records` whose names are configured subdomains,
/// in their original order.
pub open spec fn matching_records(records: Seq<DnsRecord>, sub_domains: Seq<String>) -> Seq<
    DnsRecord,
> {
    records.filter(|r: DnsRecord| spec_contains_name(sub_domains, r.name@))
}

proof fn lemma_matching_take_step(records: Seq<DnsRecord>, sub_domains: Seq<String>, i: int)
    requires
        0 <= i < records.len(),
    ensures
        matching_records(records.take(i + 1), sub_domains) == if spec_contains_name(
            sub_domains,
            records[i].name@,
        ) {
            matching_records(records.take(i), sub_domains).push(records[i])
        } else {
            matching_records(records.take(i), sub_domains)
        },
{
    reveal(Seq::filter);
    assert(records.take(i + 1).drop_last() =~= records.take(i));
    assert(records.take(i + 1).last() == records[i]);
}

/// Keep exactly the records whose name is one of the configured
/// subdomains, preserving their order. A deep copy of each kept record
/// is returned; the snapshot itself is left untouched.
pub fn filter_records(records: &Vec<DnsRecord>, sub_domains: &Vec<String>) -> (r: Vec<DnsRecord>)
    ensures
        r@ == matching_records(records@, sub_domains@),
{
    let mut out: Vec<DnsRecord> = Vec::new();
    let mut i: usize = 0;
    while i < records.len()
        invariant
            0 <= i <= records@.len(),
            out@ == matching_records(records@.take(i as int), sub_domains@),
        decreases records@.len() - i,
    {
        proof {
            lemma_matching_take_step(records@, sub_domains@, i as int);
        }
        let rec = &records[i];
        if contains_name(sub_domains, &rec.name) {
            let copy = DnsRecord {
                id: rec.id.clone(),
                name: rec.name.clone(),
                record_type: rec.record_type.clone(),
                value: rec.value.clone(),
                ttl: rec.ttl,
                zone_id: rec.zone_id.clone(),
            };
            assert(copy == records@[i as int]);
            out.push(copy);
        }
        i += 1;
    }
    proof {
        assert(records@.take(records@.len() as int) =~= records@);
    }
    out
}

/// An `Option<&DnsRecord>` as the record it points at.
pub open spec fn deref_opt(o: Option<&DnsRecord>) -> Option<DnsRecord> {
    match o {
        Some(r) => Some(*r),
        None => None,
    }
}

/// The one correct decision for one target name. Given the record found
/// for the name (if any), the discovered IP and the settings, exactly one
/// branch applies:
/// - no record found: a create request carrying exactly this name, the
///   family's record type, the discovered IP, the configured TTL and the
///   resolved zone;
/// - a record found whose value already equals the discovered IP: no
///   request at all;
/// - a record found with a differing value: an update request carrying
///   that record's identifier and the discovered IP, with every other
///   field of the record unchanged.
pub open spec fn action_is_correct(
    a: Action,
    found: Option<DnsRecord>,
    name: Seq<char>,
    rtype: Seq<char>,
    ip: Seq<char>,
    ttl: u64,
    zone_id: Seq<char>,
) -> bool {
    match found {
        None => {
            &&& a matches Action::Create {
                name: n,
                record_type: t,
                value: v,
                ttl: l,
                zone_id: z,
            }
            &&& n@ == name
            &&& t@ == rtype
            &&& v@ == ip
            &&& l == ttl
            &&& z@ == zone_id
        },
        Some(r) => if r.value@ == ip {
            a is NoOp
        } else {
            &&& a matches Action::Update { record }
            &&& record.id@ == r.id@
            &&& record.name@ == r.name@
            &&& record.record_type@ == r.record_type@
            &&& record.value@ == ip
            &&& record.ttl == r.ttl
            &&& record.zone_id@ == r.zone_id@
        },
    }
}

/// Decide the write for one target name: create when no record matches,
/// do nothing when the found record already holds `ip`, and otherwise
/// update the found record's value to `ip`, preserving its other fields.
pub fn decide_action(
    found: Option<&DnsRecord>,
    name: &String,
    record_type: &String,
    ip: &String,
    ttl: u64,
    zone_id: &String,
) -> (a: Action)
    ensures
        action_is_correct(a, deref_opt(found), name@, record_type@, ip@, ttl, zone_id@),
{
    match found {
        None => Action::Create {
            name: name.clone(),
            record_type: record_type.clone(),
            value: ip.clone(),
            ttl,
            zone_id: zone_id.clone(),
        },
        Some(r) => {
            if r.value == *ip {
                Action::NoOp
            } else {
                Action::Update {
                    record: DnsRecord {
                        id: r.id.clone(),
                        name: r.name.clone(),
                        record_type: r.record_type.clone(),
                        value: ip.clone(),
                        ttl: r.ttl,
                        zone_id: r.zone_id.clone(),
                    },
                }
            }
        },
    }
}

/// The correct plan for a whole cycle: one action per configured
/// subdomain, each the correct decision for the record found under that
/// subdomain's name.
pub open spec fn plan_is_correct(
    plan: Seq<Action>,
    sub_domains: Seq<String>,
    records: Seq<DnsRecord>,
    rtype: Seq<char>,
    ip: Seq<char>,
    ttl: u64,
    zone_id: Seq<char>,
) -> bool {
    &&& plan.len() == sub_domains.len()
    &&& forall|i: int|
        0 <= i < plan.len() ==> action_is_correct(
            #[trigger] plan[i],
            spec_first_match(records, sub_domains[i]@),
            sub_domains[i]@,
            rtype,
            ip,
            ttl,
            zone_id,
        )
}

/// One reconciliation cycle's decisions: for each configured subdomain,
/// in order, the correct action against the given record snapshot and
/// the discovered IP.
pub fn plan_actions(config: &Config, zone_id: &String, ip: &String, records: &Vec<DnsRecord>) -> (plan: Vec<
    Action,
>)
    ensures
        plan_is_correct(
            plan@,
            config.sub_domains@,
            records@,
            spec_record_type(config.ip_type),
            ip@,
            config.ttl,
            zone_id@,
        ),
{
    let record_type = config.ip_type.record_type();
    let mut plan: Vec<Action> = Vec::new();
    let mut i: usize = 0;
    while i < config.sub_domains.len()
        invariant
            0 <= i <= config.sub_domains@.len(),
            plan@.len() == i,
            record_type@ == spec_record_type(config.ip_type),
            forall|j: int|
                0 <= j < i ==> action_is_correct(
                    #[trigger] plan@[j],
                    spec_first_match(records@, config.sub_domains@[j]@),
                    config.sub_domains@[j]@,
                    spec_record_type(config.ip_type),
                    ip@,
                    config.ttl,
                    zone_id@,
                ),
        decreases config.sub_domains@.len() - i,
    {
        let sub_domain = &config.sub_domains[i];
        let found = find_record(records, sub_domain);
        let a = decide_action(found, sub_domain, &record_type, ip, config.ttl, zone_id);
        plan.push(a);
        i += 1;
    }
    plan
}

/// Whether a target needs a write at all: it does unless a record was
/// found for it that already holds the discovered IP.
pub open spec fn needs_write(found: Option<DnsRecord>, ip: Seq<char>) -> bool {
    match found {
        None => true,
        Some(r) => r.value@ != ip,
    }
}

/// How many configured subdomains have no record, or a record whose
/// value differs from the discovered IP.
pub open spec fn stale_count(
    sub_domains: Seq<String>,
    records: Seq<DnsRecord>,
    ip: Seq<char>,
) -> nat
    decreases sub_domains.len(),
{
    if sub_domains.len() == 0 {
        0
    } else {
        (if needs_write(spec_first_match(records, sub_domains[0]@), ip) {
            1nat
        } else {
            0nat
        }) + stale_count(sub_domains.drop_first(), records, ip)
    }
}

/// A correct plan issues exactly as many write requests as there are
/// targets whose record is missing or stale: one create or update per
/// such target, and no request for any other.
pub proof fn lemma_write_count(
    plan: Seq<Action>,
    sub_domains: Seq<String>,
    records: Seq<DnsRecord>,
    rtype: Seq<char>,
    ip: Seq<char>,
    ttl: u64,
    zone_id: Seq<char>,
)
    requires
        plan_is_correct(plan, sub_domains, records, rtype, ip, ttl, zone_id),
    ensures
        write_count(plan) == stale_count(sub_domains, records, ip),
    decreases plan.len(),
{
    if plan.len() > 0 {
        assert(action_is_correct(
            plan[0],
            spec_first_match(records, sub_domains[0]@),
            sub_domains[0]@,
            rtype,
            ip,
            ttl,
            zone_id,
        ));
        let plan_rest = plan.drop_first();
        let subs_rest = sub_domains.drop_first();
        assert forall|i: int| 0 <= i < plan_rest.len() implies action_is_correct(
            #[trigger] plan_rest[i],
            spec_first_match(records, subs_rest[i]@),
            subs_rest[i]@,
            rtype,
            ip,
            ttl,
            zone_id,
        ) by {
            assert(plan_rest[i] == plan[i + 1]);
            assert(subs_rest[i] == sub_domains[i + 1]);
            assert(action_is_correct(
                plan[i + 1],
                spec_first_match(records, sub_domains[i + 1]@),
                sub_domains[i + 1]@,
                rtype,
                ip,
                ttl,
                zone_id,
            ));
        }
        lemma_write_count(plan_rest, subs_rest, records, rtype, ip, ttl, zone_id);
    }
}

proof fn lemma_stale_count_zero(sub_domains: Seq<String>, records: Seq<DnsRecord>, ip: Seq<char>)
    requires
        forall|i: int|
            0 <= i < sub_domains.len() ==> !needs_write(
                #[trigger] spec_first_match(records, sub_domains[i]@),
                ip,
            ),
    ensures
        stale_count(sub_domains, records, ip) == 0,
    decreases sub_domains.len(),
{
    if sub_domains.len() > 0 {
        let rest = sub_domains.drop_first();
        assert forall|i: int| 0 <= i < rest.len() implies !needs_write(
            #[trigger] spec_first_match(records, rest[i]@),
            ip,
        ) by {
            assert(rest[i] == sub_domains[i + 1]);
            assert(!needs_write(spec_first_match(records, sub_domains[i + 1]@), ip));
        }
        lemma_stale_count_zero(rest, records, ip);
    }
}

/// Idempotence: a plan built against a snapshot in which every configured
/// subdomain's first matching record already holds the discovered IP
/// issues zero write requests — no action in the plan is a write.
pub proof fn lemma_idempotence(
    plan: Seq<Action>,
    sub_domains: Seq<String>,
    records: Seq<DnsRecord>,
    rtype: Seq<char>,
    ip: Seq<char>,
    ttl: u64,
    zone_id: Seq<char>,
)
    requires
        plan_is_correct(plan, sub_domains, records, rtype, ip, ttl, zone_id),
        forall|i: int|
            0 <= i < sub_domains.len() ==> !needs_write(
                #[trigger] spec_first_match(records, sub_domains[i]@),
                ip,
            ),
    ensures
        write_count(plan) == 0,
        forall|i: int| 0 <= i < plan.len() ==> !is_write(#[trigger] plan[i]),
{
    assert forall|i: int| 0 <= i < plan.len() implies !is_write(plan[i]) by {
        assert(action_is_correct(
            plan[i],
            spec_first_match(records, sub_domains[i]@),
            sub_domains[i]@,
            rtype,
            ip,
            ttl,
            zone_id,
        ));
    }
    lemma_write_count(plan, sub_domains, records, rtype, ip, ttl, zone_id);
    lemma_stale_count_zero(sub_domains, records, ip);
}

} // verus!
