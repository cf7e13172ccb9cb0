use ddns::config::{Config, IpType};
use ddns::reconcile::{contains_name, decide_action, filter_records, find_record, plan_actions};
use ddns::record::{Action, DnsRecord};

fn record(id: &str, name: &str, value: &str) -> DnsRecord {
    DnsRecord {
        id: id.to_string(),
        name: name.to_string(),
        record_type: "A".to_string(),
        value: value.to_string(),
        ttl: 300,
        zone_id: "zone-1".to_string(),
    }
}

fn config(ip_type: IpType, sub_domains: Vec<&str>) -> Config {
    Config {
        ttl: 300,
        sleep: 60,
        zone: "example.com".to_string(),
        token: "token".to_string(),
        ip_type,
        sub_domains: sub_domains.iter().map(|s| s.to_string()).collect(),
    }
}

#[test]
fn create_when_no_record_exists() {
    let cfg = config(IpType::A, vec!["home"]);
    let records: Vec<DnsRecord> = vec![];
    let ip = "1.2.3.4".to_string();
    let zone_id = "zone-1".to_string();
    let plan = plan_actions(&cfg, &zone_id, &ip, &records);
    assert_eq!(plan.len(), 1);
    match &plan[0] {
        Action::Create {
            name,
            record_type,
            value,
            ttl,
            zone_id,
        } => {
            assert_eq!(name, "home");
            assert_eq!(record_type, "A");
            assert_eq!(value, "1.2.3.4");
            assert_eq!(*ttl, 300);
            assert_eq!(zone_id, "zone-1");
        }
        other => panic!("expected a create action, got {:?}", other),
    }
}

#[test]
fn no_write_when_value_already_matches() {
    let cfg = config(IpType::A, vec!["home"]);
    let records = vec![record("rec-1", "home", "1.2.3.4")];
    let ip = "1.2.3.4".to_string();
    let zone_id = "zone-1".to_string();
    let plan = plan_actions(&cfg, &zone_id, &ip, &records);
    assert_eq!(plan.len(), 1);
    assert_eq!(plan[0], Action::NoOp);
}

#[test]
fn update_when_value_differs() {
    let cfg = config(IpType::A, vec!["home"]);
    let records = vec![record("rec-1", "home", "1.2.3.4")];
    let ip = "5.6.7.8".to_string();
    let zone_id = "zone-1".to_string();
    let plan = plan_actions(&cfg, &zone_id, &ip, &records);
    assert_eq!(plan.len(), 1);
    match &plan[0] {
        Action::Update { record } => {
            assert_eq!(record.id, "rec-1");
            assert_eq!(record.value, "5.6.7.8");
            assert_eq!(record.name, "home");
            assert_eq!(record.record_type, "A");
            assert_eq!(record.ttl, 300);
            assert_eq!(record.zone_id, "zone-1");
        }
        other => panic!("expected an update action, got {:?}", other),
    }
}

#[test]
fn create_ignores_records_with_other_names() {
    let cfg = config(IpType::A, vec!["home"]);
    let records = vec![record("rec-9", "other", "1.2.3.4")];
    let ip = "1.2.3.4".to_string();
    let zone_id = "zone-1".to_string();
    let plan = plan_actions(&cfg, &zone_id, &ip, &records);
    assert_eq!(plan.len(), 1);
    assert!(matches!(&plan[0], Action::Create { name, .. } if name == "home"));
}

#[test]
fn idempotent_over_multiple_targets() {
    let cfg = config(IpType::A, vec!["home", "www"]);
    let records = vec![
        record("rec-1", "home", "1.2.3.4"),
        record("rec-2", "www", "1.2.3.4"),
    ];
    let ip = "1.2.3.4".to_string();
    let zone_id = "zone-1".to_string();
    let plan = plan_actions(&cfg, &zone_id, &ip, &records);
    assert_eq!(plan, vec![Action::NoOp, Action::NoOp]);
}

#[test]
fn update_targets_first_matching_record() {
    let cfg = config(IpType::A, vec!["home"]);
    let records = vec![
        record("rec-1", "home", "1.1.1.1"),
        record("rec-2", "home", "2.2.2.2"),
    ];
    let ip = "5.6.7.8".to_string();
    let zone_id = "zone-1".to_string();
    let plan = plan_actions(&cfg, &zone_id, &ip, &records);
    assert_eq!(plan.len(), 1);
    assert!(matches!(&plan[0], Action::Update { record } if record.id == "rec-1"));
}

#[test]
fn aaaa_type_used_for_ipv6_config() {
    let cfg = config(IpType::AAAA, vec!["home"]);
    let records: Vec<DnsRecord> = vec![];
    let ip = "2001:db8::1".to_string();
    let zone_id = "zone-1".to_string();
    let plan = plan_actions(&cfg, &zone_id, &ip, &records);
    assert_eq!(plan.len(), 1);
    assert!(
        matches!(&plan[0], Action::Create { record_type, value, .. } if record_type == "AAAA" && value == "2001:db8::1")
    );
}

#[test]
fn empty_sub_domains_plan_is_empty() {
    let cfg = config(IpType::A, vec![]);
    let records = vec![record("rec-1", "home", "1.2.3.4")];
    let ip = "5.6.7.8".to_string();
    let zone_id = "zone-1".to_string();
    let plan = plan_actions(&cfg, &zone_id, &ip, &records);
    assert!(plan.is_empty());
}

#[test]
fn filter_records_keeps_only_configured_names() {
    let records = vec![
        record("rec-1", "home", "1.2.3.4"),
        record("rec-2", "other", "9.9.9.9"),
        record("rec-3", "www", "1.2.3.4"),
    ];
    let subs = vec!["home".to_string(), "www".to_string()];
    let kept = filter_records(&records, &subs);
    assert_eq!(kept.len(), 2);
    assert_eq!(kept[0], records[0]);
    assert_eq!(kept[1], records[2]);
}

#[test]
fn contains_name_reports_membership() {
    let subs = vec!["home".to_string(), "www".to_string()];
    assert!(contains_name(&subs, &"www".to_string()));
    assert!(!contains_name(&subs, &"other".to_string()));
    assert!(!contains_name(&vec![], &"home".to_string()));
}

#[test]
fn find_record_returns_first_match() {
    let records = vec![
        record("rec-1", "other", "9.9.9.9"),
        record("rec-2", "home", "1.1.1.1"),
        record("rec-3", "home", "2.2.2.2"),
    ];
    let found = find_record(&records, &"home".to_string());
    assert_eq!(found, Some(&records[1]));
    assert_eq!(find_record(&records, &"missing".to_string()), None);
}

#[test]
fn decide_action_on_a_single_record() {
    let existing = record("rec-1", "home", "1.2.3.4");
    let name = "home".to_string();
    let record_type = "A".to_string();
    let zone_id = "zone-1".to_string();
    let same = decide_action(
        Some(&existing),
        &name,
        &record_type,
        &"1.2.3.4".to_string(),
        300,
        &zone_id,
    );
    assert_eq!(same, Action::NoOp);
    let changed = decide_action(
        Some(&existing),
        &name,
        &record_type,
        &"5.6.7.8".to_string(),
        300,
        &zone_id,
    );
    assert!(matches!(&changed, Action::Update { record } if record.value == "5.6.7.8"));
}
