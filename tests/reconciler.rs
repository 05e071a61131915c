use dyndns::address::{is_same_address, normalize};
use dyndns::reconcile::{Action, Outcome, Phase, Reconciler};
use dyndns::record::{plan_updates, DnsRecord, RecordError};

fn rec(id: u64, kind: &str, data: &str) -> DnsRecord {
    DnsRecord { id, kind: kind.to_string(), data: data.to_string() }
}

#[test]
fn unchanged_address_finishes_at_once() {
    let mut r = Reconciler::new("10.0.0.1", "10.0.0.1", true);
    assert_eq!(r.start(), Action::Finish(Outcome::Unchanged));
    assert_eq!(r.phase(), Phase::Done);
}

#[test]
fn trailing_newline_in_stored_address_is_ignored() {
    let mut r = Reconciler::new("10.0.0.1", "10.0.0.1\n", true);
    assert_eq!(r.start(), Action::Finish(Outcome::Unchanged));
}

#[test]
fn changed_address_is_saved_first() {
    let mut r = Reconciler::new(" 10.0.0.2\n", "10.0.0.1", true);
    assert_eq!(r.start(), Action::Save);
    assert_eq!(r.address(), "10.0.0.2");
    assert_eq!(r.phase(), Phase::Saving);
}

#[test]
fn missing_credential_stores_and_stops() {
    let mut r = Reconciler::new("10.0.0.2", "10.0.0.1", false);
    assert_eq!(r.start(), Action::Save);
    assert_eq!(r.saved(true), Action::Finish(Outcome::LocalOnly));
    assert_eq!(r.phase(), Phase::Done);
}

#[test]
fn storage_failure_ends_run() {
    let mut r = Reconciler::new("10.0.0.2", "10.0.0.1", true);
    assert_eq!(r.start(), Action::Save);
    assert_eq!(r.saved(false), Action::Finish(Outcome::StorageFailed));
}

#[test]
fn list_failure_ends_run() {
    let mut r = Reconciler::new("10.0.0.2", "10.0.0.1", true);
    r.start();
    assert_eq!(r.saved(true), Action::ListRecords);
    assert_eq!(r.list_failed(), Action::Finish(Outcome::ListFailed));
}

#[test]
fn only_matching_record_is_patched() {
    let mut r = Reconciler::new("10.0.0.2", "10.0.0.1", true);
    assert_eq!(r.start(), Action::Save);
    assert_eq!(r.address(), "10.0.0.2");
    assert_eq!(r.saved(true), Action::ListRecords);
    let records = vec![rec(1, "A", "10.0.0.1"), rec(2, "A", "203.0.113.5")];
    assert_eq!(r.listed(&records), Action::Update(0));
    assert_eq!(r.pending_count(), 1);
    let u = r.pending(0);
    assert_eq!(u.id, 1);
    assert_eq!(u.kind, "A");
    assert_eq!(u.data, "10.0.0.2");
    assert_eq!(r.updated(true), Action::Finish(Outcome::Propagated));
    assert_eq!(r.updated_ids(), &vec![1u64]);
    assert!(r.failed_ids().is_empty());
}

#[test]
fn failed_update_does_not_stop_the_others() {
    let mut r = Reconciler::new("10.0.0.2", "10.0.0.1", true);
    r.start();
    r.saved(true);
    let records = vec![rec(1, "A", "10.0.0.1"), rec(2, "A", "10.0.0.1"), rec(3, "AAAA", "10.0.0.1 ")];
    assert_eq!(r.listed(&records), Action::Update(0));
    assert_eq!(r.updated(true), Action::Update(1));
    assert_eq!(r.pending(1).id, 2);
    assert_eq!(r.updated(false), Action::Update(2));
    assert_eq!(r.pending(2).id, 3);
    assert_eq!(r.pending(2).kind, "AAAA");
    assert_eq!(r.updated(true), Action::Finish(Outcome::Propagated));
    assert_eq!(r.updated_ids(), &vec![1u64, 3]);
    assert_eq!(r.failed_ids(), &vec![2u64]);
}

#[test]
fn no_matching_records_finishes() {
    let mut r = Reconciler::new("10.0.0.2", "10.0.0.1", true);
    r.start();
    r.saved(true);
    let records = vec![rec(7, "A", "203.0.113.5")];
    assert_eq!(r.listed(&records), Action::Finish(Outcome::Propagated));
    assert_eq!(r.pending_count(), 0);
}

#[test]
fn second_run_after_change_is_noop() {
    let mut first = Reconciler::new("10.0.0.2\n", "10.0.0.1", true);
    assert_eq!(first.start(), Action::Save);
    let stored = first.address().to_string();
    let mut second = Reconciler::new("10.0.0.2\n", &stored, true);
    assert_eq!(second.start(), Action::Finish(Outcome::Unchanged));
}

#[test]
fn plan_keeps_listing_order_and_type() {
    let records = vec![
        rec(5, "AAAA", " 10.0.0.1"),
        rec(6, "A", "10.0.0.10"),
        rec(7, "A", "10.0.0.1"),
    ];
    let plan = plan_updates(&records, "10.0.0.1\n", "10.0.0.2");
    assert_eq!(plan.len(), 2);
    assert_eq!((plan[0].id, plan[0].kind.as_str(), plan[0].data.as_str()), (5, "AAAA", "10.0.0.2"));
    assert_eq!((plan[1].id, plan[1].kind.as_str(), plan[1].data.as_str()), (7, "A", "10.0.0.2"));
}

#[test]
fn plan_of_empty_list_is_empty() {
    let plan = plan_updates(&Vec::new(), "10.0.0.1", "10.0.0.2");
    assert!(plan.is_empty());
}

#[test]
fn addresses_compare_after_trimming() {
    assert!(is_same_address("10.0.0.1\n", " 10.0.0.1"));
    assert!(!is_same_address("10.0.0.1", "10.0.0.10"));
    assert_eq!(normalize("\t2001:db8::1 \n"), "2001:db8::1");
}

#[test]
fn record_from_complete_fields() {
    let r = DnsRecord::from_fields(Some(9), Some(" A\n".to_string()), Some("1.2.3.4".to_string())).unwrap();
    assert_eq!((r.id, r.kind.as_str(), r.data.as_str()), (9, "A", "1.2.3.4"));
}

#[test]
fn record_missing_fields_are_reported() {
    assert_eq!(
        DnsRecord::from_fields(None, Some("A".to_string()), Some("x".to_string())).unwrap_err(),
        RecordError::MissingId
    );
    assert_eq!(
        DnsRecord::from_fields(Some(1), None, Some("x".to_string())).unwrap_err(),
        RecordError::MissingType
    );
    assert_eq!(
        DnsRecord::from_fields(Some(1), Some("A".to_string()), None).unwrap_err(),
        RecordError::MissingData
    );
}
