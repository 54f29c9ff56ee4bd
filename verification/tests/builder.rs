use mempool_relay::{
    MempoolTransaction, TxDetail, age_minutes, assemble_snapshot, derive_record, plan_details,
};

fn detail(fee: u64, vsize: u64) -> TxDetail {
    TxDetail {
        fee: Some(fee),
        vsize: Some(vsize),
        size: Some(vsize),
        inputs: Some(1),
        outputs: Some(2),
        time: None,
    }
}

#[test]
fn plan_of_failed_list_is_empty() {
    let planned = plan_details(None);
    assert!(planned.is_empty());
}

#[test]
fn plan_keeps_short_lists_whole() {
    let ids: Vec<String> = (0..5).map(|i| format!("tx{}", i)).collect();
    let planned = plan_details(Some(ids.clone()));
    assert_eq!(planned, ids);
}

#[test]
fn plan_truncates_to_first_twenty_five() {
    let ids: Vec<String> = (0..40).map(|i| format!("tx{}", i)).collect();
    let planned = plan_details(Some(ids.clone()));
    assert_eq!(planned.len(), 25);
    assert_eq!(planned[..], ids[..25]);
}

#[test]
fn assemble_keeps_every_success_in_order() {
    let items = vec![
        ("a".to_string(), Some(detail(100, 10))),
        ("b".to_string(), Some(detail(200, 20))),
        ("c".to_string(), Some(detail(300, 30))),
    ];
    let snap = assemble_snapshot(items, 0);
    let ids: Vec<&str> = snap.iter().map(|r| r.txid.as_str()).collect();
    assert_eq!(ids, vec!["a", "b", "c"]);
}

#[test]
fn assemble_omits_only_the_failed_detail() {
    let items = vec![
        ("t1".to_string(), Some(detail(100, 10))),
        ("t2".to_string(), None),
        ("t3".to_string(), Some(detail(300, 30))),
    ];
    let snap = assemble_snapshot(items, 0);
    assert_eq!(snap.len(), 2);
    assert_eq!(snap[0].txid, "t1");
    assert_eq!(snap[1].txid, "t3");
}

#[test]
fn assemble_of_no_outcomes_is_empty() {
    let snap = assemble_snapshot(Vec::new(), 0);
    assert!(snap.is_empty());
}

#[test]
fn fee_rate_is_fee_over_vsize() {
    let rec = derive_record("t".to_string(), &detail(500, 250), 0);
    let (num, den) = rec.fee_rate_parts();
    assert_eq!((num, den), (500, 250));
    assert_eq!(num as f64 / den as f64, 2.0);
}

#[test]
fn fee_rate_is_zero_when_weight_is_zero() {
    let d = TxDetail {
        fee: Some(500),
        vsize: Some(0),
        size: Some(0),
        inputs: None,
        outputs: None,
        time: None,
    };
    let rec = derive_record("t".to_string(), &d, 0);
    let (num, den) = rec.fee_rate_parts();
    assert_eq!((num, den), (0, 1));
    assert_eq!(num as f64 / den as f64, 0.0);
}

#[test]
fn weight_prefers_vsize_then_size() {
    let with_vsize = TxDetail {
        fee: Some(10),
        vsize: Some(100),
        size: Some(400),
        inputs: None,
        outputs: None,
        time: None,
    };
    assert_eq!(derive_record("t".to_string(), &with_vsize, 0).weight, 100);
    let size_only = TxDetail { vsize: None, ..with_vsize };
    assert_eq!(derive_record("t".to_string(), &size_only, 0).weight, 400);
    let neither = TxDetail { vsize: None, size: None, ..with_vsize };
    assert_eq!(derive_record("t".to_string(), &neither, 0).weight, 0);
}

#[test]
fn derive_fills_missing_fields_with_zero() {
    let d = TxDetail { fee: None, vsize: None, size: None, inputs: None, outputs: None, time: None };
    let rec = derive_record("t".to_string(), &d, 12345);
    let expected = MempoolTransaction {
        txid: "t".to_string(),
        fee: 0,
        weight: 0,
        size: 0,
        inputs: 0,
        outputs: 0,
        age: 0,
    };
    assert_eq!(rec, expected);
}

#[test]
fn derive_reads_counts_and_size() {
    let d = TxDetail {
        fee: Some(700),
        vsize: Some(140),
        size: Some(210),
        inputs: Some(3),
        outputs: Some(4),
        time: Some(940),
    };
    let rec = derive_record("t".to_string(), &d, 1000);
    assert_eq!(rec.fee, 700);
    assert_eq!(rec.weight, 140);
    assert_eq!(rec.size, 210);
    assert_eq!(rec.inputs, 3);
    assert_eq!(rec.outputs, 4);
    assert_eq!(rec.age, 1);
}

#[test]
fn age_is_floor_of_delta_in_minutes() {
    assert_eq!(age_minutes(1000, Some(880)), 2);
    assert_eq!(age_minutes(1000, Some(881)), 1);
    assert_eq!(age_minutes(1000, Some(1000)), 0);
}

#[test]
fn age_is_zero_when_time_is_missing() {
    assert_eq!(age_minutes(1000, None), 0);
}

#[test]
fn age_of_slightly_future_time_truncates_to_zero() {
    assert_eq!(age_minutes(1000, Some(1030)), 0);
}

#[test]
fn age_of_far_future_time_wraps_as_narrowing_does() {
    assert_eq!(age_minutes(0, Some(7200)), ((-120i64) as u32));
}
