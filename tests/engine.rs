use signer_rest_api::{Correlator, MsgSigned, Settlement, TopicConsumeErr};

fn signed(id: &str, body: &str) -> MsgSigned {
    MsgSigned::new(id.to_string(), "resp-1".to_string(), body.to_string())
}

#[test]
fn accepted_request_is_settled_by_its_response() {
    let mut c: Correlator<u32> = Correlator::new();
    assert!(c.accept("a".to_string(), 7).is_ok());
    assert!(c.is_waiting("a"));
    let s: Option<Settlement<u32, String>> = c.settle(Ok(signed("a", "sig")));
    let s = s.expect("the waiting request is settled");
    assert_eq!(s.pending, 7);
    match s.resolution {
        Ok(m) => assert_eq!(m.signed_msg(), "sig"),
        Err(_) => panic!("expected the signed answer"),
    }
    assert!(!c.is_waiting("a"));
    assert_eq!(c.waiting_count(), 0);
}

#[test]
fn second_resolution_for_one_id_settles_nothing() {
    let mut c: Correlator<u32> = Correlator::new();
    c.accept("a".to_string(), 1).unwrap();
    assert!(c.settle::<String>(Ok(signed("a", "first"))).is_some());
    assert!(c.settle::<String>(Ok(signed("a", "second"))).is_none());
    let err = TopicConsumeErr::new(Some("a".to_string()), "late".to_string());
    assert!(c.settle(Err(err)).is_none());
    assert_eq!(c.waiting_count(), 0);
}

#[test]
fn resolution_settles_only_its_own_entry() {
    let mut c: Correlator<u32> = Correlator::new();
    c.accept("a".to_string(), 1).unwrap();
    c.accept("b".to_string(), 2).unwrap();
    c.accept("c".to_string(), 3).unwrap();
    let s = c.settle::<String>(Ok(signed("b", "sig"))).unwrap();
    assert_eq!(s.pending, 2);
    assert!(c.is_waiting("a"));
    assert!(!c.is_waiting("b"));
    assert!(c.is_waiting("c"));
    assert_eq!(c.settle::<String>(Ok(signed("c", "x"))).unwrap().pending, 3);
    assert_eq!(c.settle::<String>(Ok(signed("a", "y"))).unwrap().pending, 1);
}

#[test]
fn orphan_resolution_leaves_table_unchanged() {
    let mut c: Correlator<u32> = Correlator::new();
    c.accept("a".to_string(), 1).unwrap();
    assert!(c.settle::<String>(Ok(signed("never-registered", "sig"))).is_none());
    let err = TopicConsumeErr::new(Some("unknown".to_string()), "refused".to_string());
    assert!(c.settle(Err(err)).is_none());
    assert_eq!(c.waiting_count(), 1);
    assert!(c.is_waiting("a"));
}

#[test]
fn unattributed_error_settles_nothing() {
    let mut c: Correlator<u32> = Correlator::new();
    c.accept("a".to_string(), 1).unwrap();
    let err = TopicConsumeErr::unattributed("transport fault".to_string());
    assert!(c.settle(Err(err)).is_none());
    assert_eq!(c.waiting_count(), 1);
}

#[test]
fn duplicate_id_is_refused_and_first_entry_kept() {
    let mut c: Correlator<u32> = Correlator::new();
    c.accept("a".to_string(), 1).unwrap();
    assert_eq!(c.accept("a".to_string(), 2), Err(2));
    assert_eq!(c.waiting_count(), 1);
    assert_eq!(c.settle::<String>(Ok(signed("a", "sig"))).unwrap().pending, 1);
}

#[test]
fn publish_failure_settles_with_error_for_same_id() {
    let mut c: Correlator<u32> = Correlator::new();
    c.accept("x-id".to_string(), 9).unwrap();
    let err = TopicConsumeErr::new(Some("x-id".to_string()), "queue full".to_string());
    let s = c.settle(Err(err)).unwrap();
    assert_eq!(s.pending, 9);
    match s.resolution {
        Ok(_) => panic!("expected the publish failure"),
        Err(e) => {
            assert_eq!(e.msg_id(), Some("x-id"));
            assert_eq!(e.source_err(), "queue full");
        }
    }
}

#[test]
fn abandoned_request_stays_in_table() {
    let mut c: Correlator<u32> = Correlator::new();
    c.accept("slow".to_string(), 1).unwrap();
    // no resolution ever arrives
    assert!(c.is_waiting("slow"));
    assert_eq!(c.waiting_count(), 1);
}
