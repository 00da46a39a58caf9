use advices::{
    advice_from_payload, advices_create, advices_delete, advices_index, create_status,
    delete_status, failure_for, Advice, ServiceError, Store, STATUS_BAD_GATEWAY,
    STATUS_BAD_REQUEST, STATUS_CREATED, STATUS_INTERNAL_SERVER_ERROR, STATUS_NOT_FOUND,
    STATUS_NO_CONTENT, STATUS_REQUEST_TIMEOUT,
};

fn rec(id: i64, text: &str) -> Advice {
    Advice::new(id, text.to_string())
}

#[test]
fn create_stores_and_returns_record() {
    let mut s = Store::new();
    let r = advices_create(&mut s, Some(rec(117, "Be kind.")));
    let created = r.as_ref().unwrap();
    assert_eq!(created.id, 117);
    assert_eq!(created.advice, "Be kind.");
    assert_eq!(create_status(&r), STATUS_CREATED);
    let listed = advices_index(&s);
    assert_eq!(listed.len(), 1);
    assert_eq!(listed[0].id, 117);
    assert_eq!(listed[0].advice, "Be kind.");
}

#[test]
fn create_without_upstream_record_fails_and_stores_nothing() {
    let mut s = Store::new();
    advices_create(&mut s, Some(rec(1, "kept"))).unwrap();
    let r = advices_create(&mut s, None);
    assert!(matches!(r, Err(ServiceError::Upstream)));
    let status = create_status(&r);
    assert_ne!(status, STATUS_CREATED);
    assert!(status >= 500);
    assert_eq!(status, STATUS_BAD_GATEWAY);
    let listed = advices_index(&s);
    assert_eq!(listed.len(), 1);
    assert_eq!(listed[0].id, 1);
}

#[test]
fn delete_after_create_then_again() {
    let mut s = Store::new();
    advices_create(&mut s, Some(rec(31, "x"))).unwrap();
    let first = advices_delete(&mut s, "31");
    assert_eq!(delete_status(&first), STATUS_NO_CONTENT);
    let second = advices_delete(&mut s, "31");
    assert!(matches!(second, Err(ServiceError::NotFound)));
    assert_eq!(delete_status(&second), STATUS_NOT_FOUND);
}

#[test]
fn delete_non_integer_is_bad_request() {
    let mut s = Store::new();
    s.insert(rec(1, "a"));
    let r = advices_delete(&mut s, "abc");
    assert!(matches!(r, Err(ServiceError::InvalidIdentifier)));
    assert_eq!(delete_status(&r), STATUS_BAD_REQUEST);
    assert_eq!(advices_index(&s).len(), 1);
}

#[test]
fn delete_absent_is_not_found() {
    let mut s = Store::new();
    s.insert(rec(1, "a"));
    let r = advices_delete(&mut s, "999999");
    assert_eq!(delete_status(&r), STATUS_NOT_FOUND);
    assert_eq!(advices_index(&s).len(), 1);
}

#[test]
fn delete_accepts_signs() {
    let mut s = Store::new();
    s.insert(rec(5, "five"));
    s.insert(rec(-3, "minus three"));
    s.insert(rec(0, "zero"));
    assert_eq!(advices_delete(&mut s, "+5"), Ok(()));
    assert_eq!(advices_delete(&mut s, "-3"), Ok(()));
    assert_eq!(advices_delete(&mut s, "-0"), Ok(()));
    assert!(advices_index(&s).is_empty());
}

#[test]
fn delete_rejects_malformed_segments() {
    let mut s = Store::new();
    s.insert(rec(5, "five"));
    for seg in ["", "+", "-", " 5", "5 ", "5a", "0x5", "1.0", "9223372036854775808", "-9223372036854775809"] {
        assert_eq!(advices_delete(&mut s, seg), Err(ServiceError::InvalidIdentifier), "{:?}", seg);
    }
    assert_eq!(advices_index(&s).len(), 1);
}

#[test]
fn delete_extreme_ids() {
    let mut s = Store::new();
    s.insert(rec(i64::MAX, "max"));
    s.insert(rec(i64::MIN, "min"));
    assert_eq!(advices_delete(&mut s, "9223372036854775807"), Ok(()));
    assert_eq!(advices_delete(&mut s, "-9223372036854775808"), Ok(()));
    assert!(advices_index(&s).is_empty());
}

#[test]
fn error_statuses() {
    assert_eq!(ServiceError::Upstream.status_code(), 502);
    assert_eq!(ServiceError::InvalidIdentifier.status_code(), 400);
    assert_eq!(ServiceError::NotFound.status_code(), 404);
    assert_eq!(ServiceError::RequestTimeout.status_code(), 408);
    assert_eq!(ServiceError::Internal.status_code(), 500);
    assert_eq!(STATUS_REQUEST_TIMEOUT, 408);
    assert_eq!(STATUS_INTERNAL_SERVER_ERROR, 500);
}

#[test]
fn failures_map_to_timeout_or_internal() {
    assert_eq!(failure_for(true), ServiceError::RequestTimeout);
    assert_eq!(failure_for(false), ServiceError::Internal);
    assert_eq!(failure_for(true).status_code(), 408);
    assert_eq!(failure_for(false).status_code(), 500);
}

#[test]
fn payload_with_record_key() {
    let entries = vec![("slip".to_string(), rec(12, "Smile."))];
    let a = advice_from_payload(&entries).unwrap();
    assert_eq!(a.id, 12);
    assert_eq!(a.advice, "Smile.");
}

#[test]
fn payload_without_record_key() {
    let entries = vec![("message".to_string(), rec(3, "nope")), ("Slip".to_string(), rec(4, "case"))];
    assert!(advice_from_payload(&entries).is_none());
    assert!(advice_from_payload(&Vec::new()).is_none());
}

#[test]
fn payload_takes_first_record_key() {
    let entries = vec![
        ("other".to_string(), rec(1, "a")),
        ("slip".to_string(), rec(2, "b")),
        ("slip".to_string(), rec(3, "c")),
    ];
    assert_eq!(advice_from_payload(&entries).unwrap().id, 2);
}
