use zkp2p_tlsn::ownership::extract_transaction_metadata;
use zkp2p_tlsn::ownership::may_issue_detail_request;
use zkp2p_tlsn::ownership::verify_ownership;
use zkp2p_tlsn::ownership::JsonValue;
use zkp2p_tlsn::ownership::OwnershipError;

fn record_with_id(id: &str) -> JsonValue {
    JsonValue::Object(vec![("id".to_string(), JsonValue::Num(id.to_string()))])
}

fn record_with_resource_id(id: &str) -> JsonValue {
    JsonValue::Object(vec![(
        "resource".to_string(),
        JsonValue::Object(vec![("id".to_string(), JsonValue::Str(id.to_string()))]),
    )])
}

fn list_doc(records: Vec<JsonValue>) -> JsonValue {
    JsonValue::Object(vec![("data".to_string(), JsonValue::Array(records))])
}

#[test]
fn test_verify_ownership_gating() {
    let doc = list_doc(vec![
        record_with_id("A"),
        record_with_resource_id("B"),
        record_with_id("C"),
    ]);
    assert_eq!(verify_ownership(&doc, "A"), Ok(true));
    assert_eq!(verify_ownership(&doc, "B"), Ok(true));
    assert_eq!(verify_ownership(&doc, "C"), Ok(true));
    assert_eq!(verify_ownership(&doc, "Z"), Ok(false));
}

#[test]
fn test_verify_ownership_missing_data_is_error() {
    let doc = JsonValue::Object(vec![("items".to_string(), JsonValue::Array(vec![]))]);
    assert_eq!(verify_ownership(&doc, "A"), Err(OwnershipError::MissingDataArray));
}

#[test]
fn test_verify_ownership_data_not_array_is_error() {
    let doc = JsonValue::Object(vec![("data".to_string(), JsonValue::Null)]);
    assert_eq!(verify_ownership(&doc, "A"), Err(OwnershipError::MissingDataArray));
}

#[test]
fn test_verify_ownership_non_object_document_is_error() {
    assert_eq!(verify_ownership(&JsonValue::Null, "A"), Err(OwnershipError::MissingDataArray));
}

#[test]
fn test_verify_ownership_empty_list_is_false_not_error() {
    let doc = list_doc(vec![]);
    assert_eq!(verify_ownership(&doc, "A"), Ok(false));
}

#[test]
fn test_detail_request_gate() {
    let doc = list_doc(vec![record_with_id("A")]);
    assert!(may_issue_detail_request(&verify_ownership(&doc, "A")));
    assert!(!may_issue_detail_request(&verify_ownership(&doc, "Z")));
    let malformed = JsonValue::Object(vec![]);
    assert!(!may_issue_detail_request(&verify_ownership(&malformed, "A")));
}

#[test]
fn test_extract_transaction_metadata() {
    let doc = JsonValue::Object(vec![
        ("id".to_string(), JsonValue::Num("12345".to_string())),
        ("state".to_string(), JsonValue::Str("OUTGOING_PAYMENT_SENT".to_string())),
        ("targetAmount".to_string(), JsonValue::Num("10.50".to_string())),
        ("targetCurrency".to_string(), JsonValue::Str("USD".to_string())),
        ("date".to_string(), JsonValue::Num("1700000000000".to_string())),
    ]);
    let meta = extract_transaction_metadata(&doc);
    assert_eq!(meta.id, "12345");
    assert_eq!(meta.status, "OUTGOING_PAYMENT_SENT");
    assert_eq!(meta.amount, "10.50");
    assert_eq!(meta.currency, "USD");
    assert_eq!(meta.date, "1700000000000");

    let empty = JsonValue::Object(vec![]);
    let meta2 = extract_transaction_metadata(&empty);
    assert_eq!(meta2.id, "unknown");
    assert_eq!(meta2.amount, "unknown");
}
