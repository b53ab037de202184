use testsys_controller::duplicator::{
    create_memo, create_resource, destroy, DuplicationRequest, Memo, GET_INFO_FAILED,
    SEND_INFO_FAILED,
};
use testsys_controller::provider::{
    teardown_order, ProviderError, ResourceState, Resources,
};

fn request() -> DuplicationRequest {
    DuplicationRequest { info: serde_json::from_str(r#"{"hello":"world"}"#).unwrap() }
}

#[test]
fn create_records_request_in_memo() {
    let memo = create_memo(Ok(Memo::new()), &request()).ok().unwrap();
    assert_eq!(memo.info.unwrap().info, request().info);
}

#[test]
fn failed_read_leaves_nothing() {
    let e = create_memo(Err("down".to_string()), &request()).err().unwrap();
    assert_eq!(e.resources, Resources::Clear);
    assert_eq!(e.message, GET_INFO_FAILED);
    assert!(!e.requires_destroy());
}

#[test]
fn failed_send_leaves_state() {
    let e = create_resource(Err("down".to_string()), &request()).err().unwrap();
    assert_eq!(e.resources, Resources::Remaining);
    assert_eq!(e.message, SEND_INFO_FAILED);
    assert!(e.requires_destroy());
}

#[test]
fn created_resource_duplicates_the_request() {
    let data = create_resource(Ok(()), &request()).ok().unwrap();
    assert_eq!(data.info, request().info);
}

#[test]
fn destroy_tolerates_absent_inputs() {
    assert!(destroy(None, None).is_ok());
    assert!(destroy(Some(&request()), None).is_ok());
    assert!(destroy(None, None).is_ok());
}

#[test]
fn teardown_order_is_reverse_and_skips_clear() {
    let states = vec![
        ResourceState::Created,
        ResourceState::CreateFailed(Resources::Clear),
        ResourceState::Created,
        ResourceState::CreateFailed(Resources::Remaining),
        ResourceState::Pending,
    ];
    assert_eq!(teardown_order(&states), vec![3, 2, 0]);
    assert!(teardown_order(&vec![]).is_empty());
    let e = ProviderError::new(Resources::Remaining, "x".to_string());
    assert!(e.requires_destroy());
}

#[test]
fn info_document_round_trips_with_unknown_fields() {
    let text = r#"{"controller":{"phase":"running"},"agent":{"info":{"n":1}},"extra":[1,2]}"#;
    let doc: serde_json::Value = serde_json::from_str(text).unwrap();
    let again: serde_json::Value =
        serde_json::from_str(&serde_json::to_string(&doc).unwrap()).unwrap();
    assert_eq!(doc, again);
    assert_eq!(again["extra"], serde_json::Value::Array(vec![1.into(), 2.into()]));
}
