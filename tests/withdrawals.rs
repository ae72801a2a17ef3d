use zebedee_rust::client::{ApiError, Method, ZebedeeClient};
use zebedee_rust::withdrawal_request::{
    create_withdrawal_request_call, create_withdrawal_request_result,
    get_withdrawal_request_call, get_withdrawal_request_result, get_withdrawal_requests_call,
    get_withdrawal_requests_result, WithdrawalReqest,
};

const WITHDRAWAL_RECORD: &str = r#"{"id":"w-1","unit":"msats","amount":"10000","createdAt":"2023-05-01T12:00:00Z","expiresAt":"2023-05-01T12:05:00Z","internalId":"","description":"using zebedee rust sdk","callbackUrl":"","status":"pending","invoice":{"request":"lnurl1","fastRequest":"lnurl1fast","uri":"lightning:lnurl1","fastUri":"lightning:lnurl1fast"}}"#;

#[test]
fn test_create_withdrawal_request() {
    let zebedee_client = ZebedeeClient::new(String::from("key-2"));
    let withdrawal_request = WithdrawalReqest {
        amount: String::from("10000"),
        ..Default::default()
    };
    let req = create_withdrawal_request_call(&zebedee_client, &withdrawal_request).unwrap();
    assert_eq!(req.method, Method::Post);
    assert_eq!(req.url, "https://api.zebedee.io/v0/withdrawal-requests");
    assert_eq!(
        req.body.as_deref(),
        Some(r#"{"expiresIn":300,"amount":"10000","description":"using zebedee rust sdk","internalId":"","callbackUrl":""}"#)
    );
    let body = format!(r#"{{"success":true,"data":{},"message":"Success"}}"#, WITHDRAWAL_RECORD);
    let r = create_withdrawal_request_result(200, body).unwrap();
    assert!(r.success);
    assert_eq!(r.data.invoice.fast_uri, "lightning:lnurl1fast");
}

#[test]
fn test_get_withdrawal_requests() {
    let zebedee_client = ZebedeeClient::new(String::from("key-2"));
    let req = get_withdrawal_requests_call(&zebedee_client);
    assert_eq!(req.url, "https://api.zebedee.io/v0/withdrawal-requests");
    let body = format!(r#"{{"data":[{}],"message":"Success"}}"#, WITHDRAWAL_RECORD);
    let r = get_withdrawal_requests_result(200, body).unwrap();
    assert!(r.message.contains("Success"));
    assert_eq!(r.data.len(), 1);
    assert_eq!(r.data[0].id, "w-1");
}

#[test]
fn test_get_withdrawal_request() {
    let zebedee_client = ZebedeeClient::new(String::from("key-2"));
    let withdrawal_request = WithdrawalReqest {
        amount: String::from("10000"),
        ..Default::default()
    };
    let _ = create_withdrawal_request_call(&zebedee_client, &withdrawal_request).unwrap();
    let created = format!(r#"{{"success":true,"data":{},"message":"Success"}}"#, WITHDRAWAL_RECORD);
    let r = create_withdrawal_request_result(200, created).unwrap();
    let req = get_withdrawal_request_call(&zebedee_client, &r.data.id);
    assert_eq!(req.url, "https://api.zebedee.io/v0/withdrawal-requests/w-1");
    let fetched = format!(r#"{{"data":{},"message":"Success"}}"#, WITHDRAWAL_RECORD);
    let r2 = get_withdrawal_request_result(200, fetched).unwrap();
    assert!(r2.message.contains("Success"));
}

#[test]
fn withdrawal_list_with_success_member_still_reads() {
    let body = format!(r#"{{"success":true,"data":[],"message":"Success"}}"#);
    let r = get_withdrawal_requests_result(200, body).unwrap();
    assert!(r.data.is_empty());
}

#[test]
fn withdrawal_post_needs_success_member() {
    let body = format!(r#"{{"data":{},"message":"Success"}}"#, WITHDRAWAL_RECORD);
    assert!(matches!(
        create_withdrawal_request_result(200, body),
        Err(ApiError::UnexpectedSchema { .. })
    ));
}

#[test]
fn withdrawal_list_with_bad_item_is_schema_error() {
    let body = r#"{"data":[{"id":"x"}],"message":"Success"}"#.to_string();
    assert!(matches!(
        get_withdrawal_requests_result(200, body),
        Err(ApiError::UnexpectedSchema { .. })
    ));
}

#[test]
fn withdrawal_unauthorized() {
    match get_withdrawal_requests_result(401, String::from("unauthorized")) {
        Err(ApiError::ServerRejected { status, message }) => {
            assert_eq!(status, 401);
            assert_eq!(message, "unauthorized");
        }
        other => panic!("unexpected {:?}", other),
    }
}

#[test]
fn withdrawal_default_values() {
    let w = WithdrawalReqest::default();
    assert_eq!(w.expires_in, 300);
    assert_eq!(w.amount, "0");
    assert_eq!(w.description, "using zebedee rust sdk");
}

#[test]
fn withdrawal_id_is_one_encoded_segment() {
    let zebedee_client = ZebedeeClient::new(String::from("key-2"));
    let req = get_withdrawal_request_call(&zebedee_client, &String::from("../x"));
    assert_eq!(
        req.url,
        "https://api.zebedee.io/v0/withdrawal-requests/..%2Fx"
    );
}

#[test]
fn withdrawal_amount_must_be_decimal() {
    let zebedee_client = ZebedeeClient::new(String::from("key-2"));
    let w = WithdrawalReqest {
        amount: String::from("-1"),
        ..Default::default()
    };
    assert!(matches!(
        create_withdrawal_request_call(&zebedee_client, &w),
        Err(ApiError::Validation(_))
    ));
}
