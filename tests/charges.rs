use zebedee_rust::charges::{
    create_charge_call, create_charge_result, get_charge_call, get_charge_result,
    get_charges_call, get_charges_result, Charge, ChargesData,
};
use zebedee_rust::client::{ApiError, Method, ZebedeeClient};

const CHARGE_RECORD: &str = r#"{"id":"abc123","unit":"msats","amount":"1000","createdAt":"2023-01-01T00:00:00.000Z","internalId":"","callbackUrl":"","description":"using zebedee rust sdk","expiresAt":"2023-01-01T00:05:00.000Z","confirmedAt":null,"status":"pending","invoice":{"request":"lnbc10n1","uri":"lightning:lnbc10n1"}}"#;

fn charge_envelope() -> String {
    format!(r#"{{"success":true,"data":{},"message":"Success"}}"#, CHARGE_RECORD)
}

fn header<'a>(headers: &'a [(String, String)], name: &str) -> Option<&'a str> {
    headers.iter().find(|(k, _)| k == name).map(|(_, v)| v.as_str())
}

#[test]
fn test_create_charge() {
    let zebedee_client = ZebedeeClient::new(String::from("key-1"));
    let charge = Charge {
        amount: String::from("1000"),
        ..Default::default()
    };
    let req = create_charge_call(&zebedee_client, &charge).unwrap();
    assert_eq!(req.method, Method::Post);
    assert_eq!(req.url, "https://api.zebedee.io/v0/charges");
    assert_eq!(header(&req.headers, "apikey"), Some("key-1"));
    assert_eq!(header(&req.headers, "Content-Type"), Some("application/json"));
    assert!(req.body.is_some());

    let r = create_charge_result(200, charge_envelope()).unwrap();
    assert_eq!(r.success, true);
    assert_eq!(r.data.id, "abc123");
}

#[test]
fn test_get_charges() {
    let zebedee_client = ZebedeeClient::new(String::from("key-1"));
    let req = get_charges_call(&zebedee_client);
    assert_eq!(req.method, Method::Get);
    assert_eq!(req.url, "https://api.zebedee.io/v0/charges");
    assert!(req.body.is_none());

    let body = format!(
        r#"{{"success":true,"data":[{},{}],"message":"Success"}}"#,
        CHARGE_RECORD, CHARGE_RECORD
    );
    let r = get_charges_result(200, body).unwrap();
    assert_eq!(r.success, true);
    assert_eq!(r.data.len(), 2);
}

#[test]
fn test_get_charge() {
    let zebedee_client = ZebedeeClient::new(String::from("key-1"));
    let charge = Charge {
        amount: String::from("1000"),
        ..Default::default()
    };
    let _ = create_charge_call(&zebedee_client, &charge).unwrap();
    let r = create_charge_result(200, charge_envelope()).unwrap();
    let req = get_charge_call(&zebedee_client, &r.data.id);
    assert_eq!(req.url, "https://api.zebedee.io/v0/charges/abc123");
    let r2 = get_charge_result(200, charge_envelope()).unwrap();
    assert_eq!(r2.success, true);
}

#[test]
fn charge_default_values() {
    let c = Charge::default();
    assert_eq!(c.expires_in, 300);
    assert_eq!(c.amount, "0");
    assert_eq!(c.description, "using zebedee rust sdk");
    assert_eq!(c.internal_id, "");
    assert_eq!(c.callback_url, "");
}

#[test]
fn charge_body_uses_wire_names() {
    let charge = Charge {
        amount: String::from("1000"),
        internal_id: String::from("order-7"),
        callback_url: String::from("https://example.com/cb"),
        ..Default::default()
    };
    assert_eq!(
        charge.to_json(),
        r#"{"expiresIn":300,"amount":"1000","description":"using zebedee rust sdk","internalId":"order-7","callbackUrl":"https://example.com/cb"}"#
    );
}

#[test]
fn charge_body_escapes_strings() {
    let charge = Charge {
        description: String::from("say \"hi\"\n"),
        expires_in: 4294967295,
        ..Default::default()
    };
    assert_eq!(
        charge.to_json(),
        r#"{"expiresIn":4294967295,"amount":"0","description":"say \"hi\"\n","internalId":"","callbackUrl":""}"#
    );
}

#[test]
fn charge_round_trip_through_echo() {
    let charge = Charge {
        amount: String::from("2500"),
        description: String::from("coffee"),
        internal_id: String::from("inv-42"),
        callback_url: String::from("https://shop.example/paid"),
        ..Default::default()
    };
    let body: serde_json::Value = serde_json::from_str(&charge.to_json()).unwrap();
    let record = format!(
        r#"{{"id":"c1","unit":"msats","amount":{},"createdAt":"2023-01-01T00:00:00Z","internalId":{},"callbackUrl":{},"description":{},"expiresAt":"2023-01-01T00:05:00Z","status":"pending","invoice":{{"request":"r","uri":"u"}}}}"#,
        body["amount"], body["internalId"], body["callbackUrl"], body["description"]
    );
    let data = ChargesData::from_json(&record).unwrap();
    assert_eq!(data.amount, charge.amount);
    assert_eq!(data.internal_id, charge.internal_id);
    assert_eq!(data.callback_url, charge.callback_url);
    assert_eq!(data.description, charge.description);
}

#[test]
fn charge_fields_follow_wire_mapping() {
    let r = create_charge_result(200, charge_envelope()).unwrap();
    assert_eq!(r.message, "Success");
    assert_eq!(r.data.unit, "msats");
    assert_eq!(r.data.amount, "1000");
    assert_eq!(r.data.created_at.seconds, 1672531200);
    assert_eq!(r.data.created_at.nanos, 0);
    assert_eq!(r.data.expires_at.seconds, 1672531500);
    assert_eq!(r.data.confirmed_at, None);
    assert_eq!(r.data.status, "pending");
    assert_eq!(r.data.invoice.request, "lnbc10n1");
    assert_eq!(r.data.invoice.uri, "lightning:lnbc10n1");
}

#[test]
fn charge_confirmed_at_present_or_absent() {
    let paid = CHARGE_RECORD.replace(
        r#""confirmedAt":null"#,
        r#""confirmedAt":"2023-01-01T00:01:00.500Z""#,
    );
    let d = ChargesData::from_json(&paid).unwrap();
    let t = d.confirmed_at.unwrap();
    assert_eq!(t.seconds, 1672531260);
    assert_eq!(t.nanos, 500_000_000);

    let absent = CHARGE_RECORD.replace(r#""confirmedAt":null,"#, "");
    assert_eq!(ChargesData::from_json(&absent).unwrap().confirmed_at, None);
}

#[test]
fn charge_bad_timestamp_is_schema_error() {
    let bad = charge_envelope().replace("2023-01-01T00:00:00.000Z", "yesterday");
    match create_charge_result(200, bad.clone()) {
        Err(ApiError::UnexpectedSchema { raw_body, status, .. }) => {
            assert_eq!(raw_body, bad);
            assert_eq!(status, 200);
        }
        other => panic!("unexpected {:?}", other),
    }
}

#[test]
fn rejected_status_keeps_body() {
    match get_charge_result(401, String::from("unauthorized")) {
        Err(ApiError::ServerRejected { status, message }) => {
            assert_eq!(status, 401);
            assert_eq!(message, "unauthorized");
        }
        other => panic!("unexpected {:?}", other),
    }
}

#[test]
fn rejected_status_wins_over_valid_body() {
    match create_charge_result(500, charge_envelope()) {
        Err(ApiError::ServerRejected { status, message }) => {
            assert_eq!(status, 500);
            assert_eq!(message, charge_envelope());
        }
        other => panic!("unexpected {:?}", other),
    }
}

#[test]
fn missing_data_is_schema_error() {
    let body = String::from(r#"{"success":true,"message":"Success"}"#);
    match create_charge_result(200, body.clone()) {
        Err(ApiError::UnexpectedSchema { parse_error, raw_body, status }) => {
            assert_eq!(raw_body, body);
            assert_eq!(status, 200);
            assert_eq!(parse_error, "body does not match the ChargesRes schema");
        }
        other => panic!("unexpected {:?}", other),
    }
}

#[test]
fn non_json_success_body_is_schema_error() {
    let r = get_charges_result(200, String::from("<html>"));
    assert!(matches!(r, Err(ApiError::UnexpectedSchema { .. })));
}

#[test]
fn charge_id_is_one_encoded_segment() {
    let zebedee_client = ZebedeeClient::new(String::from("key-1"));
    let req = get_charge_call(&zebedee_client, &String::from("a/b?c#d e"));
    assert_eq!(req.url, "https://api.zebedee.io/v0/charges/a%2Fb%3Fc%23d%20e");
    let req = get_charge_call(&zebedee_client, &String::from("Az09-._~"));
    assert_eq!(req.url, "https://api.zebedee.io/v0/charges/Az09-._~");
    let req = get_charge_call(&zebedee_client, &String::from("é€😀"));
    assert_eq!(
        req.url,
        "https://api.zebedee.io/v0/charges/%C3%A9%E2%82%AC%F0%9F%98%80"
    );
}

#[test]
fn charge_amount_must_be_decimal() {
    let zebedee_client = ZebedeeClient::new(String::from("key-1"));
    for bad in ["-1000", "abc", "", "10.5"] {
        let charge = Charge {
            amount: String::from(bad),
            ..Default::default()
        };
        match create_charge_call(&zebedee_client, &charge) {
            Err(ApiError::Validation(e)) => {
                assert_eq!(e.field, "amount");
                assert_eq!(e.rule, zebedee_rust::validation::Rule::Decimal);
            }
            other => panic!("unexpected {:?}", other),
        }
    }
    let charge = Charge::default();
    assert!(charge.validate().is_ok());
}

#[test]
fn charge_body_expiry_digits() {
    for (n, text) in [(0u32, "0"), (9, "9"), (10, "10"), (1234567, "1234567")] {
        let charge = Charge {
            expires_in: n,
            ..Default::default()
        };
        assert!(charge.to_json().starts_with(&format!("{{\"expiresIn\":{},", text)));
    }
}

#[test]
fn success_flag_reads_with_whitespace() {
    let body = charge_envelope().replace("\"success\":true", "\"success\": \n false ");
    let r = create_charge_result(200, body).unwrap();
    assert_eq!(r.success, false);
    let body = charge_envelope().replace("\"success\":true", "\"success\":\"true\"");
    assert!(matches!(
        create_charge_result(200, body),
        Err(ApiError::UnexpectedSchema { .. })
    ));
}
