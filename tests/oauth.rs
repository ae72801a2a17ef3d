use zebedee_rust::client::{ApiError, ZebedeeClient};
use zebedee_rust::login_with_zbd::types::{
    fetch_token_call, refresh_token_call, token_result, AuthURL, FetchAccessTokenRes,
    FetchPostRes, FetchRefresh, FetchTokenBody, ZBDUserData, ZBDUserWalletData,
};
use zebedee_rust::validation::Rule;

fn id36() -> String {
    "0123456789abcdef0123456789abcdef0123".to_string()
}

fn client() -> ZebedeeClient {
    ZebedeeClient::new(String::from("key-3")).with_oauth(
        id36(),
        "secretsecretsecretsecretsecretsecret".to_string(),
        "https://app.example/callback".to_string(),
    )
}

fn verifier43() -> String {
    "a".repeat(43)
}

#[test]
fn token_body_takes_client_oauth() {
    let b = FetchTokenBody::new(&client(), id36(), verifier43());
    assert_eq!(b.client_id, id36());
    assert_eq!(b.grant_type, "authorization_code");
    assert_eq!(b.redirect_uri, "https://app.example/callback");
    assert!(b.validate().is_ok());
}

#[test]
fn token_body_lengths_must_be_exact() {
    for len in [0usize, 35, 37] {
        let b = FetchTokenBody::new(&client(), "c".repeat(len), verifier43());
        let e = b.validate().unwrap_err();
        assert_eq!(e.field, "code");
        assert_eq!(e.rule, Rule::Length { equal: 36 });
    }
    for len in [42usize, 44] {
        let b = FetchTokenBody::new(&client(), id36(), "v".repeat(len));
        let e = b.validate().unwrap_err();
        assert_eq!(e.field, "code_verifier");
        assert_eq!(e.rule, Rule::Length { equal: 43 });
    }
    // characters, not bytes, are counted
    let b = FetchTokenBody::new(&client(), "é".repeat(36), "ü".repeat(43));
    assert!(b.validate().is_ok());
}

#[test]
fn token_body_rejects_bad_redirect_and_empty_grant() {
    let mut b = FetchTokenBody::new(&client(), id36(), verifier43());
    b.redirect_uri = "not a url".to_string();
    let e = b.validate().unwrap_err();
    assert_eq!(e.field, "redirect_uri");
    assert_eq!(e.rule, Rule::Url);
    b.grant_type = String::new();
    let e = b.validate().unwrap_err();
    assert_eq!(e.field, "grant_type");
    assert_eq!(e.rule, Rule::MinLength { min: 1 });
}

#[test]
fn refresh_body_validation() {
    let b = FetchRefresh::new(client(), id36());
    assert_eq!(b.grant_type, "refresh_token");
    assert!(b.validate().is_ok());
    let b = FetchRefresh::new(client(), "short".to_string());
    let e = b.validate().unwrap_err();
    assert_eq!(e.field, "refresh_token");
}

#[test]
fn invalid_body_is_never_built() {
    let b = FetchTokenBody::new(&ZebedeeClient::new(String::new()), id36(), verifier43());
    match fetch_token_call(&ZebedeeClient::new(String::new()), &b) {
        Err(ApiError::Validation(e)) => assert_eq!(e.field, "client_id"),
        other => panic!("unexpected {:?}", other),
    }
    let ok = fetch_token_call(&client(), &FetchTokenBody::new(&client(), id36(), verifier43()))
        .unwrap();
    let sent: serde_json::Value = serde_json::from_str(ok.body.as_deref().unwrap()).unwrap();
    assert_eq!(sent["code_verifier"], verifier43());
    assert_eq!(sent["grant_type"], "authorization_code");
    let r = refresh_token_call(&client(), &FetchRefresh::new(client(), id36())).unwrap();
    assert!(r.body.unwrap().contains("\"refresh_token\":\"0123456789abcdef0123456789abcdef0123\""));
}

#[test]
fn auth_url_validation() {
    assert!(AuthURL::new("https://api.zebedee.io/v0/oauth2/authorize".to_string())
        .validate()
        .is_ok());
    let e = AuthURL::new("::".to_string()).validate().unwrap_err();
    assert_eq!(e.field, "url");
    assert_eq!(e.rule, Rule::Url);
}

#[test]
fn token_grant_reads() {
    let body = r#"{"access_token":"at","token_type":"Bearer","expires_in":3600,"refresh_token":"rt","refresh_token_expires_in":7200,"scope":"user"}"#;
    let r = token_result(200, body.to_string()).unwrap();
    assert_eq!(r.access_token, "at");
    assert_eq!(r.expires_in, 3600);
    assert_eq!(r.refresh_token_expires_in, 7200);
    let t = FetchAccessTokenRes::from_json(body).unwrap();
    assert_eq!(t.scope, "user");
    assert!(matches!(
        token_result(400, "bad".to_string()),
        Err(ApiError::ServerRejected { status: 400, .. })
    ));
    let without = r#"{"access_token":"at","token_type":"Bearer","expires_in":3600,"refresh_token":"rt","scope":"user"}"#;
    assert!(matches!(
        token_result(200, without.to_string()),
        Err(ApiError::UnexpectedSchema { .. })
    ));
}

#[test]
fn post_res_and_profile_read_from_members() {
    let ms = vec![
        ("access_token".to_string(), "\"at\"".to_string()),
        ("token_type".to_string(), "\"Bearer\"".to_string()),
        ("expires_in".to_string(), "60".to_string()),
        ("refresh_token".to_string(), "\"rt\"".to_string()),
        ("scope".to_string(), "\"user\"".to_string()),
    ];
    let p = FetchPostRes::from_members(&ms).unwrap();
    assert_eq!(p.expires_in, 60);
    assert_eq!(p.token_type, "Bearer");

    let user = vec![
        ("id".to_string(), "\"u1\"".to_string()),
        ("email".to_string(), "\"a@b.c\"".to_string()),
        ("gamertag".to_string(), "\"g\"".to_string()),
        ("image".to_string(), "null".to_string()),
        ("isVerified".to_string(), "true".to_string()),
        ("lightningAddress".to_string(), "\"g@zbd.gg\"".to_string()),
        ("publicBio".to_string(), "\"\"".to_string()),
        ("publicStaticCharge".to_string(), "\"lnurl\"".to_string()),
    ];
    let u = ZBDUserData::from_members(&user).unwrap();
    assert_eq!(u.image, None);
    assert!(u.is_verified);
    assert_eq!(u.lightning_address, "g@zbd.gg");

    let wallet = vec![
        ("balance".to_string(), "\"1000\"".to_string()),
        (
            "remainingAmountLimits".to_string(),
            r#"{"daily":"1","maxCredit":"2","monthly":"3","weekly":"4"}"#.to_string(),
        ),
    ];
    let w = ZBDUserWalletData::from_members(&wallet).unwrap();
    assert_eq!(w.remaining_amount_limits.max_credit, "2");
    assert_eq!(w.remaining_amount_limits.weekly, "4");
}

#[test]
fn bearer_call_carries_token() {
    let req = zebedee_rust::client::bearer_request("tok", zebedee_rust::client::Method::Get, "/v1/oauth2/user", None);
    assert_eq!(req.url, "https://api.zebedee.io/v1/oauth2/user");
    assert!(req
        .headers
        .iter()
        .any(|(k, v)| k == "Authorization" && v == "Bearer tok"));
    assert!(req.body.is_none());
}

#[test]
fn token_bodies_read_back_from_their_json() {
    let b = FetchTokenBody::new(&client(), id36(), verifier43());
    let v: serde_json::Value = serde_json::from_str(&b.to_json()).unwrap();
    let ms: Vec<(String, String)> = v
        .as_object()
        .unwrap()
        .iter()
        .map(|(k, x)| (k.clone(), x.to_string()))
        .collect();
    let d = FetchTokenBody::from_members(&ms).unwrap();
    assert_eq!(d.client_id, b.client_id);
    assert_eq!(d.client_secret, b.client_secret);
    assert_eq!(d.code, b.code);
    assert_eq!(d.code_verifier, b.code_verifier);
    assert_eq!(d.grant_type, b.grant_type);
    assert_eq!(d.redirect_uri, b.redirect_uri);

    let r = FetchRefresh::new(client(), id36());
    let v: serde_json::Value = serde_json::from_str(&r.to_json()).unwrap();
    let ms: Vec<(String, String)> = v
        .as_object()
        .unwrap()
        .iter()
        .map(|(k, x)| (k.clone(), x.to_string()))
        .collect();
    let d = FetchRefresh::from_members(&ms).unwrap();
    assert_eq!(d.refresh_token, r.refresh_token);
    assert_eq!(d.redirect_uri, r.redirect_uri);
    assert!(FetchRefresh::from_members(&ms[1..].to_vec()).is_none());
}
