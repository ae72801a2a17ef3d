//! Payloads and answers of the OAuth token exchange.
use crate::client::{
    apikey_request, expect_status, is_apikey_request, rejected, schema_error, schema_mismatch,
    ApiError, ApiRequest, Method, ZebedeeClient, STATUS_OK,
};
use crate::json::{
    lookup, object_members, opt_str_field, opt_str_in, pair_views, parse_object, quote, quoted,
    str_field, str_in, u32_field, u32_in, bool_field, bool_in, find_member,
};
use crate::payload::{object_text, write_object};
use crate::json::lookup_from;
use crate::validation::{length_holds, url_parses, is_url, violation, Rule, ValidationError};
use vstd::prelude::*;
use vstd::string::*;

verus! {

/// The token grant returned by the code exchange.
#[derive(Clone, Debug)]
pub struct FetchPostRes {
    pub access_token: String,
    pub token_type: String,
    pub expires_in: u32,
    pub refresh_token: String,
    pub scope: String,
}

/// An authorization URL; it must be well formed.
#[derive(Clone, Debug)]
pub struct AuthURL {
    pub url: String,
}

impl AuthURL {
    pub fn new(url: String) -> (r: AuthURL)
        ensures
            r.url@ == url@,
    {
        AuthURL { url }
    }

    pub fn validate(&self) -> (r: Result<(), ValidationError>)
        ensures
            match r {
                Ok(_) => is_url(self.url@),
                Err(e) => !is_url(self.url@) && e.field@ == "url"@ && e.rule == Rule::Url,
            },
    {
        if url_parses(self.url.as_str()) {
            Ok(())
        } else {
            Err(violation("url", Rule::Url))
        }
    }
}

/// The body of the authorization-code exchange.
#[derive(Clone, Debug)]
pub struct FetchTokenBody {
    pub client_id: String,
    pub client_secret: String,
    pub code: String,
    pub code_verifier: String,
    pub grant_type: String,
    pub redirect_uri: String,
}

impl FetchTokenBody {
    /// A body for exchanging `code`, with the client's OAuth application.
    pub fn new(zc: &ZebedeeClient, code: String, code_verifier: String) -> (r: FetchTokenBody)
        ensures
            r.client_id@ == zc.oauth.client_id@,
            r.client_secret@ == zc.oauth.secret@,
            r.code@ == code@,
            r.code_verifier@ == code_verifier@,
            r.grant_type@ == "authorization_code"@,
            r.redirect_uri@ == zc.oauth.redirect_uri@,
    {
        FetchTokenBody {
            client_id: zc.oauth.client_id.clone(),
            client_secret: zc.oauth.secret.clone(),
            code,
            code_verifier,
            grant_type: String::from_str("authorization_code"),
            redirect_uri: zc.oauth.redirect_uri.clone(),
        }
    }

    /// The first rule that the body breaks, in field order.
    pub open spec fn first_violation(self) -> Option<(Seq<char>, Rule)> {
        if self.client_id@.len() != 36 {
            Some(("client_id"@, Rule::Length { equal: 36 }))
        } else if self.client_secret@.len() != 36 {
            Some(("client_secret"@, Rule::Length { equal: 36 }))
        } else if self.code@.len() != 36 {
            Some(("code"@, Rule::Length { equal: 36 }))
        } else if self.code_verifier@.len() != 43 {
            Some(("code_verifier"@, Rule::Length { equal: 43 }))
        } else if self.grant_type@.len() < 1 {
            Some(("grant_type"@, Rule::MinLength { min: 1 }))
        } else if !is_url(self.redirect_uri@) {
            Some(("redirect_uri"@, Rule::Url))
        } else {
            None
        }
    }

    pub fn validate(&self) -> (r: Result<(), ValidationError>)
        ensures
            match r {
                Ok(_) => self.first_violation() is None,
                Err(e) => self.first_violation() == Some((e.field@, e.rule)),
            },
    {
        if !length_holds(&self.client_id, None, None, Some(36)) {
            return Err(violation("client_id", Rule::Length { equal: 36 }));
        }
        if !length_holds(&self.client_secret, None, None, Some(36)) {
            return Err(violation("client_secret", Rule::Length { equal: 36 }));
        }
        if !length_holds(&self.code, None, None, Some(36)) {
            return Err(violation("code", Rule::Length { equal: 36 }));
        }
        if !length_holds(&self.code_verifier, None, None, Some(43)) {
            return Err(violation("code_verifier", Rule::Length { equal: 43 }));
        }
        if !length_holds(&self.grant_type, Some(1), None, None) {
            return Err(violation("grant_type", Rule::MinLength { min: 1 }));
        }
        if !url_parses(self.redirect_uri.as_str()) {
            return Err(violation("redirect_uri", Rule::Url));
        }
        Ok(())
    }

    pub open spec fn members(self) -> Seq<(Seq<char>, Seq<char>)> {
        seq![
            ("client_id"@, quoted(self.client_id@)),
            ("client_secret"@, quoted(self.client_secret@)),
            ("code"@, quoted(self.code@)),
            ("code_verifier"@, quoted(self.code_verifier@)),
            ("grant_type"@, quoted(self.grant_type@)),
            ("redirect_uri"@, quoted(self.redirect_uri@)),
        ]
    }

    /// Each member of the body reads back as the field it was written from.
    pub open spec fn reads_back(self) -> bool {
        &&& str_in(self.members(), "client_id"@) == Some(self.client_id@)
        &&& str_in(self.members(), "client_secret"@) == Some(self.client_secret@)
        &&& str_in(self.members(), "code"@) == Some(self.code@)
        &&& str_in(self.members(), "code_verifier"@) == Some(self.code_verifier@)
        &&& str_in(self.members(), "grant_type"@) == Some(self.grant_type@)
        &&& str_in(self.members(), "redirect_uri"@) == Some(self.redirect_uri@)
    }

    /// The JSON body sent for the exchange.
    pub fn to_json(&self) -> (r: String)
        ensures
            r@ == object_text(self.members()),
            self.reads_back(),
    {
        let mut ms: Vec<(String, String)> = Vec::new();
        ms.push((String::from_str("client_id"), quote(self.client_id.as_str())));
        ms.push((String::from_str("client_secret"), quote(self.client_secret.as_str())));
        ms.push((String::from_str("code"), quote(self.code.as_str())));
        ms.push((String::from_str("code_verifier"), quote(self.code_verifier.as_str())));
        ms.push((String::from_str("grant_type"), quote(self.grant_type.as_str())));
        ms.push((String::from_str("redirect_uri"), quote(self.redirect_uri.as_str())));
        assert(pair_views(ms@) =~= self.members());
        proof {
            reveal_strlit("client_id");
            reveal_strlit("client_secret");
            reveal_strlit("code");
            reveal_strlit("code_verifier");
            reveal_strlit("grant_type");
            reveal_strlit("redirect_uri");
            reveal_with_fuel(lookup_from, 7);
            let ms = self.members();
            assert(ms[0].0.len() != ms[1].0.len());
            assert(ms[0].0.len() != ms[2].0.len());
            assert(ms[0].0.len() != ms[3].0.len());
            assert(ms[0].0.len() != ms[4].0.len());
            assert(ms[0].0.len() != ms[5].0.len());
            assert(ms[1].0.len() != ms[2].0.len());
            assert(ms[1].0[1] != ms[3].0[1]);
            assert(ms[1].0.len() != ms[4].0.len());
            assert(ms[1].0.len() != ms[5].0.len());
            assert(ms[2].0.len() != ms[3].0.len());
            assert(ms[2].0.len() != ms[4].0.len());
            assert(ms[2].0.len() != ms[5].0.len());
            assert(ms[3].0.len() != ms[4].0.len());
            assert(ms[3].0.len() != ms[5].0.len());
            assert(ms[4].0.len() != ms[5].0.len());
        }
        write_object(&ms)
    }
}

pub open spec fn token_body_is(ms: Seq<(Seq<char>, Seq<char>)>, v: FetchTokenBody) -> bool {
    &&& str_in(ms, "client_id"@) == Some(v.client_id@)
    &&& str_in(ms, "client_secret"@) == Some(v.client_secret@)
    &&& str_in(ms, "code"@) == Some(v.code@)
    &&& str_in(ms, "code_verifier"@) == Some(v.code_verifier@)
    &&& str_in(ms, "grant_type"@) == Some(v.grant_type@)
    &&& str_in(ms, "redirect_uri"@) == Some(v.redirect_uri@)
}

pub open spec fn token_body_ok(ms: Seq<(Seq<char>, Seq<char>)>) -> bool {
    &&& str_in(ms, "client_id"@) is Some
    &&& str_in(ms, "client_secret"@) is Some
    &&& str_in(ms, "code"@) is Some
    &&& str_in(ms, "code_verifier"@) is Some
    &&& str_in(ms, "grant_type"@) is Some
    &&& str_in(ms, "redirect_uri"@) is Some
}

impl FetchTokenBody {
    /// Reads the body back from its JSON members.
    pub fn from_members(ms: &Vec<(String, String)>) -> (r: Option<FetchTokenBody>)
        ensures
            match r {
                Some(v) => token_body_is(pair_views(ms@), v),
                None => !token_body_ok(pair_views(ms@)),
            },
    {
        let client_id = str_field(ms, "client_id")?;
        let client_secret = str_field(ms, "client_secret")?;
        let code = str_field(ms, "code")?;
        let code_verifier = str_field(ms, "code_verifier")?;
        let grant_type = str_field(ms, "grant_type")?;
        let redirect_uri = str_field(ms, "redirect_uri")?;
        Some(FetchTokenBody { client_id, client_secret, code, code_verifier, grant_type, redirect_uri })
    }
}

/// Round trip of the body through JSON: the members that `to_json` writes
/// read back as a body, and as this one, field for field.
pub proof fn lemma_token_body_round_trip(b: FetchTokenBody, d: FetchTokenBody)
    requires
        b.reads_back(),
    ensures
        token_body_ok(b.members()),
        token_body_is(b.members(), d) ==> (d.client_id@ == b.client_id@
            && d.client_secret@ == b.client_secret@
            && d.code@ == b.code@
            && d.code_verifier@ == b.code_verifier@
            && d.grant_type@ == b.grant_type@
            && d.redirect_uri@ == b.redirect_uri@),
{
}

/// A code-exchange body passes validation exactly when its client id,
/// secret and code have 36 characters, its verifier 43, its grant type is
/// not empty and its redirect URI parses: any other length is refused.
pub proof fn lemma_token_body_lengths(b: FetchTokenBody)
    ensures
        b.first_violation() is None <==> (b.client_id@.len() == 36 && b.client_secret@.len() == 36
            && b.code@.len() == 36 && b.code_verifier@.len() == 43 && b.grant_type@.len() >= 1
            && is_url(b.redirect_uri@)),
{
}

/// The length rules of a code-exchange body look at lengths only: two bodies
/// whose fields have the same lengths, and the same redirect URI, get the
/// same verdict whatever characters they hold.
pub proof fn lemma_token_body_content_blind(a: FetchTokenBody, b: FetchTokenBody)
    requires
        a.client_id@.len() == b.client_id@.len(),
        a.client_secret@.len() == b.client_secret@.len(),
        a.code@.len() == b.code@.len(),
        a.code_verifier@.len() == b.code_verifier@.len(),
        a.grant_type@.len() == b.grant_type@.len(),
        a.redirect_uri@ == b.redirect_uri@,
    ensures
        a.first_violation() == b.first_violation(),
{
}

/// The token grant, with the lifetime of the refresh token.
#[derive(Clone, Debug)]
pub struct FetchAccessTokenRes {
    pub access_token: String,
    pub token_type: String,
    pub expires_in: u32,
    pub refresh_token: String,
    pub refresh_token_expires_in: u32,
    pub scope: String,
}

/// The body of a token refresh.
#[derive(Clone, Debug)]
pub struct FetchRefresh {
    pub client_id: String,
    pub client_secret: String,
    pub refresh_token: String,
    pub grant_type: String,
    pub redirect_uri: String,
}

impl FetchRefresh {
    /// A body for refreshing with `refresh_token`, with the client's OAuth
    /// application.
    pub fn new(zc: ZebedeeClient, refresh_token: String) -> (r: FetchRefresh)
        ensures
            r.client_id@ == zc.oauth.client_id@,
            r.client_secret@ == zc.oauth.secret@,
            r.refresh_token@ == refresh_token@,
            r.grant_type@ == "refresh_token"@,
            r.redirect_uri@ == zc.oauth.redirect_uri@,
    {
        FetchRefresh {
            client_id: zc.oauth.client_id,
            client_secret: zc.oauth.secret,
            grant_type: String::from_str("refresh_token"),
            redirect_uri: zc.oauth.redirect_uri,
            refresh_token,
        }
    }

    /// The first rule that the body breaks, in field order.
    pub open spec fn first_violation(self) -> Option<(Seq<char>, Rule)> {
        if self.client_id@.len() != 36 {
            Some(("client_id"@, Rule::Length { equal: 36 }))
        } else if self.client_secret@.len() != 36 {
            Some(("client_secret"@, Rule::Length { equal: 36 }))
        } else if self.refresh_token@.len() != 36 {
            Some(("refresh_token"@, Rule::Length { equal: 36 }))
        } else if self.grant_type@.len() < 1 {
            Some(("grant_type"@, Rule::MinLength { min: 1 }))
        } else if !is_url(self.redirect_uri@) {
            Some(("redirect_uri"@, Rule::Url))
        } else {
            None
        }
    }

    pub fn validate(&self) -> (r: Result<(), ValidationError>)
        ensures
            match r {
                Ok(_) => self.first_violation() is None,
                Err(e) => self.first_violation() == Some((e.field@, e.rule)),
            },
    {
        if !length_holds(&self.client_id, None, None, Some(36)) {
            return Err(violation("client_id", Rule::Length { equal: 36 }));
        }
        if !length_holds(&self.client_secret, None, None, Some(36)) {
            return Err(violation("client_secret", Rule::Length { equal: 36 }));
        }
        if !length_holds(&self.refresh_token, None, None, Some(36)) {
            return Err(violation("refresh_token", Rule::Length { equal: 36 }));
        }
        if !length_holds(&self.grant_type, Some(1), None, None) {
            return Err(violation("grant_type", Rule::MinLength { min: 1 }));
        }
        if !url_parses(self.redirect_uri.as_str()) {
            return Err(violation("redirect_uri", Rule::Url));
        }
        Ok(())
    }

    pub open spec fn members(self) -> Seq<(Seq<char>, Seq<char>)> {
        seq![
            ("client_id"@, quoted(self.client_id@)),
            ("client_secret"@, quoted(self.client_secret@)),
            ("refresh_token"@, quoted(self.refresh_token@)),
            ("grant_type"@, quoted(self.grant_type@)),
            ("redirect_uri"@, quoted(self.redirect_uri@)),
        ]
    }

    /// Each member of the body reads back as the field it was written from.
    pub open spec fn reads_back(self) -> bool {
        &&& str_in(self.members(), "client_id"@) == Some(self.client_id@)
        &&& str_in(self.members(), "client_secret"@) == Some(self.client_secret@)
        &&& str_in(self.members(), "refresh_token"@) == Some(self.refresh_token@)
        &&& str_in(self.members(), "grant_type"@) == Some(self.grant_type@)
        &&& str_in(self.members(), "redirect_uri"@) == Some(self.redirect_uri@)
    }

    /// The JSON body sent for the refresh.
    pub fn to_json(&self) -> (r: String)
        ensures
            r@ == object_text(self.members()),
            self.reads_back(),
    {
        let mut ms: Vec<(String, String)> = Vec::new();
        ms.push((String::from_str("client_id"), quote(self.client_id.as_str())));
        ms.push((String::from_str("client_secret"), quote(self.client_secret.as_str())));
        ms.push((String::from_str("refresh_token"), quote(self.refresh_token.as_str())));
        ms.push((String::from_str("grant_type"), quote(self.grant_type.as_str())));
        ms.push((String::from_str("redirect_uri"), quote(self.redirect_uri.as_str())));
        assert(pair_views(ms@) =~= self.members());
        proof {
            reveal_strlit("client_id");
            reveal_strlit("client_secret");
            reveal_strlit("refresh_token");
            reveal_strlit("grant_type");
            reveal_strlit("redirect_uri");
            reveal_with_fuel(lookup_from, 7);
            let ms = self.members();
            assert(ms[0].0.len() != ms[1].0.len());
            assert(ms[0].0.len() != ms[2].0.len());
            assert(ms[0].0.len() != ms[3].0.len());
            assert(ms[0].0.len() != ms[4].0.len());
            assert(ms[1].0[0] != ms[2].0[0]);
            assert(ms[1].0.len() != ms[3].0.len());
            assert(ms[1].0.len() != ms[4].0.len());
            assert(ms[2].0.len() != ms[3].0.len());
            assert(ms[2].0.len() != ms[4].0.len());
            assert(ms[3].0.len() != ms[4].0.len());
        }
        write_object(&ms)
    }
}

pub open spec fn post_res_is(ms: Seq<(Seq<char>, Seq<char>)>, v: FetchPostRes) -> bool {
    &&& str_in(ms, "access_token"@) == Some(v.access_token@)
    &&& str_in(ms, "token_type"@) == Some(v.token_type@)
    &&& u32_in(ms, "expires_in"@) == Some(v.expires_in)
    &&& str_in(ms, "refresh_token"@) == Some(v.refresh_token@)
    &&& str_in(ms, "scope"@) == Some(v.scope@)
}

pub open spec fn post_res_ok(ms: Seq<(Seq<char>, Seq<char>)>) -> bool {
    &&& str_in(ms, "access_token"@) is Some
    &&& str_in(ms, "token_type"@) is Some
    &&& u32_in(ms, "expires_in"@) is Some
    &&& str_in(ms, "refresh_token"@) is Some
    &&& str_in(ms, "scope"@) is Some
}

impl FetchPostRes {
    pub fn from_members(ms: &Vec<(String, String)>) -> (r: Option<FetchPostRes>)
        ensures
            match r {
                Some(v) => post_res_is(pair_views(ms@), v),
                None => !post_res_ok(pair_views(ms@)),
            },
    {
        let access_token = str_field(ms, "access_token")?;
        let token_type = str_field(ms, "token_type")?;
        let expires_in = u32_field(ms, "expires_in")?;
        let refresh_token = str_field(ms, "refresh_token")?;
        let scope = str_field(ms, "scope")?;
        Some(FetchPostRes { access_token, token_type, expires_in, refresh_token, scope })
    }
}

pub open spec fn access_token_is(ms: Seq<(Seq<char>, Seq<char>)>, v: FetchAccessTokenRes) -> bool {
    &&& str_in(ms, "access_token"@) == Some(v.access_token@)
    &&& str_in(ms, "token_type"@) == Some(v.token_type@)
    &&& u32_in(ms, "expires_in"@) == Some(v.expires_in)
    &&& str_in(ms, "refresh_token"@) == Some(v.refresh_token@)
    &&& u32_in(ms, "refresh_token_expires_in"@) == Some(v.refresh_token_expires_in)
    &&& str_in(ms, "scope"@) == Some(v.scope@)
}

pub open spec fn access_token_ok(ms: Seq<(Seq<char>, Seq<char>)>) -> bool {
    &&& str_in(ms, "access_token"@) is Some
    &&& str_in(ms, "token_type"@) is Some
    &&& u32_in(ms, "expires_in"@) is Some
    &&& str_in(ms, "refresh_token"@) is Some
    &&& u32_in(ms, "refresh_token_expires_in"@) is Some
    &&& str_in(ms, "scope"@) is Some
}

/// `text` is a JSON object that reads as the token grant `v`.
pub open spec fn access_token_text_is(text: Seq<char>, v: FetchAccessTokenRes) -> bool {
    match object_members(text) {
        Some(ms) => access_token_is(ms, v),
        None => false,
    }
}

/// `text` is a JSON object that reads as a token grant.
pub open spec fn access_token_text_ok(text: Seq<char>) -> bool {
    match object_members(text) {
        Some(ms) => access_token_ok(ms),
        None => false,
    }
}

impl FetchAccessTokenRes {
    pub fn from_members(ms: &Vec<(String, String)>) -> (r: Option<FetchAccessTokenRes>)
        ensures
            match r {
                Some(v) => access_token_is(pair_views(ms@), v),
                None => !access_token_ok(pair_views(ms@)),
            },
    {
        let access_token = str_field(ms, "access_token")?;
        let token_type = str_field(ms, "token_type")?;
        let expires_in = u32_field(ms, "expires_in")?;
        let refresh_token = str_field(ms, "refresh_token")?;
        let refresh_token_expires_in = u32_field(ms, "refresh_token_expires_in")?;
        let scope = str_field(ms, "scope")?;
        Some(
            FetchAccessTokenRes {
                access_token,
                token_type,
                expires_in,
                refresh_token,
                refresh_token_expires_in,
                scope,
            },
        )
    }

    pub fn from_json(text: &str) -> (r: Option<FetchAccessTokenRes>)
        ensures
            match r {
                Some(v) => access_token_text_is(text@, v),
                None => !access_token_text_ok(text@),
            },
    {
        let ms = parse_object(text)?;
        FetchAccessTokenRes::from_members(&ms)
    }
}

/// The exchange of an authorization code for tokens; nothing is built for a
/// body that breaks one of its rules.
pub fn fetch_token_call(client: &ZebedeeClient, body: &FetchTokenBody) -> (r: Result<
    ApiRequest,
    ApiError,
>)
    ensures
        match r {
            Ok(req) => body.first_violation() is None && is_apikey_request(
                req,
                *client,
                Method::Post,
                "/v1/oauth2/token"@,
                Some(object_text(body.members())),
            ),
            Err(ApiError::Validation(e)) => body.first_violation() == Some((e.field@, e.rule)),
            Err(_) => false,
        },
{
    match body.validate() {
        Ok(_) => Ok(apikey_request(client, Method::Post, "/v1/oauth2/token", Some(body.to_json()))),
        Err(e) => Err(ApiError::Validation(e)),
    }
}

/// A token refresh; nothing is built for a body that breaks one of its
/// rules.
pub fn refresh_token_call(client: &ZebedeeClient, body: &FetchRefresh) -> (r: Result<
    ApiRequest,
    ApiError,
>)
    ensures
        match r {
            Ok(req) => body.first_violation() is None && is_apikey_request(
                req,
                *client,
                Method::Post,
                "/v1/oauth2/token"@,
                Some(object_text(body.members())),
            ),
            Err(ApiError::Validation(e)) => body.first_violation() == Some((e.field@, e.rule)),
            Err(_) => false,
        },
{
    match body.validate() {
        Ok(_) => Ok(apikey_request(client, Method::Post, "/v1/oauth2/token", Some(body.to_json()))),
        Err(e) => Err(ApiError::Validation(e)),
    }
}

/// Reads the answer to `fetch_token_call` or `refresh_token_call`.
pub fn token_result(status: u16, body: String) -> (r: Result<FetchAccessTokenRes, ApiError>)
    ensures
        status != STATUS_OK ==> rejected(r, status, body@),
        status == STATUS_OK ==> match r {
            Ok(v) => access_token_text_is(body@, v),
            Err(_) => !access_token_text_ok(body@) && schema_error(r, status, body@),
        },
{
    let body = match expect_status(status, STATUS_OK, body) {
        Ok(b) => b,
        Err(e) => return Err(e),
    };
    match FetchAccessTokenRes::from_json(body.as_str()) {
        Some(v) => Ok(v),
        None => Err(schema_mismatch("FetchAccessTokenRes", status, body)),
    }
}

pub open spec fn refresh_body_is(ms: Seq<(Seq<char>, Seq<char>)>, v: FetchRefresh) -> bool {
    &&& str_in(ms, "client_id"@) == Some(v.client_id@)
    &&& str_in(ms, "client_secret"@) == Some(v.client_secret@)
    &&& str_in(ms, "refresh_token"@) == Some(v.refresh_token@)
    &&& str_in(ms, "grant_type"@) == Some(v.grant_type@)
    &&& str_in(ms, "redirect_uri"@) == Some(v.redirect_uri@)
}

pub open spec fn refresh_body_ok(ms: Seq<(Seq<char>, Seq<char>)>) -> bool {
    &&& str_in(ms, "client_id"@) is Some
    &&& str_in(ms, "client_secret"@) is Some
    &&& str_in(ms, "refresh_token"@) is Some
    &&& str_in(ms, "grant_type"@) is Some
    &&& str_in(ms, "redirect_uri"@) is Some
}

impl FetchRefresh {
    /// Reads the body back from its JSON members.
    pub fn from_members(ms: &Vec<(String, String)>) -> (r: Option<FetchRefresh>)
        ensures
            match r {
                Some(v) => refresh_body_is(pair_views(ms@), v),
                None => !refresh_body_ok(pair_views(ms@)),
            },
    {
        let client_id = str_field(ms, "client_id")?;
        let client_secret = str_field(ms, "client_secret")?;
        let refresh_token = str_field(ms, "refresh_token")?;
        let grant_type = str_field(ms, "grant_type")?;
        let redirect_uri = str_field(ms, "redirect_uri")?;
        Some(FetchRefresh { client_id, client_secret, refresh_token, grant_type, redirect_uri })
    }
}

/// Round trip of the body through JSON: the members that `to_json` writes
/// read back as a body, and as this one, field for field.
pub proof fn lemma_refresh_body_round_trip(b: FetchRefresh, d: FetchRefresh)
    requires
        b.reads_back(),
    ensures
        refresh_body_ok(b.members()),
        refresh_body_is(b.members(), d) ==> (d.client_id@ == b.client_id@
            && d.client_secret@ == b.client_secret@
            && d.refresh_token@ == b.refresh_token@
            && d.grant_type@ == b.grant_type@
            && d.redirect_uri@ == b.redirect_uri@),
{
}

/// A refresh body passes validation exactly when its client id, secret and
/// refresh token have 36 characters, its grant type is not empty and its
/// redirect URI parses: any other length is refused.
pub proof fn lemma_refresh_body_lengths(b: FetchRefresh)
    ensures
        b.first_violation() is None <==> (b.client_id@.len() == 36 && b.client_secret@.len() == 36
            && b.refresh_token@.len() == 36 && b.grant_type@.len() >= 1 && is_url(b.redirect_uri@)),
{
}

/// The length rules of a refresh body look at lengths only: two bodies whose
/// fields have the same lengths, and the same redirect URI, get the same
/// verdict whatever characters they hold.
pub proof fn lemma_refresh_body_content_blind(a: FetchRefresh, b: FetchRefresh)
    requires
        a.client_id@.len() == b.client_id@.len(),
        a.client_secret@.len() == b.client_secret@.len(),
        a.refresh_token@.len() == b.refresh_token@.len(),
        a.grant_type@.len() == b.grant_type@.len(),
        a.redirect_uri@ == b.redirect_uri@,
    ensures
        a.first_violation() == b.first_violation(),
{
}

/// A ZEBEDEE user's public profile.
#[derive(Clone, Debug)]
pub struct ZBDUserData {
    pub id: String,
    pub email: String,
    pub gamertag: String,
    pub image: Option<String>,
    pub is_verified: bool,
    pub lightning_address: String,
    pub public_bio: String,
    pub public_static_charge: String,
}

/// A ZEBEDEE user's wallet balance and limits.
#[derive(Clone, Debug)]
pub struct ZBDUserWalletData {
    pub balance: String,
    pub remaining_amount_limits: ZBDUserWalletDataLimits,
}

/// What a wallet may still spend per period.
#[derive(Clone, Debug)]
pub struct ZBDUserWalletDataLimits {
    pub daily: String,
    pub max_credit: String,
    pub monthly: String,
    pub weekly: String,
}

pub open spec fn user_is(ms: Seq<(Seq<char>, Seq<char>)>, v: ZBDUserData) -> bool {
    &&& str_in(ms, "id"@) == Some(v.id@)
    &&& str_in(ms, "email"@) == Some(v.email@)
    &&& str_in(ms, "gamertag"@) == Some(v.gamertag@)
    &&& opt_str_in(ms, "image"@) == Some(
        match v.image {
            Some(s) => Some(s@),
            None => None,
        },
    )
    &&& bool_in(ms, "isVerified"@) == Some(v.is_verified)
    &&& str_in(ms, "lightningAddress"@) == Some(v.lightning_address@)
    &&& str_in(ms, "publicBio"@) == Some(v.public_bio@)
    &&& str_in(ms, "publicStaticCharge"@) == Some(v.public_static_charge@)
}

pub open spec fn user_ok(ms: Seq<(Seq<char>, Seq<char>)>) -> bool {
    &&& str_in(ms, "id"@) is Some
    &&& str_in(ms, "email"@) is Some
    &&& str_in(ms, "gamertag"@) is Some
    &&& opt_str_in(ms, "image"@) is Some
    &&& bool_in(ms, "isVerified"@) is Some
    &&& str_in(ms, "lightningAddress"@) is Some
    &&& str_in(ms, "publicBio"@) is Some
    &&& str_in(ms, "publicStaticCharge"@) is Some
}

impl ZBDUserData {
    pub fn from_members(ms: &Vec<(String, String)>) -> (r: Option<ZBDUserData>)
        ensures
            match r {
                Some(v) => user_is(pair_views(ms@), v),
                None => !user_ok(pair_views(ms@)),
            },
    {
        let id = str_field(ms, "id")?;
        let email = str_field(ms, "email")?;
        let gamertag = str_field(ms, "gamertag")?;
        let image = opt_str_field(ms, "image")?;
        let is_verified = bool_field(ms, "isVerified")?;
        let lightning_address = str_field(ms, "lightningAddress")?;
        let public_bio = str_field(ms, "publicBio")?;
        let public_static_charge = str_field(ms, "publicStaticCharge")?;
        Some(
            ZBDUserData {
                id,
                email,
                gamertag,
                image,
                is_verified,
                lightning_address,
                public_bio,
                public_static_charge,
            },
        )
    }
}

pub open spec fn limits_is(ms: Seq<(Seq<char>, Seq<char>)>, v: ZBDUserWalletDataLimits) -> bool {
    &&& str_in(ms, "daily"@) == Some(v.daily@)
    &&& str_in(ms, "maxCredit"@) == Some(v.max_credit@)
    &&& str_in(ms, "monthly"@) == Some(v.monthly@)
    &&& str_in(ms, "weekly"@) == Some(v.weekly@)
}

pub open spec fn limits_ok(ms: Seq<(Seq<char>, Seq<char>)>) -> bool {
    &&& str_in(ms, "daily"@) is Some
    &&& str_in(ms, "maxCredit"@) is Some
    &&& str_in(ms, "monthly"@) is Some
    &&& str_in(ms, "weekly"@) is Some
}

impl ZBDUserWalletDataLimits {
    pub fn from_members(ms: &Vec<(String, String)>) -> (r: Option<ZBDUserWalletDataLimits>)
        ensures
            match r {
                Some(v) => limits_is(pair_views(ms@), v),
                None => !limits_ok(pair_views(ms@)),
            },
    {
        let daily = str_field(ms, "daily")?;
        let max_credit = str_field(ms, "maxCredit")?;
        let monthly = str_field(ms, "monthly")?;
        let weekly = str_field(ms, "weekly")?;
        Some(ZBDUserWalletDataLimits { daily, max_credit, monthly, weekly })
    }
}

pub open spec fn wallet_is(ms: Seq<(Seq<char>, Seq<char>)>, v: ZBDUserWalletData) -> bool {
    &&& str_in(ms, "balance"@) == Some(v.balance@)
    &&& match lookup(ms, "remainingAmountLimits"@) {
        Some(t) => match object_members(t) {
            Some(inner) => limits_is(inner, v.remaining_amount_limits),
            None => false,
        },
        None => false,
    }
}

pub open spec fn wallet_ok(ms: Seq<(Seq<char>, Seq<char>)>) -> bool {
    &&& str_in(ms, "balance"@) is Some
    &&& match lookup(ms, "remainingAmountLimits"@) {
        Some(t) => match object_members(t) {
            Some(inner) => limits_ok(inner),
            None => false,
        },
        None => false,
    }
}

impl ZBDUserWalletData {
    pub fn from_members(ms: &Vec<(String, String)>) -> (r: Option<ZBDUserWalletData>)
        ensures
            match r {
                Some(v) => wallet_is(pair_views(ms@), v),
                None => !wallet_ok(pair_views(ms@)),
            },
    {
        let balance = str_field(ms, "balance")?;
        let limits_text = find_member(ms, "remainingAmountLimits")?;
        let limits_members = parse_object(limits_text.as_str())?;
        let remaining_amount_limits = ZBDUserWalletDataLimits::from_members(&limits_members)?;
        Some(ZBDUserWalletData { balance, remaining_amount_limits })
    }
}

} // verus!
