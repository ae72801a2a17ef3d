//! Withdrawal requests: outgoing payments.
use crate::client::{
    apikey_request, expect_status, is_apikey_request, rejected, schema_error, schema_mismatch,
    ApiError, ApiRequest,
    Method, ZebedeeClient, STATUS_OK,
};
use crate::json::{
    array_items, find_member, lookup, member_of, object_members, pair_views, parse_array,
    parse_object, str_field, str_in, string_views, bool_field, bool_in,
};
use crate::segment::{encode_segment, encoded_segment};
use crate::validation::{is_decimal, amount_rule, Rule, ValidationError};
use crate::payload::{object_text, payload_body, payload_members, payload_reads_back};
use crate::timestamp::{instant_field, instant_in, Timestamp};
use vstd::prelude::*;
use vstd::string::*;

verus! {

/// The payment request of a withdrawal, in its long and fast forms.
#[derive(Clone, Debug)]
pub struct InvoiceData {
    pub request: String,
    pub fast_request: String,
    pub uri: String,
    pub fast_uri: String,
}

pub open spec fn invoice_is(ms: Seq<(Seq<char>, Seq<char>)>, v: InvoiceData) -> bool {
    &&& str_in(ms, "request"@) == Some(v.request@)
    &&& str_in(ms, "fastRequest"@) == Some(v.fast_request@)
    &&& str_in(ms, "uri"@) == Some(v.uri@)
    &&& str_in(ms, "fastUri"@) == Some(v.fast_uri@)
}

pub open spec fn invoice_ok(ms: Seq<(Seq<char>, Seq<char>)>) -> bool {
    &&& str_in(ms, "request"@) is Some
    &&& str_in(ms, "fastRequest"@) is Some
    &&& str_in(ms, "uri"@) is Some
    &&& str_in(ms, "fastUri"@) is Some
}

impl InvoiceData {
    pub fn from_members(ms: &Vec<(String, String)>) -> (r: Option<InvoiceData>)
        ensures
            match r {
                Some(v) => invoice_is(pair_views(ms@), v),
                None => !invoice_ok(pair_views(ms@)),
            },
    {
        let request = str_field(ms, "request")?;
        let fast_request = str_field(ms, "fastRequest")?;
        let uri = str_field(ms, "uri")?;
        let fast_uri = str_field(ms, "fastUri")?;
        Some(InvoiceData { request, fast_request, uri, fast_uri })
    }
}

/// A withdrawal request as the server reports it.
#[derive(Clone, Debug)]
pub struct WithdrawalRequestsData {
    pub id: String,
    pub unit: String,
    pub amount: String,
    pub created_at: Timestamp,
    pub expires_at: Timestamp,
    pub internal_id: String,
    pub description: String,
    pub callback_url: String,
    pub status: String,
    pub invoice: InvoiceData,
}

pub open spec fn withdrawal_is(ms: Seq<(Seq<char>, Seq<char>)>, v: WithdrawalRequestsData) -> bool {
    &&& str_in(ms, "id"@) == Some(v.id@)
    &&& str_in(ms, "unit"@) == Some(v.unit@)
    &&& str_in(ms, "amount"@) == Some(v.amount@)
    &&& instant_in(ms, "createdAt"@) == Some(v.created_at.pair())
    &&& instant_in(ms, "expiresAt"@) == Some(v.expires_at.pair())
    &&& str_in(ms, "internalId"@) == Some(v.internal_id@)
    &&& str_in(ms, "description"@) == Some(v.description@)
    &&& str_in(ms, "callbackUrl"@) == Some(v.callback_url@)
    &&& str_in(ms, "status"@) == Some(v.status@)
    &&& match lookup(ms, "invoice"@) {
        Some(t) => match object_members(t) {
            Some(inner) => invoice_is(inner, v.invoice),
            None => false,
        },
        None => false,
    }
}

pub open spec fn withdrawal_ok(ms: Seq<(Seq<char>, Seq<char>)>) -> bool {
    &&& str_in(ms, "id"@) is Some
    &&& str_in(ms, "unit"@) is Some
    &&& str_in(ms, "amount"@) is Some
    &&& instant_in(ms, "createdAt"@) is Some
    &&& instant_in(ms, "expiresAt"@) is Some
    &&& str_in(ms, "internalId"@) is Some
    &&& str_in(ms, "description"@) is Some
    &&& str_in(ms, "callbackUrl"@) is Some
    &&& str_in(ms, "status"@) is Some
    &&& match lookup(ms, "invoice"@) {
        Some(t) => match object_members(t) {
            Some(inner) => invoice_ok(inner),
            None => false,
        },
        None => false,
    }
}

/// `text` is a JSON object that reads as `v`.
pub open spec fn withdrawal_text_is(text: Seq<char>, v: WithdrawalRequestsData) -> bool {
    match object_members(text) {
        Some(ms) => withdrawal_is(ms, v),
        None => false,
    }
}

/// `text` is a JSON object that reads as a withdrawal request.
pub open spec fn withdrawal_text_ok(text: Seq<char>) -> bool {
    match object_members(text) {
        Some(ms) => withdrawal_ok(ms),
        None => false,
    }
}

impl WithdrawalRequestsData {
    pub fn from_members(ms: &Vec<(String, String)>) -> (r: Option<WithdrawalRequestsData>)
        ensures
            match r {
                Some(v) => withdrawal_is(pair_views(ms@), v),
                None => !withdrawal_ok(pair_views(ms@)),
            },
    {
        let id = str_field(ms, "id")?;
        let unit = str_field(ms, "unit")?;
        let amount = str_field(ms, "amount")?;
        let created_at = instant_field(ms, "createdAt")?;
        let expires_at = instant_field(ms, "expiresAt")?;
        let internal_id = str_field(ms, "internalId")?;
        let description = str_field(ms, "description")?;
        let callback_url = str_field(ms, "callbackUrl")?;
        let status = str_field(ms, "status")?;
        let invoice_text = find_member(ms, "invoice")?;
        let invoice_members = parse_object(invoice_text.as_str())?;
        let invoice = InvoiceData::from_members(&invoice_members)?;
        Some(
            WithdrawalRequestsData {
                id,
                unit,
                amount,
                created_at,
                expires_at,
                internal_id,
                description,
                callback_url,
                status,
                invoice,
            },
        )
    }

    /// Reads one withdrawal request from JSON text.
    pub fn from_json(text: &str) -> (r: Option<WithdrawalRequestsData>)
        ensures
            match r {
                Some(v) => withdrawal_text_is(text@, v),
                None => !withdrawal_text_ok(text@),
            },
    {
        let ms = parse_object(text)?;
        WithdrawalRequestsData::from_members(&ms)
    }
}

/// `text` is a JSON array whose items read as `v`, in order.
pub open spec fn withdrawal_list_is(text: Seq<char>, v: Seq<WithdrawalRequestsData>) -> bool {
    match array_items(text) {
        Some(items) => items.len() == v.len() && forall|i: int|
            0 <= i < v.len() ==> withdrawal_text_is(#[trigger] items[i], v[i]),
        None => false,
    }
}

/// `text` is a JSON array of withdrawal requests.
pub open spec fn withdrawal_list_ok(text: Seq<char>) -> bool {
    match array_items(text) {
        Some(items) => forall|i: int| 0 <= i < items.len() ==> #[trigger] withdrawal_text_ok(items[i]),
        None => false,
    }
}

/// Reads a JSON array of withdrawal requests.
pub fn withdrawal_list_from_json(text: &str) -> (r: Option<Vec<WithdrawalRequestsData>>)
    ensures
        match r {
            Some(v) => withdrawal_list_is(text@, v@),
            None => !withdrawal_list_ok(text@),
        },
{
    let items = parse_array(text)?;
    let mut out: Vec<WithdrawalRequestsData> = Vec::new();
    let mut i: usize = 0;
    while i < items.len()
        invariant
            0 <= i <= items@.len(),
            array_items(text@) == Some(string_views(items@)),
            out@.len() == i,
            forall|j: int| 0 <= j < i ==> withdrawal_text_is(items@[j]@, #[trigger] out@[j]),
        decreases items@.len() - i,
    {
        match WithdrawalRequestsData::from_json(items[i].as_str()) {
            Some(w) => out.push(w),
            None => {
                proof {
                    let views = string_views(items@);
                    assert(views.len() == items@.len());
                    assert(views[i as int] == items@[i as int]@);
                    assert(!withdrawal_text_ok(views[i as int]));
                    assert(array_items(text@) == Some(views));
                    assert(!withdrawal_list_ok(text@)) by {
                        if withdrawal_list_ok(text@) {
                            let its = array_items(text@)->0;
                            assert(forall|j: int|
                                0 <= j < its.len() ==> #[trigger] withdrawal_text_ok(its[j]));
                            assert(withdrawal_text_ok(its[i as int]));
                        }
                    }
                }
                return None;
            },
        }
        i = i + 1;
    }
    Some(out)
}

/// The envelope of the list of withdrawal requests. The server sends no
/// `success` member with it.
#[derive(Clone, Debug)]
pub struct AllWithdrawalRequestsRes {
    pub message: String,
    pub data: Vec<WithdrawalRequestsData>,
}

/// The envelope of one withdrawal request fetched by id.
#[derive(Clone, Debug)]
pub struct GetWithdrawalRequestsRes {
    pub data: WithdrawalRequestsData,
    pub message: String,
}

/// The envelope of a newly created withdrawal request.
#[derive(Clone, Debug)]
pub struct PostWithdrawalRequestsRes {
    pub success: bool,
    pub data: WithdrawalRequestsData,
    pub message: String,
}

} // verus!
verus! {

pub open spec fn all_withdrawals_is(text: Seq<char>, v: AllWithdrawalRequestsRes) -> bool {
    match object_members(text) {
        Some(ms) => str_in(ms, "message"@) == Some(v.message@) && match lookup(ms, "data"@) {
            Some(t) => withdrawal_list_is(t, v.data@),
            None => false,
        },
        None => false,
    }
}

pub open spec fn all_withdrawals_ok(text: Seq<char>) -> bool {
    match object_members(text) {
        Some(ms) => str_in(ms, "message"@) is Some && match lookup(ms, "data"@) {
            Some(t) => withdrawal_list_ok(t),
            None => false,
        },
        None => false,
    }
}

impl AllWithdrawalRequestsRes {
    pub fn from_json(text: &str) -> (r: Option<AllWithdrawalRequestsRes>)
        ensures
            match r {
                Some(v) => all_withdrawals_is(text@, v),
                None => !all_withdrawals_ok(text@),
            },
    {
        let ms = parse_object(text)?;
        let message = str_field(&ms, "message")?;
        let data_text = find_member(&ms, "data")?;
        let data = withdrawal_list_from_json(data_text.as_str())?;
        Some(AllWithdrawalRequestsRes { message, data })
    }
}

pub open spec fn get_withdrawal_is(text: Seq<char>, v: GetWithdrawalRequestsRes) -> bool {
    match object_members(text) {
        Some(ms) => str_in(ms, "message"@) == Some(v.message@) && match lookup(ms, "data"@) {
            Some(t) => withdrawal_text_is(t, v.data),
            None => false,
        },
        None => false,
    }
}

pub open spec fn get_withdrawal_ok(text: Seq<char>) -> bool {
    match object_members(text) {
        Some(ms) => str_in(ms, "message"@) is Some && match lookup(ms, "data"@) {
            Some(t) => withdrawal_text_ok(t),
            None => false,
        },
        None => false,
    }
}

impl GetWithdrawalRequestsRes {
    pub fn from_json(text: &str) -> (r: Option<GetWithdrawalRequestsRes>)
        ensures
            match r {
                Some(v) => get_withdrawal_is(text@, v),
                None => !get_withdrawal_ok(text@),
            },
    {
        let ms = parse_object(text)?;
        let message = str_field(&ms, "message")?;
        let data_text = find_member(&ms, "data")?;
        let data = WithdrawalRequestsData::from_json(data_text.as_str())?;
        Some(GetWithdrawalRequestsRes { data, message })
    }
}

pub open spec fn post_withdrawal_is(text: Seq<char>, v: PostWithdrawalRequestsRes) -> bool {
    match object_members(text) {
        Some(ms) => {
            &&& bool_in(ms, "success"@) == Some(v.success)
            &&& str_in(ms, "message"@) == Some(v.message@)
            &&& match lookup(ms, "data"@) {
                Some(t) => withdrawal_text_is(t, v.data),
                None => false,
            }
        },
        None => false,
    }
}

pub open spec fn post_withdrawal_ok(text: Seq<char>) -> bool {
    match object_members(text) {
        Some(ms) => {
            &&& bool_in(ms, "success"@) is Some
            &&& str_in(ms, "message"@) is Some
            &&& match lookup(ms, "data"@) {
                Some(t) => withdrawal_text_ok(t),
                None => false,
            }
        },
        None => false,
    }
}

impl PostWithdrawalRequestsRes {
    pub fn from_json(text: &str) -> (r: Option<PostWithdrawalRequestsRes>)
        ensures
            match r {
                Some(v) => post_withdrawal_is(text@, v),
                None => !post_withdrawal_ok(text@),
            },
    {
        let ms = parse_object(text)?;
        let success = bool_field(&ms, "success")?;
        let message = str_field(&ms, "message")?;
        let data_text = find_member(&ms, "data")?;
        let data = WithdrawalRequestsData::from_json(data_text.as_str())?;
        Some(PostWithdrawalRequestsRes { success, data, message })
    }
}

/// The body of a request to create a withdrawal.
#[derive(Clone, Debug)]
pub struct WithdrawalReqest {
    pub expires_in: u32,
    pub amount: String,
    pub description: String,
    pub internal_id: String,
    pub callback_url: String,
}

impl WithdrawalReqest {
    pub open spec fn members(self) -> Seq<(Seq<char>, Seq<char>)> {
        payload_members(
            self.expires_in,
            self.amount@,
            self.description@,
            self.internal_id@,
            self.callback_url@,
        )
    }

    /// Each text member of the body reads back as the field it was written
    /// from.
    pub open spec fn reads_back(self) -> bool {
        payload_reads_back(
            self.expires_in,
            self.amount@,
            self.description@,
            self.internal_id@,
            self.callback_url@,
        )
    }

    /// Rejects an amount that is not a non-negative decimal number.
    pub fn validate(&self) -> (r: Result<(), ValidationError>)
        ensures
            match r {
                Ok(_) => is_decimal(self.amount@),
                Err(e) => !is_decimal(self.amount@) && e.field@ == "amount"@ && e.rule
                    == Rule::Decimal,
            },
    {
        amount_rule(&self.amount)
    }

    /// The JSON body sent for this withdrawal request.
    pub fn to_json(&self) -> (r: String)
        ensures
            r@ == object_text(self.members()),
            self.reads_back(),
    {
        payload_body(
            self.expires_in,
            &self.amount,
            &self.description,
            &self.internal_id,
            &self.callback_url,
        )
    }
}

/// Round trip of a withdrawal request through JSON: when the server's record echoes
/// the members of the body under the same names, the record read back holds
/// the amount, description, internal id and callback URL that were set.
pub proof fn lemma_withdrawal_round_trip(payload: WithdrawalReqest, record: Seq<(Seq<char>, Seq<char>)>, data: WithdrawalRequestsData)
    requires
        payload.reads_back(),
        lookup(record, "amount"@) == lookup(payload.members(), "amount"@),
        lookup(record, "description"@) == lookup(payload.members(), "description"@),
        lookup(record, "internalId"@) == lookup(payload.members(), "internalId"@),
        lookup(record, "callbackUrl"@) == lookup(payload.members(), "callbackUrl"@),
        withdrawal_is(record, data),
    ensures
        data.amount@ == payload.amount@,
        data.description@ == payload.description@,
        data.internal_id@ == payload.internal_id@,
        data.callback_url@ == payload.callback_url@,
{
}

impl Default for WithdrawalReqest {
    /// Expires in 300 seconds, amount "0", the library's description, no
    /// internal id and no callback.
    fn default() -> (r: WithdrawalReqest)
        ensures
            r.expires_in == 300,
            r.amount@ == "0"@,
            r.description@ == "using zebedee rust sdk"@,
            r.internal_id@ == ""@,
            r.callback_url@ == ""@,
    {
        WithdrawalReqest {
            expires_in: 300,
            amount: String::from_str("0"),
            description: String::from_str("using zebedee rust sdk"),
            internal_id: String::from_str(""),
            callback_url: String::from_str(""),
        }
    }
}

/// The call that creates a withdrawal request; nothing is built for an amount that is not
/// a non-negative decimal number.
pub fn create_withdrawal_request_call(client: &ZebedeeClient, withdrawal_request: &WithdrawalReqest) -> (r: Result<ApiRequest, ApiError>)
    ensures
        match r {
            Ok(req) => is_decimal(withdrawal_request.amount@) && is_apikey_request(
                req,
                *client,
                Method::Post,
                "/v0/withdrawal-requests"@,
                Some(object_text(withdrawal_request.members())),
            ),
            Err(ApiError::Validation(e)) => !is_decimal(withdrawal_request.amount@) && e.field@ == "amount"@
                && e.rule == Rule::Decimal,
            Err(_) => false,
        },
{
    match withdrawal_request.validate() {
        Ok(_) => {
            let body = withdrawal_request.to_json();
            Ok(apikey_request(client, Method::Post, "/v0/withdrawal-requests", Some(body)))
        },
        Err(e) => Err(ApiError::Validation(e)),
    }
}

/// Reads the answer to `create_withdrawal_request_call`.
pub fn create_withdrawal_request_result(status: u16, body: String) -> (r: Result<
    PostWithdrawalRequestsRes,
    ApiError,
>)
    ensures
        status != STATUS_OK ==> rejected(r, status, body@),
        status == STATUS_OK ==> match r {
            Ok(v) => post_withdrawal_is(body@, v),
            Err(_) => !post_withdrawal_ok(body@) && schema_error(r, status, body@),
        },
        status == STATUS_OK && member_of(body@, "data"@) is None ==> schema_error(r, status, body@),
{
    let body = match expect_status(status, STATUS_OK, body) {
        Ok(b) => b,
        Err(e) => return Err(e),
    };
    match PostWithdrawalRequestsRes::from_json(body.as_str()) {
        Some(v) => Ok(v),
        None => Err(schema_mismatch("PostWithdrawalRequestsRes", status, body)),
    }
}

/// The call that lists the withdrawal requests.
pub fn get_withdrawal_requests_call(client: &ZebedeeClient) -> (r: ApiRequest)
    ensures
        is_apikey_request(r, *client, Method::Get, "/v0/withdrawal-requests"@, None),
{
    apikey_request(client, Method::Get, "/v0/withdrawal-requests", None)
}

/// Reads the answer to `get_withdrawal_requests_call`. That envelope has no
/// `success` member, and none is looked for.
pub fn get_withdrawal_requests_result(status: u16, body: String) -> (r: Result<
    AllWithdrawalRequestsRes,
    ApiError,
>)
    ensures
        status != STATUS_OK ==> rejected(r, status, body@),
        status == STATUS_OK ==> match r {
            Ok(v) => all_withdrawals_is(body@, v),
            Err(_) => !all_withdrawals_ok(body@) && schema_error(r, status, body@),
        },
        status == STATUS_OK && member_of(body@, "data"@) is None ==> schema_error(r, status, body@),
{
    let body = match expect_status(status, STATUS_OK, body) {
        Ok(b) => b,
        Err(e) => return Err(e),
    };
    match AllWithdrawalRequestsRes::from_json(body.as_str()) {
        Some(v) => Ok(v),
        None => Err(schema_mismatch("AllWithdrawalRequestsRes", status, body)),
    }
}

/// The call that fetches one withdrawal request by id; the id goes into the URL as one
/// percent-encoded path segment.
pub fn get_withdrawal_request_call(client: &ZebedeeClient, withdrawal_id: &String) -> (r: ApiRequest)
    ensures
        is_apikey_request(
            r,
            *client,
            Method::Get,
            "/v0/withdrawal-requests/"@ + encoded_segment(withdrawal_id@),
            None,
        ),
{
    let segment = encode_segment(withdrawal_id.as_str());
    let path = String::from_str("/v0/withdrawal-requests/").concat(segment.as_str());
    apikey_request(client, Method::Get, path.as_str(), None)
}

/// Reads the answer to `get_withdrawal_request_call`.
pub fn get_withdrawal_request_result(status: u16, body: String) -> (r: Result<
    GetWithdrawalRequestsRes,
    ApiError,
>)
    ensures
        status != STATUS_OK ==> rejected(r, status, body@),
        status == STATUS_OK ==> match r {
            Ok(v) => get_withdrawal_is(body@, v),
            Err(_) => !get_withdrawal_ok(body@) && schema_error(r, status, body@),
        },
        status == STATUS_OK && member_of(body@, "data"@) is None ==> schema_error(r, status, body@),
{
    let body = match expect_status(status, STATUS_OK, body) {
        Ok(b) => b,
        Err(e) => return Err(e),
    };
    match GetWithdrawalRequestsRes::from_json(body.as_str()) {
        Some(v) => Ok(v),
        None => Err(schema_mismatch("GetWithdrawalRequestsRes", status, body)),
    }
}

} // verus!
