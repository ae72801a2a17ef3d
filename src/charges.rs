//! Charges: incoming payment requests.
use crate::client::{
    apikey_request, expect_status, is_apikey_request, rejected, schema_error, schema_mismatch,
    ApiError, ApiRequest,
    Method, ZebedeeClient, STATUS_OK,
};
use crate::json::{
    array_items, find_member, lookup, member_of, object_members, pair_views, parse_array,
    parse_object, str_field, str_in, string_views, bool_field, bool_in,
};
use crate::segment::{encode_segment, encoded_segment};
use crate::validation::{is_decimal, amount_rule, Rule, ValidationError};
use crate::payload::{object_text, payload_body, payload_members, payload_reads_back};
use crate::timestamp::{
    instant_field, instant_in, opt_instant_field, opt_instant_in, opt_pair, Timestamp,
};
use vstd::prelude::*;
use vstd::string::*;

verus! {

/// The payment request of a charge.
#[derive(Clone, Debug)]
pub struct InvoiceData {
    pub request: String,
    pub uri: String,
}

pub open spec fn invoice_is(ms: Seq<(Seq<char>, Seq<char>)>, v: InvoiceData) -> bool {
    &&& str_in(ms, "request"@) == Some(v.request@)
    &&& str_in(ms, "uri"@) == Some(v.uri@)
}

pub open spec fn invoice_ok(ms: Seq<(Seq<char>, Seq<char>)>) -> bool {
    &&& str_in(ms, "request"@) is Some
    &&& str_in(ms, "uri"@) is Some
}

impl InvoiceData {
    pub fn from_members(ms: &Vec<(String, String)>) -> (r: Option<InvoiceData>)
        ensures
            match r {
                Some(v) => invoice_is(pair_views(ms@), v),
                None => !invoice_ok(pair_views(ms@)),
            },
    {
        let request = str_field(ms, "request")?;
        let uri = str_field(ms, "uri")?;
        Some(InvoiceData { request, uri })
    }
}

/// A charge as the server reports it. `confirmed_at` is present once the
/// charge has been paid.
#[derive(Clone, Debug)]
pub struct ChargesData {
    pub id: String,
    pub unit: String,
    pub amount: String,
    pub created_at: Timestamp,
    pub internal_id: String,
    pub callback_url: String,
    pub description: String,
    pub expires_at: Timestamp,
    pub confirmed_at: Option<Timestamp>,
    pub status: String,
    pub invoice: InvoiceData,
}

pub open spec fn charge_is(ms: Seq<(Seq<char>, Seq<char>)>, v: ChargesData) -> bool {
    &&& str_in(ms, "id"@) == Some(v.id@)
    &&& str_in(ms, "unit"@) == Some(v.unit@)
    &&& str_in(ms, "amount"@) == Some(v.amount@)
    &&& instant_in(ms, "createdAt"@) == Some(v.created_at.pair())
    &&& instant_in(ms, "expiresAt"@) == Some(v.expires_at.pair())
    &&& opt_instant_in(ms, "confirmedAt"@) == Some(opt_pair(v.confirmed_at))
    &&& str_in(ms, "internalId"@) == Some(v.internal_id@)
    &&& str_in(ms, "description"@) == Some(v.description@)
    &&& str_in(ms, "callbackUrl"@) == Some(v.callback_url@)
    &&& str_in(ms, "status"@) == Some(v.status@)
    &&& match lookup(ms, "invoice"@) {
        Some(t) => match object_members(t) {
            Some(inner) => invoice_is(inner, v.invoice),
            None => false,
        },
        None => false,
    }
}

pub open spec fn charge_ok(ms: Seq<(Seq<char>, Seq<char>)>) -> bool {
    &&& str_in(ms, "id"@) is Some
    &&& str_in(ms, "unit"@) is Some
    &&& str_in(ms, "amount"@) is Some
    &&& instant_in(ms, "createdAt"@) is Some
    &&& instant_in(ms, "expiresAt"@) is Some
    &&& opt_instant_in(ms, "confirmedAt"@) is Some
    &&& str_in(ms, "internalId"@) is Some
    &&& str_in(ms, "description"@) is Some
    &&& str_in(ms, "callbackUrl"@) is Some
    &&& str_in(ms, "status"@) is Some
    &&& match lookup(ms, "invoice"@) {
        Some(t) => match object_members(t) {
            Some(inner) => invoice_ok(inner),
            None => false,
        },
        None => false,
    }
}

/// `text` is a JSON object that reads as `v`.
pub open spec fn charge_text_is(text: Seq<char>, v: ChargesData) -> bool {
    match object_members(text) {
        Some(ms) => charge_is(ms, v),
        None => false,
    }
}

/// `text` is a JSON object that reads as a charge.
pub open spec fn charge_text_ok(text: Seq<char>) -> bool {
    match object_members(text) {
        Some(ms) => charge_ok(ms),
        None => false,
    }
}

impl ChargesData {
    pub fn from_members(ms: &Vec<(String, String)>) -> (r: Option<ChargesData>)
        ensures
            match r {
                Some(v) => charge_is(pair_views(ms@), v),
                None => !charge_ok(pair_views(ms@)),
            },
    {
        let id = str_field(ms, "id")?;
        let unit = str_field(ms, "unit")?;
        let amount = str_field(ms, "amount")?;
        let created_at = instant_field(ms, "createdAt")?;
        let expires_at = instant_field(ms, "expiresAt")?;
        let confirmed_at = opt_instant_field(ms, "confirmedAt")?;
        let internal_id = str_field(ms, "internalId")?;
        let description = str_field(ms, "description")?;
        let callback_url = str_field(ms, "callbackUrl")?;
        let status = str_field(ms, "status")?;
        let invoice_text = find_member(ms, "invoice")?;
        let invoice_members = parse_object(invoice_text.as_str())?;
        let invoice = InvoiceData::from_members(&invoice_members)?;
        Some(
            ChargesData {
                id,
                unit,
                amount,
                created_at,
                internal_id,
                callback_url,
                description,
                expires_at,
                confirmed_at,
                status,
                invoice,
            },
        )
    }

    /// Reads one charge from JSON text.
    pub fn from_json(text: &str) -> (r: Option<ChargesData>)
        ensures
            match r {
                Some(v) => charge_text_is(text@, v),
                None => !charge_text_ok(text@),
            },
    {
        let ms = parse_object(text)?;
        ChargesData::from_members(&ms)
    }
}

/// `text` is a JSON array whose items read as `v`, in order.
pub open spec fn charge_list_is(text: Seq<char>, v: Seq<ChargesData>) -> bool {
    match array_items(text) {
        Some(items) => items.len() == v.len() && forall|i: int|
            0 <= i < v.len() ==> charge_text_is(#[trigger] items[i], v[i]),
        None => false,
    }
}

/// `text` is a JSON array of charges.
pub open spec fn charge_list_ok(text: Seq<char>) -> bool {
    match array_items(text) {
        Some(items) => forall|i: int| 0 <= i < items.len() ==> #[trigger] charge_text_ok(items[i]),
        None => false,
    }
}

/// Reads a JSON array of charges.
pub fn charge_list_from_json(text: &str) -> (r: Option<Vec<ChargesData>>)
    ensures
        match r {
            Some(v) => charge_list_is(text@, v@),
            None => !charge_list_ok(text@),
        },
{
    let items = parse_array(text)?;
    let mut out: Vec<ChargesData> = Vec::new();
    let mut i: usize = 0;
    while i < items.len()
        invariant
            0 <= i <= items@.len(),
            array_items(text@) == Some(string_views(items@)),
            out@.len() == i,
            forall|j: int| 0 <= j < i ==> charge_text_is(items@[j]@, #[trigger] out@[j]),
        decreases items@.len() - i,
    {
        match ChargesData::from_json(items[i].as_str()) {
            Some(w) => out.push(w),
            None => {
                proof {
                    let views = string_views(items@);
                    assert(views.len() == items@.len());
                    assert(views[i as int] == items@[i as int]@);
                    assert(!charge_text_ok(views[i as int]));
                    assert(array_items(text@) == Some(views));
                    assert(!charge_list_ok(text@)) by {
                        if charge_list_ok(text@) {
                            let its = array_items(text@)->0;
                            assert(forall|j: int|
                                0 <= j < its.len() ==> #[trigger] charge_text_ok(its[j]));
                            assert(charge_text_ok(its[i as int]));
                        }
                    }
                }
                return None;
            },
        }
        i = i + 1;
    }
    Some(out)
}

/// The envelope of the list of charges.
#[derive(Clone, Debug)]
pub struct AllChargesRes {
    pub success: bool,
    pub data: Vec<ChargesData>,
    pub message: String,
}

/// The envelope of one charge.
#[derive(Clone, Debug)]
pub struct ChargesRes {
    pub success: bool,
    pub data: ChargesData,
    pub message: String,
}

} // verus!
verus! {

pub open spec fn all_charges_is(text: Seq<char>, v: AllChargesRes) -> bool {
    match object_members(text) {
        Some(ms) => {
            &&& bool_in(ms, "success"@) == Some(v.success)
            &&& str_in(ms, "message"@) == Some(v.message@)
            &&& match lookup(ms, "data"@) {
                Some(t) => charge_list_is(t, v.data@),
                None => false,
            }
        },
        None => false,
    }
}

pub open spec fn all_charges_ok(text: Seq<char>) -> bool {
    match object_members(text) {
        Some(ms) => {
            &&& bool_in(ms, "success"@) is Some
            &&& str_in(ms, "message"@) is Some
            &&& match lookup(ms, "data"@) {
                Some(t) => charge_list_ok(t),
                None => false,
            }
        },
        None => false,
    }
}

impl AllChargesRes {
    pub fn from_json(text: &str) -> (r: Option<AllChargesRes>)
        ensures
            match r {
                Some(v) => all_charges_is(text@, v),
                None => !all_charges_ok(text@),
            },
    {
        let ms = parse_object(text)?;
        let success = bool_field(&ms, "success")?;
        let message = str_field(&ms, "message")?;
        let data_text = find_member(&ms, "data")?;
        let data = charge_list_from_json(data_text.as_str())?;
        Some(AllChargesRes { success, data, message })
    }
}

pub open spec fn charges_res_is(text: Seq<char>, v: ChargesRes) -> bool {
    match object_members(text) {
        Some(ms) => {
            &&& bool_in(ms, "success"@) == Some(v.success)
            &&& str_in(ms, "message"@) == Some(v.message@)
            &&& match lookup(ms, "data"@) {
                Some(t) => charge_text_is(t, v.data),
                None => false,
            }
        },
        None => false,
    }
}

pub open spec fn charges_res_ok(text: Seq<char>) -> bool {
    match object_members(text) {
        Some(ms) => {
            &&& bool_in(ms, "success"@) is Some
            &&& str_in(ms, "message"@) is Some
            &&& match lookup(ms, "data"@) {
                Some(t) => charge_text_ok(t),
                None => false,
            }
        },
        None => false,
    }
}

impl ChargesRes {
    pub fn from_json(text: &str) -> (r: Option<ChargesRes>)
        ensures
            match r {
                Some(v) => charges_res_is(text@, v),
                None => !charges_res_ok(text@),
            },
    {
        let ms = parse_object(text)?;
        let success = bool_field(&ms, "success")?;
        let message = str_field(&ms, "message")?;
        let data_text = find_member(&ms, "data")?;
        let data = ChargesData::from_json(data_text.as_str())?;
        Some(ChargesRes { success, data, message })
    }
}

/// The body of a request to create a charge.
#[derive(Clone, Debug)]
pub struct Charge {
    pub expires_in: u32,
    pub amount: String,
    pub description: String,
    pub internal_id: String,
    pub callback_url: String,
}

impl Charge {
    pub open spec fn members(self) -> Seq<(Seq<char>, Seq<char>)> {
        payload_members(
            self.expires_in,
            self.amount@,
            self.description@,
            self.internal_id@,
            self.callback_url@,
        )
    }

    /// Each text member of the body reads back as the field it was written
    /// from.
    pub open spec fn reads_back(self) -> bool {
        payload_reads_back(
            self.expires_in,
            self.amount@,
            self.description@,
            self.internal_id@,
            self.callback_url@,
        )
    }

    /// Rejects an amount that is not a non-negative decimal number.
    pub fn validate(&self) -> (r: Result<(), ValidationError>)
        ensures
            match r {
                Ok(_) => is_decimal(self.amount@),
                Err(e) => !is_decimal(self.amount@) && e.field@ == "amount"@ && e.rule
                    == Rule::Decimal,
            },
    {
        amount_rule(&self.amount)
    }

    /// The JSON body sent for this charge.
    pub fn to_json(&self) -> (r: String)
        ensures
            r@ == object_text(self.members()),
            self.reads_back(),
    {
        payload_body(
            self.expires_in,
            &self.amount,
            &self.description,
            &self.internal_id,
            &self.callback_url,
        )
    }
}

/// Round trip of a charge through JSON: when the server's record echoes
/// the members of the body under the same names, the record read back holds
/// the amount, description, internal id and callback URL that were set.
pub proof fn lemma_charge_round_trip(payload: Charge, record: Seq<(Seq<char>, Seq<char>)>, data: ChargesData)
    requires
        payload.reads_back(),
        lookup(record, "amount"@) == lookup(payload.members(), "amount"@),
        lookup(record, "description"@) == lookup(payload.members(), "description"@),
        lookup(record, "internalId"@) == lookup(payload.members(), "internalId"@),
        lookup(record, "callbackUrl"@) == lookup(payload.members(), "callbackUrl"@),
        charge_is(record, data),
    ensures
        data.amount@ == payload.amount@,
        data.description@ == payload.description@,
        data.internal_id@ == payload.internal_id@,
        data.callback_url@ == payload.callback_url@,
{
}

impl Default for Charge {
    /// Expires in 300 seconds, amount "0", the library's description, no
    /// internal id and no callback.
    fn default() -> (r: Charge)
        ensures
            r.expires_in == 300,
            r.amount@ == "0"@,
            r.description@ == "using zebedee rust sdk"@,
            r.internal_id@ == ""@,
            r.callback_url@ == ""@,
    {
        Charge {
            expires_in: 300,
            amount: String::from_str("0"),
            description: String::from_str("using zebedee rust sdk"),
            internal_id: String::from_str(""),
            callback_url: String::from_str(""),
        }
    }
}

/// The call that creates a charge; nothing is built for an amount that is not
/// a non-negative decimal number.
pub fn create_charge_call(client: &ZebedeeClient, charge: &Charge) -> (r: Result<ApiRequest, ApiError>)
    ensures
        match r {
            Ok(req) => is_decimal(charge.amount@) && is_apikey_request(
                req,
                *client,
                Method::Post,
                "/v0/charges"@,
                Some(object_text(charge.members())),
            ),
            Err(ApiError::Validation(e)) => !is_decimal(charge.amount@) && e.field@ == "amount"@
                && e.rule == Rule::Decimal,
            Err(_) => false,
        },
{
    match charge.validate() {
        Ok(_) => {
            let body = charge.to_json();
            Ok(apikey_request(client, Method::Post, "/v0/charges", Some(body)))
        },
        Err(e) => Err(ApiError::Validation(e)),
    }
}

/// Reads the answer to `create_charge_call`.
pub fn create_charge_result(status: u16, body: String) -> (r: Result<ChargesRes, ApiError>)
    ensures
        status != STATUS_OK ==> rejected(r, status, body@),
        status == STATUS_OK ==> match r {
            Ok(v) => charges_res_is(body@, v),
            Err(_) => !charges_res_ok(body@) && schema_error(r, status, body@),
        },
        status == STATUS_OK && member_of(body@, "data"@) is None ==> schema_error(r, status, body@),
{
    let body = match expect_status(status, STATUS_OK, body) {
        Ok(b) => b,
        Err(e) => return Err(e),
    };
    match ChargesRes::from_json(body.as_str()) {
        Some(v) => Ok(v),
        None => Err(schema_mismatch("ChargesRes", status, body)),
    }
}

/// The call that lists the charges.
pub fn get_charges_call(client: &ZebedeeClient) -> (r: ApiRequest)
    ensures
        is_apikey_request(r, *client, Method::Get, "/v0/charges"@, None),
{
    apikey_request(client, Method::Get, "/v0/charges", None)
}

/// Reads the answer to `get_charges_call`.
pub fn get_charges_result(status: u16, body: String) -> (r: Result<AllChargesRes, ApiError>)
    ensures
        status != STATUS_OK ==> rejected(r, status, body@),
        status == STATUS_OK ==> match r {
            Ok(v) => all_charges_is(body@, v),
            Err(_) => !all_charges_ok(body@) && schema_error(r, status, body@),
        },
        status == STATUS_OK && member_of(body@, "data"@) is None ==> schema_error(r, status, body@),
{
    let body = match expect_status(status, STATUS_OK, body) {
        Ok(b) => b,
        Err(e) => return Err(e),
    };
    match AllChargesRes::from_json(body.as_str()) {
        Some(v) => Ok(v),
        None => Err(schema_mismatch("AllChargesRes", status, body)),
    }
}

/// The call that fetches one charge by id; the id goes into the URL as one
/// percent-encoded path segment.
pub fn get_charge_call(client: &ZebedeeClient, charge_id: &String) -> (r: ApiRequest)
    ensures
        is_apikey_request(
            r,
            *client,
            Method::Get,
            "/v0/charges/"@ + encoded_segment(charge_id@),
            None,
        ),
{
    let segment = encode_segment(charge_id.as_str());
    let path = String::from_str("/v0/charges/").concat(segment.as_str());
    apikey_request(client, Method::Get, path.as_str(), None)
}

/// Reads the answer to `get_charge_call`.
pub fn get_charge_result(status: u16, body: String) -> (r: Result<ChargesRes, ApiError>)
    ensures
        status != STATUS_OK ==> rejected(r, status, body@),
        status == STATUS_OK ==> match r {
            Ok(v) => charges_res_is(body@, v),
            Err(_) => !charges_res_ok(body@) && schema_error(r, status, body@),
        },
        status == STATUS_OK && member_of(body@, "data"@) is None ==> schema_error(r, status, body@),
{
    let body = match expect_status(status, STATUS_OK, body) {
        Ok(b) => b,
        Err(e) => return Err(e),
    };
    match ChargesRes::from_json(body.as_str()) {
        Some(v) => Ok(v),
        None => Err(schema_mismatch("ChargesRes", status, body)),
    }
}

} // verus!
