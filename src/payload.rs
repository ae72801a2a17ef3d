//! Writing outbound JSON bodies.
use crate::json::{lookup_from, pair_views, quote, quoted, str_in};
use crate::segment::{hex_digit, hex_str};
use vstd::prelude::*;
use vstd::string::*;

verus! {

pub open spec fn digit(d: nat) -> char {
    seq!['0', '1', '2', '3', '4', '5', '6', '7', '8', '9'][d as int]
}

/// The decimal digits of `n`, without leading zeros.
pub open spec fn decimal(n: nat) -> Seq<char>
    decreases n,
{
    if n < 10 {
        seq![digit(n)]
    } else {
        decimal(n / 10).push(digit(n % 10))
    }
}

fn push_decimal(out: &mut String, n: u32)
    ensures
        final(out)@ == old(out)@ + decimal(n as nat),
    decreases n,
{
    if n >= 10 {
        push_decimal(out, n / 10);
    }
    let ghost mid = out@;
    out.append(hex_str(n % 10));
    assert(hex_digit((n % 10) as nat) == digit((n % 10) as nat));
    assert(out@ =~= mid + seq![digit((n % 10) as nat)]);
    if n >= 10 {
        assert(decimal(n as nat) == decimal((n / 10) as nat).push(digit((n % 10) as nat)));
        assert(out@ =~= old(out)@ + decimal(n as nat));
    } else {
        assert(out@ =~= old(out)@ + decimal(n as nat));
    }
}

/// `n` in decimal digits.
pub fn decimal_text(n: u32) -> (r: String)
    ensures
        r@ == decimal(n as nat),
{
    let mut out = String::new();
    push_decimal(&mut out, n);
    assert(out@ =~= decimal(n as nat));
    out
}

/// One member of an object: quoted key, colon, value text.
pub open spec fn member_text(m: (Seq<char>, Seq<char>)) -> Seq<char> {
    quoted(m.0) + ":"@ + m.1
}

pub open spec fn members_text(ms: Seq<(Seq<char>, Seq<char>)>) -> Seq<char>
    decreases ms.len(),
{
    if ms.len() == 0 {
        Seq::empty()
    } else if ms.len() == 1 {
        member_text(ms[0])
    } else {
        members_text(ms.drop_last()) + ","@ + member_text(ms.last())
    }
}

/// A JSON object with the members `ms`, in that order.
pub open spec fn object_text(ms: Seq<(Seq<char>, Seq<char>)>) -> Seq<char> {
    "{"@ + members_text(ms) + "}"@
}

/// Writes a JSON object from its members (key, value already as JSON text).
pub fn write_object(ms: &Vec<(String, String)>) -> (r: String)
    ensures
        r@ == object_text(pair_views(ms@)),
{
    let ghost v = pair_views(ms@);
    let mut out = String::new();
    let mut i: usize = 0;
    while i < ms.len()
        invariant
            0 <= i <= ms@.len(),
            v == pair_views(ms@),
            out@ == members_text(v.take(i as int)),
        decreases ms@.len() - i,
    {
        if i > 0 {
            out.append(",");
        }
        let k = quote(ms[i].0.as_str());
        out.append(k.as_str());
        out.append(":");
        out.append(ms[i].1.as_str());
        proof {
            let t = v.take(i + 1);
            assert(t.drop_last() =~= v.take(i as int));
            assert(t.last() == v[i as int]);
            if i == 0 {
                assert(v.take(0) =~= Seq::<(Seq<char>, Seq<char>)>::empty());
            }
        }
        i = i + 1;
    }
    assert(v.take(ms@.len() as int) =~= v);
    let mut r = String::from_str("{");
    r.append(out.as_str());
    r.append("}");
    r
}

/// The members of a charge or withdrawal request body.
pub open spec fn payload_members(
    expires_in: u32,
    amount: Seq<char>,
    description: Seq<char>,
    internal_id: Seq<char>,
    callback_url: Seq<char>,
) -> Seq<(Seq<char>, Seq<char>)> {
    seq![
        ("expiresIn"@, decimal(expires_in as nat)),
        ("amount"@, quoted(amount)),
        ("description"@, quoted(description)),
        ("internalId"@, quoted(internal_id)),
        ("callbackUrl"@, quoted(callback_url)),
    ]
}

/// Each text member of a charge or withdrawal request body reads back as the
/// field it was written from.
pub open spec fn payload_reads_back(
    expires_in: u32,
    amount: Seq<char>,
    description: Seq<char>,
    internal_id: Seq<char>,
    callback_url: Seq<char>,
) -> bool {
    let ms = payload_members(expires_in, amount, description, internal_id, callback_url);
    &&& str_in(ms, "amount"@) == Some(amount)
    &&& str_in(ms, "description"@) == Some(description)
    &&& str_in(ms, "internalId"@) == Some(internal_id)
    &&& str_in(ms, "callbackUrl"@) == Some(callback_url)
}

/// The JSON body of a charge or withdrawal request.
pub fn payload_body(
    expires_in: u32,
    amount: &String,
    description: &String,
    internal_id: &String,
    callback_url: &String,
) -> (r: String)
    ensures
        r@ == object_text(
            payload_members(expires_in, amount@, description@, internal_id@, callback_url@),
        ),
        payload_reads_back(expires_in, amount@, description@, internal_id@, callback_url@),
{
    let mut ms: Vec<(String, String)> = Vec::new();
    ms.push((String::from_str("expiresIn"), decimal_text(expires_in)));
    ms.push((String::from_str("amount"), quote(amount.as_str())));
    ms.push((String::from_str("description"), quote(description.as_str())));
    ms.push((String::from_str("internalId"), quote(internal_id.as_str())));
    ms.push((String::from_str("callbackUrl"), quote(callback_url.as_str())));
    assert(pair_views(ms@) =~= payload_members(
        expires_in,
        amount@,
        description@,
        internal_id@,
        callback_url@,
    ));
    proof {
        reveal_strlit("expiresIn");
        reveal_strlit("amount");
        reveal_strlit("description");
        reveal_strlit("internalId");
        reveal_strlit("callbackUrl");
        reveal_with_fuel(lookup_from, 6);
        let ms = payload_members(expires_in, amount@, description@, internal_id@, callback_url@);
        assert(ms[0].0[0] != ms[1].0[0]);
        assert(ms[0].0[0] != ms[2].0[0]);
        assert(ms[0].0[0] != ms[3].0[0]);
        assert(ms[0].0[0] != ms[4].0[0]);
        assert(ms[1].0[0] != ms[2].0[0]);
        assert(ms[1].0[0] != ms[3].0[0]);
        assert(ms[1].0[0] != ms[4].0[0]);
        assert(ms[2].0[0] != ms[3].0[0]);
        assert(ms[2].0[0] != ms[4].0[0]);
        assert(ms[3].0[0] != ms[4].0[0]);
    }
    write_object(&ms)
}

} // verus!
