//! The telemetry record: host, path, client address and user agent, encoded
//! as a JSON array in that order, with `null` for an absent field.

use vstd::prelude::*;

use crate::metadata::{get_remote_addr, get_user_agent, opt_bytes, remote_addr_of, user_agent_of};
use crate::response::opt_text;

verus! {

/// The JSON string literal, quoted and escaped, that encodes the text `s`.
pub uninterp spec fn json_string_of(s: Seq<char>) -> Seq<char>;

/// Relies on serde_json's compact rendering of `Value::String`: a JSON string
/// that depends on the text alone and opens with a double quote.
#[verifier::external_body]
fn json_string(s: &str) -> (r: String)
    ensures
        r@ == json_string_of(s@),
        r@.len() >= 2,
        r@[0] == '"',
{
    serde_json::Value::String(s.to_owned()).to_string()
}

/// The JSON encoding of an optional text: `null` when absent.
pub open spec fn json_field_of(s: Option<Seq<char>>) -> Seq<char> {
    match s {
        Some(t) => json_string_of(t),
        None => "null"@,
    }
}

/// The encoded record `[host,path,remote_addr,user_agent]`.
pub open spec fn record_of(
    host: Seq<char>,
    path: Seq<char>,
    remote_addr: Option<Seq<char>>,
    user_agent: Option<Seq<char>>,
) -> Seq<char> {
    "["@ + json_string_of(host) + ","@ + json_string_of(path) + ","@ + json_field_of(remote_addr)
        + ","@ + json_field_of(user_agent) + "]"@
}

/// The record for a request, from its host, its path and the raw values of
/// its `X-Forwarded-For` and `User-Agent` headers.
pub open spec fn request_record_of(
    host: Seq<char>,
    path: Seq<char>,
    forwarded_for: Option<Seq<u8>>,
    user_agent: Option<Seq<u8>>,
) -> Seq<char> {
    record_of(host, path, remote_addr_of(forwarded_for), user_agent_of(user_agent))
}

/// Encodes one optional field. An absent value is `null`, which no present
/// value, not even the empty text, encodes to.
pub fn encode_field(s: &Option<String>) -> (r: String)
    ensures
        r@ == json_field_of(opt_text(*s)),
        r@ == "null"@ <==> s is None,
{
    proof {
        reveal_strlit("null");
    }
    match s {
        Some(t) => {
            let r = json_string(t.as_str());
            assert(r@[0] != "null"@[0]);
            r
        },
        None => String::from_str("null"),
    }
}

/// Encodes a telemetry record as a compact JSON array of four entries.
pub fn encode_record(
    host: &str,
    path: &str,
    remote_addr: &Option<String>,
    user_agent: &Option<String>,
) -> (r: String)
    ensures
        r@ == record_of(host@, path@, opt_text(*remote_addr), opt_text(*user_agent)),
{
    let mut out = String::from_str("[");
    out.append(json_string(host).as_str());
    out.append(",");
    out.append(json_string(path).as_str());
    out.append(",");
    out.append(encode_field(remote_addr).as_str());
    out.append(",");
    out.append(encode_field(user_agent).as_str());
    out.append("]");
    out
}

/// Builds the telemetry record of a request from its host, path and raw
/// header values.
pub fn generate_request_json(
    host: &str,
    path: &str,
    forwarded_for: Option<Vec<u8>>,
    user_agent: Option<Vec<u8>>,
) -> (r: String)
    ensures
        r@ == request_record_of(host@, path@, opt_bytes(forwarded_for), opt_bytes(user_agent)),
{
    let raddr = get_remote_addr(forwarded_for);
    let ua = get_user_agent(user_agent);
    encode_record(host, path, &raddr, &ua)
}

} // verus!
