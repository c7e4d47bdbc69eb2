//! The exchange and symbol listings: a response body is decoded as generic
//! JSON through serde_json behind trusted wrappers, an error is detected by
//! substring presence, and the listing is reformatted — punctuation
//! stripped, separators turned into line breaks — by verified code.

use vstd::prelude::*;
use vstd::string::StrSliceExecFns;
use vstd::string::StringExecFns;
use crate::api_interact::ApiError;
use crate::text::contains_seq;
use crate::text::contains_str;
use crate::text::replace_seq;
use crate::text::replace_str;

verus! {

broadcast use vstd::string::group_string_axioms;

#[verifier::external_type_specification]
#[verifier::external_body]
pub struct ExValue(serde_json::Value);

#[verifier::external_type_specification]
#[verifier::external_body]
pub struct ExError(serde_json::Error);

/// Whether serde_json accepts this text as a JSON document.
pub uninterp spec fn json_accepts(s: Seq<char>) -> bool;

/// The compact rendering of the JSON document this text holds.
pub uninterp spec fn json_canon(s: Seq<char>) -> Seq<char>;

/// The compact rendering of the document a decoded value holds.
pub uninterp spec fn value_text(v: serde_json::Value) -> Seq<char>;

/// Relies on serde_json::from_str: decodes a JSON document, and fails
/// exactly on text that is not one.
#[verifier::external_body]
fn json_parse(s: &str) -> (r: Result<serde_json::Value, serde_json::Error>)
    ensures
        r is Ok <==> json_accepts(s@),
        r is Ok ==> value_text(r->Ok_0) == json_canon(s@),
{
    serde_json::from_str::<serde_json::Value>(s)
}

/// Relies on serde_json::Value::to_string: renders the document the value
/// holds in its compact form.
#[verifier::external_body]
fn json_to_text(v: &serde_json::Value) -> (r: String)
    ensures
        r@ == value_text(*v),
{
    v.to_string()
}

/// The crypto exchange listing endpoint's URL.
pub fn exchange_list_url(api_key: &str) -> (r: String)
    ensures
        r@ == "https://finnhub.io/api/v1/crypto/exchange?token="@ + api_key@,
{
    let mut u = String::new();
    u.append("https://finnhub.io/api/v1/crypto/exchange?token=");
    u.append(api_key);
    u
}

/// The symbol listing endpoint's URL for one exchange.
pub fn symbol_list_url(exchange: &str, api_key: &str) -> (r: String)
    ensures
        r@ == "https://finnhub.io/api/v1/forex/symbol?exchange="@ + exchange@ + "&token="@
            + api_key@,
{
    let mut u = String::new();
    u.append("https://finnhub.io/api/v1/forex/symbol?exchange=");
    u.append(exchange);
    u.append("&token=");
    u.append(api_key);
    u
}

/// The exchange listing made from a compact JSON rendering: brackets and
/// quotes stripped, each comma turned into a fresh indented line.
pub open spec fn exchanges_body(canon: Seq<char>) -> Seq<char> {
    replace_seq(
        replace_seq(replace_seq(replace_seq(canon, "["@, ""@), "]"@, ""@), "\""@, ""@),
        ","@,
        "\n\t"@,
    )
}

/// The symbol listing made from a compact JSON rendering: brackets, quotes
/// and closing braces stripped, each opening brace and each description
/// label turned into a line break, each comma into a fresh indented line.
pub open spec fn symbols_body(canon: Seq<char>) -> Seq<char> {
    replace_seq(
        replace_seq(
            replace_seq(
                replace_seq(
                    replace_seq(
                        replace_seq(replace_seq(canon, "["@, ""@), "]"@, ""@),
                        "\""@,
                        ""@,
                    ),
                    "}"@,
                    ""@,
                ),
                "{"@,
                "\n"@,
            ),
            "description:"@,
            "\n"@,
        ),
        ","@,
        "\n\t"@,
    )
}

/// Formats the crypto exchange listing from a response body. Fails with
/// `BadPayload` when the body is not JSON, and with `Remote` when the
/// decoded text carries the word `error`.
pub fn format_exchanges(body: &str) -> (r: Result<String, ApiError>)
    ensures
        match r {
            Ok(out) => {
                &&& json_accepts(body@)
                &&& !contains_seq(json_canon(body@), "error"@)
                &&& out@ == "Available Exchanges (for use with -e/--exchange):\n\t"@
                    + exchanges_body(json_canon(body@))
            },
            Err(e) => {
                &&& e == (if json_accepts(body@) {
                    ApiError::Remote
                } else {
                    ApiError::BadPayload
                })
                &&& json_accepts(body@) ==> contains_seq(json_canon(body@), "error"@)
            },
        },
{
    let v = match json_parse(body) {
        Ok(v) => v,
        Err(_) => {
            return Err(ApiError::BadPayload);
        },
    };
    let text = json_to_text(&v);
    if contains_str(text.as_str(), "error") {
        return Err(ApiError::Remote);
    }
    let t = replace_str(text.as_str(), "[", "");
    let t = replace_str(t.as_str(), "]", "");
    let t = replace_str(t.as_str(), "\"", "");
    let t = replace_str(t.as_str(), ",", "\n\t");
    let mut out = String::new();
    out.append("Available Exchanges (for use with -e/--exchange):\n\t");
    out.append(t.as_str());
    Ok(out)
}

/// Formats the symbol listing of one exchange from a response body. Fails
/// with `BadPayload` when the body is not JSON, and with `Remote` when the
/// decoded text carries the word `error`.
pub fn format_symbols(exchange: &str, body: &str) -> (r: Result<String, ApiError>)
    ensures
        match r {
            Ok(out) => {
                &&& json_accepts(body@)
                &&& !contains_seq(json_canon(body@), "error"@)
                &&& out@ == "Available Symbols @ "@ + exchange@
                    + " (for use with -t/--ticker):\n\t"@ + symbols_body(json_canon(body@))
            },
            Err(e) => {
                &&& e == (if json_accepts(body@) {
                    ApiError::Remote
                } else {
                    ApiError::BadPayload
                })
                &&& json_accepts(body@) ==> contains_seq(json_canon(body@), "error"@)
            },
        },
{
    let v = match json_parse(body) {
        Ok(v) => v,
        Err(_) => {
            return Err(ApiError::BadPayload);
        },
    };
    let text = json_to_text(&v);
    if contains_str(text.as_str(), "error") {
        return Err(ApiError::Remote);
    }
    let t = replace_str(text.as_str(), "[", "");
    let t = replace_str(t.as_str(), "]", "");
    let t = replace_str(t.as_str(), "\"", "");
    let t = replace_str(t.as_str(), "}", "");
    let t = replace_str(t.as_str(), "{", "\n");
    let t = replace_str(t.as_str(), "description:", "\n");
    let t = replace_str(t.as_str(), ",", "\n\t");
    let mut out = String::new();
    out.append("Available Symbols @ ");
    out.append(exchange);
    out.append(" (for use with -t/--ticker):\n\t");
    out.append(t.as_str());
    Ok(out)
}

} // verus!
