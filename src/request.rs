//! The JSON-RPC request envelopes, written as compact JSON text with the keys
//! of each object in sorted order.
use vstd::prelude::*;
use vstd::string::*;
use crate::decimal::{decimal_text, u64_text};

verus! {

/// Which block a query reads: one at a given height, or the latest final one.
#[derive(Debug, Clone, Copy, PartialEq, Eq)]
pub enum BlockRef {
    Height(u64),
    Final,
}

/// The JSON string literal that `serde_json` writes for `s`, quotes included.
pub uninterp spec fn json_quoted(s: Seq<char>) -> Seq<char>;

/// The standard, padded base64 text of the UTF-8 bytes of `s`.
pub uninterp spec fn base64_of_text(s: Seq<char>) -> Seq<char>;

/// Relies on `serde_json::to_string` for `&str`: it writes the string as one
/// escaped JSON string literal; writing a `str` cannot fail.
#[verifier::external_body]
fn quote(s: &str) -> (r: String)
    ensures
        r@ == json_quoted(s@),
{
    serde_json::to_string(s).unwrap_or_default()
}

/// Relies on `base64::encode`: the standard alphabet, padded.
#[verifier::external_body]
fn base64_encode(s: &str) -> (r: String)
    ensures
        r@ == base64_of_text(s@),
{
    base64::encode(s)
}

/// The `"key":value` pair that selects a block.
pub open spec fn selector_text(block: BlockRef) -> Seq<char> {
    match block {
        BlockRef::Height(h) => "\"block_id\":"@ + decimal_text(h as nat),
        BlockRef::Final => "\"finality\":\"final\""@,
    }
}

/// The whole request: a JSON-RPC 2.0 envelope with the fixed id `dontcare`.
pub open spec fn envelope_text(method: Seq<char>, params: Seq<char>) -> Seq<char> {
    "{\"id\":\"dontcare\",\"jsonrpc\":\"2.0\",\"method\":\""@ + method + "\",\"params\":"@ + params
        + "}"@
}

/// The parameters of a `call_function` query.
pub open spec fn call_function_params(
    account_id: Seq<char>,
    args_base64: Seq<char>,
    block: BlockRef,
    method_name: Seq<char>,
) -> Seq<char> {
    "{\"account_id\":"@ + json_quoted(account_id) + ",\"args_base64\":\""@ + args_base64 + "\","@
        + selector_text(block) + ",\"method_name\":\""@ + method_name
        + "\",\"request_type\":\"call_function\"}"@
}

/// The parameters of a `view_account` query.
pub open spec fn view_account_params(account_id: Seq<char>, block: BlockRef) -> Seq<char> {
    "{\"account_id\":"@ + json_quoted(account_id) + ","@ + selector_text(block)
        + ",\"request_type\":\"view_account\"}"@
}

/// The parameters of a `block` request: the selector alone.
pub open spec fn block_params(block: BlockRef) -> Seq<char> {
    "{"@ + selector_text(block) + "}"@
}

/// The arguments handed to a contract's `get_account`: `{"account_id":...}`.
pub open spec fn account_args(account_id: Seq<char>) -> Seq<char> {
    "{\"account_id\":"@ + json_quoted(account_id) + "}"@
}

fn selector(block: BlockRef) -> (r: String)
    ensures
        r@ == selector_text(block),
{
    match block {
        BlockRef::Height(h) => {
            let mut s = String::from_str("\"block_id\":");
            let digits = u64_text(h);
            s.append(digits.as_str());
            s
        },
        BlockRef::Final => String::from_str("\"finality\":\"final\""),
    }
}

/// Writes the envelope around `params`.
pub fn envelope(method: &str, params: &str) -> (r: String)
    ensures
        r@ == envelope_text(method@, params@),
{
    let mut s = String::from_str("{\"id\":\"dontcare\",\"jsonrpc\":\"2.0\",\"method\":\"");
    s.append(method);
    s.append("\",\"params\":");
    s.append(params);
    s.append("}");
    s
}

/// Writes the parameters of a `call_function` query.
pub fn call_function(account_id: &str, args_base64: &str, block: BlockRef, method_name: &str) -> (r:
    String)
    ensures
        r@ == call_function_params(account_id@, args_base64@, block, method_name@),
{
    let mut s = String::from_str("{\"account_id\":");
    let q = quote(account_id);
    s.append(q.as_str());
    s.append(",\"args_base64\":\"");
    s.append(args_base64);
    s.append("\",");
    let sel = selector(block);
    s.append(sel.as_str());
    s.append(",\"method_name\":\"");
    s.append(method_name);
    s.append("\",\"request_type\":\"call_function\"}");
    s
}

/// Writes the parameters of a `view_account` query.
pub fn view_account(account_id: &str, block: BlockRef) -> (r: String)
    ensures
        r@ == view_account_params(account_id@, block),
{
    let mut s = String::from_str("{\"account_id\":");
    let q = quote(account_id);
    s.append(q.as_str());
    s.append(",");
    let sel = selector(block);
    s.append(sel.as_str());
    s.append(",\"request_type\":\"view_account\"}");
    s
}

/// Writes the parameters of a `block` request.
pub fn block_request_params(block: BlockRef) -> (r: String)
    ensures
        r@ == block_params(block),
{
    let mut s = String::from_str("{");
    let sel = selector(block);
    s.append(sel.as_str());
    s.append("}");
    s
}

/// Writes `{"account_id":...}` and encodes it in base64.
pub fn account_args_base64(account_id: &str) -> (r: String)
    ensures
        r@ == base64_of_text(account_args(account_id@)),
{
    let mut s = String::from_str("{\"account_id\":");
    let q = quote(account_id);
    s.append(q.as_str());
    s.append("}");
    base64_encode(s.as_str())
}

} // verus!
