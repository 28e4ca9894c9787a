//! The signed-request builder: wraps normalized parameters in a JSON-RPC
//! envelope, serializes it canonically, and assembles the transport-ready
//! headers and body. The serialized body is the exact signing input; the
//! signing capability itself is an external collaborator that takes the
//! body string and hands back its address and a signature, so no key
//! material ever enters this crate.

use vstd::prelude::*;
use vstd::string::StringExecFns;

use crate::json::{
    entry_models, lemma_entry_models, ser_json, serialize_json, JsonModel, JsonVal,
};

verus! {

/// A transport-ready request: its headers, the authentication header value
/// on its own, and the exact serialized body.
#[derive(Debug)]
pub struct RpcRequest {
    pub headers: Vec<(String, String)>,
    pub signature: String,
    pub body: String,
}

/// The JSON-RPC envelope of a call, its keys in lexical order so that the
/// serialized body is canonical and a signature over it verifies against a
/// re-serialization.
pub open spec fn spec_rpc_envelope(params: JsonModel, method: Seq<char>, id: nat) -> JsonModel {
    JsonModel::Obj(
        seq![
            ("id"@, JsonModel::Num(id)),
            ("jsonrpc"@, JsonModel::Str("2.0"@)),
            ("method"@, JsonModel::Str(method)),
            ("params"@, params),
        ],
    )
}

/// The canonical serialized body of a call: the signing input.
pub open spec fn spec_rpc_body(params: JsonModel, method: Seq<char>, id: nat) -> Seq<char> {
    ser_json(spec_rpc_envelope(params, method, id))
}

/// The authentication header value: the signer's address, a colon, the
/// signature.
pub open spec fn spec_signature_header(address: Seq<char>, signature: Seq<char>) -> Seq<char> {
    address + seq![':'] + signature
}

/// Serializes the JSON-RPC envelope for `method` around already-normalized
/// params. The result is byte-exact and deterministic: it is the string
/// the signing capability must sign.
pub fn build_rpc_body(params: JsonVal, method: &str, id: u64) -> (r: String)
    ensures
        r@ == spec_rpc_body(params@, method@, id as nat),
{
    let ghost params_model = params@;
    let mut entries: Vec<(String, JsonVal)> = Vec::new();
    entries.push((String::from_str("id"), JsonVal::Num(id)));
    entries.push((String::from_str("jsonrpc"), JsonVal::Str(String::from_str("2.0"))));
    entries.push((String::from_str("method"), JsonVal::Str(method.to_owned())));
    entries.push((String::from_str("params"), params));
    proof {
        lemma_entry_models(entries@);
        assert(entry_models(entries@) =~~= seq![
            ("id"@, JsonModel::Num(id as nat)),
            ("jsonrpc"@, JsonModel::Str("2.0"@)),
            ("method"@, JsonModel::Str(method@)),
            ("params"@, params_model),
        ]);
    }
    serialize_json(&JsonVal::Obj(entries))
}

/// Formats the authentication header value `"<address>:<signature>"`.
pub fn signature_header_value(address: &str, signature: &str) -> (r: String)
    ensures
        r@ == spec_signature_header(address@, signature@),
{
    let mut s = address.to_owned();
    s.append(":");
    s.append(signature);
    proof {
        reveal_strlit(":");
        assert(s@ =~= spec_signature_header(address@, signature@));
    }
    s
}

/// Assembles the transport-ready request around an already-serialized
/// body and the signature the signing capability produced over exactly
/// that body: the body unchanged, and the two headers.
pub fn assemble_rpc_request(body: String, signer_address: &str, signature: &str) -> (r: RpcRequest)
    ensures
        r.body@ == body@,
        r.signature@ == spec_signature_header(signer_address@, signature@),
        r.headers@.len() == 2,
        r.headers@[0].0@ == "Content-Type"@,
        r.headers@[0].1@ == "application/json"@,
        r.headers@[1].0@ == "X-Authentication-Signature"@,
        r.headers@[1].1@ == spec_signature_header(signer_address@, signature@),
{
    let sig_value = signature_header_value(signer_address, signature);
    let mut headers: Vec<(String, String)> = Vec::new();
    headers.push((String::from_str("Content-Type"), String::from_str("application/json")));
    headers.push((String::from_str("X-Authentication-Signature"), sig_value.clone()));
    RpcRequest { headers, signature: sig_value, body }
}

/// Builds the whole request in one step, for a caller that already holds
/// the signature over the canonical body of `method` and `params` (as
/// `build_rpc_body` returns it) together with the signer's address.
pub fn get_rpc_request(
    params: JsonVal,
    method: &str,
    id: u64,
    signer_address: &str,
    signature: &str,
) -> (r: RpcRequest)
    ensures
        r.body@ == spec_rpc_body(params@, method@, id as nat),
        r.signature@ == spec_signature_header(signer_address@, signature@),
        r.headers@.len() == 2,
        r.headers@[0].0@ == "Content-Type"@,
        r.headers@[0].1@ == "application/json"@,
        r.headers@[1].0@ == "X-Authentication-Signature"@,
        r.headers@[1].1@ == spec_signature_header(signer_address@, signature@),
{
    let body = build_rpc_body(params, method, id);
    assemble_rpc_request(body, signer_address, signature)
}

} // verus!
