use mev_matchmaker::interface::{BodyType, BundleParams, Inclusion};
use mev_matchmaker::json::JsonVal;
use mev_matchmaker::mungers::{munge_bundle_params, munge_private_tx_params};
use mev_matchmaker::request::{build_rpc_body, get_rpc_request, signature_header_value};

#[test]
fn rpc_body_is_canonical() {
    let params = JsonVal::Arr(munge_private_tx_params("0xdeadbeef".to_string(), None));
    let body = build_rpc_body(params, "eth_sendPrivateTransaction", 69);
    assert_eq!(
        body,
        "{\"id\":69,\"jsonrpc\":\"2.0\",\"method\":\"eth_sendPrivateTransaction\",\"params\":[{\"tx\":\"0xdeadbeef\",\"fast\":true}]}"
    );
}

#[test]
fn rpc_body_is_valid_json_rpc() {
    let bundle = BundleParams {
        version: None,
        inclusion: Inclusion { block: 100, max_block: None },
        body: vec![BodyType::Hash("0xaaa".to_string())],
        validity: None,
        privacy: None,
        metadata: None,
    };
    let params = JsonVal::Arr(vec![munge_bundle_params(bundle)]);
    let body = build_rpc_body(params, "mev_sendBundle", 1);
    let parsed: serde_json::Value = serde_json::from_str(&body).expect("body parses");
    assert_eq!(parsed["jsonrpc"], serde_json::Value::String("2.0".to_string()));
    assert_eq!(parsed["method"], serde_json::Value::String("mev_sendBundle".to_string()));
    assert_eq!(parsed["id"], serde_json::Value::from(1u64));
    assert_eq!(
        parsed["params"][0]["inclusion"]["block"],
        serde_json::Value::String("0x64".to_string())
    );
    assert_eq!(parsed["params"][0]["validity"]["refund"], serde_json::Value::Array(vec![]));
}

#[test]
fn signature_header_format() {
    assert_eq!(signature_header_value("0xsigner", "0xsig"), "0xsigner:0xsig");
}

#[test]
fn request_assembles_headers_and_body() {
    let params = JsonVal::Arr(munge_private_tx_params("0x01".to_string(), None));
    let expected_body = build_rpc_body(
        JsonVal::Arr(munge_private_tx_params("0x01".to_string(), None)),
        "eth_sendPrivateTransaction",
        69,
    );
    let r = get_rpc_request(params, "eth_sendPrivateTransaction", 69, "0xabcd", "0x1234");
    assert_eq!(r.body, expected_body);
    assert_eq!(r.signature, "0xabcd:0x1234");
    assert_eq!(r.headers.len(), 2);
    assert_eq!(r.headers[0], ("Content-Type".to_string(), "application/json".to_string()));
    assert_eq!(
        r.headers[1],
        ("X-Authentication-Signature".to_string(), "0xabcd:0x1234".to_string())
    );
}
