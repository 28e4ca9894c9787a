use mev_matchmaker::error::MatchmakerError;
use mev_matchmaker::interface::{
    BodyType, BundleParams, HintPreferences, Inclusion, ParentBlock, Privacy, Refund,
    RefundConfig, SimBundleOptions, TransactionOptions, Validity,
};
use mev_matchmaker::json::serialize_json;
use mev_matchmaker::mungers::{
    extract_specified_hints, munge_bundle_params, munge_hint_preferences,
    munge_private_tx_params, munge_sim_bundle_options,
};

fn no_hints() -> HintPreferences {
    HintPreferences { calldata: None, contract_address: None, function_selector: None, logs: None }
}

#[test]
fn hints_all_unset_yields_hash_only() {
    let r = extract_specified_hints(no_hints());
    assert_eq!(r, vec!["hash".to_string()]);
}

#[test]
fn hints_all_set_yields_all_five() {
    let h = HintPreferences {
        calldata: Some(true),
        contract_address: Some(true),
        function_selector: Some(true),
        logs: Some(true),
    };
    let r = extract_specified_hints(h);
    assert_eq!(
        r,
        vec![
            "calldata".to_string(),
            "contract_address".to_string(),
            "function_selector".to_string(),
            "hash".to_string(),
            "logs".to_string(),
        ]
    );
}

#[test]
fn hints_explicit_false_is_private() {
    let h = HintPreferences {
        calldata: Some(false),
        contract_address: Some(false),
        function_selector: Some(false),
        logs: Some(false),
    };
    assert_eq!(extract_specified_hints(h), vec!["hash".to_string()]);
}

#[test]
fn munged_hint_preferences_force_hash() {
    let h = HintPreferences {
        calldata: Some(true),
        contract_address: None,
        function_selector: Some(false),
        logs: None,
    };
    let r = munge_hint_preferences(h);
    assert_eq!(
        r,
        vec![
            ("calldata".to_string(), true),
            ("contract_address".to_string(), false),
            ("function_selector".to_string(), false),
            ("hash".to_string(), true),
            ("logs".to_string(), false),
        ]
    );
}

#[test]
fn private_tx_scenario() {
    let options = TransactionOptions {
        hints: Some(HintPreferences {
            calldata: Some(true),
            contract_address: None,
            function_selector: None,
            logs: None,
        }),
        max_block_number: Some(100),
        builders: None,
    };
    let params = munge_private_tx_params("0xdeadbeef".to_string(), Some(options));
    assert_eq!(params.len(), 1);
    assert_eq!(
        serialize_json(&params[0]),
        "{\"tx\":\"0xdeadbeef\",\"fast\":true,\"maxBlockNumber\":\"0x64\",\"hints\":[\"calldata\",\"hash\"]}"
    );
}

#[test]
fn private_tx_without_options_omits_keys() {
    let params = munge_private_tx_params("0xabc".to_string(), None);
    assert_eq!(params.len(), 1);
    assert_eq!(serialize_json(&params[0]), "{\"tx\":\"0xabc\",\"fast\":true}");
}

#[test]
fn private_tx_builders() {
    let options = TransactionOptions {
        hints: None,
        max_block_number: None,
        builders: Some(vec!["alpha".to_string(), "beta".to_string()]),
    };
    let params = munge_private_tx_params("0x01".to_string(), Some(options));
    assert_eq!(
        serialize_json(&params[0]),
        "{\"tx\":\"0x01\",\"fast\":true,\"builders\":[\"alpha\",\"beta\"]}"
    );
}

#[test]
fn bundle_scenario() {
    let params = BundleParams {
        version: None,
        inclusion: Inclusion { block: 18_000_000, max_block: None },
        body: vec![
            BodyType::Hash("0xaaa".to_string()),
            BodyType::Tx { tx: "0xbbb".to_string(), can_revert: true },
        ],
        validity: None,
        privacy: None,
        metadata: None,
    };
    let v = munge_bundle_params(params);
    assert_eq!(
        serialize_json(&v),
        "{\"version\":\"v0.1\",\"inclusion\":{\"block\":\"0x112a880\"},\"body\":[{\"hash\":\"0xaaa\"},{\"tx\":\"0xbbb\",\"canRevert\":true}],\"validity\":{\"refund\":[],\"refundConfig\":[]}}"
    );
}

#[test]
fn bundle_validity_defaults_to_empty_arrays() {
    let params = BundleParams {
        version: None,
        inclusion: Inclusion { block: 1, max_block: None },
        body: vec![],
        validity: None,
        privacy: None,
        metadata: None,
    };
    let text = serialize_json(&munge_bundle_params(params));
    assert!(text.contains("\"validity\":{\"refund\":[],\"refundConfig\":[]}"));
}

#[test]
fn bundle_with_validity_and_privacy() {
    let params = BundleParams {
        version: Some("beta-1".to_string()),
        inclusion: Inclusion { block: 16, max_block: Some(255) },
        body: vec![BodyType::Hash("0x1".to_string())],
        validity: Some(Validity {
            refund: Some(vec![Refund { body_idx: 0, percent: 90 }]),
            refund_config: Some(vec![RefundConfig { address: "0xfeed".to_string(), percent: 100 }]),
        }),
        privacy: Some(Privacy {
            hints: Some(HintPreferences {
                calldata: None,
                contract_address: None,
                function_selector: None,
                logs: Some(true),
            }),
            builders: None,
        }),
        metadata: None,
    };
    let text = serialize_json(&munge_bundle_params(params));
    assert_eq!(
        text,
        "{\"version\":\"beta-1\",\"inclusion\":{\"block\":\"0x10\",\"maxBlock\":\"0xff\"},\"body\":[{\"hash\":\"0x1\"}],\"validity\":{\"refund\":[{\"body_idx\":0,\"percent\":90}],\"refundConfig\":[{\"address\":\"0xfeed\",\"percent\":100}]},\"hints\":[\"hash\",\"logs\"]}"
    );
}

#[test]
fn bundle_nesting_preserves_depth() {
    let inner = BundleParams {
        version: None,
        inclusion: Inclusion { block: 1, max_block: None },
        body: vec![BodyType::Hash("0xaaa".to_string())],
        validity: None,
        privacy: None,
        metadata: None,
    };
    let outer = BundleParams {
        version: None,
        inclusion: Inclusion { block: 2, max_block: None },
        body: vec![BodyType::Bundle(inner)],
        validity: None,
        privacy: None,
        metadata: None,
    };
    assert_eq!(
        serialize_json(&munge_bundle_params(outer)),
        "{\"version\":\"v0.1\",\"inclusion\":{\"block\":\"0x2\"},\"body\":[{\"version\":\"v0.1\",\"inclusion\":{\"block\":\"0x1\"},\"body\":[{\"hash\":\"0xaaa\"}],\"validity\":{\"refund\":[],\"refundConfig\":[]}}],\"validity\":{\"refund\":[],\"refundConfig\":[]}}"
    );
}

fn sim_options(parent: Option<ParentBlock>) -> SimBundleOptions {
    SimBundleOptions {
        parent_block: parent,
        block_number: Some(100),
        coinbase: Some("0xfeed".to_string()),
        timestamp: Some(16),
        gas_limit: Some(255),
        base_fee: Some(4096),
        timeout: Some(30),
    }
}

#[test]
fn sim_options_missing_parent_block_fails() {
    let r = munge_sim_bundle_options(sim_options(None));
    match r {
        Err(MatchmakerError::MissingParentBlock) => {},
        _ => panic!("expected MissingParentBlock"),
    }
}

#[test]
fn sim_options_numeric_parent_block_is_hex_encoded() {
    let v = munge_sim_bundle_options(sim_options(Some(ParentBlock::Number(255)))).unwrap();
    assert_eq!(
        serialize_json(&v),
        "{\"parentBlock\":\"0xff\",\"blockNumber\":\"0x64\",\"timestamp\":\"0x10\",\"gasLimit\":\"0xff\",\"baseFee\":\"0x1000\",\"coinbase\":\"0xfeed\",\"timeout\":\"30\"}"
    );
}

#[test]
fn sim_options_hash_parent_block_passes_through() {
    let v = munge_sim_bundle_options(sim_options(Some(ParentBlock::Hash("0xabc".to_string()))))
        .unwrap();
    let text = serialize_json(&v);
    assert!(text.starts_with("{\"parentBlock\":\"0xabc\","));
}

#[test]
fn sim_options_missing_numeric_field_fails() {
    let mut opts = sim_options(Some(ParentBlock::Number(1)));
    opts.block_number = None;
    match munge_sim_bundle_options(opts) {
        Err(MatchmakerError::MissingRequiredField { field }) => assert_eq!(field, "blockNumber"),
        _ => panic!("expected MissingRequiredField"),
    }
    let mut opts = sim_options(Some(ParentBlock::Number(1)));
    opts.base_fee = None;
    match munge_sim_bundle_options(opts) {
        Err(MatchmakerError::MissingRequiredField { field }) => assert_eq!(field, "baseFee"),
        _ => panic!("expected MissingRequiredField"),
    }
}

#[test]
fn sim_options_defaults_for_coinbase_and_timeout() {
    let mut opts = sim_options(Some(ParentBlock::Number(1)));
    opts.coinbase = None;
    opts.timeout = None;
    let text = serialize_json(&munge_sim_bundle_options(opts).unwrap());
    assert!(text.ends_with("\"coinbase\":\"\",\"timeout\":\"\"}"));
}
