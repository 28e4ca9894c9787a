use mev_matchmaker::events::{PendingBundle, PendingTransaction};
use mev_matchmaker::interface::{
    IMatchmakerEvent, ISendBundleResponse, ISendBundleResult, ISimBundleResponse,
    ISimBundleResult, Log, TxData,
};
use mev_matchmaker::error::MatchmakerError;
use mev_matchmaker::networks::SupportedNetworks;

#[test]
fn lookup_of_goerli_chain_id() {
    let n = SupportedNetworks::get_network(5).unwrap();
    assert_eq!(n.name, "goerli");
    assert_eq!(n.chain_id, 5);
    assert_eq!(n.stream_url, "https://mev-share-goerli.flashbots.net");
    assert_eq!(n.api_url, "https://relay-goerli.flashbots.net");
}

#[test]
fn lookup_of_unknown_chain_id_fails() {
    let e = SupportedNetworks::get_network(999).unwrap_err();
    assert_eq!(e.chain_id, 999);
}

#[test]
fn mainnet_entry() {
    let n = SupportedNetworks::mainnet();
    assert_eq!(n.name, "mainnet");
    assert_eq!(n.chain_id, 1);
    assert_eq!(n.stream_url, "https://mev-share.flashbots.net");
    assert_eq!(n.api_url, "https://relay.flashbots.net");
}

#[test]
fn registry_membership() {
    assert!(SupportedNetworks::supports_chain_id(1));
    assert!(SupportedNetworks::supports_chain_id(5));
    assert!(!SupportedNetworks::supports_chain_id(2));
    assert!(!SupportedNetworks::supports_chain_id(999));
    let all = SupportedNetworks::supported_networks();
    assert_eq!(all.len(), 2);
    assert_eq!(all[0].chain_id, 1);
    assert_eq!(all[1].chain_id, 5);
}

#[test]
fn matchmaker_network_view() {
    let m = SupportedNetworks::mainnet().to_matchmaker_network();
    assert_eq!(m.chain_id, 1);
    assert_eq!(m.name, "mainnet");
    assert_eq!(m.stream_url, "https://mev-share.flashbots.net");
    assert_eq!(m.api_url, "https://relay.flashbots.net");
}

#[test]
fn send_bundle_result_keeps_hash() {
    let r = ISendBundleResult::new(ISendBundleResponse { bundle_hash: "0xbeef".to_string() });
    assert_eq!(r.bundle_hash, "0xbeef");
}

#[test]
fn sim_result_decodes_hex_fields() {
    let response = ISimBundleResponse {
        success: true,
        error: None,
        state_block: "0x64".to_string(),
        mev_gas_price: "0x1".to_string(),
        profit: "0xff".to_string(),
        refundable_value: "0x0".to_string(),
        gas_used: "0x5208".to_string(),
        logs: None,
    };
    let r = ISimBundleResult::new(response).unwrap();
    assert!(r.success);
    assert_eq!(r.error, None);
    assert_eq!(r.state_block, 100);
    assert_eq!(r.mev_gas_price, 1);
    assert_eq!(r.profit, 255);
    assert_eq!(r.refundable_value, 0);
    assert_eq!(r.gas_used, 21_000);
}

#[test]
fn sim_result_rejects_malformed_hex() {
    let response = ISimBundleResponse {
        success: false,
        error: Some("revert".to_string()),
        state_block: "0x64".to_string(),
        mev_gas_price: "1234".to_string(),
        profit: "0x0".to_string(),
        refundable_value: "0x0".to_string(),
        gas_used: "0x0".to_string(),
        logs: None,
    };
    match ISimBundleResult::new(response) {
        Err(MatchmakerError::MalformedHex { field }) => assert_eq!(field, "mev_gas_price"),
        _ => panic!("expected MalformedHex"),
    }
}

#[test]
fn sim_result_rejects_out_of_range_state_block() {
    let response = ISimBundleResponse {
        success: true,
        error: None,
        state_block: "0x1ffffffff".to_string(),
        mev_gas_price: "0x0".to_string(),
        profit: "0x0".to_string(),
        refundable_value: "0x0".to_string(),
        gas_used: "0x0".to_string(),
        logs: None,
    };
    match ISimBundleResult::new(response) {
        Err(MatchmakerError::MalformedHex { field }) => assert_eq!(field, "state_block"),
        _ => panic!("expected MalformedHex"),
    }
}

fn sample_event() -> IMatchmakerEvent {
    IMatchmakerEvent {
        hash: "0xhash".to_string(),
        logs: Some(vec![Log {
            address: "0xaddr".to_string(),
            topics: vec!["0xt0".to_string(), "0xt1".to_string()],
            data: "0xdata".to_string(),
        }]),
        txs: Some(vec![
            TxData {
                to: "0xto0".to_string(),
                function_selector: "0xsel0".to_string(),
                call_data: "0xcd0".to_string(),
            },
            TxData {
                to: "0xto1".to_string(),
                function_selector: "0xsel1".to_string(),
                call_data: "0xcd1".to_string(),
            },
        ]),
        mev_gas_price: Some("0x77".to_string()),
        gas_used: Some("0x88".to_string()),
    }
}

#[test]
fn pending_transaction_uses_first_fragment() {
    let event = sample_event();
    let p = PendingTransaction::new(&event);
    assert_eq!(p.hash, "0xhash");
    assert_eq!(p.to.as_deref(), Some("0xto0"));
    assert_eq!(p.function_selector.as_deref(), Some("0xsel0"));
    assert_eq!(p.call_data.as_deref(), Some("0xcd0"));
    assert_eq!(p.mev_gas_price.as_deref(), Some("0x77"));
    assert_eq!(p.gas_used.as_deref(), Some("0x88"));
    let logs = p.logs.unwrap();
    assert_eq!(logs.len(), 1);
    assert_eq!(logs[0].address, "0xaddr");
    assert_eq!(logs[0].topics, vec!["0xt0".to_string(), "0xt1".to_string()]);
    assert_eq!(logs[0].data, "0xdata");
}

#[test]
fn pending_transaction_without_fragments() {
    let mut event = sample_event();
    event.txs = None;
    let p = PendingTransaction::new(&event);
    assert_eq!(p.to, None);
    assert_eq!(p.function_selector, None);
    assert_eq!(p.call_data, None);
    let mut event = sample_event();
    event.txs = Some(vec![]);
    let p = PendingTransaction::new(&event);
    assert_eq!(p.to, None);
}

#[test]
fn pending_bundle_retains_all_fragments() {
    let event = sample_event();
    let p = PendingBundle::new(&event);
    assert_eq!(p.hash, "0xhash");
    let txs = p.txs.unwrap();
    assert_eq!(txs.len(), 2);
    assert_eq!(txs[1].to, "0xto1");
    assert_eq!(txs[1].function_selector, "0xsel1");
    assert_eq!(txs[1].call_data, "0xcd1");
    assert_eq!(p.mev_gas_price.as_deref(), Some("0x77"));
    assert_eq!(p.gas_used.as_deref(), Some("0x88"));
}
