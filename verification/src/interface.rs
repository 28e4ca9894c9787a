//! The caller-facing option and result types: hint preferences, bundle
//! bodies, inclusion ranges, validity and refund rules, privacy rules,
//! simulation parameters, and event payloads.

use vstd::prelude::*;
use vstd::string::StringExecFns;

use crate::error::MatchmakerError;
use crate::hex::{hex_numeral_value, is_hex_numeral, parse_hex_u128, parse_hex_u32};

verus! {

/// The kind of record an event stream can carry.
#[derive(Debug, Clone, Copy, PartialEq, Eq, Structural)]
pub enum StreamEvent {
    Bundle,
    Transaction,
}

/// A raw signed transaction with its revert-allowance flag.
#[derive(Debug, Clone)]
pub struct Tx {
    pub tx: String,
    pub can_revert: bool,
}

/// The network a matchmaker instance talks to.
#[derive(Debug, Clone)]
pub struct MatchmakerNetwork {
    pub chain_id: i32,
    pub name: String,
    pub stream_url: String,
    pub api_url: String,
}

/// Which pieces of information about a private transaction or bundle are
/// revealed to builders. Each flag defaults to `false` (private) when
/// absent; the hash is always shared and is not settable here.
#[derive(Debug, Clone, Copy)]
pub struct HintPreferences {
    pub calldata: Option<bool>,
    pub contract_address: Option<bool>,
    pub function_selector: Option<bool>,
    pub logs: Option<bool>,
}

/// Options for submitting a single private transaction.
#[derive(Debug, Clone)]
pub struct TransactionOptions {
    pub hints: Option<HintPreferences>,
    pub max_block_number: Option<u64>,
    pub builders: Option<Vec<String>>,
}

/// The block range a bundle asks to be included in: a required target
/// block and an optional inclusive upper bound for the retry window.
#[derive(Debug, Clone)]
pub struct Inclusion {
    pub block: u64,
    pub max_block: Option<u64>,
}

/// One element of a bundle body: a reference to a known transaction by
/// hash, an inline signed transaction, or a whole nested bundle.
#[derive(Debug)]
pub enum BodyType {
    Hash(String),
    Tx { tx: String, can_revert: bool },
    Bundle(BundleParams),
}

/// A bundle to submit: its body elements in on-chain execution order, the
/// inclusion range, and optional validity, privacy and metadata settings.
#[derive(Debug)]
pub struct BundleParams {
    pub version: Option<String>,
    pub inclusion: Inclusion,
    pub body: Vec<BodyType>,
    pub validity: Option<Validity>,
    pub privacy: Option<Privacy>,
    pub metadata: Option<Metadata>,
}

/// A share of the bundle's profit attributed back to the body element at
/// `body_idx`.
#[derive(Debug, Clone, Copy)]
pub struct Refund {
    pub body_idx: u64,
    pub percent: u64,
}

/// Where a refunded share of profit is paid.
#[derive(Debug, Clone)]
pub struct RefundConfig {
    pub address: String,
    pub percent: u64,
}

/// Refund rules for a bundle.
#[derive(Debug, Clone)]
pub struct Validity {
    pub refund: Option<Vec<Refund>>,
    pub refund_config: Option<Vec<RefundConfig>>,
}

/// Privacy rules scoped to a whole bundle.
#[derive(Debug, Clone)]
pub struct Privacy {
    pub hints: Option<HintPreferences>,
    pub builders: Option<Vec<String>>,
}

/// Opaque origin identifier attached to a bundle.
#[derive(Debug, Clone)]
pub struct Metadata {
    pub origin_id: Option<String>,
}

/// The wire-level result of submitting a bundle.
#[derive(Debug, Clone)]
pub struct ISendBundleResponse {
    pub bundle_hash: String,
}

/// The caller-facing result of submitting a bundle.
#[derive(Debug, Clone)]
pub struct ISendBundleResult {
    pub bundle_hash: String,
}

impl ISendBundleResult {
    /// Projects the wire response into the caller-facing result.
    pub fn new(response: ISendBundleResponse) -> (r: Self)
        ensures
            r.bundle_hash == response.bundle_hash,
    {
        Self { bundle_hash: response.bundle_hash }
    }
}

/// The parent block a simulation runs on: either a block number or a
/// literal block-hash string; exactly one must be given.
#[derive(Debug, Clone)]
pub enum ParentBlock {
    Number(u64),
    Hash(String),
}

/// The context a bundle simulation runs in. The parent block and every
/// numeric field are required; `coinbase` and `timeout` default to empty
/// strings on the wire when unset.
#[derive(Debug, Clone)]
pub struct SimBundleOptions {
    pub parent_block: Option<ParentBlock>,
    pub block_number: Option<u64>,
    pub coinbase: Option<String>,
    pub timestamp: Option<u64>,
    pub gas_limit: Option<u64>,
    pub base_fee: Option<u128>,
    pub timeout: Option<u64>,
}

/// A log record emitted by a transaction or bundle, as plain values.
#[derive(Debug, Clone)]
pub struct Log {
    pub address: String,
    pub topics: Vec<String>,
    pub data: String,
}

/// Logs of a simulated bundle: per-transaction logs and, for nested
/// bundles, their own logs in turn.
#[derive(Debug)]
pub struct SimBundleLogs {
    pub tx_logs: Option<Vec<Log>>,
    pub bundle_logs: Option<Vec<SimBundleLogs>>,
}

/// The wire-level outcome of a bundle simulation: numeric fields are
/// `0x`-prefixed hexadecimal strings.
#[derive(Debug)]
pub struct ISimBundleResponse {
    pub success: bool,
    pub error: Option<String>,
    pub state_block: String,
    pub mev_gas_price: String,
    pub profit: String,
    pub refundable_value: String,
    pub gas_used: String,
    pub logs: Option<Vec<SimBundleLogs>>,
}

/// The decoded outcome of a bundle simulation, with native integers.
#[derive(Debug)]
pub struct ISimBundleResult {
    pub success: bool,
    pub error: Option<String>,
    pub state_block: u32,
    pub mev_gas_price: u128,
    pub profit: u128,
    pub refundable_value: u128,
    pub gas_used: u128,
    pub logs: Option<Vec<SimBundleLogs>>,
}

/// Whether `s` is a hexadecimal numeral whose value fits in a `u32`.
pub open spec fn hex_fits_u32(s: Seq<char>) -> bool {
    is_hex_numeral(s) && hex_numeral_value(s) <= u32::MAX
}

/// Whether `s` is a hexadecimal numeral whose value fits in a `u128`.
pub open spec fn hex_fits_u128(s: Seq<char>) -> bool {
    is_hex_numeral(s) && hex_numeral_value(s) <= u128::MAX
}

/// Whether every numeric field of a simulation response is a well-formed
/// hexadecimal numeral in range for its decoded type.
pub open spec fn sim_response_well_formed(r: ISimBundleResponse) -> bool {
    hex_fits_u32(r.state_block@) && hex_fits_u128(r.mev_gas_price@) && hex_fits_u128(r.profit@)
        && hex_fits_u128(r.refundable_value@) && hex_fits_u128(r.gas_used@)
}

/// The name of the first malformed numeric field of a response, reading
/// them in declaration order.
pub open spec fn sim_first_malformed(r: ISimBundleResponse) -> Seq<char> {
    if !hex_fits_u32(r.state_block@) {
        "state_block"@
    } else if !hex_fits_u128(r.mev_gas_price@) {
        "mev_gas_price"@
    } else if !hex_fits_u128(r.profit@) {
        "profit"@
    } else if !hex_fits_u128(r.refundable_value@) {
        "refundable_value"@
    } else {
        "gas_used"@
    }
}

impl ISimBundleResult {
    /// Decodes the hexadecimal numeric fields of a simulation response into
    /// native unsigned integers. Fails with `MalformedHex`, naming the first
    /// offending field, exactly when some field is not a well-formed
    /// `0x`-prefixed numeral in range; the same policy applies to all five
    /// fields uniformly.
    pub fn new(response: ISimBundleResponse) -> (r: Result<Self, MatchmakerError>)
        ensures
            r is Ok <==> sim_response_well_formed(response),
            r matches Ok(d) ==> {
                &&& d.success == response.success
                &&& d.error == response.error
                &&& d.state_block as nat == hex_numeral_value(response.state_block@)
                &&& d.mev_gas_price as nat == hex_numeral_value(response.mev_gas_price@)
                &&& d.profit as nat == hex_numeral_value(response.profit@)
                &&& d.refundable_value as nat == hex_numeral_value(response.refundable_value@)
                &&& d.gas_used as nat == hex_numeral_value(response.gas_used@)
                &&& d.logs == response.logs
            },
            r matches Err(e) ==> e matches MatchmakerError::MalformedHex { field } && field@
                == sim_first_malformed(response),
    {
        let state_block = match parse_hex_u32(response.state_block.as_str()) {
            Some(v) => v,
            None => {
                return Err(
                    MatchmakerError::MalformedHex { field: String::from_str("state_block") },
                );
            },
        };
        let mev_gas_price = match parse_hex_u128(response.mev_gas_price.as_str()) {
            Some(v) => v,
            None => {
                return Err(
                    MatchmakerError::MalformedHex { field: String::from_str("mev_gas_price") },
                );
            },
        };
        let profit = match parse_hex_u128(response.profit.as_str()) {
            Some(v) => v,
            None => {
                return Err(MatchmakerError::MalformedHex { field: String::from_str("profit") });
            },
        };
        let refundable_value = match parse_hex_u128(response.refundable_value.as_str()) {
            Some(v) => v,
            None => {
                return Err(
                    MatchmakerError::MalformedHex { field: String::from_str("refundable_value") },
                );
            },
        };
        let gas_used = match parse_hex_u128(response.gas_used.as_str()) {
            Some(v) => v,
            None => {
                return Err(MatchmakerError::MalformedHex { field: String::from_str("gas_used") });
            },
        };
        Ok(
            Self {
                success: response.success,
                error: response.error,
                state_block,
                mev_gas_price,
                profit,
                refundable_value,
                gas_used,
                logs: response.logs,
            },
        )
    }
}

/// A revealed fragment of a transaction inside a matchmaker event.
#[derive(Debug, Clone)]
pub struct TxData {
    pub to: String,
    pub function_selector: String,
    pub call_data: String,
}

/// A raw inbound stream record: subject hash, optional emitted logs,
/// optional revealed transaction fragments, and optional MEV gas price and
/// gas-used figures, still as hexadecimal strings from the wire.
#[derive(Debug, Clone)]
pub struct IMatchmakerEvent {
    pub hash: String,
    pub logs: Option<Vec<Log>>,
    pub txs: Option<Vec<TxData>>,
    pub mev_gas_price: Option<String>,
    pub gas_used: Option<String>,
}

/// A decoded single-transaction view of an event.
#[derive(Debug, Clone)]
pub struct IPendingTransaction {
    pub hash: String,
    pub logs: Option<Vec<Log>>,
    pub to: Option<String>,
    pub function_selector: Option<String>,
    pub call_data: Option<String>,
    pub mev_gas_price: Option<u128>,
    pub gas_used: Option<u128>,
}

/// A decoded whole-bundle view of an event.
#[derive(Debug, Clone)]
pub struct IPendingBundle {
    pub hash: String,
    pub logs: Option<Vec<Log>>,
    pub txs: Option<Vec<TxData>>,
    pub mev_gas_price: Option<u128>,
    pub gas_used: Option<u128>,
}

} // verus!
