//! Typed errors. Every failure of this client is returned as a value; no
//! operation aborts the process.

use vstd::prelude::*;

verus! {

/// The error kinds the client reports.
///
/// Remote and transport failures (`JsonRpcError`, `NetworkFailure`) are
/// surfaced verbatim and never retried here. `UnimplementedNetwork` carries
/// the chain id that the registry does not know. `MissingParentBlock` and
/// `MissingRequiredField` are raised by parameter construction before any
/// network interaction. `MalformedHex` names a response field that was not
/// a well-formed `0x`-prefixed hexadecimal numeral in range.
#[derive(Debug, Clone)]
pub enum MatchmakerError {
    JsonRpcError { code: i32, message: String },
    NetworkFailure { status: u16, data: String, stack: String },
    UnimplementedNetwork { chain_id: i32 },
    UnimplementedStreamEvent { event_type: String },
    MissingParentBlock,
    MissingRequiredField { field: String },
    MalformedHex { field: String },
    Other(String),
}

} // verus!
