//! Client-side construction of signed JSON-RPC requests for an MEV-share
//! matchmaking service: option types, parameter normalization, hex codecs,
//! a canonical JSON serializer, and the request envelope.

pub mod error;
pub mod events;
pub mod hex;
pub mod interface;
pub mod json;
pub mod mungers;
pub mod networks;
pub mod request;
pub mod text;
