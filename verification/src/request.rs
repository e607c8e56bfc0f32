//! The shape of a stream request with its tariffs, gifts and debug record.

use vstd::prelude::*;

verus! {

/// A request about one stream.
#[derive(Debug, PartialEq)]
pub struct Request {
    /// What the request says of itself; `type` on the wire.
    pub kind: String,
    pub stream: Stream,
    pub gifts: Vec<Gift>,
    pub debug: DebugInfo,
}

/// The stream that a request is about.
#[derive(Debug, PartialEq)]
pub struct Stream {
    pub user_id: String,
    pub is_private: bool,
    pub settings: u64,
    pub shard_url: String,
    pub public_tariff: PublicTariff,
    pub private_tariff: PrivateTariff,
}

/// The price of watching a public stream.
#[derive(Debug, PartialEq)]
pub struct PublicTariff {
    pub id: u64,
    pub price: u64,
    pub duration: String,
    pub description: String,
}

/// The price of watching a private stream.
#[derive(Debug, PartialEq)]
pub struct PrivateTariff {
    pub client_price: u64,
    pub duration: String,
    pub description: String,
}

/// A gift that viewers can buy.
#[derive(Debug, PartialEq)]
pub struct Gift {
    pub id: u64,
    pub price: u64,
    pub description: String,
}

/// What was recorded of the call that carried a request.
#[derive(Debug, PartialEq)]
pub struct DebugInfo {
    pub headers: Headers,
    pub payload: Payload,
}

/// The headers of the call.
#[derive(Debug, PartialEq)]
pub struct Headers {
    pub accept: String,
    pub authorization: String,
}

/// What the caller's token says.
#[derive(Debug, PartialEq)]
pub struct Payload {
    pub active: bool,
    pub role: String,
    pub limit: u32,
}

} // verus!
