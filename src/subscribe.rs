//! Subscription requests sent to the upstream market-data socket.
use vstd::prelude::*;

verus! {

/// Order-book depth requested for every instrument.
pub const ORDER_BOOK_DEPTH: u32 = 10;

/// Request to subscribe to one-minute candles of one instrument.
pub struct SubscribeCandleReq {
    pub event: String,
    pub figi: String,
    pub interval: String,
}

impl SubscribeCandleReq {
    /// Builds the candle subscription for `figi`.
    pub fn prepare(figi: String) -> (r: SubscribeCandleReq)
        ensures
            r.event@ == "candle:subscribe"@,
            r.figi@ == figi@,
            r.interval@ == "1min"@,
    {
        SubscribeCandleReq {
            event: "candle:subscribe".to_owned(),
            figi,
            interval: "1min".to_owned(),
        }
    }
}

/// Request to subscribe to the order book of one instrument.
pub struct SubscribeOrderBookReq {
    pub event: String,
    pub figi: String,
    pub depth: u32,
}

impl SubscribeOrderBookReq {
    /// Builds the order-book subscription for `figi` at the fixed depth.
    pub fn prepare(figi: String) -> (r: SubscribeOrderBookReq)
        ensures
            r.event@ == "orderbook:subscribe"@,
            r.figi@ == figi@,
            r.depth == ORDER_BOOK_DEPTH,
    {
        SubscribeOrderBookReq { event: "orderbook:subscribe".to_owned(), figi, depth: ORDER_BOOK_DEPTH }
    }
}

} // verus!
