//! Decisions of the live ingestion reader: what to do with each frame read
//! from the upstream market-data socket.
use vstd::prelude::*;

use crate::event::{Level, OrderBook, Trade};

verus! {

/// A one-minute candle as the upstream sends it; prices are IEEE-754
/// single-precision bits.
#[derive(Clone, Debug)]
pub struct CandlePayload {
    pub o: u32,
    pub c: u32,
    pub h: u32,
    pub l: u32,
    pub v: u64,
    pub interval: String,
    pub figi: String,
    /// Start of the candle's minute, in milliseconds since the epoch.
    pub time: i64,
}

/// An order-book snapshot as the upstream sends it.
#[derive(Clone, Debug)]
pub struct OrderBookPayload {
    pub figi: String,
    pub depth: u32,
    pub bids: Vec<Level>,
    pub asks: Vec<Level>,
}

/// A decoded upstream message, with the time the upstream sent it.
#[derive(Clone, Debug)]
pub enum StreamMsg {
    Candle { payload: CandlePayload, time: i64 },
    OrderBook { payload: OrderBookPayload, time: i64 },
}

/// One item read from the socket.
#[derive(Clone, Debug)]
pub enum Frame {
    /// Reading failed.
    Failed,
    /// The upstream closed the stream.
    Closed,
    /// A text message: decoded, or `None` when empty or of unknown format.
    Text(Option<StreamMsg>),
    /// Any other message (ping, pong, binary).
    Other,
}

/// What the reader does with a frame.
#[derive(Clone, Debug)]
pub enum ItemOutcome {
    /// Read on.
    Continue,
    /// End this connection with a transient error, so that it is re-established.
    Reconnect,
    /// Publish this trade on the trade bus, then read on.
    PublishTrade(Trade),
    /// Publish this order book on the order-book bus, then read on.
    PublishOrderBook(OrderBook),
}

/// Decides what to do with `frame`, read at `now`, given how many subscribers
/// each bus has. A failed or closed stream is a transient error; a candle
/// becomes a trade at its close price, an order-book message an order book,
/// both stamped as received at `now`, and each is published only when its bus
/// has a subscriber.
pub fn process_new_item(
    frame: Frame,
    now: i64,
    trade_receivers: usize,
    order_book_receivers: usize,
) -> (r: ItemOutcome)
    ensures
        match frame {
            Frame::Failed | Frame::Closed => r is Reconnect,
            Frame::Other | Frame::Text(None) => r is Continue,
            Frame::Text(Some(StreamMsg::Candle { payload, time })) => if trade_receivers == 0 {
                r is Continue
            } else {
                r == ItemOutcome::PublishTrade(
                    Trade {
                        price_bits: payload.c,
                        volume: payload.v,
                        figi: payload.figi,
                        minute_rounded: payload.time,
                        sent: time,
                        received: now,
                    },
                )
            },
            Frame::Text(Some(StreamMsg::OrderBook { payload, time })) => if order_book_receivers
                == 0 {
                r is Continue
            } else {
                r == ItemOutcome::PublishOrderBook(
                    OrderBook {
                        figi: payload.figi,
                        depth: payload.depth,
                        bids: payload.bids,
                        asks: payload.asks,
                        sent: time,
                        received: now,
                    },
                )
            },
        },
{
    match frame {
        Frame::Failed => ItemOutcome::Reconnect,
        Frame::Closed => ItemOutcome::Reconnect,
        Frame::Other => ItemOutcome::Continue,
        Frame::Text(None) => ItemOutcome::Continue,
        Frame::Text(Some(StreamMsg::Candle { payload, time })) => {
            if trade_receivers == 0 {
                return ItemOutcome::Continue;
            }
            ItemOutcome::PublishTrade(
                Trade::new(payload.c, payload.v, payload.figi, payload.time, time, now),
            )
        },
        Frame::Text(Some(StreamMsg::OrderBook { payload, time })) => {
            if order_book_receivers == 0 {
                return ItemOutcome::Continue;
            }
            ItemOutcome::PublishOrderBook(
                OrderBook {
                    figi: payload.figi,
                    depth: payload.depth,
                    bids: payload.bids,
                    asks: payload.asks,
                    sent: time,
                    received: now,
                },
            )
        },
    }
}

} // verus!
