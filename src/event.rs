//! Market events: trades and order-book snapshots, with times in milliseconds
//! since the Unix epoch (UTC).
use vstd::prelude::*;

verus! {

/// What the replay pacing needs of an event: the time it was received.
pub trait Received {
    /// The received time, in milliseconds since the epoch.
    spec fn received_at(&self) -> int;

    /// Returns the received time.
    fn received(&self) -> (r: i64)
        ensures
            r as int == self.received_at(),
    ;
}

/// One price level of an order book: the price as IEEE-754 single-precision
/// bits, and the volume.
pub type Level = (u32, u64);

/// A trade: price, volume and instrument, with its minute-rounded, sent and
/// received times.
#[derive(Debug)]
pub struct Trade {
    /// IEEE-754 single-precision bits of the price, carried unchanged.
    pub price_bits: u32,
    pub volume: u64,
    pub figi: String,
    pub minute_rounded: i64,
    pub sent: i64,
    pub received: i64,
}

impl Trade {
    /// Builds a trade from its fields.
    pub fn new(
        price_bits: u32,
        volume: u64,
        figi: String,
        minute_rounded: i64,
        sent: i64,
        received: i64,
    ) -> (r: Trade)
        ensures
            r.price_bits == price_bits,
            r.volume == volume,
            r.figi == figi,
            r.minute_rounded == minute_rounded,
            r.sent == sent,
            r.received == received,
    {
        Trade { price_bits, volume, figi, minute_rounded, sent, received }
    }
}

impl Clone for Trade {
    fn clone(&self) -> (r: Self)
        ensures
            r == *self,
    {
        Trade {
            price_bits: self.price_bits,
            volume: self.volume,
            figi: self.figi.clone(),
            minute_rounded: self.minute_rounded,
            sent: self.sent,
            received: self.received,
        }
    }
}

impl Received for Trade {
    open spec fn received_at(&self) -> int {
        self.received as int
    }

    fn received(&self) -> (r: i64) {
        self.received
    }
}

/// An order-book snapshot: instrument, depth, and the bid and ask levels in
/// the order they were received.
#[derive(Debug)]
pub struct OrderBook {
    pub figi: String,
    pub depth: u32,
    pub bids: Vec<Level>,
    pub asks: Vec<Level>,
    pub sent: i64,
    pub received: i64,
}

impl OrderBook {
    /// Builds an order book from its fields.
    pub fn new(
        figi: String,
        depth: u32,
        bids: Vec<Level>,
        asks: Vec<Level>,
        sent: i64,
        received: i64,
    ) -> (r: OrderBook)
        ensures
            r.figi == figi,
            r.depth == depth,
            r.bids@ == bids@,
            r.asks@ == asks@,
            r.sent == sent,
            r.received == received,
    {
        OrderBook { figi, depth, bids, asks, sent, received }
    }
}

/// A copy of the levels `v`, in order.
fn copy_levels(v: &Vec<Level>) -> (r: Vec<Level>)
    ensures
        r@ == v@,
{
    let mut r: Vec<Level> = Vec::new();
    let mut i: usize = 0;
    while i < v.len()
        invariant
            i <= v@.len(),
            r@ == v@.subrange(0, i as int),
        decreases v@.len() - i,
    {
        r.push(v[i]);
        i = i + 1;
        assert(r@ =~= v@.subrange(0, i as int));
    }
    assert(v@.subrange(0, v@.len() as int) =~= v@);
    r
}

impl OrderBook {
    /// Whether `a` and `b` hold the same values, field by field.
    pub open spec fn same(a: OrderBook, b: OrderBook) -> bool {
        &&& a.figi == b.figi
        &&& a.depth == b.depth
        &&& a.bids@ == b.bids@
        &&& a.asks@ == b.asks@
        &&& a.sent == b.sent
        &&& a.received == b.received
    }
}

impl Clone for OrderBook {
    fn clone(&self) -> (r: Self)
        ensures
            OrderBook::same(r, *self),
    {
        OrderBook {
            figi: self.figi.clone(),
            depth: self.depth,
            bids: copy_levels(&self.bids),
            asks: copy_levels(&self.asks),
            sent: self.sent,
            received: self.received,
        }
    }
}

impl Received for OrderBook {
    open spec fn received_at(&self) -> int {
        self.received as int
    }

    fn received(&self) -> (r: i64) {
        self.received
    }
}

/// A copy of a trade, as the bus delivers it, equals the trade.
pub proof fn lemma_trade_copy_equal(a: Trade, b: Trade)
    requires
        cloned(a, b),
    ensures
        b == a,
{
}

/// A copy of an order book, as the bus delivers it, holds the same fields.
pub proof fn lemma_order_book_copy_same(a: OrderBook, b: OrderBook)
    requires
        cloned(a, b),
    ensures
        OrderBook::same(b, a),
{
}

} // verus!
