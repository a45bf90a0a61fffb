//! The synthetic ingestion source: fixed events stamped with the current time,
//! published at random intervals.
use vstd::prelude::*;

use rand::Rng;

use crate::event::{OrderBook, Trade};

verus! {

/// Milliseconds in one minute.
pub const MILLIS_PER_MINUTE: i64 = 60_000;

/// Bits of the single-precision price `1.0` that emulated events carry.
pub const UNIT_PRICE_BITS: u32 = 0x3f80_0000;

/// Instants whose nanosecond count fits in `i64`, the range in which times
/// can be rounded to the minute.
pub const MAX_ROUNDABLE: i64 = 9_223_372_036_000;

/// `t` rounded to the nearest whole minute; a time exactly between two
/// minutes goes to the later one.
pub open spec fn round_minute_spec(t: int) -> int {
    let m = t % 60_000;
    if m == 0 {
        t
    } else if 60_000 - m <= m {
        t + (60_000 - m)
    } else {
        t - m
    }
}

/// Rounds `t` (milliseconds) to the nearest whole minute, ties to the later.
pub fn round_to_minute(t: i64) -> (r: i64)
    requires
        -MAX_ROUNDABLE <= t <= MAX_ROUNDABLE,
    ensures
        r as int == round_minute_spec(t as int),
{
    let m: i64 = if t >= 0 {
        t % MILLIS_PER_MINUTE
    } else {
        let n: i64 = -(t + 1);
        MILLIS_PER_MINUTE - 1 - n % MILLIS_PER_MINUTE
    };
    proof {
        let d = 60_000int;
        vstd::arithmetic::div_mod::lemma_fundamental_div_mod(t as int, d);
        vstd::arithmetic::div_mod::lemma_mod_bound(t as int, d);
        if t < 0 {
            let n = -(t + 1);
            vstd::arithmetic::div_mod::lemma_fundamental_div_mod(n, d);
            vstd::arithmetic::div_mod::lemma_mod_bound(n, d);
            let q = n / d;
            assert(t == -(q + 1) * d + (d - 1 - n % d)) by (nonlinear_arith)
                requires
                    n == -(t + 1),
                    n == q * d + n % d,
            ;
            vstd::arithmetic::div_mod::lemma_fundamental_div_mod_converse(
                t as int,
                d,
                -(q + 1),
                d - 1 - n % d,
            );
        }
        assert(m == (t as int) % d);
    }
    if m == 0 {
        t
    } else if MILLIS_PER_MINUTE - m <= m {
        t + (MILLIS_PER_MINUTE - m)
    } else {
        t - m
    }
}

/// Relies on rand::Rng::gen_range with the thread-local generator: a value in
/// `[lo, hi)`; it panics on an empty range.
#[verifier::external_body]
fn random_between(lo: u64, hi: u64) -> (r: u64)
    requires
        lo < hi,
    ensures
        lo <= r < hi,
{
    rand::thread_rng().gen_range(lo..hi)
}

/// The emulated trade at `now`: price 1.0, volume 1, sent and received at
/// `now`, and `now` rounded to the minute.
pub fn emulated_trade(figi: String, now: i64) -> (r: Trade)
    requires
        -MAX_ROUNDABLE <= now <= MAX_ROUNDABLE,
    ensures
        r == (Trade {
            price_bits: UNIT_PRICE_BITS,
            volume: 1,
            figi,
            minute_rounded: round_minute_spec(now as int) as i64,
            sent: now,
            received: now,
        }),
{
    Trade::new(UNIT_PRICE_BITS, 1, figi, round_to_minute(now), now, now)
}

/// The emulated order book at `now`: depth 1, one level of price 1.0 and
/// volume 1 on each side, sent and received at `now`.
pub fn emulated_order_book(figi: String, now: i64) -> (r: OrderBook)
    ensures
        r.figi == figi,
        r.depth == 1,
        r.bids@ == seq![(UNIT_PRICE_BITS, 1u64)],
        r.asks@ == seq![(UNIT_PRICE_BITS, 1u64)],
        r.sent == now,
        r.received == now,
{
    let bids = vec![(UNIT_PRICE_BITS, 1u64)];
    let asks = vec![(UNIT_PRICE_BITS, 1u64)];
    OrderBook::new(figi, 1, bids, asks, now, now)
}

/// Milliseconds to wait before the next emulated trade: at least one second,
/// less than two.
pub fn trade_interval() -> (r: u64)
    ensures
        1000 <= r < 2000,
{
    random_between(1000, 2000)
}

/// Milliseconds to wait before the next emulated order book: at least half a
/// second, less than one.
pub fn order_book_interval() -> (r: u64)
    ensures
        500 <= r < 1000,
{
    random_between(500, 1000)
}

} // verus!
