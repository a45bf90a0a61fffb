use price_feed::{
    forward_step, ForwardAction, ForwardEvent,
    emulated_order_book, emulated_trade, order_book_interval, process_new_item, round_to_minute,
    trade_interval, CandlePayload, Frame, ItemOutcome, OrderBookPayload, Received, StreamMsg,
};

fn candle() -> StreamMsg {
    StreamMsg::Candle {
        payload: CandlePayload {
            o: 1.5f32.to_bits(),
            c: 2.25f32.to_bits(),
            h: 3.0f32.to_bits(),
            l: 1.0f32.to_bits(),
            v: 42,
            interval: "1min".to_string(),
            figi: "BBG000B9XRY4".to_string(),
            time: 1_622_555_100_000,
        },
        time: 1_622_555_110_000,
    }
}

fn book() -> StreamMsg {
    StreamMsg::OrderBook {
        payload: OrderBookPayload {
            figi: "BBG000B9XRY4".to_string(),
            depth: 2,
            bids: vec![(10.5f32.to_bits(), 3), (10.25f32.to_bits(), 7)],
            asks: vec![(11.0f32.to_bits(), 1)],
        },
        time: 1_622_555_110_500,
    }
}

#[test]
fn failed_or_closed_stream_reconnects() {
    assert!(matches!(process_new_item(Frame::Failed, 0, 1, 1), ItemOutcome::Reconnect));
    assert!(matches!(process_new_item(Frame::Closed, 0, 1, 1), ItemOutcome::Reconnect));
}

#[test]
fn other_or_unknown_frames_are_skipped() {
    assert!(matches!(process_new_item(Frame::Other, 0, 1, 1), ItemOutcome::Continue));
    assert!(matches!(process_new_item(Frame::Text(None), 0, 1, 1), ItemOutcome::Continue));
}

#[test]
fn candle_becomes_trade_at_close_price() {
    match process_new_item(Frame::Text(Some(candle())), 1_622_555_110_042, 2, 0) {
        ItemOutcome::PublishTrade(t) => {
            assert_eq!(f32::from_bits(t.price_bits), 2.25);
            assert_eq!(t.volume, 42);
            assert_eq!(t.figi, "BBG000B9XRY4");
            assert_eq!(t.minute_rounded, 1_622_555_100_000);
            assert_eq!(t.sent, 1_622_555_110_000);
            assert_eq!(t.received, 1_622_555_110_042);
            assert_eq!(t.received(), 1_622_555_110_042);
        }
        _ => panic!("expected a trade"),
    }
}

#[test]
fn candle_without_subscribers_is_skipped() {
    assert!(matches!(
        process_new_item(Frame::Text(Some(candle())), 5, 0, 3),
        ItemOutcome::Continue
    ));
}

#[test]
fn order_book_message_becomes_order_book() {
    match process_new_item(Frame::Text(Some(book())), 1_622_555_110_600, 0, 1) {
        ItemOutcome::PublishOrderBook(ob) => {
            assert_eq!(ob.figi, "BBG000B9XRY4");
            assert_eq!(ob.depth, 2);
            assert_eq!(ob.bids, vec![(10.5f32.to_bits(), 3), (10.25f32.to_bits(), 7)]);
            assert_eq!(ob.asks, vec![(11.0f32.to_bits(), 1)]);
            assert_eq!(ob.sent, 1_622_555_110_500);
            assert_eq!(ob.received, 1_622_555_110_600);
        }
        _ => panic!("expected an order book"),
    }
    assert!(matches!(
        process_new_item(Frame::Text(Some(book())), 1, 1, 0),
        ItemOutcome::Continue
    ));
}

#[test]
fn minute_rounding_goes_to_nearest() {
    assert_eq!(round_to_minute(0), 0);
    assert_eq!(round_to_minute(29_999), 0);
    assert_eq!(round_to_minute(30_000), 60_000);
    assert_eq!(round_to_minute(89_999), 60_000);
    assert_eq!(round_to_minute(1_622_555_110_123), 1_622_555_100_000);
    assert_eq!(round_to_minute(-1), 0);
    assert_eq!(round_to_minute(-30_000), 0);
    assert_eq!(round_to_minute(-30_001), -60_000);
}

#[test]
fn emulated_events_carry_now() {
    let t = emulated_trade("F".to_string(), 1_622_555_145_000);
    assert_eq!(f32::from_bits(t.price_bits), 1.0);
    assert_eq!(t.volume, 1);
    assert_eq!(t.minute_rounded, 1_622_555_160_000);
    assert_eq!(t.sent, 1_622_555_145_000);
    assert_eq!(t.received, 1_622_555_145_000);
    let ob = emulated_order_book("F".to_string(), 7);
    assert_eq!(ob.depth, 1);
    assert_eq!(ob.bids, vec![(1.0f32.to_bits(), 1)]);
    assert_eq!(ob.asks, vec![(1.0f32.to_bits(), 1)]);
    assert_eq!(ob.received, 7);
}

#[test]
fn emulation_intervals_stay_in_range() {
    for _ in 0..200 {
        let t = trade_interval();
        assert!((1000..2000).contains(&t));
        let o = order_book_interval();
        assert!((500..1000).contains(&o));
    }
}

#[test]
fn forwarding_decisions() {
    assert!(matches!(forward_step(ForwardEvent::Received(7u32)), ForwardAction::Send(7)));
    assert!(matches!(forward_step::<u32>(ForwardEvent::ReceiveFailed), ForwardAction::Continue));
    assert!(matches!(forward_step::<u32>(ForwardEvent::Delivered), ForwardAction::Continue));
    assert!(matches!(forward_step::<u32>(ForwardEvent::DeliveryFailed), ForwardAction::Fail));
    assert!(matches!(forward_step::<u32>(ForwardEvent::Cancelled), ForwardAction::Finish));
}
