use price_feed::{
    get_interval, pacing_plan, pause_millis, start_instant, OrderBook, ReplayAction, ReplayError,
    ReplayEvent, ReplayStream, Trade, MILLIS_PER_DAY,
};

#[test]
fn interval_of_epoch_day() {
    let w = get_interval(0);
    assert_eq!(w.begin, 0);
    assert_eq!(w.end, MILLIS_PER_DAY);
}

#[test]
fn interval_of_a_later_day() {
    // 2021-06-01 is day 18779 after 1970-01-01.
    let w = get_interval(18779);
    assert_eq!(w.begin, 18779 * 86_400_000);
    assert_eq!(w.end - w.begin, 86_400_000);
}

#[test]
fn interval_before_epoch() {
    let w = get_interval(-1);
    assert_eq!(w.begin, -86_400_000);
    assert_eq!(w.end, 0);
}

#[test]
fn pause_scales_gap_by_speed() {
    assert_eq!(pause_millis(0, 60_000, 10), 6_000);
    assert_eq!(pause_millis(1_000, 1_999, 2), 499);
    assert_eq!(pause_millis(5, 5, 1), 0);
}

#[test]
fn pause_is_zero_for_backwards_time() {
    assert_eq!(pause_millis(2_000, 1_000, 1), 0);
}

#[test]
fn pause_handles_extreme_gap() {
    assert_eq!(pause_millis(i64::MIN, i64::MAX, 1), u64::MAX);
}

#[test]
fn start_instant_takes_earliest() {
    assert_eq!(start_instant(Some(10), Some(7)), Ok(7));
    assert_eq!(start_instant(Some(3), Some(7)), Ok(3));
    assert_eq!(start_instant(None, Some(7)), Ok(7));
    assert_eq!(start_instant(Some(9), None), Ok(9));
}

#[test]
fn start_instant_without_rows_is_fatal() {
    assert_eq!(start_instant(None, None), Err(ReplayError::NoRows));
}

#[test]
fn zero_speed_is_rejected() {
    assert_eq!(ReplayStream::new(0, 0), Err(ReplayError::InvalidSpeed));
    assert_eq!(pacing_plan(&vec![1, 2], 0, 0), Err(ReplayError::InvalidSpeed));
}

#[test]
fn stream_emits_then_finishes() {
    let mut s = ReplayStream::new(1_000, 2).unwrap();
    assert_eq!(s.step(ReplayEvent::Item(3_000)), ReplayAction::Emit(1_000));
    assert_eq!(s.prev, 3_000);
    assert_eq!(s.step(ReplayEvent::Item(3_000)), ReplayAction::Emit(0));
    assert_eq!(s.step(ReplayEvent::Exhausted), ReplayAction::Finish);
    assert_eq!(s.step(ReplayEvent::Item(9_000)), ReplayAction::Finish);
}

#[test]
fn stream_read_error_aborts() {
    let mut s = ReplayStream::new(0, 1).unwrap();
    assert_eq!(s.step(ReplayEvent::ReadFailed), ReplayAction::Abort);
    assert!(s.done);
    assert_eq!(s.step(ReplayEvent::Item(5)), ReplayAction::Finish);
}

#[test]
fn stream_cancel_stops_emission() {
    let mut s = ReplayStream::new(0, 1).unwrap();
    assert_eq!(s.step(ReplayEvent::Item(10)), ReplayAction::Emit(10));
    assert_eq!(s.step(ReplayEvent::Cancelled), ReplayAction::Finish);
    assert_eq!(s.step(ReplayEvent::Item(20)), ReplayAction::Finish);
}

#[test]
fn stream_paces_by_received_time_of_items() {
    let mut s = ReplayStream::new(100, 1).unwrap();
    let t = Trade::new(0, 1, "FIGI".to_string(), 0, 150, 400);
    assert_eq!(s.on_item(&t), ReplayAction::Emit(300));
    let ob = OrderBook::new("FIGI".to_string(), 1, vec![(0, 1)], vec![], 410, 450);
    assert_eq!(s.on_item(&ob), ReplayAction::Emit(50));
    assert_eq!(s.prev, 450);
}

#[test]
fn speed_ten_paces_a_minute_in_six_seconds() {
    let ts: Vec<i64> = (0..=60).map(|i| i * 1_000).collect();
    let plan = pacing_plan(&ts, 0, 10).unwrap();
    assert_eq!(plan.len(), ts.len());
    assert_eq!(plan.iter().sum::<u64>(), 6_000);
}

#[test]
fn speed_scaling_loses_less_than_speed_per_event() {
    let ts: Vec<i64> = vec![7, 7, 20, 33, 100];
    let speed: u64 = 4;
    let plan = pacing_plan(&ts, 0, speed as u16).unwrap();
    let total: u64 = plan.iter().sum();
    let span: u64 = 100;
    assert!(speed * total <= span);
    assert!(span - speed * total <= ts.len() as u64 * (speed - 1));
    assert_eq!(plan, vec![1, 0, 3, 3, 16]);
}

#[test]
fn replaying_twice_at_unit_speed_is_identical() {
    let ts: Vec<i64> = vec![1_000, 1_000, 1_250, 4_000, 4_001];
    let first = pacing_plan(&ts, 900, 1).unwrap();
    let second = pacing_plan(&ts, 900, 1).unwrap();
    assert_eq!(first, second);
    assert_eq!(first, vec![100, 0, 250, 2_750, 1]);
    assert_eq!(first.iter().sum::<u64>(), 4_001 - 900);
}

#[test]
fn non_monotonic_times_pause_only_forward() {
    let ts: Vec<i64> = vec![500, 300, 800];
    let plan = pacing_plan(&ts, 0, 1).unwrap();
    assert_eq!(plan, vec![500, 0, 500]);
}
