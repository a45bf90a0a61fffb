use price_feed::{
    day_start, parse_speed, select_mode, Mode, ModeError, Phase, SinkAction, SinkEvent, SinkPhase,
    StartupSequence, SubscribeCandleReq, SubscribeOrderBookReq, Supervisor, SupervisorAction,
    SupervisorEvent, ORDER_BOOK_DEPTH, RETRY_DELAY_MS,
};

#[test]
fn candle_request_fields() {
    let r = SubscribeCandleReq::prepare("BBG000B9XRY4".to_string());
    assert_eq!(r.event, "candle:subscribe");
    assert_eq!(r.figi, "BBG000B9XRY4");
    assert_eq!(r.interval, "1min");
}

#[test]
fn order_book_request_fields() {
    let r = SubscribeOrderBookReq::prepare("BBG000B9XRY4".to_string());
    assert_eq!(r.event, "orderbook:subscribe");
    assert_eq!(r.figi, "BBG000B9XRY4");
    assert_eq!(r.depth, ORDER_BOOK_DEPTH);
    assert_eq!(r.depth, 10);
}

fn run_supervisor(failures: u64) -> (Supervisor, Vec<SupervisorAction>) {
    let mut s = Supervisor::new();
    let mut actions = vec![s.step(SupervisorEvent::Start)];
    for _ in 0..failures {
        actions.push(s.step(SupervisorEvent::Failed));
        actions.push(s.step(SupervisorEvent::DelayElapsed));
    }
    actions.push(s.step(SupervisorEvent::Completed));
    (s, actions)
}

#[test]
fn supervisor_retries_k_times() {
    let (s, actions) = run_supervisor(3);
    assert_eq!(s.invocations, 4);
    assert_eq!(s.phase, Phase::Stopped);
    let invokes = actions.iter().filter(|a| **a == SupervisorAction::Invoke).count();
    assert_eq!(invokes, 4);
    for w in actions.windows(2) {
        if w[1] == SupervisorAction::Invoke {
            assert_eq!(w[0], SupervisorAction::Wait(RETRY_DELAY_MS));
        }
    }
    assert_eq!(RETRY_DELAY_MS, 1000);
}

#[test]
fn supervisor_without_failures_invokes_once() {
    let (s, actions) = run_supervisor(0);
    assert_eq!(s.invocations, 1);
    assert_eq!(actions, vec![SupervisorAction::Invoke, SupervisorAction::Stop]);
}

#[test]
fn supervisor_cancelled_mid_retry_stops() {
    let mut s = Supervisor::new();
    assert_eq!(s.step(SupervisorEvent::Start), SupervisorAction::Invoke);
    assert_eq!(s.step(SupervisorEvent::Failed), SupervisorAction::Wait(1000));
    assert_eq!(s.step(SupervisorEvent::Cancelled), SupervisorAction::Stop);
    assert_eq!(s.step(SupervisorEvent::DelayElapsed), SupervisorAction::Stop);
    assert_eq!(s.step(SupervisorEvent::Start), SupervisorAction::Stop);
    assert_eq!(s.invocations, 1);
}

#[test]
fn supervisor_ignores_out_of_order_events() {
    let mut s = Supervisor::new();
    assert_eq!(s.step(SupervisorEvent::DelayElapsed), SupervisorAction::Ignore);
    assert_eq!(s.invocations, 0);
}

#[test]
fn speed_parsing() {
    assert_eq!(parse_speed("1"), Ok(1));
    assert_eq!(parse_speed("10"), Ok(10));
    assert_eq!(parse_speed("+7"), Ok(7));
    assert_eq!(parse_speed("65535"), Ok(65535));
    assert_eq!(parse_speed("0"), Err(ModeError::SpeedZero));
    assert_eq!(parse_speed("000"), Err(ModeError::SpeedZero));
    assert_eq!(parse_speed("65536"), Err(ModeError::SpeedNotANumber));
    assert_eq!(parse_speed("99999999999999999999"), Err(ModeError::SpeedNotANumber));
    assert_eq!(parse_speed("abc"), Err(ModeError::SpeedNotANumber));
    assert_eq!(parse_speed("1x"), Err(ModeError::SpeedNotANumber));
    assert_eq!(parse_speed("-1"), Err(ModeError::SpeedNotANumber));
    assert_eq!(parse_speed(""), Err(ModeError::SpeedNotANumber));
    assert_eq!(parse_speed("+"), Err(ModeError::SpeedNotANumber));
}

#[test]
fn speed_parsing_agrees_with_std() {
    for t in ["0", "1", "42", "+3", "65535", "65536", "", "+", "x", "1 ", "-0"] {
        let ours = parse_speed(t);
        match t.parse::<u16>() {
            Ok(0) => assert_eq!(ours, Err(ModeError::SpeedZero)),
            Ok(v) => assert_eq!(ours, Ok(v)),
            Err(_) => assert_eq!(ours, Err(ModeError::SpeedNotANumber)),
        }
    }
}

#[test]
fn mode_selection() {
    assert_eq!(select_mode(true, None, None), Ok(Mode::Storing));
    assert_eq!(select_mode(true, Some("2021-06-01".to_string()), Some("3")), Ok(Mode::Storing));
    assert_eq!(select_mode(false, None, Some("3")), Err(ModeError::ModeMissing));
    assert_eq!(
        select_mode(false, Some("2021-06-01".to_string()), None),
        Ok(Mode::Reading { date: "2021-06-01".to_string(), speed: 1 })
    );
    assert_eq!(
        select_mode(false, Some("2021-06-01".to_string()), Some("12")),
        Ok(Mode::Reading { date: "2021-06-01".to_string(), speed: 12 })
    );
    assert_eq!(
        select_mode(false, Some("2021-06-01".to_string()), Some("0")),
        Err(ModeError::SpeedZero)
    );
    assert_eq!(
        select_mode(false, Some("2021-06-01".to_string()), Some("fast")),
        Err(ModeError::SpeedNotANumber)
    );
}

#[test]
fn day_start_truncates_to_midnight() {
    assert_eq!(day_start(0), 0);
    assert_eq!(day_start(86_399_999), 0);
    assert_eq!(day_start(86_400_000), 86_400_000);
    // 2021-06-01T13:45:10.123Z
    assert_eq!(day_start(1_622_555_110_123), 1_622_505_600_000);
    assert_eq!(day_start(-1), -86_400_000);
    assert_eq!(day_start(-86_400_000), -86_400_000);
}

#[test]
fn same_day_restart_purges_first_run_rows() {
    let first_run_rows = [1_622_505_600_000i64, 1_622_530_000_000, 1_622_555_000_000];
    let earlier_day_row = 1_622_505_599_999i64;
    let restart = StartupSequence::new(1_622_555_110_123);
    for t in first_run_rows {
        assert!(t >= restart.cutoff);
    }
    assert!(earlier_day_row < restart.cutoff);
}

#[test]
fn startup_purges_before_draining() {
    let mut s = StartupSequence::new(1_622_555_110_123);
    assert_eq!(s.phase, SinkPhase::Migrating);
    let cutoff = 1_622_505_600_000;
    assert_eq!(s.step(SinkEvent::Done), SinkAction::PurgeTrades(cutoff));
    assert_eq!(s.step(SinkEvent::Done), SinkAction::PurgeOrderBooks(cutoff));
    assert_eq!(s.step(SinkEvent::Done), SinkAction::Drain);
    assert_eq!(s.step(SinkEvent::Failed), SinkAction::Drain);
    assert_eq!(s.step(SinkEvent::Cancelled), SinkAction::Close);
    assert_eq!(s.phase, SinkPhase::Closed);
}

#[test]
fn startup_failure_aborts() {
    let mut s = StartupSequence::new(0);
    assert_eq!(s.step(SinkEvent::Failed), SinkAction::Abort);
    assert_eq!(s.step(SinkEvent::Done), SinkAction::Close);
}
