//! Market-data distribution core: a lossy fan-out bus, bounded persistence
//! queues, a retrying supervisor, the replay pacing scheduler and the
//! persistence start-up sequence, each stated and proved with Verus.
pub mod bus;
pub mod cancel;
pub mod emulate;
pub mod event;
pub mod forward;
pub mod ingest;
pub mod mode;
pub mod queue;
pub mod replay;
pub mod settings;
pub mod sink;
pub mod subscribe;
pub mod supervisor;

pub use bus::{
    deliver, deliver_all, keep_newest, lemma_lossless_in_order, lemma_mailbox_keeps_newest, EventBus,
};
pub use cancel::{CancelSignal, CancelWaiter};
pub use emulate::{
    emulated_order_book, emulated_trade, order_book_interval, round_to_minute, trade_interval,
};
pub use event::{Level, OrderBook, Received, Trade};
pub use replay::{
    get_interval, pacing_plan, pause_millis, start_instant, DayWindow, ReplayAction, ReplayError,
    ReplayEvent, ReplayStream, MAX_DAY, MILLIS_PER_DAY,
};
pub use forward::{forward_step, ForwardAction, ForwardEvent};
pub use ingest::{
    process_new_item, CandlePayload, Frame, ItemOutcome, OrderBookPayload, StreamMsg,
};
pub use mode::{
    digits_value, is_digit, is_u16_text, parse_speed, select_mode, unsigned_body, Mode, ModeError,
};
pub use queue::BoundedQueue;
pub use settings::{Client, Env, Grpc, Log, Settings, Tinkoff};
pub use sink::{
    day_of, day_start, lemma_same_day_purge, purged, SinkAction, SinkEvent, SinkPhase,
    StartupSequence, MIN_INSTANT,
};
pub use subscribe::{SubscribeCandleReq, SubscribeOrderBookReq, ORDER_BOOK_DEPTH};
pub use supervisor::{
    drive, fails_then_completes, lemma_cancel_is_final, lemma_fails_k_times, next, repeat_pair,
    Phase, Supervisor, SupervisorAction, SupervisorEvent, RETRY_DELAY_MS,
};
