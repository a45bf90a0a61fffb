//! Decisions of the forwarding client, which sends every event of a bus
//! subscription to a downstream storage service.
use vstd::prelude::*;

verus! {

/// What the forwarding loop observed.
pub enum ForwardEvent<T> {
    /// The subscription delivered an event.
    Received(T),
    /// Receiving from the subscription failed (for example, it lagged).
    ReceiveFailed,
    /// The downstream service acknowledged the last event.
    Delivered,
    /// Sending to the downstream service failed.
    DeliveryFailed,
    /// The shutdown signal fired.
    Cancelled,
}

/// What the forwarding loop does next.
pub enum ForwardAction<T> {
    /// Send this event downstream.
    Send(T),
    /// Wait for the next event.
    Continue,
    /// End the connection with a transient error, so that the supervisor
    /// re-establishes it.
    Fail,
    /// End the connection normally.
    Finish,
}

/// Decides the forwarding loop's next step: forward each received event, skip
/// a failed receive, treat a failed delivery as a transient error, and stop on
/// cancellation.
pub fn forward_step<T>(ev: ForwardEvent<T>) -> (a: ForwardAction<T>)
    ensures
        match ev {
            ForwardEvent::Received(x) => a == ForwardAction::Send(x),
            ForwardEvent::ReceiveFailed | ForwardEvent::Delivered => a is Continue,
            ForwardEvent::DeliveryFailed => a is Fail,
            ForwardEvent::Cancelled => a is Finish,
        },
{
    match ev {
        ForwardEvent::Received(x) => ForwardAction::Send(x),
        ForwardEvent::ReceiveFailed => ForwardAction::Continue,
        ForwardEvent::Delivered => ForwardAction::Continue,
        ForwardEvent::DeliveryFailed => ForwardAction::Fail,
        ForwardEvent::Cancelled => ForwardAction::Finish,
    }
}

} // verus!
