//! Delivery of notifications from a stream with a consumer group: when a
//! message is acknowledged, claimed, retried or dropped. Delivery is
//! at-least-once: a message is acknowledged only when it was delivered, was
//! already delivered, or can never be delivered.
use vstd::prelude::*;
use crate::text::concat;

verus! {

/// The stream that the notifier consumes.
pub const STREAM_KEY: &'static str = "notifications_stream";

/// Its consumer group.
pub const GROUP_NAME: &'static str = "notifier_group";

/// The name of this consumer.
pub const CONSUMER_NAME: &'static str = "notifier_consumer_1";

/// Deliveries after which a pending message is dropped.
pub const MAX_RETRIES: usize = 3;

/// Milliseconds a message must have been pending before it is reclaimed.
pub const PENDING_IDLE_TIME_MS: usize = 10_000;

/// Seconds the idempotency mark of a delivered message lives (24 hours).
pub const NOTIFIED_TTL_SECS: i64 = 86400;

/// What to do with a pending message.
#[derive(Debug, Clone, Copy, PartialEq, Eq, Structural)]
pub enum PendingAction {
    /// It has not been idle long enough: leave it.
    Wait,
    /// It was delivered too many times: acknowledge it so that it does not block
    /// the stream.
    Drop,
    /// Claim it for this consumer and process it again.
    Reclaim,
}

/// The fate of a pending message: left alone until idle long enough, then
/// dropped once delivered the maximum number of times, reclaimed before.
pub open spec fn pending_decision(idle_ms: usize, times_delivered: usize) -> PendingAction {
    if idle_ms > PENDING_IDLE_TIME_MS {
        if times_delivered >= MAX_RETRIES {
            PendingAction::Drop
        } else {
            PendingAction::Reclaim
        }
    } else {
        PendingAction::Wait
    }
}

/// Decides the fate of a pending message from how long it has been idle and how
/// many times it was delivered.
pub fn pending_action(idle_ms: usize, times_delivered: usize) -> (res: PendingAction)
    ensures
        res == pending_decision(idle_ms, times_delivered),
{
    if idle_ms > PENDING_IDLE_TIME_MS {
        if times_delivered >= MAX_RETRIES {
            PendingAction::Drop
        } else {
            PendingAction::Reclaim
        }
    } else {
        PendingAction::Wait
    }
}

/// A message is reclaimed only while it has been delivered fewer times than the
/// maximum, dropped only once it reached it, and never touched while it has
/// not been idle long enough.
pub proof fn lemma_retries_bounded(idle_ms: usize, times_delivered: usize)
    ensures
        pending_decision(idle_ms, times_delivered) == PendingAction::Reclaim ==> times_delivered
            < MAX_RETRIES,
        pending_decision(idle_ms, times_delivered) == PendingAction::Drop ==> times_delivered
            >= MAX_RETRIES,
        idle_ms <= PENDING_IDLE_TIME_MS ==> pending_decision(idle_ms, times_delivered)
            == PendingAction::Wait,
{
}

/// Every pending message is acted on once idle past the threshold: it is
/// reclaimed while it was delivered fewer than the maximum number of times and
/// dropped from then on; before the threshold it is left alone.
pub proof fn lemma_pending_outcomes(idle_ms: usize, times_delivered: usize)
    ensures
        idle_ms > PENDING_IDLE_TIME_MS && times_delivered < MAX_RETRIES ==> pending_decision(
            idle_ms,
            times_delivered,
        ) == PendingAction::Reclaim,
        idle_ms > PENDING_IDLE_TIME_MS && times_delivered >= MAX_RETRIES ==> pending_decision(
            idle_ms,
            times_delivered,
        ) == PendingAction::Drop,
        idle_ms <= PENDING_IDLE_TIME_MS ==> pending_decision(idle_ms, times_delivered)
            == PendingAction::Wait,
        PENDING_IDLE_TIME_MS == 10_000,
        MAX_RETRIES == 3,
{
}

/// What happened at the last step of processing a message.
#[derive(Debug, Clone, Copy, PartialEq, Eq, Structural)]
pub enum DeliveryEvent {
    /// The message has no `payload` field.
    PayloadMissing,
    /// The payload is not a notification.
    PayloadInvalid,
    /// The payload is a notification.
    PayloadParsed,
    /// The idempotency mark was set: this is the first delivery attempt.
    MarkSet,
    /// The idempotency mark was already there: the message was delivered before.
    MarkPresent,
    /// The idempotency mark could not be checked.
    MarkFailed,
    /// The destination accepted the notification.
    Delivered,
    /// The destination refused it, or could not be reached.
    DeliveryFailed,
}

/// What to do next with a message.
#[derive(Debug)]
pub enum DeliveryAction {
    /// Acknowledge the message: it leaves the pending list.
    Ack,
    /// Set the idempotency mark (only if absent).
    SetMark { key: String },
    /// Let the mark expire after `ttl_secs`, then send the notification.
    Deliver { key: String, ttl_secs: i64 },
    /// Remove the mark so that a later retry starts clean; do not acknowledge.
    ClearMark { key: String },
    /// Stop here; the message stays pending.
    Leave,
}

/// The idempotency mark of a message.
pub open spec fn mark_key(id: Seq<char>) -> Seq<char> {
    "notified:"@ + id
}

/// At-least-once: of the events of a readable notification, only a successful
/// delivery, or a mark showing an earlier delivery, acknowledge it.
pub open spec fn acks(event: DeliveryEvent) -> bool {
    event == DeliveryEvent::PayloadMissing || event == DeliveryEvent::PayloadInvalid || event
        == DeliveryEvent::MarkPresent || event == DeliveryEvent::Delivered
}

/// The next step of processing the message `id`, after `event`. A message
/// without payload, or whose payload is not a notification, is acknowledged so
/// that it never blocks the stream; one already delivered is acknowledged
/// again; a failed delivery is never acknowledged.
pub fn next_delivery_action(id: &str, event: DeliveryEvent) -> (res: DeliveryAction)
    ensures
        match event {
            DeliveryEvent::PayloadMissing => res is Ack,
            DeliveryEvent::PayloadInvalid => res is Ack,
            DeliveryEvent::PayloadParsed => res matches DeliveryAction::SetMark { key } && key@
                == mark_key(id@),
            DeliveryEvent::MarkSet => res matches DeliveryAction::Deliver { key, ttl_secs } && key@
                == mark_key(id@) && ttl_secs == NOTIFIED_TTL_SECS,
            DeliveryEvent::MarkPresent => res is Ack,
            DeliveryEvent::MarkFailed => res is Leave,
            DeliveryEvent::Delivered => res is Ack,
            DeliveryEvent::DeliveryFailed => res matches DeliveryAction::ClearMark { key } && key@
                == mark_key(id@),
        },
        (res is Ack) <==> acks(event),
{
    match event {
        DeliveryEvent::PayloadMissing => DeliveryAction::Ack,
        DeliveryEvent::PayloadInvalid => DeliveryAction::Ack,
        DeliveryEvent::PayloadParsed => DeliveryAction::SetMark { key: concat("notified:", id) },
        DeliveryEvent::MarkSet => DeliveryAction::Deliver {
            key: concat("notified:", id),
            ttl_secs: NOTIFIED_TTL_SECS,
        },
        DeliveryEvent::MarkPresent => DeliveryAction::Ack,
        DeliveryEvent::MarkFailed => DeliveryAction::Leave,
        DeliveryEvent::Delivered => DeliveryAction::Ack,
        DeliveryEvent::DeliveryFailed => DeliveryAction::ClearMark { key: concat("notified:", id) },
    }
}

} // verus!
