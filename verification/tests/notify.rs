use trampantojo::notify::{
    next_delivery_action, pending_action, DeliveryAction, DeliveryEvent, PendingAction,
};

#[test]
fn pending_messages_wait_then_retry_then_drop() {
    assert_eq!(pending_action(10_000, 0), PendingAction::Wait);
    assert_eq!(pending_action(10_001, 2), PendingAction::Reclaim);
    assert_eq!(pending_action(10_001, 3), PendingAction::Drop);
    assert_eq!(pending_action(50, 9), PendingAction::Wait);
}

#[test]
fn delivery_steps() {
    assert!(matches!(next_delivery_action("1-0", DeliveryEvent::PayloadMissing), DeliveryAction::Ack));
    assert!(matches!(next_delivery_action("1-0", DeliveryEvent::PayloadInvalid), DeliveryAction::Ack));
    match next_delivery_action("1-0", DeliveryEvent::PayloadParsed) {
        DeliveryAction::SetMark { key } => assert_eq!(key, "notified:1-0"),
        _ => panic!("mark expected"),
    }
    match next_delivery_action("1-0", DeliveryEvent::MarkSet) {
        DeliveryAction::Deliver { key, ttl_secs } => {
            assert_eq!(key, "notified:1-0");
            assert_eq!(ttl_secs, 86_400);
        }
        _ => panic!("delivery expected"),
    }
    assert!(matches!(next_delivery_action("1-0", DeliveryEvent::MarkPresent), DeliveryAction::Ack));
    assert!(matches!(next_delivery_action("1-0", DeliveryEvent::MarkFailed), DeliveryAction::Leave));
    assert!(matches!(next_delivery_action("1-0", DeliveryEvent::Delivered), DeliveryAction::Ack));
    match next_delivery_action("1-0", DeliveryEvent::DeliveryFailed) {
        DeliveryAction::ClearMark { key } => assert_eq!(key, "notified:1-0"),
        _ => panic!("a failed delivery is never acknowledged"),
    }
}
