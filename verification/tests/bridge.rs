use std::sync::Arc;

use mineintent_backend::bridge::{BridgeAdmission, BridgeNext, EventBridge, ListenerStatus};
use mineintent_backend::contract::{
    AttemptId, BackendEventEnvelope, BackendEventKind, BackendEventPayload,
    BackendLifecyclePayload, ChatEvent, ChatPosition, EventId, FactSource, StopReason,
};
use mineintent_backend::entity_events::{EntityIdentity, NormalizedEntityEvent};
use mineintent_backend::lanes::{LaneItem, CONTROL_CAPACITY, ORDINARY_CAPACITY, OVERFLOW_CAPACITY};
use mineintent_backend::time::UtcInstant;

fn bridge_event(id: &str, payload: BackendEventPayload) -> Arc<BackendEventEnvelope> {
    Arc::new(BackendEventEnvelope {
        id: EventId::Named(id.to_owned()),
        occurred_at: UtcInstant { seconds: 1_785_715_200, nanos: 0 },
        process_session_id: "bridge-test".to_owned(),
        connection_epoch: 1,
        connection_attempt_id: AttemptId { epoch: 1 },
        world_id: "world".to_owned(),
        dimension: Some("minecraft:overworld".to_owned()),
        source: FactSource::ServerObserved,
        payload,
    })
}

fn bridge_entity(id: &str) -> Arc<BackendEventEnvelope> {
    bridge_event(
        id,
        BackendEventPayload::Entity(NormalizedEntityEvent::Animation {
            entity: EntityIdentity::new(1, 7),
            animation: "tick".to_owned(),
        }),
    )
}

fn stopped() -> Arc<BackendEventEnvelope> {
    bridge_event(
        "stopped",
        BackendEventPayload::Lifecycle(BackendLifecyclePayload::Stopped {
            reason: StopReason::Given("done".to_owned()),
        }),
    )
}

fn enqueue(bridge: &mut EventBridge, event: Arc<BackendEventEnvelope>) -> bool {
    bridge.enqueue(1, event, false).1 == BridgeAdmission::Accepted
}

fn take(bridge: &mut EventBridge) -> Option<LaneItem> {
    match bridge.next() {
        BridgeNext::Item(item) => Some(item),
        _ => None,
    }
}

fn dropped_count(event: &BackendEventEnvelope) -> u64 {
    match &event.payload {
        BackendEventPayload::Overflow { dropped_count, .. } => *dropped_count,
        payload => panic!("expected an overflow, got {payload:?}"),
    }
}

#[test]
fn event_bridge_closes_each_loss_segment_at_loss_position() {
    let mut bridge = EventBridge::new();
    for index in 0..ORDINARY_CAPACITY {
        assert!(enqueue(&mut bridge, bridge_entity(&format!("ordinary-{index}"))));
    }
    assert!(enqueue(&mut bridge, bridge_entity("drop-a")));
    assert!(enqueue(
        &mut bridge,
        bridge_event(
            "lifecycle",
            BackendEventPayload::Lifecycle(BackendLifecyclePayload::ConnectionRequested {
                attempt: 7,
            }),
        ),
    ));
    assert!(enqueue(&mut bridge, bridge_entity("drop-b")));
    assert_eq!(bridge.queued_counts(), (ORDINARY_CAPACITY, 1, 2, 0));

    for _ in 0..ORDINARY_CAPACITY {
        assert_eq!(
            take(&mut bridge).expect("ordinary entry").event.kind(),
            BackendEventKind::Entity
        );
    }
    let first_marker = take(&mut bridge).expect("first overflow marker").event;
    assert_eq!(dropped_count(&first_marker), 1);
    assert!(matches!(
        take(&mut bridge).expect("lifecycle after first loss").event.payload,
        BackendEventPayload::Lifecycle(BackendLifecyclePayload::ConnectionRequested {
            attempt: 7
        })
    ));
    let second_marker = take(&mut bridge).expect("second overflow marker").event;
    assert_eq!(dropped_count(&second_marker), 1);
}

#[test]
fn event_bridge_old_marker_pop_does_not_close_new_loss_segment() {
    let mut bridge = EventBridge::new();
    for index in 0..ORDINARY_CAPACITY {
        assert!(enqueue(&mut bridge, bridge_entity(&format!("ordinary-{index}"))));
    }
    assert!(enqueue(&mut bridge, bridge_entity("drop-a")));
    assert!(enqueue(
        &mut bridge,
        bridge_event(
            "control",
            BackendEventPayload::Lifecycle(BackendLifecyclePayload::TransportConnected),
        ),
    ));
    for _ in 0..ORDINARY_CAPACITY {
        take(&mut bridge).expect("ordinary entry");
    }
    for index in 0..ORDINARY_CAPACITY {
        assert!(enqueue(&mut bridge, bridge_entity(&format!("refill-{index}"))));
    }
    assert!(enqueue(&mut bridge, bridge_entity("drop-b")));
    let first = take(&mut bridge).expect("first marker").event;
    assert_eq!(dropped_count(&first), 1);

    // The first marker is gone, and the second is the open one: a new loss is
    // counted in it.
    assert!(enqueue(&mut bridge, bridge_entity("drop-c")));
    let control = take(&mut bridge).expect("control after first marker").event;
    assert!(matches!(
        control.payload,
        BackendEventPayload::Lifecycle(BackendLifecyclePayload::TransportConnected)
    ));
    for _ in 0..ORDINARY_CAPACITY {
        take(&mut bridge).expect("refilled ordinary entry");
    }
    let second = take(&mut bridge).expect("second marker").event;
    assert_eq!(dropped_count(&second), 2);
}

fn assert_bounded(bridge: &EventBridge) {
    let (ordinary, control, overflow, terminal) = bridge.queued_counts();
    assert!(ordinary <= ORDINARY_CAPACITY);
    assert!(control <= CONTROL_CAPACITY);
    assert!(overflow <= OVERFLOW_CAPACITY);
    assert!(terminal <= 1);
}

#[test]
fn event_bridge_sustained_high_frequency_is_finite_and_control_is_retained() {
    let mut bridge = EventBridge::new();
    for index in 0..10_000 {
        assert!(enqueue(&mut bridge, bridge_entity(&format!("entity-{index}"))));
        assert_bounded(&bridge);
    }
    assert_eq!(bridge.queued_counts(), (ORDINARY_CAPACITY, 0, 1, 0));
    assert!(enqueue(
        &mut bridge,
        bridge_event(
            "chat",
            BackendEventPayload::Chat(ChatEvent {
                sender_username: Some("Alex".to_owned()),
                plain_text: "must arrive".to_owned(),
                position: Some(ChatPosition::Chat),
                verified: None,
            }),
        ),
    ));
    assert_eq!(bridge.queued_counts(), (ORDINARY_CAPACITY, 1, 1, 0));
    for index in 0..10_000 {
        assert!(enqueue(&mut bridge, bridge_entity(&format!("entity-after-{index}"))));
        assert_bounded(&bridge);
    }

    let mut saw_chat = false;
    loop {
        let (ordinary, control, overflow, terminal) = bridge.queued_counts();
        if ordinary + control + overflow + terminal == 0 {
            break;
        }
        if matches!(
            take(&mut bridge).expect("queued bridge event").event.payload,
            BackendEventPayload::Chat(_)
        ) {
            saw_chat = true;
        }
    }
    assert!(saw_chat, "lossless chat must survive bounded high-frequency load");
}

#[test]
fn a_loss_marker_tells_the_kinds_and_the_number_that_went() {
    let mut bridge = EventBridge::new();
    for index in 0..ORDINARY_CAPACITY {
        assert!(enqueue(&mut bridge, bridge_entity(&format!("ordinary-{index}"))));
    }
    assert!(enqueue(&mut bridge, bridge_entity("lost-1")));
    assert!(enqueue(&mut bridge, bridge_entity("lost-2")));
    for _ in 0..ORDINARY_CAPACITY {
        take(&mut bridge).expect("ordinary entry");
    }
    let marker = take(&mut bridge).expect("marker").event;
    match &marker.payload {
        BackendEventPayload::Overflow { dropped_count, dropped_kinds } => {
            assert_eq!(*dropped_count, 2);
            assert_eq!(dropped_kinds.first, BackendEventKind::Entity);
            assert_eq!(dropped_kinds.second, None);
        }
        payload => panic!("expected an overflow, got {payload:?}"),
    }
    assert_eq!(marker.process_session_id, "bridge-test");
    assert_eq!(marker.connection_epoch, 1);
    assert!(marker.id.text().starts_with("overflow-"));
}

#[test]
fn a_full_control_lane_makes_the_event_wait_and_keeps_its_turn() {
    let mut bridge = EventBridge::new();
    let control = |attempt: u32| {
        bridge_event(
            "control",
            BackendEventPayload::Lifecycle(BackendLifecyclePayload::ConnectionRequested {
                attempt,
            }),
        )
    };
    for attempt in 0..CONTROL_CAPACITY {
        assert!(enqueue(&mut bridge, control(attempt as u32)));
    }
    let (waiting, admission) = bridge.enqueue(1, control(9_000), false);
    assert_eq!(admission, BridgeAdmission::Wait);
    // A later event does not overtake the one that waits.
    let (later, admission) = bridge.enqueue(1, bridge_entity("later"), false);
    assert_eq!(admission, BridgeAdmission::Wait);
    take(&mut bridge).expect("room");
    assert_eq!(bridge.offer(&later, false), BridgeAdmission::Wait);
    assert_eq!(bridge.offer(&waiting, false), BridgeAdmission::Accepted);
    assert_eq!(bridge.offer(&later, false), BridgeAdmission::Accepted);
}

#[test]
fn a_stop_gives_up_events_that_wait_and_keeps_the_last_event() {
    let mut bridge = EventBridge::new();
    for attempt in 0..CONTROL_CAPACITY {
        assert!(enqueue(
            &mut bridge,
            bridge_event(
                "control",
                BackendEventPayload::Lifecycle(BackendLifecyclePayload::ConnectionRequested {
                    attempt: attempt as u32,
                }),
            ),
        ));
    }
    let (waiting, admission) = bridge.enqueue(
        1,
        bridge_event(
            "control",
            BackendEventPayload::Lifecycle(BackendLifecyclePayload::TransportConnected),
        ),
        false,
    );
    assert_eq!(admission, BridgeAdmission::Wait);
    assert_eq!(bridge.offer(&waiting, true), BridgeAdmission::Refused);
    assert_eq!(bridge.enqueue(1, stopped(), true).1, BridgeAdmission::Accepted);
    assert_eq!(bridge.queued_counts(), (0, CONTROL_CAPACITY, 0, 1));
}

#[test]
fn a_closed_bridge_drains_and_then_ends() {
    let mut bridge = EventBridge::new();
    assert!(enqueue(&mut bridge, bridge_entity("kept")));
    assert!(enqueue(&mut bridge, stopped()));
    assert!(!bridge.closed);
    bridge.close();
    assert_eq!(bridge.enqueue(1, bridge_entity("late"), false).1, BridgeAdmission::Refused);
    assert_eq!(take(&mut bridge).expect("kept").event.kind(), BackendEventKind::Entity);
    assert_eq!(take(&mut bridge).expect("stopped").event.kind(), BackendEventKind::Lifecycle);
    assert_eq!(bridge.next(), BridgeNext::Ended);
}

#[test]
fn an_open_bridge_without_events_waits() {
    let mut bridge = EventBridge::new();
    assert_eq!(bridge.next(), BridgeNext::Wait);
}

#[test]
fn a_closed_listener_begins_no_callback() {
    let mut status = ListenerStatus::new();
    assert!(status.reserve());
    assert!(status.reserve());
    assert!(status.begin(8));
    assert!(status.must_wait(9));
    assert!(!status.must_wait(8));
    status.close();
    assert!(status.is_closed());
    assert!(!status.reserve());
    assert!(!status.begin(8));
    assert!(status.finish());
    assert!(!status.must_wait(9));
    assert_eq!(status.active, 0);
    assert_eq!(status.pending, 0);
}
