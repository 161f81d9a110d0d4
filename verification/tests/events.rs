use std::sync::Arc;

use mineintent_backend::contract::{
    AttemptId, BackendEventEnvelope, BackendEventKind, BackendEventPayload,
    BackendLifecyclePayload, BlockEvent, ChatEvent, ChatPosition, DroppedKinds, EventId,
    FactSource, StopReason,
};
use mineintent_backend::config::RunConfig;
use mineintent_backend::dispatch::{
    BrokerAdmission, EventDispatchState, ObservationSubscriptionStatus, RuntimeDispatchAdmission,
    RuntimeEventQueue,
};
use mineintent_backend::entity_events::{EntityIdentity, NormalizedEntityEvent};
use mineintent_backend::handle::RuntimeHandle;
use mineintent_backend::lanes::{
    LaneVerdict, Lanes, MarkerScope, CONTROL_CAPACITY, ORDINARY_CAPACITY,
};
use mineintent_backend::state::Effect;
use mineintent_backend::time::UtcInstant;

const AT: UtcInstant = UtcInstant { seconds: 1_700_000_000, nanos: 0 };

fn event(number: u64, payload: BackendEventPayload) -> Arc<BackendEventEnvelope> {
    Arc::new(BackendEventEnvelope {
        id: EventId::Event(number),
        occurred_at: AT,
        process_session_id: "session".to_owned(),
        connection_epoch: 1,
        connection_attempt_id: AttemptId { epoch: 1 },
        world_id: "world".to_owned(),
        dimension: None,
        source: FactSource::ServerObserved,
        payload,
    })
}

fn entity() -> BackendEventPayload {
    BackendEventPayload::Entity(NormalizedEntityEvent::Animation {
        entity: EntityIdentity::new(1, 7),
        animation: "tick".to_owned(),
    })
}

fn chat() -> BackendEventPayload {
    BackendEventPayload::Chat(ChatEvent {
        sender_username: None,
        plain_text: "hi".to_owned(),
        position: Some(ChatPosition::Chat),
        verified: None,
    })
}

fn stopped() -> BackendEventPayload {
    BackendEventPayload::Lifecycle(BackendLifecyclePayload::Stopped {
        reason: StopReason::Given("end".to_owned()),
    })
}

#[test]
fn lanes_hand_out_events_in_the_order_of_their_tickets() {
    let mut lanes = Lanes::new(MarkerScope::Dispatch);
    for number in 0..4 {
        let payload = if number % 2 == 0 { entity() } else { chat() };
        let pending = lanes.ticket(0, event(number, payload));
        assert_eq!(lanes.offer(&pending, false), LaneVerdict::Stored);
        lanes.advance_admission();
    }
    for number in 0..4 {
        assert_eq!(lanes.pop_next().expect("event").event.id, EventId::Event(number));
    }
    assert!(lanes.pop_next().is_none());
}

#[test]
fn an_event_waits_until_it_is_its_turn() {
    let mut dispatch = EventDispatchState::new();
    let first = dispatch.lanes.ticket(0, event(1, chat()));
    let second = dispatch.lanes.ticket(0, event(2, chat()));
    assert_eq!(dispatch.enqueue(&second, false), RuntimeDispatchAdmission::Wait);
    assert_eq!(dispatch.enqueue(&first, false), RuntimeDispatchAdmission::Accepted(true));
    assert_eq!(dispatch.enqueue(&second, false), RuntimeDispatchAdmission::Accepted(false));
}

#[test]
fn the_last_event_always_has_its_slot() {
    let mut queue = RuntimeEventQueue::new();
    for number in 0..CONTROL_CAPACITY as u64 {
        assert_eq!(queue.publish(event(number, chat()), false), BrokerAdmission::Accepted);
    }
    assert_eq!(queue.publish(event(900, stopped()), false), BrokerAdmission::Accepted);
    assert_eq!(queue.queued_count(), CONTROL_CAPACITY + 1);
}

#[test]
fn a_full_queue_parks_one_control_event() {
    let mut queue = RuntimeEventQueue::new();
    for number in 0..CONTROL_CAPACITY as u64 {
        assert_eq!(queue.publish(event(number, chat()), false), BrokerAdmission::Accepted);
    }
    assert_eq!(queue.publish(event(900, chat()), false), BrokerAdmission::Wait);
    assert_eq!(queue.parked.len(), 1);
    assert_eq!(queue.pop().expect("event").id, EventId::Event(0));
    assert_eq!(queue.resume(false), vec![BrokerAdmission::Accepted]);
    assert_eq!(queue.resume(false), Vec::new());
    assert!(queue.parked.is_empty());
    for number in 1..CONTROL_CAPACITY as u64 {
        assert_eq!(queue.pop().expect("event").id, EventId::Event(number));
    }
    assert_eq!(queue.pop().expect("event").id, EventId::Event(900));
}

#[test]
fn those_who_wait_are_admitted_in_their_order() {
    let mut queue = RuntimeEventQueue::new();
    for number in 0..CONTROL_CAPACITY as u64 {
        assert_eq!(queue.publish(event(number, chat()), false), BrokerAdmission::Accepted);
    }
    assert_eq!(queue.publish(event(900, chat()), false), BrokerAdmission::Wait);
    assert_eq!(queue.publish(event(901, entity()), false), BrokerAdmission::Wait);
    assert_eq!(queue.publish(event(902, chat()), false), BrokerAdmission::Wait);
    assert_eq!(queue.pop().expect("event").id, EventId::Event(0));
    assert_eq!(
        queue.resume(false),
        vec![BrokerAdmission::Accepted, BrokerAdmission::Accepted, BrokerAdmission::Wait]
    );
    assert_eq!(queue.pop().expect("event").id, EventId::Event(1));
    assert_eq!(queue.resume(false), vec![BrokerAdmission::Accepted]);
    for number in 2..CONTROL_CAPACITY as u64 {
        assert_eq!(queue.pop().expect("event").id, EventId::Event(number));
    }
    for number in 900..903 {
        assert_eq!(queue.pop().expect("event").id, EventId::Event(number));
    }
    assert!(queue.pop().is_none());
}

#[test]
fn a_cancellation_releases_the_parked_event() {
    let mut queue = RuntimeEventQueue::new();
    for number in 0..CONTROL_CAPACITY as u64 {
        queue.publish(event(number, chat()), false);
    }
    assert_eq!(queue.publish(event(900, chat()), false), BrokerAdmission::Wait);
    assert_eq!(queue.publish(event(901, chat()), false), BrokerAdmission::Wait);
    assert_eq!(
        queue.resume(true),
        vec![BrokerAdmission::Cancelled, BrokerAdmission::Cancelled]
    );
    assert!(queue.parked.is_empty());
    assert_eq!(queue.queued_count(), CONTROL_CAPACITY);
}

#[test]
fn there_is_one_drainer() {
    let mut dispatch = EventDispatchState::new();
    let first = dispatch.lanes.ticket(0, event(1, entity()));
    assert_eq!(dispatch.enqueue(&first, false), RuntimeDispatchAdmission::Accepted(true));
    let second = dispatch.lanes.ticket(0, event(2, entity()));
    assert_eq!(dispatch.enqueue(&second, false), RuntimeDispatchAdmission::Accepted(false));
    assert!(dispatch.drainer_active);
}

#[test]
fn lost_events_are_counted_by_one_marker() {
    let mut queue = RuntimeEventQueue::new();
    for number in 0..(ORDINARY_CAPACITY as u64 + 3) {
        assert_eq!(queue.publish(event(number, entity()), false), BrokerAdmission::Accepted);
    }
    for number in 0..ORDINARY_CAPACITY as u64 {
        assert_eq!(queue.pop().expect("event").id, EventId::Event(number));
    }
    match &queue.pop().expect("marker").payload {
        BackendEventPayload::Overflow { dropped_count: 3, .. } => {}
        payload => panic!("expected three lost events, got {payload:?}"),
    }
    assert!(queue.pop().is_none());
}

#[test]
fn each_loss_segment_has_its_own_marker() {
    let mut queue = RuntimeEventQueue::new();
    let block = || {
        BackendEventPayload::Block(BlockEvent { x: 0, y: 1, z: 2, name: "stone".to_owned() })
    };
    let connected = || BackendEventPayload::Lifecycle(BackendLifecyclePayload::TransportConnected);
    for number in 0..ORDINARY_CAPACITY as u64 {
        assert_eq!(queue.publish(event(number, entity()), false), BrokerAdmission::Accepted);
    }
    assert_eq!(queue.publish(event(256, entity()), false), BrokerAdmission::Accepted);
    assert_eq!(queue.publish(event(257, block()), false), BrokerAdmission::Accepted);
    assert_eq!(queue.publish(event(258, connected()), false), BrokerAdmission::Accepted);
    assert_eq!(queue.publish(event(259, entity()), false), BrokerAdmission::Accepted);
    for number in 0..ORDINARY_CAPACITY as u64 {
        assert_eq!(queue.pop().expect("event").id, EventId::Event(number));
    }
    let marker = queue.pop().expect("marker");
    assert_eq!(marker.id.text(), "runtime-overflow-257");
    assert_eq!(
        marker.payload,
        BackendEventPayload::Overflow {
            dropped_count: 2,
            dropped_kinds: DroppedKinds {
                first: BackendEventKind::Entity,
                second: Some(BackendEventKind::Block),
                third: None,
            },
        }
    );
    assert_eq!(queue.pop().expect("event").payload, connected());
    let marker = queue.pop().expect("marker");
    assert_eq!(marker.id.text(), "runtime-overflow-260");
    assert_eq!(
        marker.payload,
        BackendEventPayload::Overflow {
            dropped_count: 1,
            dropped_kinds: DroppedKinds {
                first: BackendEventKind::Entity,
                second: None,
                third: None,
            },
        }
    );
    assert!(queue.pop().is_none());
}

#[test]
fn a_closed_subscription_winds_down() {
    let mut status = ObservationSubscriptionStatus::new();
    assert!(status.reserve_callback());
    assert!(status.reserve_callback());
    assert!(status.start_callback());
    assert!(status.must_wait(0));
    assert!(!status.must_wait(1));
    status.close();
    assert!(status.is_closed());
    assert!(!status.reserve_callback());
    assert!(!status.start_callback());
    assert!(status.finish_callback());
    assert!(!status.must_wait(0));
}

#[test]
fn listeners_hear_their_own_epoch_alone() {
    let mut handle = RuntimeHandle::new(RunConfig::default(), "session".to_owned(), 1);
    assert!(handle.shared.begin_connection_attempt(AT));
    let now = handle.shared.add_observation_subscription(1);
    let later = handle.shared.add_observation_subscription(2);
    handle.shared.take_effects();
    handle.shared.emit(FactSource::ServerObserved, entity(), AT);
    let heard: Vec<u64> = handle
        .shared
        .take_effects()
        .into_iter()
        .filter_map(|effect| match effect {
            Effect::Deliver { subscription, .. } => Some(subscription),
            _ => None,
        })
        .collect();
    assert_eq!(heard, vec![now]);
    assert!(!handle.shared.observation_is_closed(later));
    handle.shared.remove_observation_subscription(now);
    assert!(handle.shared.observation_is_closed(now));
    assert!(!handle.shared.start_observation_callback(now));
}

#[test]
fn events_are_written_out_where_the_run_asks_for_it() {
    let mut quiet = RunConfig::default();
    quiet.emit_stdout = false;
    for (config, lines) in [(RunConfig::default(), 1), (quiet, 0)] {
        let mut handle = RuntimeHandle::new(config, "session".to_owned(), 1);
        handle.shared.emit(FactSource::ServerObserved, chat(), AT);
        let written = handle
            .shared
            .take_effects()
            .into_iter()
            .filter(|effect| matches!(effect, Effect::WriteLine(_)))
            .count();
        assert_eq!(written, lines);
    }
}

#[test]
fn each_subscriber_has_its_own_queue() {
    let mut handle = RuntimeHandle::new(RunConfig::default(), "session".to_owned(), 1);
    let first = handle.subscribe();
    let second = handle.subscribe();
    handle.shared.emit(FactSource::ServerObserved, chat(), AT);
    assert!(first.try_recv(&mut handle.shared).is_some());
    assert!(first.try_recv(&mut handle.shared).is_none());
    assert!(second.try_recv(&mut handle.shared).is_some());
    handle.shared.unsubscribe(second.subscriber);
    handle.shared.emit(FactSource::ServerObserved, chat(), AT);
    assert!(second.try_recv(&mut handle.shared).is_none());
    assert!(first.try_recv(&mut handle.shared).is_some());
}

#[test]
fn a_slow_subscriber_holds_control_events_back_without_losing_them() {
    let mut handle = RuntimeHandle::new(RunConfig::default(), "session".to_owned(), 1);
    let slow = handle.subscribe();
    let total = CONTROL_CAPACITY + 5;
    for _ in 0..total {
        handle.shared.emit(FactSource::ServerObserved, chat(), AT);
    }
    let mut taken: u64 = 0;
    loop {
        handle.shared.pump_events();
        match slow.try_recv(&mut handle.shared) {
            Some(event) => {
                taken += 1;
                assert_eq!(event.id, EventId::Event(taken));
            }
            None => break,
        }
    }
    assert_eq!(taken, total as u64);
}

#[test]
fn a_stop_is_told_though_its_events_wait() {
    let mut handle = RuntimeHandle::new(RunConfig::default(), "session".to_owned(), 1);
    let slow = handle.subscribe();
    for _ in 0..2 * CONTROL_CAPACITY + 5 {
        handle.shared.emit(FactSource::ServerObserved, chat(), AT);
    }
    handle.stop("end".to_owned(), AT);
    let mut told = Vec::new();
    loop {
        handle.shared.pump_events();
        match slow.try_recv(&mut handle.shared) {
            Some(event) => told.push(event),
            None => break,
        }
    }
    assert_eq!(told.iter().filter(|event| event.is_terminal()).count(), 1);
    assert!(told.last().expect("an end").is_terminal());
}
