//! Subscriber resilience: malformed payloads are skipped, termination
//! happens only on transport failure or shutdown.

use registrar::codec::{encode_event, CompanyEvent};
use registrar::ids::Id;
use registrar::subscriber::{
    subscriber_step, SubscriberAction, SubscriberEvent, SubscriberState,
};

fn well_formed_payload(tag: u64) -> Vec<u8> {
    let event = CompanyEvent {
        id: Id::from_parts(tag, tag),
        name: "Acme".as_bytes().to_vec(),
        url: None,
    };
    encode_event(&event).expect("small event is encodable")
}

#[test]
fn good_bad_good_delivers_twice_and_never_terminates() {
    let feed = vec![
        SubscriberEvent::Message(well_formed_payload(1)),
        SubscriberEvent::Message(vec![0xff; 10]),
        SubscriberEvent::Message(well_formed_payload(2)),
    ];
    let mut state = SubscriberState::Listening;
    let mut deliveries = 0;
    let mut terminations = 0;
    for event in feed {
        let (next, action) = subscriber_step(state, event);
        match action {
            SubscriberAction::Deliver(_) => deliveries += 1,
            SubscriberAction::SkipMalformed => {}
            SubscriberAction::Surface => terminations += 1,
            SubscriberAction::Ignore => terminations += 1,
        }
        state = next;
    }
    assert_eq!(deliveries, 2);
    assert_eq!(terminations, 0);
    assert_eq!(state, SubscriberState::Listening);
}

#[test]
fn delivered_event_carries_the_payload() {
    let payload = well_formed_payload(9);
    let (state, action) = subscriber_step(
        SubscriberState::Listening,
        SubscriberEvent::Message(payload),
    );
    assert_eq!(state, SubscriberState::Listening);
    match action {
        SubscriberAction::Deliver(event) => {
            assert_eq!(event.id, Id::from_parts(9, 9));
            assert_eq!(event.name, "Acme".as_bytes().to_vec());
        }
        _ => panic!("a well-formed payload must be delivered"),
    }
}

#[test]
fn transport_failure_terminates_and_surfaces() {
    let (state, action) = subscriber_step(
        SubscriberState::Listening,
        SubscriberEvent::TransportClosed,
    );
    assert_eq!(state, SubscriberState::Terminated);
    assert!(matches!(action, SubscriberAction::Surface));
}

#[test]
fn shutdown_terminates_and_surfaces() {
    let (state, action) = subscriber_step(SubscriberState::Listening, SubscriberEvent::Shutdown);
    assert_eq!(state, SubscriberState::Terminated);
    assert!(matches!(action, SubscriberAction::Surface));
}

#[test]
fn terminated_subscriber_ignores_messages() {
    let (state, action) = subscriber_step(
        SubscriberState::Terminated,
        SubscriberEvent::Message(well_formed_payload(1)),
    );
    assert_eq!(state, SubscriberState::Terminated);
    assert!(matches!(action, SubscriberAction::Ignore));
}
