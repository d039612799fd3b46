//! The event subscriber: a two-state machine that pulls company-creation
//! messages and dispatches them to a handler.
//!
//! The machine decides; the surrounding runner performs. Each pulled
//! message, transport failure or shutdown signal is handed to
//! [`subscriber_step`], which returns the next state and the action to
//! perform: invoke the handler, log and skip a malformed payload, or
//! surface the termination to the process supervisor. A malformed payload
//! never terminates the loop; only a subscription-level failure or the
//! explicit shutdown signal does. Reconnection is deliberately not here —
//! that policy belongs to the supervisor.

use vstd::prelude::*;

use crate::codec::{decode_event, encode_spec, event_wf, CompanyEvent};

verus! {

/// Whether some well-formed event encodes to exactly these bytes.
pub open spec fn decodable(b: Seq<u8>) -> bool {
    exists|e: CompanyEvent| event_wf(e) && encode_spec(e) == b
}

/// The subscriber's two states.
#[derive(Clone, Copy, Debug, PartialEq, Eq, Structural)]
pub enum SubscriberState {
    Listening,
    Terminated,
}

/// What the transport hands the subscriber next.
pub enum SubscriberEvent {
    /// The next message's payload bytes.
    Message(Vec<u8>),
    /// The subscription failed at transport level, with no reconnect
    /// policy of its own.
    TransportClosed,
    /// The explicit shutdown signal.
    Shutdown,
}

/// What the runner is to do after a step.
pub enum SubscriberAction {
    /// Invoke the registered handler with the decoded event. Handler
    /// errors are the runner's to catch and log; they end only that
    /// iteration's handling, never the subscription loop.
    Deliver(CompanyEvent),
    /// Log the malformed payload and continue the loop.
    SkipMalformed,
    /// Surface the termination to the process supervisor.
    Surface,
    /// Nothing: a terminated subscriber processes no further messages.
    Ignore,
}

/// The state after one step.
pub open spec fn next_state(s: SubscriberState, ev: SubscriberEvent) -> SubscriberState {
    match s {
        SubscriberState::Terminated => SubscriberState::Terminated,
        SubscriberState::Listening => match ev {
            SubscriberEvent::Message(_) => SubscriberState::Listening,
            SubscriberEvent::TransportClosed => SubscriberState::Terminated,
            SubscriberEvent::Shutdown => SubscriberState::Terminated,
        },
    }
}

/// Whether one step invokes the handler.
pub open spec fn step_delivers(s: SubscriberState, ev: SubscriberEvent) -> bool {
    s is Listening && (ev matches SubscriberEvent::Message(b) && decodable(b@))
}

/// One step of the subscriber loop.
pub fn subscriber_step(state: SubscriberState, event: SubscriberEvent) -> (r: (
    SubscriberState,
    SubscriberAction,
))
    ensures
        r.0 == next_state(state, event),
        (r.1 is Deliver) <==> step_delivers(state, event),
        match r.1 {
            SubscriberAction::Deliver(e) => event_wf(e) && (event
                matches SubscriberEvent::Message(b) && b@ == encode_spec(e)),
            _ => true,
        },
        (r.1 is SkipMalformed) <==> (state is Listening && (event
            matches SubscriberEvent::Message(b) && !decodable(b@))),
        (r.1 is Surface) <==> (state is Listening && !(event is Message)),
        (r.1 is Ignore) <==> (state is Terminated),
{
    match state {
        SubscriberState::Terminated => (SubscriberState::Terminated, SubscriberAction::Ignore),
        SubscriberState::Listening => match event {
            SubscriberEvent::Message(b) => match decode_event(&b) {
                Some(e) => {
                    proof {
                        assert(event_wf(e) && encode_spec(e) == b@);
                    }
                    (SubscriberState::Listening, SubscriberAction::Deliver(e))
                },
                None => (SubscriberState::Listening, SubscriberAction::SkipMalformed),
            },
            SubscriberEvent::TransportClosed => (
                SubscriberState::Terminated,
                SubscriberAction::Surface,
            ),
            SubscriberEvent::Shutdown => (SubscriberState::Terminated, SubscriberAction::Surface),
        },
    }
}

/// The state after feeding a whole sequence of events, in order.
pub open spec fn run_state(s: SubscriberState, evs: Seq<SubscriberEvent>) -> SubscriberState
    decreases evs.len(),
{
    if evs.len() == 0 {
        s
    } else {
        next_state(run_state(s, evs.drop_last()), evs.last())
    }
}

/// How many steps of the run invoke the handler.
pub open spec fn deliveries(s: SubscriberState, evs: Seq<SubscriberEvent>) -> nat
    decreases evs.len(),
{
    if evs.len() == 0 {
        0
    } else {
        deliveries(s, evs.drop_last()) + (if step_delivers(
            run_state(s, evs.drop_last()),
            evs.last(),
        ) {
            1nat
        } else {
            0nat
        })
    }
}

/// How many of the events are messages with a well-formed payload.
pub open spec fn decodable_count(evs: Seq<SubscriberEvent>) -> nat
    decreases evs.len(),
{
    if evs.len() == 0 {
        0
    } else {
        decodable_count(evs.drop_last()) + (if evs.last()
            matches SubscriberEvent::Message(b) && decodable(b@) {
            1nat
        } else {
            0nat
        })
    }
}

/// Subscriber resilience: a listening subscriber fed any mix of
/// well-formed and malformed payloads invokes the handler exactly once per
/// well-formed payload and never leaves `Listening` — no number of
/// malformed messages terminates the loop.
pub proof fn lemma_subscriber_resilience(evs: Seq<SubscriberEvent>)
    requires
        forall|i: int| 0 <= i < evs.len() ==> evs[i] is Message,
    ensures
        run_state(SubscriberState::Listening, evs) is Listening,
        deliveries(SubscriberState::Listening, evs) == decodable_count(evs),
    decreases evs.len(),
{
    if evs.len() > 0 {
        assert(forall|i: int|
            0 <= i < evs.drop_last().len() ==> evs.drop_last()[i] == evs[i]);
        lemma_subscriber_resilience(evs.drop_last());
        assert(evs.last() == evs[evs.len() - 1]);
    }
}

} // verus!
