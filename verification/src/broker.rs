//! The broker-side connection, subscription and dispatch state machine.
//!
//! The machine decides, from the current state and one observed event, the
//! next state, the action the embedding must perform, and the update of the
//! shared correlation record. The embedding performs the connection,
//! subscription and stream reads and feeds their outcomes back as events.

use vstd::prelude::*;

use crate::correlation::{spec_absorb, CorrelationRecord};
use crate::payload::{json_fields, parse_fields};

verus! {

/// The broker link's state: no live session, a session awaiting its
/// subscription, or a subscribed session dispatching inbound messages.
#[derive(Clone, Copy, PartialEq, Eq, Structural, Debug)]
pub enum BrokerState {
    Disconnected,
    Subscribing,
    Active,
}

/// One observed outcome on the broker side.
#[derive(Debug, PartialEq, Eq)]
pub enum BrokerEvent {
    /// A connection attempt succeeded.
    ConnectOk,
    /// A connection attempt failed.
    ConnectFailed,
    /// The subscription to the command topic succeeded.
    SubscribeOk,
    /// The subscription to the command topic failed.
    SubscribeFailed,
    /// A message arrived on the command topic, with its raw payload.
    Command(Vec<u8>),
    /// A message arrived on some other topic.
    OtherTopic,
    /// The message stream signalled a lost connection or ended.
    StreamLost,
    /// An enqueue onto the command channel failed (channel full or receiver
    /// gone); reported back so the machine can state that dispatch goes on.
    EnqueueFailed,
}

/// The ghost model of an event: payloads as byte sequences.
pub enum BrokerEventModel {
    ConnectOk,
    ConnectFailed,
    SubscribeOk,
    SubscribeFailed,
    Command(Seq<u8>),
    OtherTopic,
    StreamLost,
    EnqueueFailed,
}

impl View for BrokerEvent {
    type V = BrokerEventModel;

    open spec fn view(&self) -> BrokerEventModel {
        match self {
            BrokerEvent::ConnectOk => BrokerEventModel::ConnectOk,
            BrokerEvent::ConnectFailed => BrokerEventModel::ConnectFailed,
            BrokerEvent::SubscribeOk => BrokerEventModel::SubscribeOk,
            BrokerEvent::SubscribeFailed => BrokerEventModel::SubscribeFailed,
            BrokerEvent::Command(p) => BrokerEventModel::Command(p@),
            BrokerEvent::OtherTopic => BrokerEventModel::OtherTopic,
            BrokerEvent::StreamLost => BrokerEventModel::StreamLost,
            BrokerEvent::EnqueueFailed => BrokerEventModel::EnqueueFailed,
        }
    }
}

/// The action the embedding must perform after a step.
#[derive(Debug, PartialEq, Eq)]
pub enum BrokerAction {
    /// Subscribe to the command topic.
    Subscribe,
    /// Wait the fixed retry delay, then attempt to connect again.
    Retry,
    /// Explicitly disconnect the live session, then wait and reconnect:
    /// a connected-but-unsubscribed session is never left standing.
    DisconnectThenRetry,
    /// Forward this payload to the command channel, unmodified.
    Enqueue(Vec<u8>),
    /// Nothing to do; keep consuming the stream.
    Nothing,
}

/// The ghost model of an action: payloads as byte sequences.
pub enum BrokerActionModel {
    Subscribe,
    Retry,
    DisconnectThenRetry,
    Enqueue(Seq<u8>),
    Nothing,
}

impl View for BrokerAction {
    type V = BrokerActionModel;

    open spec fn view(&self) -> BrokerActionModel {
        match self {
            BrokerAction::Subscribe => BrokerActionModel::Subscribe,
            BrokerAction::Retry => BrokerActionModel::Retry,
            BrokerAction::DisconnectThenRetry => BrokerActionModel::DisconnectThenRetry,
            BrokerAction::Enqueue(p) => BrokerActionModel::Enqueue(p@),
            BrokerAction::Nothing => BrokerActionModel::Nothing,
        }
    }
}

/// The full transition table of the broker machine: next state and action.
/// The session becomes `Active` only once both the connection and the
/// subscription have succeeded; a failed subscription tears the session
/// down before retrying; a command payload is always forwarded, unmodified,
/// whether or not it parses; a failed enqueue never leaves the dispatch
/// state or the subscription.
pub open spec fn broker_step_model(s: BrokerState, e: BrokerEventModel) -> (BrokerState, BrokerActionModel) {
    match (s, e) {
        (BrokerState::Disconnected, BrokerEventModel::ConnectOk) => (BrokerState::Subscribing, BrokerActionModel::Subscribe),
        (BrokerState::Disconnected, BrokerEventModel::ConnectFailed) => (BrokerState::Disconnected, BrokerActionModel::Retry),
        (BrokerState::Subscribing, BrokerEventModel::SubscribeOk) => (BrokerState::Active, BrokerActionModel::Nothing),
        (BrokerState::Subscribing, BrokerEventModel::SubscribeFailed) => (BrokerState::Disconnected, BrokerActionModel::DisconnectThenRetry),
        (BrokerState::Active, BrokerEventModel::Command(p)) => (BrokerState::Active, BrokerActionModel::Enqueue(p)),
        (BrokerState::Active, BrokerEventModel::OtherTopic) => (BrokerState::Active, BrokerActionModel::Nothing),
        (BrokerState::Active, BrokerEventModel::EnqueueFailed) => (BrokerState::Active, BrokerActionModel::Nothing),
        (BrokerState::Active, BrokerEventModel::StreamLost) => (BrokerState::Disconnected, BrokerActionModel::Retry),
        _ => (s, BrokerActionModel::Nothing),
    }
}

/// The correlation record after the machine sees an event: only a command
/// payload dispatched in the `Active` state touches it, sticky field by
/// sticky field, and a payload that does not parse leaves it untouched.
pub open spec fn broker_slot_model(s: BrokerState, rec: CorrelationRecord, e: BrokerEventModel) -> CorrelationRecord {
    match (s, e) {
        (BrokerState::Active, BrokerEventModel::Command(p)) => spec_absorb(rec, json_fields(p)),
        _ => rec,
    }
}

/// One step of the broker machine. The correlation record is updated from
/// the parsed fields of a command payload (absent keys and unparsable
/// payloads leave fields intact), and the payload is handed on for the
/// command channel byte-for-byte unmodified, parsed or not.
pub fn broker_step(s: BrokerState, e: BrokerEvent, rec: &mut CorrelationRecord) -> (r: (BrokerState, BrokerAction))
    ensures
        (r.0, r.1@) == broker_step_model(s, e@),
        *final(rec) == broker_slot_model(s, *old(rec), e@),
{
    match (s, e) {
        (BrokerState::Disconnected, BrokerEvent::ConnectOk) => (BrokerState::Subscribing, BrokerAction::Subscribe),
        (BrokerState::Disconnected, BrokerEvent::ConnectFailed) => (BrokerState::Disconnected, BrokerAction::Retry),
        (BrokerState::Subscribing, BrokerEvent::SubscribeOk) => (BrokerState::Active, BrokerAction::Nothing),
        (BrokerState::Subscribing, BrokerEvent::SubscribeFailed) => (BrokerState::Disconnected, BrokerAction::DisconnectThenRetry),
        (BrokerState::Active, BrokerEvent::Command(p)) => {
            if let Some(fields) = parse_fields(p.as_slice()) {
                rec.apply(&fields);
            }
            (BrokerState::Active, BrokerAction::Enqueue(p))
        },
        (BrokerState::Active, BrokerEvent::OtherTopic) => (BrokerState::Active, BrokerAction::Nothing),
        (BrokerState::Active, BrokerEvent::EnqueueFailed) => (BrokerState::Active, BrokerAction::Nothing),
        (BrokerState::Active, BrokerEvent::StreamLost) => (BrokerState::Disconnected, BrokerAction::Retry),
        (s, _) => (s, BrokerAction::Nothing),
    }
}

} // verus!
