//! The bridge's guarantees, stated over the machines' models and proved
//! once and for all. Each law speaks for every payload and every record.

use vstd::prelude::*;

use crate::agent::{agent_step_model, spec_classify, AgentActionModel, AgentEventModel, AgentState};
use crate::broker::{broker_slot_model, broker_step_model, BrokerActionModel, BrokerEventModel, BrokerState};
use crate::correlation::CorrelationRecord;
use crate::payload::{json_fields, CommandFields};
use crate::topics::Topic;

verus! {

/// Sticky correlation: a dispatched command payload whose document carries
/// an `id` leaves exactly that value as the pending identifier, and a
/// payload without the key leaves the prior value; the routing markers
/// behave the same way, field by field.
pub proof fn lemma_sticky_correlation(rec: CorrelationRecord, p: Seq<u8>, f: CommandFields)
    requires
        json_fields(p) == Some(f),
    ensures
        ({
            let r2 = broker_slot_model(BrokerState::Active, rec, BrokerEventModel::Command(p));
            &&& r2.pending_id == if f.id is Some { f.id->0 } else { rec.pending_id }
            &&& r2.destination == if f.to is Some { f.to->0 } else { rec.destination }
            &&& r2.origin == if f.from is Some { f.from->0 } else { rec.origin }
        }),
{
}

/// Classification is exclusive: a response whose parsed `id` equals the
/// pending identifier at the time of comparison goes to the acknowledgment
/// topic and never to the report topic, and every other parsed response
/// goes to the report topic and never to the acknowledgment topic.
pub proof fn lemma_classification_exclusive(pending_id: u64, f: CommandFields)
    ensures
        f.id == Some(pending_id) <==> spec_classify(pending_id, f) == Topic::CommandAck,
        f.id != Some(pending_id) <==> spec_classify(pending_id, f) == Topic::Report,
{
}

/// Round trip: a command payload dispatched in the active state is handed
/// to the command channel byte-for-byte unmodified, and a payload received
/// from the channel is written to the endpoint byte-for-byte unmodified.
/// With the channel itself first-in-first-out and content-preserving, the
/// bytes written to the endpoint are the bytes the broker delivered.
pub proof fn lemma_command_round_trip(broker_rec: CorrelationRecord, agent_rec: CorrelationRecord, p: Seq<u8>)
    ensures
        broker_step_model(BrokerState::Active, BrokerEventModel::Command(p)).1
            == BrokerActionModel::Enqueue(p),
        broker_step_model(BrokerState::Active, BrokerEventModel::Command(p)).0 == BrokerState::Active,
        agent_step_model(AgentState::Active, AgentEventModel::Command(p), agent_rec).1
            == AgentActionModel::Write(p),
        agent_step_model(AgentState::Active, AgentEventModel::Command(p), agent_rec).0
            == AgentState::Active,
{
}

/// Backpressure: a failed enqueue neither blocks nor tears anything down.
/// The dispatch loop stays active with no action owed, and the very next
/// command is dispatched as usual.
pub proof fn lemma_backpressure(rec: CorrelationRecord, p: Seq<u8>)
    ensures
        broker_step_model(BrokerState::Active, BrokerEventModel::EnqueueFailed) == (
            BrokerState::Active,
            BrokerActionModel::Nothing,
        ),
        broker_slot_model(BrokerState::Active, rec, BrokerEventModel::EnqueueFailed) == rec,
        broker_step_model(BrokerState::Active, BrokerEventModel::Command(p)).1
            == BrokerActionModel::Enqueue(p),
{
}

/// Malformed payloads are harmless on both sides: a command payload that
/// does not parse is still forwarded but leaves the correlation record
/// untouched and the dispatch loop running, and an endpoint response that
/// does not parse is discarded with no publication, no state change and no
/// change to the record.
pub proof fn lemma_malformed_discarded(rec: CorrelationRecord, p: Seq<u8>)
    requires
        json_fields(p) is None,
    ensures
        broker_slot_model(BrokerState::Active, rec, BrokerEventModel::Command(p)) == rec,
        broker_step_model(BrokerState::Active, BrokerEventModel::Command(p)) == (
            BrokerState::Active,
            BrokerActionModel::Enqueue(p),
        ),
        agent_step_model(AgentState::Active, AgentEventModel::SocketData(p), rec) == (
            AgentState::Active,
            AgentActionModel::Nothing,
        ),
{
}

} // verus!
