//! The agent-link state machine: connection and registration lifecycle,
//! command forwarding, and classification of endpoint responses.
//!
//! The machine decides, from the current state, one observed event and the
//! correlation record, the next state and the action the embedding must
//! perform. The embedding owns the endpoint and the command channel and
//! feeds their outcomes back as events.

use vstd::prelude::*;

use crate::correlation::CorrelationRecord;
use crate::payload::{json_fields, parse_fields, CommandFields};
use crate::topics::Topic;

verus! {

/// The agent link's state. The link is `Active` only after a connection
/// succeeded and the registration handshake was issued; it terminates only
/// when the command channel is permanently closed.
#[derive(Clone, Copy, PartialEq, Eq, Structural, Debug)]
pub enum AgentState {
    Disconnected,
    Active,
    Terminated,
}

/// One observed outcome on the agent side.
#[derive(Debug, PartialEq, Eq)]
pub enum AgentEvent {
    /// A connection attempt on the endpoint succeeded.
    ConnectOk,
    /// A connection attempt on the endpoint failed.
    ConnectFailed,
    /// A command payload arrived on the command channel.
    Command(Vec<u8>),
    /// The command channel is permanently closed: no sender remains.
    ChannelClosed,
    /// A write to the endpoint failed.
    SendFailed,
    /// A non-empty datagram arrived from the endpoint.
    SocketData(Vec<u8>),
    /// A zero-length read: the endpoint closed in an orderly way.
    SocketClosed,
    /// A read error on the endpoint.
    SocketError,
}

/// The ghost model of an event: payloads as byte sequences.
pub enum AgentEventModel {
    ConnectOk,
    ConnectFailed,
    Command(Seq<u8>),
    ChannelClosed,
    SendFailed,
    SocketData(Seq<u8>),
    SocketClosed,
    SocketError,
}

impl View for AgentEvent {
    type V = AgentEventModel;

    open spec fn view(&self) -> AgentEventModel {
        match self {
            AgentEvent::ConnectOk => AgentEventModel::ConnectOk,
            AgentEvent::ConnectFailed => AgentEventModel::ConnectFailed,
            AgentEvent::Command(p) => AgentEventModel::Command(p@),
            AgentEvent::ChannelClosed => AgentEventModel::ChannelClosed,
            AgentEvent::SendFailed => AgentEventModel::SendFailed,
            AgentEvent::SocketData(p) => AgentEventModel::SocketData(p@),
            AgentEvent::SocketClosed => AgentEventModel::SocketClosed,
            AgentEvent::SocketError => AgentEventModel::SocketError,
        }
    }
}

/// The action the embedding must perform after a step.
#[derive(Debug, PartialEq, Eq)]
pub enum AgentAction {
    /// Send the bind message and the eight registration messages, in order,
    /// over the fresh connection.
    Handshake,
    /// Write this payload to the endpoint, unmodified.
    Write(Vec<u8>),
    /// Publish this payload, unmodified, to the given outbound topic.
    Publish(Topic, Vec<u8>),
    /// Wait the fixed retry delay, then attempt to connect again.
    Retry,
    /// End the agent link's responsibility: the process is shutting down.
    Exit,
    /// Nothing to do; the message was discarded or the event needs no action.
    Nothing,
}

/// The ghost model of an action: payloads as byte sequences.
pub enum AgentActionModel {
    Handshake,
    Write(Seq<u8>),
    Publish(Topic, Seq<u8>),
    Retry,
    Exit,
    Nothing,
}

impl View for AgentAction {
    type V = AgentActionModel;

    open spec fn view(&self) -> AgentActionModel {
        match self {
            AgentAction::Handshake => AgentActionModel::Handshake,
            AgentAction::Write(p) => AgentActionModel::Write(p@),
            AgentAction::Publish(t, p) => AgentActionModel::Publish(*t, p@),
            AgentAction::Retry => AgentActionModel::Retry,
            AgentAction::Exit => AgentActionModel::Exit,
            AgentAction::Nothing => AgentActionModel::Nothing,
        }
    }
}

/// Classification of one set of parsed response fields against the pending
/// correlation identifier: an acknowledgment exactly when the response
/// carries an `id` equal to the pending one, a report otherwise.
pub open spec fn spec_classify(pending_id: u64, fields: CommandFields) -> Topic {
    if fields.id == Some(pending_id) {
        Topic::CommandAck
    } else {
        Topic::Report
    }
}

/// Classification of a raw response payload: a payload that does not parse
/// is discarded (`None`); a parsed payload goes to exactly one of the two
/// outbound topics.
pub open spec fn spec_classify_payload(pending_id: u64, bytes: Seq<u8>) -> Option<Topic> {
    match json_fields(bytes) {
        Some(f) => Some(spec_classify(pending_id, f)),
        None => None,
    }
}

/// Classify one set of parsed response fields against the pending
/// identifier read from the correlation record.
pub fn classify_fields(pending_id: u64, fields: &CommandFields) -> (t: Topic)
    ensures
        t == spec_classify(pending_id, *fields),
{
    match fields.id {
        Some(id) if id == pending_id => Topic::CommandAck,
        _ => Topic::Report,
    }
}

/// Classify one raw response payload against the pending identifier:
/// `None` exactly when the payload is not a valid document.
pub fn classify_response(pending_id: u64, payload: &[u8]) -> (t: Option<Topic>)
    ensures
        t == spec_classify_payload(pending_id, payload@),
{
    match parse_fields(payload) {
        Some(fields) => Some(classify_fields(pending_id, &fields)),
        None => None,
    }
}

/// The full transition table of the agent machine. The handshake is issued
/// exactly on a successful connection, never on a failed attempt; a command
/// is written to the endpoint byte-for-byte unmodified; a permanently closed
/// command channel ends the link; endpoint data is published unmodified to
/// the topic its correlation decides, or discarded when it does not parse;
/// a closed or failing endpoint falls back to `Disconnected` and retries.
pub open spec fn agent_step_model(s: AgentState, e: AgentEventModel, rec: CorrelationRecord) -> (AgentState, AgentActionModel) {
    match (s, e) {
        (AgentState::Disconnected, AgentEventModel::ConnectOk) => (AgentState::Active, AgentActionModel::Handshake),
        (AgentState::Disconnected, AgentEventModel::ConnectFailed) => (AgentState::Disconnected, AgentActionModel::Retry),
        (AgentState::Active, AgentEventModel::Command(p)) => (AgentState::Active, AgentActionModel::Write(p)),
        (AgentState::Active, AgentEventModel::ChannelClosed) => (AgentState::Terminated, AgentActionModel::Exit),
        (AgentState::Active, AgentEventModel::SendFailed) => (AgentState::Disconnected, AgentActionModel::Retry),
        (AgentState::Active, AgentEventModel::SocketData(p)) => (
            AgentState::Active,
            match spec_classify_payload(rec.pending_id, p) {
                Some(t) => AgentActionModel::Publish(t, p),
                None => AgentActionModel::Nothing,
            },
        ),
        (AgentState::Active, AgentEventModel::SocketClosed) => (AgentState::Disconnected, AgentActionModel::Retry),
        (AgentState::Active, AgentEventModel::SocketError) => (AgentState::Disconnected, AgentActionModel::Retry),
        _ => (s, AgentActionModel::Nothing),
    }
}

/// The agent machine run over a whole sequence of events: the final state
/// and the actions issued, one per event, in order. The correlation record
/// is only read on this side, so it is constant across the run.
pub open spec fn agent_run(s: AgentState, rec: CorrelationRecord, events: Seq<AgentEventModel>) -> (AgentState, Seq<AgentActionModel>)
    decreases events.len(),
{
    if events.len() == 0 {
        (s, Seq::empty())
    } else {
        let step = agent_step_model(s, events[0], rec);
        let rest = agent_run(step.0, rec, events.drop_first());
        (rest.0, seq![step.1] + rest.1)
    }
}

/// Reconnection is idempotent: however many connection attempts fail, the
/// link stays disconnected and answers each failure with a retry and no
/// handshake; the first successful attempt then issues exactly one
/// handshake. So one bind and one round of registrations go out per
/// successful connection, never per retry attempt.
pub proof fn lemma_handshake_once_per_connection(rec: CorrelationRecord, failures: Seq<AgentEventModel>)
    requires
        forall|i: int| 0 <= i < failures.len() ==> failures[i] == AgentEventModel::ConnectFailed,
    ensures
        agent_run(AgentState::Disconnected, rec, failures).0 == AgentState::Disconnected,
        agent_run(AgentState::Disconnected, rec, failures).1.len() == failures.len(),
        forall|i: int| 0 <= i < failures.len() ==> agent_run(AgentState::Disconnected, rec, failures).1[i] == AgentActionModel::Retry,
        agent_run(AgentState::Disconnected, rec, failures.push(AgentEventModel::ConnectOk)).0 == AgentState::Active,
        agent_run(AgentState::Disconnected, rec, failures.push(AgentEventModel::ConnectOk)).1 =~= agent_run(
            AgentState::Disconnected,
            rec,
            failures,
        ).1.push(AgentActionModel::Handshake),
    decreases failures.len(),
{
    let connected = failures.push(AgentEventModel::ConnectOk);
    if failures.len() == 0 {
        assert(agent_run(AgentState::Disconnected, rec, failures).1 =~= Seq::<AgentActionModel>::empty());
        assert(connected[0] == AgentEventModel::ConnectOk);
        assert(connected.drop_first() =~= Seq::<AgentEventModel>::empty());
        assert(connected.drop_first() == Seq::<AgentEventModel>::empty());
        assert(agent_run(AgentState::Active, rec, Seq::<AgentEventModel>::empty()).1 =~= Seq::<
            AgentActionModel,
        >::empty());
        assert(agent_run(AgentState::Disconnected, rec, connected).1 =~= seq![AgentActionModel::Handshake]);
    } else {
        assert(forall|i: int|
            0 <= i < failures.drop_first().len() ==> failures.drop_first()[i]
                == AgentEventModel::ConnectFailed);
        lemma_handshake_once_per_connection(rec, failures.drop_first());
        assert(failures[0] == AgentEventModel::ConnectFailed);
        assert(connected[0] == AgentEventModel::ConnectFailed);
        assert(connected.drop_first() =~= failures.drop_first().push(AgentEventModel::ConnectOk));
        assert(connected.drop_first() == failures.drop_first().push(AgentEventModel::ConnectOk));
        assert(agent_run(AgentState::Disconnected, rec, connected).1 =~= agent_run(
            AgentState::Disconnected,
            rec,
            failures,
        ).1.push(AgentActionModel::Handshake));
    }
}

/// One step of the agent machine. The correlation record is only read (under
/// the embedding's lock), never written, on this side.
pub fn agent_step(s: AgentState, e: AgentEvent, rec: &CorrelationRecord) -> (r: (AgentState, AgentAction))
    ensures
        (r.0, r.1@) == agent_step_model(s, e@, *rec),
{
    match (s, e) {
        (AgentState::Disconnected, AgentEvent::ConnectOk) => (AgentState::Active, AgentAction::Handshake),
        (AgentState::Disconnected, AgentEvent::ConnectFailed) => (AgentState::Disconnected, AgentAction::Retry),
        (AgentState::Active, AgentEvent::Command(p)) => (AgentState::Active, AgentAction::Write(p)),
        (AgentState::Active, AgentEvent::ChannelClosed) => (AgentState::Terminated, AgentAction::Exit),
        (AgentState::Active, AgentEvent::SendFailed) => (AgentState::Disconnected, AgentAction::Retry),
        (AgentState::Active, AgentEvent::SocketData(p)) => {
            let action = match classify_response(rec.pending_id, p.as_slice()) {
                Some(t) => AgentAction::Publish(t, p),
                None => AgentAction::Nothing,
            };
            (AgentState::Active, action)
        },
        (AgentState::Active, AgentEvent::SocketClosed) => (AgentState::Disconnected, AgentAction::Retry),
        (AgentState::Active, AgentEvent::SocketError) => (AgentState::Disconnected, AgentAction::Retry),
        (s, _) => (s, AgentAction::Nothing),
    }
}

} // verus!
