use agent2mqtt::agent::{agent_step, classify_fields, classify_response, AgentAction, AgentEvent, AgentState};
use agent2mqtt::broker::{broker_step, BrokerAction, BrokerEvent, BrokerState};
use agent2mqtt::correlation::CorrelationRecord;
use agent2mqtt::payload::CommandFields;
use agent2mqtt::topics::Topic;

#[test]
fn new_record_is_all_zero() {
    let rec = CorrelationRecord::new();
    assert_eq!(rec.pending_id, 0);
    assert_eq!(rec.destination, 0);
    assert_eq!(rec.origin, 0);
}

#[test]
fn apply_overwrites_present_fields() {
    let mut rec = CorrelationRecord::new();
    rec.apply(&CommandFields { id: Some(42), to: Some(1), from: Some(2) });
    assert_eq!(rec.pending_id, 42);
    assert_eq!(rec.destination, 1);
    assert_eq!(rec.origin, 2);
}

#[test]
fn apply_keeps_absent_fields_sticky() {
    let mut rec = CorrelationRecord::new();
    rec.apply(&CommandFields { id: Some(42), to: Some(1), from: Some(2) });
    rec.apply(&CommandFields { id: None, to: Some(5), from: None });
    assert_eq!(rec.pending_id, 42);
    assert_eq!(rec.destination, 5);
    assert_eq!(rec.origin, 2);
}

#[test]
fn dispatched_command_updates_record() {
    let mut rec = CorrelationRecord::new();
    let payload = br#"{"id":42,"_to":1,"_from":2}"#.to_vec();
    let (state, action) =
        broker_step(BrokerState::Active, BrokerEvent::Command(payload.clone()), &mut rec);
    assert_eq!(state, BrokerState::Active);
    assert_eq!(action, BrokerAction::Enqueue(payload));
    assert_eq!(rec.pending_id, 42);
    assert_eq!(rec.destination, 1);
    assert_eq!(rec.origin, 2);
}

#[test]
fn dispatched_command_with_missing_keys_is_sticky() {
    let mut rec = CorrelationRecord::new();
    broker_step(
        BrokerState::Active,
        BrokerEvent::Command(br#"{"id":42,"_to":1,"_from":2}"#.to_vec()),
        &mut rec,
    );
    broker_step(
        BrokerState::Active,
        BrokerEvent::Command(br#"{"_to":7}"#.to_vec()),
        &mut rec,
    );
    assert_eq!(rec.pending_id, 42);
    assert_eq!(rec.destination, 7);
    assert_eq!(rec.origin, 2);
}

#[test]
fn malformed_command_is_forwarded_but_leaves_record() {
    let mut rec = CorrelationRecord::new();
    broker_step(
        BrokerState::Active,
        BrokerEvent::Command(br#"{"id":42}"#.to_vec()),
        &mut rec,
    );
    let garbage = b"{not json at all".to_vec();
    let (state, action) =
        broker_step(BrokerState::Active, BrokerEvent::Command(garbage.clone()), &mut rec);
    assert_eq!(state, BrokerState::Active);
    assert_eq!(action, BrokerAction::Enqueue(garbage));
    assert_eq!(rec.pending_id, 42);
}

#[test]
fn classify_matching_id_is_acknowledgment() {
    let t = classify_fields(42, &CommandFields { id: Some(42), to: None, from: None });
    assert_eq!(t, Topic::CommandAck);
}

#[test]
fn classify_other_id_is_report() {
    let t = classify_fields(42, &CommandFields { id: Some(7), to: None, from: None });
    assert_eq!(t, Topic::Report);
    let t = classify_fields(42, &CommandFields { id: None, to: None, from: None });
    assert_eq!(t, Topic::Report);
}

#[test]
fn classify_response_parses_real_payloads() {
    assert_eq!(classify_response(42, br#"{"id":42,"result":"ok"}"#), Some(Topic::CommandAck));
    assert_eq!(classify_response(42, br#"{"id":7,"event":"motion"}"#), Some(Topic::Report));
    assert_eq!(classify_response(42, br#"{"event":"motion"}"#), Some(Topic::Report));
    assert_eq!(classify_response(42, b"not json at all"), None);
}

#[test]
fn command_then_matching_response_goes_to_ack_topic() {
    let mut rec = CorrelationRecord::new();
    broker_step(
        BrokerState::Active,
        BrokerEvent::Command(br#"{"id":42,"_to":1,"_from":2}"#.to_vec()),
        &mut rec,
    );
    assert_eq!(rec.pending_id, 42);
    assert_eq!(rec.destination, 1);
    assert_eq!(rec.origin, 2);
    let response = br#"{"id":42,"result":"ok"}"#.to_vec();
    let (state, action) =
        agent_step(AgentState::Active, AgentEvent::SocketData(response.clone()), &rec);
    assert_eq!(state, AgentState::Active);
    assert_eq!(action, AgentAction::Publish(Topic::CommandAck, response));
    assert_eq!(Topic::CommandAck.name(), "miio/command_ack");
}

#[test]
fn unsolicited_response_goes_to_report_topic() {
    let mut rec = CorrelationRecord::new();
    broker_step(
        BrokerState::Active,
        BrokerEvent::Command(br#"{"id":42}"#.to_vec()),
        &mut rec,
    );
    let response = br#"{"id":7,"event":"motion"}"#.to_vec();
    let (state, action) =
        agent_step(AgentState::Active, AgentEvent::SocketData(response.clone()), &rec);
    assert_eq!(state, AgentState::Active);
    assert_eq!(action, AgentAction::Publish(Topic::Report, response));
    assert_eq!(Topic::Report.name(), "openmiio/report");
}

#[test]
fn malformed_response_is_discarded_without_publication() {
    let mut rec = CorrelationRecord::new();
    broker_step(
        BrokerState::Active,
        BrokerEvent::Command(br#"{"id":42}"#.to_vec()),
        &mut rec,
    );
    let (state, action) =
        agent_step(AgentState::Active, AgentEvent::SocketData(b"]]]".to_vec()), &rec);
    assert_eq!(state, AgentState::Active);
    assert_eq!(action, AgentAction::Nothing);
    assert_eq!(rec.pending_id, 42);
}
