use agent2mqtt::agent::{agent_step, AgentAction, AgentEvent, AgentState};
use agent2mqtt::broker::{broker_step, BrokerAction, BrokerEvent, BrokerState};
use agent2mqtt::correlation::CorrelationRecord;
use agent2mqtt::handshake::{bind_message, decimal_string, handshake_messages, registration_messages};
use agent2mqtt::logging::{init_log, LogLevel};
use agent2mqtt::topics::{is_command_topic, Topic};

#[test]
fn broker_connect_then_subscribe_then_active() {
    let mut rec = CorrelationRecord::new();
    let (s, a) = broker_step(BrokerState::Disconnected, BrokerEvent::ConnectOk, &mut rec);
    assert_eq!(s, BrokerState::Subscribing);
    assert_eq!(a, BrokerAction::Subscribe);
    let (s, a) = broker_step(s, BrokerEvent::SubscribeOk, &mut rec);
    assert_eq!(s, BrokerState::Active);
    assert_eq!(a, BrokerAction::Nothing);
}

#[test]
fn broker_subscribe_failure_disconnects_first() {
    let mut rec = CorrelationRecord::new();
    let (s, a) = broker_step(BrokerState::Subscribing, BrokerEvent::SubscribeFailed, &mut rec);
    assert_eq!(s, BrokerState::Disconnected);
    assert_eq!(a, BrokerAction::DisconnectThenRetry);
}

#[test]
fn broker_connect_failure_retries() {
    let mut rec = CorrelationRecord::new();
    let (s, a) = broker_step(BrokerState::Disconnected, BrokerEvent::ConnectFailed, &mut rec);
    assert_eq!(s, BrokerState::Disconnected);
    assert_eq!(a, BrokerAction::Retry);
}

#[test]
fn broker_full_channel_keeps_dispatching() {
    let mut rec = CorrelationRecord::new();
    let (s, a) = broker_step(BrokerState::Active, BrokerEvent::EnqueueFailed, &mut rec);
    assert_eq!(s, BrokerState::Active);
    assert_eq!(a, BrokerAction::Nothing);
    let next = br#"{"id":9}"#.to_vec();
    let (s, a) = broker_step(s, BrokerEvent::Command(next.clone()), &mut rec);
    assert_eq!(s, BrokerState::Active);
    assert_eq!(a, BrokerAction::Enqueue(next));
    assert_eq!(rec.pending_id, 9);
}

#[test]
fn broker_stream_loss_reconnects() {
    let mut rec = CorrelationRecord::new();
    let (s, a) = broker_step(BrokerState::Active, BrokerEvent::StreamLost, &mut rec);
    assert_eq!(s, BrokerState::Disconnected);
    assert_eq!(a, BrokerAction::Retry);
}

#[test]
fn agent_command_written_byte_for_byte() {
    let rec = CorrelationRecord::new();
    let payload = br#"{"id":1,"method":"get_properties"}"#.to_vec();
    let (s, a) = agent_step(AgentState::Active, AgentEvent::Command(payload.clone()), &rec);
    assert_eq!(s, AgentState::Active);
    assert_eq!(a, AgentAction::Write(payload));
}

#[test]
fn agent_channel_closed_is_fatal() {
    let rec = CorrelationRecord::new();
    let (s, a) = agent_step(AgentState::Active, AgentEvent::ChannelClosed, &rec);
    assert_eq!(s, AgentState::Terminated);
    assert_eq!(a, AgentAction::Exit);
}

#[test]
fn agent_drop_and_reconnect_resends_handshake_once() {
    let rec = CorrelationRecord::new();
    let (s, a) = agent_step(AgentState::Active, AgentEvent::SocketClosed, &rec);
    assert_eq!(s, AgentState::Disconnected);
    assert_eq!(a, AgentAction::Retry);
    let (s, a) = agent_step(s, AgentEvent::ConnectFailed, &rec);
    assert_eq!(s, AgentState::Disconnected);
    assert_eq!(a, AgentAction::Retry);
    let (s, a) = agent_step(s, AgentEvent::ConnectOk, &rec);
    assert_eq!(s, AgentState::Active);
    assert_eq!(a, AgentAction::Handshake);
    let forwarded = br#"{"id":3}"#.to_vec();
    let (s, a) = agent_step(s, AgentEvent::Command(forwarded.clone()), &rec);
    assert_eq!(s, AgentState::Active);
    assert_eq!(a, AgentAction::Write(forwarded));
}

#[test]
fn agent_send_failure_reconnects() {
    let rec = CorrelationRecord::new();
    let (s, a) = agent_step(AgentState::Active, AgentEvent::SendFailed, &rec);
    assert_eq!(s, AgentState::Disconnected);
    assert_eq!(a, AgentAction::Retry);
}

#[test]
fn decimal_rendering_is_exact() {
    assert_eq!(decimal_string(0), "0");
    assert_eq!(decimal_string(7), "7");
    assert_eq!(decimal_string(500), "500");
    assert_eq!(decimal_string(1234567890), "1234567890");
    assert_eq!(decimal_string(u32::MAX), "4294967295");
}

#[test]
fn bind_message_is_exact() {
    assert_eq!(bind_message(0), r#"{"address":0,"method":"bind"}"#);
    assert_eq!(bind_message(12), r#"{"address":12,"method":"bind"}"#);
}

#[test]
fn registration_messages_are_the_eight_fixed_documents() {
    let regs = registration_messages();
    assert_eq!(
        regs,
        vec![
            r#"{"key":"auto.report","method":"register"}"#,
            r#"{"key":"auto.forward","method":"register"}"#,
            r#"{"key":"lanbox.event","method":"register"}"#,
            r#"{"key":"auto.ifttt","method":"register"}"#,
            r#"{"key":"auto.cross.ifttt","method":"register"}"#,
            r#"{"key":"matter.control","method":"register"}"#,
            r#"{"key":"matter.event","method":"register"}"#,
            r#"{"key":"mtbr.control","method":"register"}"#,
        ]
    );
}

#[test]
fn handshake_is_bind_then_registrations() {
    let msgs = handshake_messages(3);
    assert_eq!(msgs.len(), 9);
    assert_eq!(msgs[0], r#"{"address":3,"method":"bind"}"#);
    let regs = registration_messages();
    for i in 0..8 {
        assert_eq!(msgs[i + 1], regs[i]);
    }
}

#[test]
fn topic_names_are_fixed() {
    assert_eq!(Topic::CommandAck.name(), "miio/command_ack");
    assert_eq!(Topic::Report.name(), "openmiio/report");
    assert_eq!(agent2mqtt::topics::command_topic(), "miio/command");
}

#[test]
fn command_topic_is_recognised() {
    assert!(is_command_topic("miio/command"));
    assert!(!is_command_topic("miio/command_ack"));
    assert!(!is_command_topic(""));
}

#[test]
fn init_log_accepts_each_level() {
    for level in [LogLevel::Error, LogLevel::Warn, LogLevel::Info, LogLevel::Debug, LogLevel::Trace] {
        init_log(level);
    }
    init_log(LogLevel::Info);
}
