//! The fixed broker topics: the inbound command topic and the two outbound
//! topics that tell correlated acknowledgments apart from reports.

use vstd::prelude::*;

use vstd::string::StringExecFns;

verus! {

/// The two outbound topic classes.
#[derive(Clone, Copy, PartialEq, Eq, Structural, Debug)]
pub enum Topic {
    /// The acknowledgment topic, for a response correlated to the last command.
    CommandAck,
    /// The report topic, for unsolicited responses and relayed log events.
    Report,
}

/// The inbound command topic string.
pub open spec fn spec_command_topic() -> Seq<char> {
    "miio/command"@
}

/// The outbound topic string of each topic class.
pub open spec fn spec_topic_name(t: Topic) -> Seq<char> {
    match t {
        Topic::CommandAck => "miio/command_ack"@,
        Topic::Report => "openmiio/report"@,
    }
}

/// The inbound command topic, as published by the broker.
pub fn command_topic() -> (r: &'static str)
    ensures
        r@ == spec_command_topic(),
{
    "miio/command"
}

impl Topic {
    /// The outbound topic string this class is published under.
    pub fn name(&self) -> (r: &'static str)
        ensures
            r@ == spec_topic_name(*self),
    {
        match self {
            Topic::CommandAck => "miio/command_ack",
            Topic::Report => "openmiio/report",
        }
    }
}

/// Whether an inbound message's topic is the command topic; messages on any
/// other topic are ignored.
pub fn is_command_topic(topic: &str) -> (r: bool)
    ensures
        r == (topic@ == spec_command_topic()),
{
    let t = topic.to_owned();
    let c = String::from_str("miio/command");
    t == c
}

} // verus!
