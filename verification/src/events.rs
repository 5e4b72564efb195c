//! Events received from and sent to Pusher.
use vstd::prelude::*;

use std::collections::HashMap;

use crate::text::{has_prefix, starts_with, text_eq};

verus! {

/// The name of the event that opens a connection.
pub open spec fn connection_established_name() -> Seq<char> {
    "pusher:connection_established"@
}

/// Whether an event name belongs to Pusher's own protocol events.
pub open spec fn is_system_name(name: Seq<char>) -> bool {
    has_prefix(name, "pusher:"@)
}

/// Whether an event name announces a presence member joining or leaving.
pub open spec fn is_presence_name(name: Seq<char>) -> bool {
    name == "pusher:member_added"@ || name == "pusher:member_removed"@
}

/// Whether an event name reports the outcome of a subscription.
pub open spec fn is_subscription_name(name: Seq<char>) -> bool {
    name == "pusher:subscription_succeeded"@ || name == "pusher:subscription_error"@
}

/// An event: its name, its channel if any, and its JSON data.
#[derive(Debug, Clone)]
pub struct Event {
    pub event: String,
    pub channel: Option<String>,
    pub data: serde_json::Value,
}

impl Event {
    /// An event with the given name, channel and data.
    pub fn new(event: String, channel: Option<String>, data: serde_json::Value) -> (e: Self)
        ensures
            e.event == event,
            e.channel == channel,
            e.data == data,
    {
        Event { event, channel, data }
    }

    /// Whether the event's name starts with `pusher:`.
    pub fn is_system_event(&self) -> (b: bool)
        ensures
            b == is_system_name(self.event@),
    {
        proof {
            reveal_strlit("pusher:");
        }
        starts_with(self.event.as_str(), "pusher:")
    }

    /// Whether the event is `pusher:member_added` or `pusher:member_removed`.
    pub fn is_presence_event(&self) -> (b: bool)
        ensures
            b == is_presence_name(self.event@),
    {
        is_presence_event_name(self.event.as_str())
    }

    /// Whether the event is `pusher:subscription_succeeded` or `pusher:subscription_error`.
    pub fn is_subscription_event(&self) -> (b: bool)
        ensures
            b == is_subscription_name(self.event@),
    {
        is_subscription_event_name(self.event.as_str())
    }

    /// The event read as a system event: `decoded` (the event's JSON read
    /// back as a `SystemEvent`) for a `pusher:` event, `None` for any other.
    pub fn as_system_event_from(&self, decoded: Option<SystemEvent>) -> (r: Option<SystemEvent>)
        ensures
            r == (if is_system_name(self.event@) {
                decoded
            } else {
                None
            }),
    {
        if self.is_system_event() {
            decoded
        } else {
            None
        }
    }
}

/// Whether `name` is `pusher:member_added` or `pusher:member_removed`.
fn is_presence_event_name(name: &str) -> (b: bool)
    ensures
        b == is_presence_name(name@),
{
    text_eq(name, "pusher:member_added") || text_eq(name, "pusher:member_removed")
}

/// Whether `name` is `pusher:subscription_succeeded` or `pusher:subscription_error`.
fn is_subscription_event_name(name: &str) -> (b: bool)
    ensures
        b == is_subscription_name(name@),
{
    text_eq(name, "pusher:subscription_succeeded") || text_eq(name, "pusher:subscription_error")
}

/// The members of a presence channel as the subscription reports them.
#[derive(Debug, Clone)]
pub struct PresenceData {
    pub count: u32,
    pub hash: HashMap<String, serde_json::Value>,
    pub ids: Vec<String>,
}

/// The data of Pusher's protocol events.
#[derive(Debug, Clone)]
pub enum SystemEventData {
    ConnectionEstablished { socket_id: String, activity_timeout: u64 },
    SubscriptionSucceeded { presence: Option<PresenceData> },
    MemberAdded { user_id: String, user_info: serde_json::Value },
    MemberRemoved { user_id: String },
    Error { code: Option<u32>, message: String },
}

/// A protocol event with its data in typed form.
#[derive(Debug, Clone)]
pub struct SystemEvent {
    pub event: String,
    pub channel: Option<String>,
    pub data: SystemEventData,
}

/// The characters of an optional string.
pub open spec fn opt_text(s: Option<String>) -> Option<Seq<char>> {
    match s {
        Some(t) => Some(t@),
        None => None,
    }
}

impl SystemEvent {
    /// A system event with the given name, channel and data.
    pub fn new(event: String, channel: Option<String>, data: SystemEventData) -> (e: Self)
        ensures
            e.event == event,
            e.channel == channel,
            e.data == data,
    {
        SystemEvent { event, channel, data }
    }

    /// `pusher:connection_established`, on no channel.
    pub fn connection_established(socket_id: String, activity_timeout: u64) -> (e: Self)
        ensures
            e.event@ == "pusher:connection_established"@,
            e.channel is None,
            e.data == (SystemEventData::ConnectionEstablished { socket_id, activity_timeout }),
    {
        Self::new(
            String::from_str("pusher:connection_established"),
            None,
            SystemEventData::ConnectionEstablished { socket_id, activity_timeout },
        )
    }

    /// `pusher:subscription_succeeded` on `channel`.
    pub fn subscription_succeeded(channel: String, presence: Option<PresenceData>) -> (e: Self)
        ensures
            e.event@ == "pusher:subscription_succeeded"@,
            e.channel == Some(channel),
            e.data == (SystemEventData::SubscriptionSucceeded { presence }),
    {
        Self::new(
            String::from_str("pusher:subscription_succeeded"),
            Some(channel),
            SystemEventData::SubscriptionSucceeded { presence },
        )
    }

    /// `pusher:member_added` on `channel`.
    pub fn member_added(channel: String, user_id: String, user_info: serde_json::Value) -> (e:
        Self)
        ensures
            e.event@ == "pusher:member_added"@,
            e.channel == Some(channel),
            e.data == (SystemEventData::MemberAdded { user_id, user_info }),
    {
        Self::new(
            String::from_str("pusher:member_added"),
            Some(channel),
            SystemEventData::MemberAdded { user_id, user_info },
        )
    }

    /// `pusher:member_removed` on `channel`.
    pub fn member_removed(channel: String, user_id: String) -> (e: Self)
        ensures
            e.event@ == "pusher:member_removed"@,
            e.channel == Some(channel),
            e.data == (SystemEventData::MemberRemoved { user_id }),
    {
        Self::new(
            String::from_str("pusher:member_removed"),
            Some(channel),
            SystemEventData::MemberRemoved { user_id },
        )
    }

    /// `pusher:error`, on no channel.
    pub fn error(code: Option<u32>, message: String) -> (e: Self)
        ensures
            e.event@ == "pusher:error"@,
            e.channel is None,
            e.data == (SystemEventData::Error { code, message }),
    {
        Self::new(String::from_str("pusher:error"), None, SystemEventData::Error { code, message })
    }

    /// Whether the event is `pusher:member_added` or `pusher:member_removed`.
    pub fn is_presence_event(&self) -> (b: bool)
        ensures
            b == is_presence_name(self.event@),
    {
        is_presence_event_name(self.event.as_str())
    }

    /// Whether the event is `pusher:subscription_succeeded` or `pusher:subscription_error`.
    pub fn is_subscription_event(&self) -> (b: bool)
        ensures
            b == is_subscription_name(self.event@),
    {
        is_subscription_event_name(self.event.as_str())
    }

    /// The event in general form, with `data` (this event's data written as
    /// a JSON value) as its data.
    pub fn as_event_with(&self, data: serde_json::Value) -> (e: Event)
        ensures
            e.event@ == self.event@,
            opt_text(e.channel) == opt_text(self.channel),
            e.data == data,
    {
        let channel = match &self.channel {
            Some(c) => Some(c.clone()),
            None => None,
        };
        Event { event: self.event.clone(), channel, data }
    }
}

} // verus!
