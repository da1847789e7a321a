//! Events that Discord pushes to the bridge, and subscriptions to them.
use vstd::prelude::*;

use crate::discord::payload::{fresh_nonce, is_nonce};

verus! {

/// An event and its data. The wire form is `{"evt": NAME, "data": {...}}`.
#[derive(Clone, Debug)]
pub enum EventData {
    Error { code: u32, message: String },
    VoiceSettingsUpdate { mute: bool, deaf: bool },
    VoiceChannelSelect { channel_id: Option<String>, guild_id: Option<String> },
    SpeakingStart { user_id: String },
    SpeakingStop { user_id: String },
    VoiceStateCreate { voice_state: VoiceState, user: User },
    VoiceStateUpdate { voice_state: VoiceState, user: User },
    VoiceStateDelete { voice_state: VoiceState, user: User },
}

/// The voice state of a member of a voice channel.
#[derive(Clone, Debug)]
pub struct VoiceState {
    pub mute: bool,
    pub deaf: bool,
    pub self_mute: bool,
    pub self_deaf: bool,
    pub suppress: bool,
}

/// A Discord user.
#[derive(Clone, Debug)]
pub struct User {
    pub id: String,
    pub avatar: String,
}

/// The kind of an event, without its data.
#[derive(Clone, Copy, Debug, PartialEq, Eq, Structural)]
pub enum Event {
    Error,
    VoiceSettingsUpdate,
    VoiceChannelSelect,
    SpeakingStart,
    SpeakingStop,
    VoiceStateCreate,
    VoiceStateUpdate,
    VoiceStateDelete,
}

/// The events that are tied to a voice channel: one subscribes to them per channel.
#[derive(Clone, Copy, Debug, PartialEq, Eq, Structural)]
pub enum EventSubscribe {
    SpeakingStart,
    SpeakingStop,
    VoiceStateCreate,
    VoiceStateUpdate,
    VoiceStateDelete,
}

/// Whether a subscription request starts or ends a subscription.
#[derive(Clone, Copy, Debug, PartialEq, Eq, Structural)]
pub enum SubscriptionCommand {
    Subscribe,
    Unsubscribe,
}

/// A request to start or end a subscription to an event.
/// The wire form is `{"cmd": ..., "evt": ..., "nonce": ...}`.
#[derive(Debug)]
pub struct Subscription {
    pub cmd: SubscriptionCommand,
    pub evt: Event,
    pub nonce: String,
}

/// A request to start or end a subscription to an event of one voice channel.
/// The wire form is `{"cmd": ..., "args": {"channel_id": ...}, "evt": ..., "nonce": ...}`.
#[derive(Debug)]
pub struct ChannelSubscription {
    pub cmd: SubscriptionCommand,
    pub channel_id: String,
    pub evt: EventSubscribe,
    pub nonce: String,
}

/// The kind of an event's data.
pub open spec fn event_of(d: EventData) -> Event {
    match d {
        EventData::Error { .. } => Event::Error,
        EventData::VoiceSettingsUpdate { .. } => Event::VoiceSettingsUpdate,
        EventData::VoiceChannelSelect { .. } => Event::VoiceChannelSelect,
        EventData::SpeakingStart { .. } => Event::SpeakingStart,
        EventData::SpeakingStop { .. } => Event::SpeakingStop,
        EventData::VoiceStateCreate { .. } => Event::VoiceStateCreate,
        EventData::VoiceStateUpdate { .. } => Event::VoiceStateUpdate,
        EventData::VoiceStateDelete { .. } => Event::VoiceStateDelete,
    }
}

impl EventData {
    /// The kind of this event.
    pub fn event(&self) -> (r: Event)
        ensures
            r == event_of(*self),
    {
        match self {
            EventData::Error { .. } => Event::Error,
            EventData::VoiceSettingsUpdate { .. } => Event::VoiceSettingsUpdate,
            EventData::VoiceChannelSelect { .. } => Event::VoiceChannelSelect,
            EventData::SpeakingStart { .. } => Event::SpeakingStart,
            EventData::SpeakingStop { .. } => Event::SpeakingStop,
            EventData::VoiceStateCreate { .. } => Event::VoiceStateCreate,
            EventData::VoiceStateUpdate { .. } => Event::VoiceStateUpdate,
            EventData::VoiceStateDelete { .. } => Event::VoiceStateDelete,
        }
    }
}

impl Event {
    /// A request to subscribe to this event, under a fresh nonce.
    pub fn subscribe(&self) -> (r: Subscription)
        ensures
            r.cmd == SubscriptionCommand::Subscribe,
            r.evt == *self,
            is_nonce(r.nonce@),
    {
        Subscription { cmd: SubscriptionCommand::Subscribe, evt: *self, nonce: fresh_nonce() }
    }

    /// A request to unsubscribe from this event, under a fresh nonce.
    pub fn unsubscribe(&self) -> (r: Subscription)
        ensures
            r.cmd == SubscriptionCommand::Unsubscribe,
            r.evt == *self,
            is_nonce(r.nonce@),
    {
        Subscription { cmd: SubscriptionCommand::Unsubscribe, evt: *self, nonce: fresh_nonce() }
    }
}

impl EventSubscribe {
    /// A request to subscribe to this event in the channel `channel_id`, under a fresh nonce.
    pub fn subscribe(&self, channel_id: &String) -> (r: ChannelSubscription)
        ensures
            r.cmd == SubscriptionCommand::Subscribe,
            r.channel_id == *channel_id,
            r.evt == *self,
            is_nonce(r.nonce@),
    {
        ChannelSubscription {
            cmd: SubscriptionCommand::Subscribe,
            channel_id: channel_id.clone(),
            evt: *self,
            nonce: fresh_nonce(),
        }
    }

    /// A request to unsubscribe from this event in the channel `channel_id`, under a fresh nonce.
    pub fn unsubscribe(&self, channel_id: &String) -> (r: ChannelSubscription)
        ensures
            r.cmd == SubscriptionCommand::Unsubscribe,
            r.channel_id == *channel_id,
            r.evt == *self,
            is_nonce(r.nonce@),
    {
        ChannelSubscription {
            cmd: SubscriptionCommand::Unsubscribe,
            channel_id: channel_id.clone(),
            evt: *self,
            nonce: fresh_nonce(),
        }
    }
}

} // verus!
