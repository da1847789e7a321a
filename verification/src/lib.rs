//! Bridge between Discord's local RPC socket and local IPC clients.
//!
//! The verified part of the bridge: the frame codec, the message model, the
//! decisions of the Discord client and of the IPC server, and the shared state.
use vstd::prelude::*;

pub mod discord;
pub mod ipc;

verus! {

/// What the bridge knows of the local user's voice session.
pub struct State {
    pub is_muted: bool,
    pub is_deafened: bool,
    pub channel_id: Option<String>,
    pub guild_id: Option<String>,
}

/// The voice channel that a pair of optional ids denotes: present only when
/// both the channel and the guild are known.
pub open spec fn channel_pair(channel_id: Option<String>, guild_id: Option<String>) -> Option<(String, String)> {
    match (channel_id, guild_id) {
        (Some(c), Some(g)) => Some((c, g)),
        _ => None,
    }
}

impl State {
    /// The voice channel that this state denotes.
    pub open spec fn current_channel(&self) -> Option<(String, String)> {
        channel_pair(self.channel_id, self.guild_id)
    }

    pub fn new() -> (s: Self)
        ensures
            !s.is_muted,
            !s.is_deafened,
            s.channel_id is None,
            s.guild_id is None,
    {
        Self { is_muted: false, is_deafened: false, channel_id: None, guild_id: None }
    }

    pub fn audio_status(&self) -> (r: (bool, bool))
        ensures
            r == (self.is_muted, self.is_deafened),
    {
        (self.is_muted, self.is_deafened)
    }

    pub fn set_audio_status(&mut self, is_muted: bool, is_deafened: bool)
        ensures
            final(self).is_muted == is_muted,
            final(self).is_deafened == is_deafened,
            final(self).channel_id == old(self).channel_id,
            final(self).guild_id == old(self).guild_id,
    {
        self.is_muted = is_muted;
        self.is_deafened = is_deafened;
    }

    pub fn voice_channel(&self) -> (r: Option<(String, String)>)
        ensures
            r == self.current_channel(),
    {
        match (&self.channel_id, &self.guild_id) {
            (Some(channel_id), Some(guild_id)) => Some((channel_id.clone(), guild_id.clone())),
            _ => None,
        }
    }

    pub fn set_voice_channel(&mut self, channel_id: Option<String>, guild_id: Option<String>)
        ensures
            final(self).channel_id == channel_id,
            final(self).guild_id == guild_id,
            final(self).is_muted == old(self).is_muted,
            final(self).is_deafened == old(self).is_deafened,
    {
        self.channel_id = channel_id;
        self.guild_id = guild_id;
    }
}

/// Reading back a voice channel: once the channel and guild ids are set to
/// `c` and `g`, the voice channel is present exactly when both are, and is
/// then the pair of them.
pub proof fn lemma_voice_channel_read_back(s: State, c: Option<String>, g: Option<String>)
    requires
        s.channel_id == c,
        s.guild_id == g,
    ensures
        s.current_channel() is Some <==> (c is Some && g is Some),
        s.current_channel() is Some ==> s.current_channel() == Some((c->0, g->0)),
{
}

} // verus!
