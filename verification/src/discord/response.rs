//! Discord's responses to commands.
use vstd::prelude::*;

use crate::discord::events::User;

verus! {

/// A response to a command. The wire form is `{"cmd": NAME, "data": {...}}`.
#[derive(Debug)]
pub struct Response {
    pub cmd: Commands,
}

/// The responses that the bridge reads.
#[derive(Debug)]
#[allow(inconsistent_fields)]
pub enum Commands {
    /// The user authorized the application; `code` is the OAuth code.
    Authorize { code: String },
    /// The access token was accepted; `user` is the logged-in user.
    Authenticate { user: User },
    /// The voice channel the user is in, if any.
    GetSelectedVoiceChannel { channel_id: Option<String>, guild_id: Option<String> },
    /// A subscription to the named event took effect.
    Subscribe { event: String },
    /// A subscription to the named event ended.
    Unsubscribe { event: String },
    /// Discord refused the command.
    Error { code: u32, message: String },
}

} // verus!
