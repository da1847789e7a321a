//! Messages that the bridge sends to IPC clients.
use vstd::prelude::*;

verus! {

/// The bridge's own voice settings message.
#[derive(Clone, Debug)]
pub enum EventData {
    VoiceSettingsUpdate { is_muted: bool, is_deafened: bool },
}

} // verus!
