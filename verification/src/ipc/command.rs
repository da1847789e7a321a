//! Commands that IPC clients send to the bridge.
use vstd::prelude::*;

verus! {

/// A command from an IPC client. The wire form is the variant's name as a JSON string.
#[derive(Clone, Copy, Debug, PartialEq, Eq, Structural)]
pub enum Command {
    ToggleMute,
    ToggleDeafen,
}

} // verus!
