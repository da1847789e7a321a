pub mod client;
pub mod connect;
pub mod events;
pub mod frames;
pub mod payload;
pub mod response;
pub mod session;

pub use events::{Event, EventData};
pub use payload::{Commands as PayloadCommands, Payload};
pub use response::{Commands as ResponseCommands, Response};
pub use session::{CacheError, OAuthError, Session};
pub use client::Outgoing;
