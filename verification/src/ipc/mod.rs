pub mod command;
pub mod message;
pub mod server;

pub use command::Command;
