pub mod protocol;
pub mod room;
pub mod server;
