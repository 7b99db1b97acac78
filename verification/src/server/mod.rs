//! The server: configuration, the dispatcher and the two transfer engines.

pub mod builder;
pub mod handlers;
pub mod read_req;
#[allow(clippy::module_inception)]
pub mod server;
pub mod write_req;

pub use self::builder::TftpServerBuilder;
pub use self::server::{
    ErrorReply, ReplySocket, Request, ServerConfig, TftpServer, Timeout, DEFAULT_BLOCK_SIZE,
};
