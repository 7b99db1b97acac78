//! Handlers that serve a directory.

pub mod dir;
pub mod dir_ro;

pub use self::dir::{secure_path, DirHandler, DirHandlerMode, PathComponent};
pub use self::dir_ro::DirRoHandler;
