pub mod error;
pub mod format;
pub mod hook;
pub mod ipc;
pub mod message;
pub mod patch;
pub mod pointer_width;
pub mod stream;
