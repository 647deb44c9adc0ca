pub mod endpoint;
pub mod listener;
pub mod messages;
pub mod strings;
