//! Decisions of a Matrix notifier, kept apart from the network: which room a
//! message goes to, what the message holds, and what a failure says.
//!
//! A notification starts with [`send_text_message`] or [`send_attachment`].
//! Either returns a question for the homeserver; the answer, handed to the
//! value that asked, gives the next question, until a message is ready to
//! be sent. Nothing here opens a socket or a file.

pub mod attachment;
pub mod config;
pub mod content;
pub mod delivery;
pub mod error;
pub mod membership;
pub mod room;
pub mod user_id;

pub use crate::config::ConfigInfo;
pub use crate::delivery::{send_attachment, send_text_message};
pub use crate::error::Error;
pub use crate::user_id::UserId;
