//! Chat-history records of a local application-state store, and the one
//! document that is written from them.

pub mod clock;
pub mod config;
pub mod decode;
pub mod extractor;
pub mod generator;
pub mod json;
pub mod template;
pub mod text;

pub use config::Config;
pub use extractor::ChatExtractor;
pub use generator::MarkdownGenerator;

use vstd::prelude::*;

verus! {

/// One historical conversation.
#[derive(Debug)]
pub struct ChatSession {
    /// The kind of session; the store calls this field `type`.
    pub session_type: String,
    /// The identifier of the session.
    pub composer_id: String,
    /// The display name of the session.
    pub name: String,
    /// When the session was last updated, in milliseconds since the epoch.
    pub last_updated_at: i64,
    /// When the session was created, in milliseconds since the epoch.
    pub created_at: i64,
    /// The mode of the session.
    pub unified_mode: String,
    /// The forced mode of the session.
    pub force_mode: String,
    /// Whether the session has unread messages.
    pub has_unread_messages: bool,
}

/// One output of the assistant.
#[derive(Debug)]
pub struct ChatGeneration {
    /// When the output was made, in milliseconds since the epoch.
    pub unix_ms: i64,
    /// The identifier of the output.
    pub generation_uuid: String,
    /// The kind of output; the store calls this field `type`.
    pub generation_type: String,
    /// The text of the output.
    pub text_description: String,
}

/// One input of the user.
#[derive(Debug)]
pub struct ChatPrompt {
    /// The text of the input.
    pub text: String,
    /// The code of the kind of command.
    pub command_type: i32,
}

impl ChatSession {
    /// Both times of the session are milliseconds since the epoch: neither
    /// is negative.
    pub open spec fn valid_times(&self) -> bool {
        self.last_updated_at >= 0 && self.created_at >= 0
    }
}

impl ChatGeneration {
    /// The time of the output is milliseconds since the epoch: it is not
    /// negative.
    pub open spec fn valid_time(&self) -> bool {
        self.unix_ms >= 0
    }
}

/// The sessions of one store entry, in the order of the entry.
#[derive(Debug)]
pub struct ComposerData {
    /// The sessions.
    pub all_composers: Vec<ChatSession>,
}

} // verus!
