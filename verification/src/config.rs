use vstd::prelude::*;

verus! {

/// The destination of every forwarded message: a chat and, optionally, a
/// thread within that chat.
#[derive(Clone, Copy, Debug)]
pub struct Target {
    pub chat_id: i64,
    pub thread_id: Option<i32>,
}

/// The reply templates, one for each way the bot answers a sender.
#[derive(Clone, Debug)]
pub struct Messages {
    pub start_command: String,
    pub success_forward: String,
    pub access_denied_forward: String,
    pub unknown_sender: String,
    pub failed_to_forward: String,
}

/// The bot's static configuration: an opaque credential, an optional
/// allow-list of sender identifiers (absence means every sender is allowed),
/// the forwarding destination, and the reply templates. It is built once at
/// startup and never mutated afterwards.
#[derive(Clone, Debug)]
pub struct Config {
    pub token: String,
    pub allowed_users: Option<Vec<u64>>,
    pub target: Target,
    pub messages: Messages,
}

} // verus!
