use vstd::prelude::*;

use crate::config::Messages;

verus! {

/// The closed set of administrative commands the bot recognizes.
#[derive(Clone, Copy, Debug, PartialEq, Eq)]
pub enum Command {
    Start,
    Help,
    GetChatId,
}

/// The direct mapping from input text to a recognized command;
/// unrecognized text maps to nothing and never reaches the forwarding
/// path.
pub open spec fn spec_parse_command(text: Seq<char>) -> Option<Command> {
    if text == "/start"@ {
        Some(Command::Start)
    } else if text == "/help"@ {
        Some(Command::Help)
    } else if text == "/get_chat_id"@ {
        Some(Command::GetChatId)
    } else {
        None
    }
}

/// The generated description of every supported command.
pub open spec fn spec_help_text() -> Seq<char> {
    "Send message to forward to private chat.\nThese commands are supported:\n\n/start \u{2014} Print start message.\n/help \u{2014} Print this text.\n/get_chat_id \u{2014} Print chat_id and thread_id."@
}

/// The reply a recognized command produces: text to send in the same
/// chat, or the chat and thread identifiers of the triggering message,
/// handed out for presentation.
#[derive(Clone, Debug)]
pub enum CommandReply {
    Text { text: String },
    ChatIdInfo { chat_id: i64, thread_id: Option<i32> },
}

/// Recognize one of the three commands by its exact text.
pub fn parse_command(text: &str) -> (c: Option<Command>)
    ensures
        c == spec_parse_command(text@),
{
    let t = text.to_owned();
    if t == "/start".to_owned() {
        Some(Command::Start)
    } else if t == "/help".to_owned() {
        Some(Command::Help)
    } else if t == "/get_chat_id".to_owned() {
        Some(Command::GetChatId)
    } else {
        None
    }
}

/// The generated description of every supported command.
pub fn help_text() -> (t: String)
    ensures
        t@ == spec_help_text(),
{
    "Send message to forward to private chat.\nThese commands are supported:\n\n/start \u{2014} Print start message.\n/help \u{2014} Print this text.\n/get_chat_id \u{2014} Print chat_id and thread_id.".to_owned()
}

/// The single reply each recognized command owes the chat it arrived in:
/// the start template, the generated help text, or the identifiers of the
/// triggering chat and thread.
pub fn command_reply(command: &Command, chat_id: i64, thread_id: Option<i32>, msgs: &Messages) -> (r:
    CommandReply)
    ensures
        *command is Start ==> (r matches CommandReply::Text { text } && text@
            == msgs.start_command@),
        *command is Help ==> (r matches CommandReply::Text { text } && text@ == spec_help_text()),
        *command is GetChatId ==> (r matches CommandReply::ChatIdInfo { chat_id: c, thread_id: t }
            && c == chat_id && t == thread_id),
{
    match command {
        Command::Start => CommandReply::Text { text: msgs.start_command.clone() },
        Command::Help => CommandReply::Text { text: help_text() },
        Command::GetChatId => CommandReply::ChatIdInfo { chat_id, thread_id },
    }
}

} // verus!
