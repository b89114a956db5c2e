use vstd::prelude::*;

use crate::config::{Config, Messages};

verus! {

/// The sender identity attached to an incoming message: a numeric
/// identifier and, optionally, a display name.
#[derive(Clone, Debug)]
pub struct Sender {
    pub id: u64,
    pub username: Option<String>,
}

/// One inbound event: the chat it arrived in, the message's identifier
/// there, the sender identity if one could be resolved, and whether the
/// chat is a one-to-one conversation. Group and channel messages are
/// filtered out before the forwarding decision runs.
#[derive(Clone, Debug)]
pub struct IncomingMessage {
    pub chat_id: i64,
    pub message_id: i32,
    pub from: Option<Sender>,
    pub is_private: bool,
}

/// The terminal classification of one forwarding decision.
#[derive(Clone, Copy, Debug, PartialEq, Eq)]
pub enum Outcome {
    Forwarded,
    Denied,
    SenderUnknown,
    ForwardFailed,
}

/// One forward call to make: relay message `message_id` of chat
/// `from_chat` to chat `to_chat`, targeting `thread_id` there if present.
#[derive(Clone, Copy, Debug, PartialEq, Eq)]
pub struct ForwardRequest {
    pub to_chat: i64,
    pub thread_id: Option<i32>,
    pub from_chat: i64,
    pub message_id: i32,
}

/// What the policy asks the transport to do for one message: either stop
/// at a terminal outcome (sender unknown, or access denied) with no
/// forward call, or attempt exactly one forward call.
#[derive(Clone, Copy, Debug, PartialEq, Eq)]
pub enum Decision {
    Reject(Outcome),
    Forward(ForwardRequest),
}

/// Whether an allow-list permits the given sender identifier: an absent
/// list permits every sender; a configured list permits exactly its
/// members.
pub open spec fn allow_list_permits(allowed: Option<Vec<u64>>, id: u64) -> bool {
    match allowed {
        None => true,
        Some(list) => list@.contains(id),
    }
}

/// The decision for one incoming private message: a message without a
/// sender identity stops as sender-unknown; a sender the allow-list does
/// not permit stops as denied; otherwise exactly one forward of the
/// original message to the configured destination is requested.
pub open spec fn spec_decide(m: IncomingMessage, c: Config) -> Decision {
    match m.from {
        None => Decision::Reject(Outcome::SenderUnknown),
        Some(sender) => if !allow_list_permits(c.allowed_users, sender.id) {
            Decision::Reject(Outcome::Denied)
        } else {
            Decision::Forward(ForwardRequest {
                to_chat: c.target.chat_id,
                thread_id: c.target.thread_id,
                from_chat: m.chat_id,
                message_id: m.message_id,
            })
        },
    }
}

/// The outcome reached once an attempted forward call has settled:
/// success yields `Forwarded`, a transport failure yields `ForwardFailed`.
pub open spec fn spec_forward_outcome(forward_ok: bool) -> Outcome {
    if forward_ok {
        Outcome::Forwarded
    } else {
        Outcome::ForwardFailed
    }
}

/// The terminal outcome of one whole evaluation; `forward_ok` tells
/// whether the forward call succeeded and matters only when the decision
/// asks for one.
pub open spec fn spec_outcome(m: IncomingMessage, c: Config, forward_ok: bool) -> Outcome {
    match spec_decide(m, c) {
        Decision::Reject(o) => o,
        Decision::Forward(_) => spec_forward_outcome(forward_ok),
    }
}

/// The reply template that each outcome selects.
pub open spec fn spec_reply_template(msgs: Messages, o: Outcome) -> Seq<char> {
    match o {
        Outcome::Forwarded => msgs.success_forward@,
        Outcome::Denied => msgs.access_denied_forward@,
        Outcome::SenderUnknown => msgs.unknown_sender@,
        Outcome::ForwardFailed => msgs.failed_to_forward@,
    }
}

/// Whether the allow-list permits the sender identifier, decided by a
/// linear scan of the configured list.
pub fn allow_permits(allowed: &Option<Vec<u64>>, id: u64) -> (permitted: bool)
    ensures
        permitted == allow_list_permits(*allowed, id),
{
    match allowed {
        None => true,
        Some(list) => {
            let mut i: usize = 0;
            while i < list.len()
                invariant
                    0 <= i <= list@.len(),
                    forall|j: int| 0 <= j < i ==> list@[j] != id,
                    allow_list_permits(*allowed, id) == list@.contains(id),
                decreases list@.len() - i,
            {
                if list[i] == id {
                    assert(list@.contains(id)) by {
                        assert(list@[i as int] == id);
                    }
                    return true;
                }
                i += 1;
            }
            false
        },
    }
}

/// Decide one incoming private message against the configuration: stop
/// with a reject outcome, or request exactly one forward of the original
/// message to the configured destination chat and thread.
pub fn decide(message: &IncomingMessage, config: &Config) -> (d: Decision)
    requires
        message.is_private,
    ensures
        d == spec_decide(*message, *config),
{
    match &message.from {
        None => Decision::Reject(Outcome::SenderUnknown),
        Some(sender) => {
            if !allow_permits(&config.allowed_users, sender.id) {
                Decision::Reject(Outcome::Denied)
            } else {
                Decision::Forward(ForwardRequest {
                    to_chat: config.target.chat_id,
                    thread_id: config.target.thread_id,
                    from_chat: message.chat_id,
                    message_id: message.message_id,
                })
            }
        },
    }
}

/// Settle an attempted forward call into its terminal outcome.
pub fn forward_outcome(forward_ok: bool) -> (o: Outcome)
    ensures
        o == spec_forward_outcome(forward_ok),
{
    if forward_ok {
        Outcome::Forwarded
    } else {
        Outcome::ForwardFailed
    }
}

/// The reply template that the outcome selects from the configured
/// messages.
pub fn reply_template<'a>(msgs: &'a Messages, outcome: &Outcome) -> (t: &'a String)
    ensures
        t@ == spec_reply_template(*msgs, *outcome),
{
    match outcome {
        Outcome::Forwarded => &msgs.success_forward,
        Outcome::Denied => &msgs.access_denied_forward,
        Outcome::SenderUnknown => &msgs.unknown_sender,
        Outcome::ForwardFailed => &msgs.failed_to_forward,
    }
}

/// One reply to a sender: sent in the same chat as the original message,
/// referencing it, with the text the outcome selects.
#[derive(Clone, Debug)]
pub struct Reply {
    pub chat_id: i64,
    pub reply_to: i32,
    pub text: String,
}

/// The single reply that every outcome owes the sender: same chat,
/// referencing the original message, with the outcome's template text.
pub fn outcome_reply(message: &IncomingMessage, outcome: &Outcome, msgs: &Messages) -> (r: Reply)
    ensures
        r.chat_id == message.chat_id,
        r.reply_to == message.message_id,
        r.text@ == spec_reply_template(*msgs, *outcome),
{
    Reply {
        chat_id: message.chat_id,
        reply_to: message.message_id,
        text: reply_template(msgs, outcome).clone(),
    }
}

/// A message without a sender identity is rejected as sender-unknown, and
/// no forward call is requested.
pub proof fn lemma_no_sender_is_unknown(m: IncomingMessage, c: Config)
    requires
        m.from is None,
    ensures
        spec_decide(m, c) == Decision::Reject(Outcome::SenderUnknown),
        !(spec_decide(m, c) is Forward),
{
}

/// With no allow-list configured, a message that carries a sender
/// identity is never denied.
pub proof fn lemma_absent_allow_list_never_denies(m: IncomingMessage, c: Config)
    requires
        m.from is Some,
        c.allowed_users is None,
    ensures
        spec_decide(m, c) != Decision::Reject(Outcome::Denied),
{
}

/// A sender whose identifier is not in the configured, non-empty
/// allow-list is denied, and no forward call is requested.
pub proof fn lemma_unlisted_sender_is_denied(m: IncomingMessage, c: Config)
    requires
        m.from matches Some(s) && c.allowed_users matches Some(list) && list@.len() > 0
            && !list@.contains(s.id),
    ensures
        spec_decide(m, c) == Decision::Reject(Outcome::Denied),
        !(spec_decide(m, c) is Forward),
{
}

/// A sender the allow-list permits yields exactly one forward request,
/// aimed at the configured destination chat and thread and naming the
/// original message.
pub proof fn lemma_allowed_sender_forwards(m: IncomingMessage, c: Config)
    requires
        m.from matches Some(s) && allow_list_permits(c.allowed_users, s.id),
    ensures
        spec_decide(m, c) matches Decision::Forward(req) && req.to_chat == c.target.chat_id
            && req.thread_id == c.target.thread_id && req.from_chat == m.chat_id
            && req.message_id == m.message_id,
{
}

/// Evaluating the same message twice against the same configuration
/// yields the same decision: the policy keeps no state between
/// evaluations.
pub proof fn lemma_decision_idempotent(m: IncomingMessage, c: Config, d1: Decision, d2: Decision)
    requires
        d1 == spec_decide(m, c),
        d2 == spec_decide(m, c),
    ensures
        d1 == d2,
{
}

/// The state machine of one evaluation: each terminal outcome is reached
/// exactly under its guard.
pub proof fn lemma_outcome_cases(m: IncomingMessage, c: Config, forward_ok: bool)
    ensures
        spec_outcome(m, c, forward_ok) == Outcome::SenderUnknown <==> m.from is None,
        spec_outcome(m, c, forward_ok) == Outcome::Denied <==> (m.from matches Some(s)
            && !allow_list_permits(c.allowed_users, s.id)),
        spec_outcome(m, c, forward_ok) == Outcome::Forwarded <==> (m.from matches Some(s)
            && allow_list_permits(c.allowed_users, s.id) && forward_ok),
        spec_outcome(m, c, forward_ok) == Outcome::ForwardFailed <==> (m.from matches Some(s)
            && allow_list_permits(c.allowed_users, s.id) && !forward_ok),
{
}

} // verus!
