use relay_bot::config::{Config, Messages, Target};
use relay_bot::decision::{
    allow_permits, decide, forward_outcome, outcome_reply, reply_template, Decision,
    ForwardRequest, IncomingMessage, Outcome, Sender,
};

fn messages() -> Messages {
    Messages {
        start_command: "Welcome!".to_string(),
        success_forward: "Message forwarded.".to_string(),
        access_denied_forward: "Access denied.".to_string(),
        unknown_sender: "ERROR: The message sender could not be determined".to_string(),
        failed_to_forward: "Failed to forward message".to_string(),
    }
}

fn config(allowed_users: Option<Vec<u64>>) -> Config {
    Config {
        token: "SECRET-REDACTED".to_string(),
        allowed_users,
        target: Target { chat_id: -1001234, thread_id: Some(7) },
        messages: messages(),
    }
}

fn message_from(user: Option<u64>) -> IncomingMessage {
    IncomingMessage {
        chat_id: 555,
        message_id: 42,
        from: user.map(|id| Sender { id, username: None }),
        is_private: true,
    }
}

#[test]
fn allowed_user_is_forwarded_to_target() {
    let c = config(Some(vec![111]));
    let m = message_from(Some(111));
    let d = decide(&m, &c);
    assert_eq!(
        d,
        Decision::Forward(ForwardRequest {
            to_chat: -1001234,
            thread_id: Some(7),
            from_chat: 555,
            message_id: 42,
        })
    );
    let o = forward_outcome(true);
    assert_eq!(o, Outcome::Forwarded);
    assert_eq!(reply_template(&c.messages, &o).as_str(), "Message forwarded.");
}

#[test]
fn unlisted_user_is_denied() {
    let c = config(Some(vec![111]));
    let m = message_from(Some(222));
    let d = decide(&m, &c);
    assert_eq!(d, Decision::Reject(Outcome::Denied));
    assert_eq!(reply_template(&c.messages, &Outcome::Denied).as_str(), "Access denied.");
}

#[test]
fn absent_allow_list_forwards_everyone() {
    let c = config(None);
    let m = message_from(Some(999));
    let d = decide(&m, &c);
    match d {
        Decision::Forward(req) => {
            assert_eq!(req.to_chat, -1001234);
            assert_eq!(req.thread_id, Some(7));
            assert_eq!(req.from_chat, 555);
            assert_eq!(req.message_id, 42);
        }
        other => panic!("expected a forward request, got {:?}", other),
    }
    assert_eq!(forward_outcome(true), Outcome::Forwarded);
    assert_eq!(
        reply_template(&c.messages, &Outcome::Forwarded).as_str(),
        "Message forwarded."
    );
}

#[test]
fn unknown_sender_is_rejected_without_forward() {
    let c = config(Some(vec![111]));
    let m = message_from(None);
    let d = decide(&m, &c);
    assert_eq!(d, Decision::Reject(Outcome::SenderUnknown));
    assert_eq!(
        reply_template(&c.messages, &Outcome::SenderUnknown).as_str(),
        "ERROR: The message sender could not be determined"
    );
}

#[test]
fn failed_forward_reports_failure_template() {
    let c = config(Some(vec![111]));
    let m = message_from(Some(111));
    let d = decide(&m, &c);
    assert!(matches!(d, Decision::Forward(_)));
    let o = forward_outcome(false);
    assert_eq!(o, Outcome::ForwardFailed);
    assert_eq!(
        reply_template(&c.messages, &o).as_str(),
        "Failed to forward message"
    );
}

#[test]
fn deciding_twice_gives_the_same_decision() {
    let c = config(Some(vec![111, 222]));
    for user in [None, Some(111), Some(333)] {
        let m = message_from(user);
        assert_eq!(decide(&m, &c), decide(&m, &c));
    }
}

#[test]
fn empty_allow_list_denies_every_sender() {
    let c = config(Some(vec![]));
    let m = message_from(Some(111));
    assert_eq!(decide(&m, &c), Decision::Reject(Outcome::Denied));
}

#[test]
fn allow_permits_checks_membership() {
    assert!(allow_permits(&None, 5));
    assert!(allow_permits(&Some(vec![1, 2, 3]), 2));
    assert!(!allow_permits(&Some(vec![1, 2, 3]), 4));
    assert!(!allow_permits(&Some(vec![]), 1));
    assert!(allow_permits(&Some(vec![7, 7, 7]), 7));
}

#[test]
fn outcome_reply_targets_the_original_message() {
    let c = config(None);
    let m = message_from(Some(1));
    let r = outcome_reply(&m, &Outcome::Forwarded, &c.messages);
    assert_eq!(r.chat_id, 555);
    assert_eq!(r.reply_to, 42);
    assert_eq!(r.text, "Message forwarded.");
}

#[test]
fn sender_with_username_is_still_decided_by_id() {
    let c = config(Some(vec![111]));
    let m = IncomingMessage {
        chat_id: 9,
        message_id: 1,
        from: Some(Sender { id: 111, username: Some("alice".to_string()) }),
        is_private: true,
    };
    assert!(matches!(decide(&m, &c), Decision::Forward(_)));
}
