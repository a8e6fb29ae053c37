use discord_image_bot::credential::{check_credential, CredentialError};
use discord_image_bot::plan::{
    attachment_path, caption, is_trigger, plan_response, GatewayEvent, MessageEvent, SendRequest,
};
use discord_image_bot::session::SendSession;

fn trigger_event(channel_id: u64) -> GatewayEvent {
    GatewayEvent::MessageArrived(MessageEvent {
        content: "!send_image".to_string(),
        channel_id,
    })
}

fn message_event(content: &str, channel_id: u64) -> GatewayEvent {
    GatewayEvent::MessageArrived(MessageEvent {
        content: content.to_string(),
        channel_id,
    })
}

#[test]
fn non_trigger_messages_earn_no_send() {
    let contents = [
        "",
        "send_image",
        "!send_imag",
        "!send_imagex",
        "!send_image ",
        " !send_image",
        "!SEND_IMAGE",
        "please !send_image now",
    ];
    for content in contents {
        let plan = plan_response(&message_event(content, 7));
        assert_eq!(plan.len(), 0, "content {:?} must earn no send", content);
    }
}

#[test]
fn trigger_match_is_exact() {
    assert!(is_trigger(&"!send_image".to_string()));
    assert!(!is_trigger(&"!send_image!".to_string()));
    assert!(!is_trigger(&"send_image".to_string()));
    assert!(!is_trigger(&"".to_string()));
}

#[test]
fn trigger_earns_five_numbered_sends() {
    let plan = plan_response(&trigger_event(9));
    assert_eq!(plan.len(), 5);
    let expected = [
        "Image spam #1",
        "Image spam #2",
        "Image spam #3",
        "Image spam #4",
        "Image spam #5",
    ];
    for (i, req) in plan.iter().enumerate() {
        assert_eq!(req.channel_id, 9);
        assert_eq!(req.caption, expected[i]);
        assert_eq!(req.attachment_path, "./images/example_image.jpg");
    }
}

#[test]
fn caption_formula_exact_values() {
    assert_eq!(caption(1), "Image spam #1");
    assert_eq!(caption(3), "Image spam #3");
    assert_eq!(caption(5), "Image spam #5");
    assert_eq!(attachment_path(), "./images/example_image.jpg");
}

#[test]
fn connection_notice_earns_no_send() {
    let plan = plan_response(&GatewayEvent::Connected {
        user_name: "spambot".to_string(),
    });
    assert_eq!(plan.len(), 0);
}

#[test]
fn all_failures_still_attempt_whole_burst() {
    // As when the attachment file is absent: every send fails, yet each
    // of the five requests is still attempted, none skipped.
    let mut session = SendSession::begin(plan_response(&trigger_event(3)));
    let mut attempted: Vec<SendRequest> = Vec::new();
    while let Some(req) = session.next_request() {
        attempted.push(req.clone());
        session.record_outcome(false);
    }
    assert_eq!(attempted.len(), 5);
    assert_eq!(session.attempted(), 5);
    assert!(session.is_finished());
    for (i, req) in attempted.iter().enumerate() {
        assert_eq!(req.caption, format!("Image spam #{}", i + 1));
    }
}

#[test]
fn mixed_outcomes_never_abort_early() {
    let outcomes = [true, false, true, false, false];
    let mut session = SendSession::begin(plan_response(&trigger_event(3)));
    let mut i = 0;
    while session.next_request().is_some() {
        session.record_outcome(outcomes[i]);
        i += 1;
    }
    assert_eq!(session.attempted(), 5);
    assert_eq!(session.total(), 5);
}

#[test]
fn missing_credential_stops_startup() {
    assert_eq!(check_credential(None), Err(CredentialError::Missing));
}

#[test]
fn empty_credential_stops_startup() {
    assert_eq!(
        check_credential(Some(String::new())),
        Err(CredentialError::Empty)
    );
}

#[test]
fn usable_credential_passes_through_unchanged() {
    assert_eq!(
        check_credential(Some("example-token".to_string())),
        Ok("example-token".to_string())
    );
}

#[test]
fn trigger_on_channel_42_sends_five_in_order() {
    // Scenario: the trigger arrives on channel 42 and every send
    // succeeds; five requests go out to channel 42, captions numbered
    // 1 through 5 in order, each awaited (recorded) before the next is
    // handed out.
    let mut session = SendSession::begin(plan_response(&trigger_event(42)));
    let mut sent: Vec<SendRequest> = Vec::new();
    while let Some(req) = session.next_request() {
        sent.push(req.clone());
        session.record_outcome(true);
    }
    assert_eq!(sent.len(), 5);
    assert!(session.is_finished());
    for (i, req) in sent.iter().enumerate() {
        assert_eq!(req.channel_id, 42);
        assert_eq!(req.caption, format!("Image spam #{}", i + 1));
        assert_eq!(req.attachment_path, "./images/example_image.jpg");
    }
}
