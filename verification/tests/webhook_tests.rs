use twilio_rs::client::TwilioClient;
use twilio_rs::form::FormParams;
use twilio_rs::signature::compute_signature;
use twilio_rs::webhook::{
    read_incoming, strip_channel_prefix, AuthenticationError, WebhookAction, WebhookContext,
    WebhookEvent, WebhookState, STATUS_OK, STATUS_UNAUTHORIZED,
};

const URL: &str = "https://myapp.com/twilio/whatsapp";

fn context(auto_reply: bool) -> WebhookContext {
    WebhookContext {
        base_url: URL.to_string(),
        client: TwilioClient::new(
            "AC123".to_string(),
            "token".to_string(),
            "+15550001111".to_string(),
        ),
        auto_reply,
    }
}

fn form(pairs: &[(&str, &str)]) -> FormParams {
    let mut fields = FormParams::new();
    for (key, value) in pairs {
        fields.insert(key.to_string(), value.to_string());
    }
    fields
}

fn inbound() -> FormParams {
    form(&[("From", "whatsapp:+15551234567"), ("Body", "Hello")])
}

const INBOUND_SIGNATURE: &str = "dGmEBJ//QdnFOPhE40fkbtWewcI=";

/// Runs one request to its end as an endpoint would, and counts how often
/// the policy is asked and how many replies are handed to the transport.
fn handle(
    context: &WebhookContext,
    fields: FormParams,
    signature: Option<&str>,
    policy: &dyn Fn(&str, &str) -> Option<String>,
    delivered: bool,
) -> (u16, String, usize, Vec<Vec<(String, String)>>) {
    let mut asked = 0;
    let mut sent = Vec::new();
    let mut state = WebhookState::Unverified;
    let mut event = WebhookEvent::Request { fields, signature: signature.map(|s| s.to_string()) };
    loop {
        let (next, action) = context.step(state, event);
        state = next;
        match action {
            WebhookAction::Respond { status, body } => return (status, body, asked, sent),
            WebhookAction::AskPolicy { from, body } => {
                asked += 1;
                event = WebhookEvent::PolicyAnswered { reply: policy(&from, &body) };
            }
            WebhookAction::SendReply { fields } => {
                sent.push(fields);
                event = WebhookEvent::ReplyAttempted { delivered };
            }
            WebhookAction::Ignore => panic!("the endpoint never sends an event out of turn"),
        }
    }
}

fn echo(_from: &str, body: &str) -> Option<String> {
    Some(format!("You said: {}", body))
}

#[test]
fn signature_of_the_sample_request() {
    assert_eq!(compute_signature(URL, &inbound(), "token"), INBOUND_SIGNATURE);
}

#[test]
fn missing_signature_is_rejected_and_the_policy_is_not_asked() {
    let (status, body, asked, sent) = handle(&context(true), inbound(), None, &echo, true);
    assert_eq!(status, 401);
    assert_eq!(status, STATUS_UNAUTHORIZED);
    assert_eq!(body, "Invalid Twilio signature.");
    assert_eq!(asked, 0);
    assert!(sent.is_empty());
}

#[test]
fn wrong_signature_is_rejected_and_the_policy_is_not_asked() {
    for signature in ["", "nonsense", "dGmEBJ//QdnFOPhE40fkbtWewcI", "DGmEBJ//QdnFOPhE40fkbtWewcI="] {
        let (status, _, asked, sent) =
            handle(&context(true), inbound(), Some(signature), &echo, true);
        assert_eq!(status, 401);
        assert_eq!(asked, 0);
        assert!(sent.is_empty());
    }
}

#[test]
fn tampered_body_is_rejected() {
    let tampered = form(&[("From", "whatsapp:+15551234567"), ("Body", "Hello!")]);
    let (status, _, asked, _) =
        handle(&context(true), tampered, Some(INBOUND_SIGNATURE), &echo, true);
    assert_eq!(status, 401);
    assert_eq!(asked, 0);
}

#[test]
fn verified_request_is_answered_through_the_policy() {
    let (status, body, asked, sent) =
        handle(&context(true), inbound(), Some(INBOUND_SIGNATURE), &echo, true);
    assert_eq!(status, 200);
    assert_eq!(status, STATUS_OK);
    assert_eq!(body, "");
    assert_eq!(asked, 1);
    assert_eq!(
        sent,
        vec![vec![
            ("To".to_string(), "whatsapp:+15551234567".to_string()),
            ("From".to_string(), "whatsapp:+15550001111".to_string()),
            ("Body".to_string(), "You said: Hello".to_string()),
        ]]
    );
}

#[test]
fn policy_sees_sender_and_body() {
    let policy = |from: &str, body: &str| -> Option<String> {
        assert_eq!(from, "whatsapp:+15551234567");
        assert_eq!(body, "Hello");
        None
    };
    let (status, _, asked, sent) =
        handle(&context(true), inbound(), Some(INBOUND_SIGNATURE), &policy, true);
    assert_eq!(status, 200);
    assert_eq!(asked, 1);
    assert!(sent.is_empty());
}

#[test]
fn failed_reply_is_still_acknowledged() {
    let (status, _, asked, sent) =
        handle(&context(true), inbound(), Some(INBOUND_SIGNATURE), &echo, false);
    assert_eq!(status, 200);
    assert_eq!(asked, 1);
    assert_eq!(sent.len(), 1);
}

#[test]
fn empty_or_absent_reply_sends_nothing() {
    let silent = |_: &str, _: &str| -> Option<String> { None };
    let empty = |_: &str, _: &str| -> Option<String> { Some(String::new()) };
    let (status, _, asked, sent) =
        handle(&context(true), inbound(), Some(INBOUND_SIGNATURE), &silent, true);
    assert_eq!((status, asked, sent.len()), (200, 1, 0));
    let (status, _, asked, sent) =
        handle(&context(true), inbound(), Some(INBOUND_SIGNATURE), &empty, true);
    assert_eq!((status, asked, sent.len()), (200, 1, 0));
}

#[test]
fn without_a_policy_the_request_is_acknowledged_at_once() {
    let (status, _, asked, sent) =
        handle(&context(false), inbound(), Some(INBOUND_SIGNATURE), &echo, true);
    assert_eq!((status, asked, sent.len()), (200, 0, 0));
}

#[test]
fn events_out_of_turn_change_nothing() {
    let c = context(true);
    let (state, action) =
        c.step(WebhookState::Unverified, WebhookEvent::PolicyAnswered { reply: Some("x".to_string()) });
    assert!(matches!(state, WebhookState::Unverified));
    assert!(matches!(action, WebhookAction::Ignore));
    let (state, action) =
        c.step(WebhookState::Unverified, WebhookEvent::ReplyAttempted { delivered: true });
    assert!(matches!(state, WebhookState::Unverified));
    assert!(matches!(action, WebhookAction::Ignore));
    let (state, action) = c.step(
        WebhookState::Replying,
        WebhookEvent::Request { fields: inbound(), signature: Some(INBOUND_SIGNATURE.to_string()) },
    );
    assert!(matches!(state, WebhookState::Replying));
    assert!(matches!(action, WebhookAction::Ignore));
}

#[test]
fn rejection_and_acknowledgment_are_final() {
    let c = context(true);
    for make in [|| WebhookState::Rejected, || WebhookState::Acknowledged] {
        let events = vec![
            WebhookEvent::Request { fields: inbound(), signature: Some(INBOUND_SIGNATURE.to_string()) },
            WebhookEvent::PolicyAnswered { reply: Some("hi".to_string()) },
            WebhookEvent::ReplyAttempted { delivered: true },
        ];
        for event in events {
            let before = make();
            let (after, action) = c.step(make(), event);
            assert!(matches!(action, WebhookAction::Ignore));
            assert_eq!(format!("{:?}", before), format!("{:?}", after));
        }
    }
}

#[test]
fn incoming_message_is_read_from_the_fields() {
    let fields = form(&[
        ("From", "whatsapp:+15551234567"),
        ("To", "whatsapp:+15550001111"),
        ("Body", "Hello"),
        ("MessageSid", "SM1"),
        ("ProfileName", "Ann"),
        ("WaId", "15551234567"),
        ("NumMedia", "0"),
    ]);
    let message = read_incoming(&fields);
    assert_eq!(message.from, "whatsapp:+15551234567");
    assert_eq!(message.to, "whatsapp:+15550001111");
    assert_eq!(message.body, "Hello");
    assert_eq!(message.message_sid, "SM1");
    assert_eq!(message.profile_name, Some("Ann".to_string()));
    assert_eq!(message.wa_id, Some("15551234567".to_string()));
}

#[test]
fn missing_fields_are_empty_or_absent() {
    let message = read_incoming(&FormParams::new());
    assert_eq!(message.from, "");
    assert_eq!(message.to, "");
    assert_eq!(message.body, "");
    assert_eq!(message.message_sid, "");
    assert_eq!(message.profile_name, None);
    assert_eq!(message.wa_id, None);
    let message = read_incoming(&form(&[("ProfileName", "")]));
    assert_eq!(message.profile_name, Some(String::new()));
}

#[test]
fn channel_prefix_is_stripped_from_the_front_only() {
    assert_eq!(strip_channel_prefix("whatsapp:+15551234567"), "+15551234567");
    assert_eq!(strip_channel_prefix("+15551234567"), "+15551234567");
    assert_eq!(strip_channel_prefix("whatsapp:"), "");
    assert_eq!(strip_channel_prefix(""), "");
    assert_eq!(strip_channel_prefix("whatsapp"), "whatsapp");
    assert_eq!(strip_channel_prefix("Whatsapp:+1"), "Whatsapp:+1");
    assert_eq!(strip_channel_prefix("whatsapp:whatsapp:+1"), "whatsapp:+1");
    assert_eq!(strip_channel_prefix("xwhatsapp:+1"), "xwhatsapp:+1");
    assert_eq!(strip_channel_prefix("whatsapp:é☕"), "é☕");
    assert_eq!(strip_channel_prefix("é☕whatsapp:"), "é☕whatsapp:");
}

#[test]
fn reply_goes_to_the_sender_without_a_second_prefix() {
    let c = context(true);
    let fields = form(&[("From", "whatsapp:+15551234567"), ("Body", "Hello")]);
    let (state, _) = c.step(
        WebhookState::Unverified,
        WebhookEvent::Request { fields, signature: Some(INBOUND_SIGNATURE.to_string()) },
    );
    let (state, action) =
        c.step(state, WebhookEvent::PolicyAnswered { reply: Some("ok".to_string()) });
    assert!(matches!(state, WebhookState::Replying));
    match action {
        WebhookAction::SendReply { fields } => {
            assert_eq!(fields[0], ("To".to_string(), "whatsapp:+15551234567".to_string()));
        }
        _ => panic!("a reply must be sent"),
    }
}

#[test]
fn authentication_tells_missing_from_wrong() {
    let c = context(true);
    assert_eq!(
        c.authenticate(&inbound(), None).map(|m| m.body),
        Err(AuthenticationError::MissingSignature)
    );
    assert_eq!(
        c.authenticate(&inbound(), Some("")).map(|m| m.body),
        Err(AuthenticationError::SignatureMismatch)
    );
    assert_eq!(
        c.authenticate(&inbound(), Some("nonsense")).map(|m| m.body),
        Err(AuthenticationError::SignatureMismatch)
    );
    let message = c.authenticate(&inbound(), Some(INBOUND_SIGNATURE)).unwrap();
    assert_eq!(message.from, "whatsapp:+15551234567");
    assert_eq!(message.body, "Hello");
    assert_eq!(message.to, "");
    assert_eq!(message.profile_name, None);
}

#[test]
fn authentication_uses_the_configured_url_and_secret() {
    let mut other_url = context(true);
    other_url.base_url = "https://myapp.com/twilio/whatsapp/".to_string();
    assert_eq!(
        other_url.authenticate(&inbound(), Some(INBOUND_SIGNATURE)).map(|m| m.body),
        Err(AuthenticationError::SignatureMismatch)
    );
    let mut other_secret = context(true);
    other_secret.client.auth_token = "Token".to_string();
    assert_eq!(
        other_secret.authenticate(&inbound(), Some(INBOUND_SIGNATURE)).map(|m| m.body),
        Err(AuthenticationError::SignatureMismatch)
    );
}
