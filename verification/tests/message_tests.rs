use twilio_rs::client::TwilioClient;
use twilio_rs::message::{
    build_fields, payment_message, payment_request_fields, reminder_fields, reminder_message,
    OutboundMessage,
};
use twilio_rs::presets::{appointment_reminder, order_status, quick_replies};
use twilio_rs::whatsapp::{
    InteractiveButton, InteractiveListRow, InteractiveListSection, PaymentRequest,
    ReminderMessage, ValidationError,
};

fn client() -> TwilioClient {
    TwilioClient::new("AC123".to_string(), "token".to_string(), "+15550001111".to_string())
}

fn pairs(list: &[(&str, &str)]) -> Vec<(String, String)> {
    list.iter().map(|(k, v)| (k.to_string(), v.to_string())).collect()
}

fn button(id: &str, title: &str) -> InteractiveButton {
    InteractiveButton { id: id.to_string(), title: title.to_string() }
}

fn value_of<'a>(fields: &'a [(String, String)], key: &str) -> Option<&'a str> {
    fields.iter().find(|(k, _)| k == key).map(|(_, v)| v.as_str())
}

fn button_ids(message: &OutboundMessage) -> Vec<String> {
    match message {
        OutboundMessage::InteractiveButtons { buttons, .. } => {
            buttons.iter().map(|b| b.id.clone()).collect()
        }
        _ => panic!("not a button message"),
    }
}

#[test]
fn five_choices_become_a_list_with_one_section() {
    let message = quick_replies("Pick a size", vec!["XS", "S", "M", "L", "XL"]);
    match &message {
        OutboundMessage::InteractiveList { header, body, footer, action_label, sections } => {
            assert_eq!(header, "Please select an option");
            assert_eq!(body, "Pick a size");
            assert_eq!(footer, &None);
            assert_eq!(action_label, "Choose");
            assert_eq!(sections.len(), 1);
            assert_eq!(sections[0].title, Some("Choose an option".to_string()));
            let ids: Vec<&str> = sections[0].rows.iter().map(|r| r.id.as_str()).collect();
            assert_eq!(ids, vec!["choice_0", "choice_1", "choice_2", "choice_3", "choice_4"]);
            let titles: Vec<&str> = sections[0].rows.iter().map(|r| r.title.as_str()).collect();
            assert_eq!(titles, vec!["XS", "S", "M", "L", "XL"]);
            assert!(sections[0].rows.iter().all(|r| r.description.is_none()));
        }
        _ => panic!("five choices must give a list"),
    }
    let fields = build_fields(&client(), "+1", &message).unwrap();
    assert_eq!(
        value_of(&fields, "Interactive"),
        Some("{\"action\":{\"button\":\"Choose\",\"sections\":[{\"rows\":[{\"id\":\"choice_0\",\"title\":\"XS\"},{\"id\":\"choice_1\",\"title\":\"S\"},{\"id\":\"choice_2\",\"title\":\"M\"},{\"id\":\"choice_3\",\"title\":\"L\"},{\"id\":\"choice_4\",\"title\":\"XL\"}],\"title\":\"Choose an option\"}]},\"body\":{\"text\":\"Pick a size\"},\"header\":{\"text\":\"Please select an option\",\"type\":\"text\"},\"type\":\"list\"}")
    );
}

#[test]
fn two_choices_become_buttons() {
    let message = quick_replies("Yes or no?", vec!["Yes", "No"]);
    match &message {
        OutboundMessage::InteractiveButtons { header, body, footer, buttons } => {
            assert_eq!(header, "Please select an option");
            assert_eq!(body, "Yes or no?");
            assert_eq!(footer, &None);
            assert_eq!(buttons.len(), 2);
            assert_eq!(buttons[0].id, "choice_0");
            assert_eq!(buttons[0].title, "Yes");
            assert_eq!(buttons[1].id, "choice_1");
            assert_eq!(buttons[1].title, "No");
        }
        _ => panic!("two choices must give buttons"),
    }
    let fields = build_fields(&client(), "+1", &message).unwrap();
    assert_eq!(
        value_of(&fields, "Interactive"),
        Some("{\"action\":{\"buttons\":[{\"reply\":{\"id\":\"choice_0\",\"title\":\"Yes\"},\"type\":\"reply\"},{\"reply\":{\"id\":\"choice_1\",\"title\":\"No\"},\"type\":\"reply\"}]},\"body\":{\"text\":\"Yes or no?\"},\"header\":{\"text\":\"Please select an option\",\"type\":\"text\"},\"type\":\"button\"}")
    );
}

#[test]
fn three_choices_are_buttons_and_four_are_a_list() {
    let three = quick_replies("m", vec!["a", "b", "c"]);
    assert_eq!(button_ids(&three), vec!["choice_0", "choice_1", "choice_2"]);
    assert!(build_fields(&client(), "+1", &three).is_ok());
    let four = quick_replies("m", vec!["a", "b", "c", "d"]);
    assert!(matches!(four, OutboundMessage::InteractiveList { .. }));
    assert!(build_fields(&client(), "+1", &four).is_ok());
}

#[test]
fn no_choices_cannot_be_built() {
    let message = quick_replies("m", vec![]);
    assert_eq!(button_ids(&message), Vec::<String>::new());
    assert_eq!(build_fields(&client(), "+1", &message), Err(ValidationError::NoButtons));
}

#[test]
fn choice_ids_count_in_decimal() {
    let choices: Vec<String> = (0..12).map(|i| format!("option {}", i)).collect();
    let message = quick_replies("m", choices.iter().map(|c| c.as_str()).collect());
    match &message {
        OutboundMessage::InteractiveList { sections, .. } => {
            assert_eq!(sections[0].rows.len(), 12);
            assert_eq!(sections[0].rows[9].id, "choice_9");
            assert_eq!(sections[0].rows[10].id, "choice_10");
            assert_eq!(sections[0].rows[11].id, "choice_11");
            assert_eq!(sections[0].rows[11].title, "option 11");
        }
        _ => panic!("twelve choices must give a list"),
    }
    assert!(build_fields(&client(), "+1", &message).is_ok());
}

#[test]
fn equal_choices_still_get_distinct_ids() {
    let message = quick_replies("m", vec!["same", "same", "same", "same"]);
    assert!(build_fields(&client(), "+1", &message).is_ok());
    let message = quick_replies("m", vec!["same", "same"]);
    assert!(build_fields(&client(), "+1", &message).is_ok());
}

#[test]
fn quick_replies_are_deterministic() {
    let first = build_fields(&client(), "+1", &quick_replies("m", vec!["a", "b", "c", "d"]));
    let second = build_fields(&client(), "+1", &quick_replies("m", vec!["a", "b", "c", "d"]));
    assert_eq!(first, second);
}

#[test]
fn appointment_reminder_with_doctor() {
    let message = appointment_reminder("2025-01-15", "10:30", "City Clinic", Some("Rao"));
    match &message {
        OutboundMessage::InteractiveButtons { header, body, footer, buttons } => {
            assert_eq!(header, "🩺 Appointment Reminder");
            assert_eq!(
                body,
                "📅 Date: 2025-01-15\n⏰ Time: 10:30\n📍 Location: City Clinic\n👨‍⚕️ With: Dr. Rao\n"
            );
            assert_eq!(footer, &Some("Please confirm your appointment".to_string()));
            assert_eq!(buttons.len(), 3);
            assert_eq!((buttons[0].id.as_str(), buttons[0].title.as_str()), ("confirm", "✅ Confirm"));
            assert_eq!(
                (buttons[1].id.as_str(), buttons[1].title.as_str()),
                ("reschedule", "📅 Reschedule")
            );
            assert_eq!((buttons[2].id.as_str(), buttons[2].title.as_str()), ("cancel", "❌ Cancel"));
        }
        _ => panic!("an appointment reminder is a button message"),
    }
    assert!(build_fields(&client(), "+1", &message).is_ok());
}

#[test]
fn appointment_reminder_without_doctor() {
    let message = appointment_reminder("2025-01-15", "10:30", "City Clinic", None);
    match &message {
        OutboundMessage::InteractiveButtons { body, .. } => {
            assert_eq!(body, "📅 Date: 2025-01-15\n⏰ Time: 10:30\n📍 Location: City Clinic\n");
        }
        _ => panic!("an appointment reminder is a button message"),
    }
}

#[test]
fn order_status_with_all_parts() {
    let message =
        order_status("ORD-7", "Shipped", Some("https://track.example/7"), Some("Friday"));
    match &message {
        OutboundMessage::InteractiveButtons { header, body, footer, buttons } => {
            assert_eq!(header, "📦 Order Status Update");
            assert_eq!(
                body,
                "📦 Order Update\n\nOrder ID: ORD-7\nStatus: Shipped\n🚚 Estimated Delivery: Friday\n\n🔗 Track your order: https://track.example/7"
            );
            assert_eq!(footer, &Some("Need help with your order?".to_string()));
            assert_eq!(buttons.len(), 2);
            assert_eq!(
                (buttons[0].id.as_str(), buttons[0].title.as_str()),
                ("track_order", "📍 Track Order")
            );
            assert_eq!(
                (buttons[1].id.as_str(), buttons[1].title.as_str()),
                ("contact_support", "💬 Support")
            );
        }
        _ => panic!("an order update is a button message"),
    }
    assert!(build_fields(&client(), "+1", &message).is_ok());
}

#[test]
fn order_status_omits_absent_parts() {
    let bare = order_status("ORD-7", "Packed", None, None);
    let only_url = order_status("ORD-7", "Packed", Some("https://t.example"), None);
    let only_eta = order_status("ORD-7", "Packed", None, Some("Monday"));
    let body_of = |m: &OutboundMessage| match m {
        OutboundMessage::InteractiveButtons { body, .. } => body.clone(),
        _ => panic!("an order update is a button message"),
    };
    assert_eq!(body_of(&bare), "📦 Order Update\n\nOrder ID: ORD-7\nStatus: Packed");
    assert_eq!(
        body_of(&only_url),
        "📦 Order Update\n\nOrder ID: ORD-7\nStatus: Packed\n\n🔗 Track your order: https://t.example"
    );
    assert_eq!(
        body_of(&only_eta),
        "📦 Order Update\n\nOrder ID: ORD-7\nStatus: Packed\n🚚 Estimated Delivery: Monday"
    );
}

fn request() -> PaymentRequest {
    PaymentRequest {
        amount: "499.5".to_string(),
        currency: "INR".to_string(),
        description: "Order 7".to_string(),
        reference_id: "REF-7".to_string(),
    }
}

#[test]
fn payment_request_standard_text() {
    assert_eq!(
        payment_message(&request()),
        "💳 Payment Request\n\nAmount: INR 499.5\nDescription: Order 7\nReference: REF-7\n\nPlease complete your payment to proceed."
    );
    assert_eq!(
        payment_request_fields(&client(), "+1", &request(), None),
        pairs(&[
            ("To", "whatsapp:+1"),
            ("From", "whatsapp:+15550001111"),
            (
                "Body",
                "💳 Payment Request\n\nAmount: INR 499.5\nDescription: Order 7\nReference: REF-7\n\nPlease complete your payment to proceed."
            ),
        ])
    );
}

#[test]
fn payment_request_custom_text_replaces_the_standard_one() {
    assert_eq!(
        payment_request_fields(&client(), "+1", &request(), Some("Please pay")),
        pairs(&[("To", "whatsapp:+1"), ("From", "whatsapp:+15550001111"), ("Body", "Please pay")])
    );
}

fn reminder(time: Option<&str>, buttons: Option<Vec<InteractiveButton>>) -> ReminderMessage {
    ReminderMessage {
        title: "Bill".to_string(),
        body: "Your bill is due".to_string(),
        reminder_time: time.map(|t| t.to_string()),
        action_buttons: buttons,
    }
}

#[test]
fn reminder_as_text() {
    assert_eq!(reminder_message(&reminder(None, None)), "🔔 Reminder: Bill\n\nYour bill is due");
    assert_eq!(
        reminder_message(&reminder(Some("5 pm"), None)),
        "🔔 Reminder: Bill\n\nYour bill is due\n⏰ Scheduled for: 5 pm"
    );
    assert_eq!(
        reminder_fields(&client(), "+1", &reminder(Some("5 pm"), None)),
        Ok(pairs(&[
            ("To", "whatsapp:+1"),
            ("From", "whatsapp:+15550001111"),
            ("Body", "🔔 Reminder: Bill\n\nYour bill is due\n⏰ Scheduled for: 5 pm"),
        ]))
    );
}

#[test]
fn reminder_with_buttons_is_a_button_message() {
    let fields =
        reminder_fields(&client(), "+1", &reminder(Some("5 pm"), Some(vec![button("pay", "Pay")])))
            .unwrap();
    assert_eq!(value_of(&fields, "Body"), Some("Your bill is due"));
    assert_eq!(
        value_of(&fields, "Interactive"),
        Some("{\"action\":{\"buttons\":[{\"reply\":{\"id\":\"pay\",\"title\":\"Pay\"},\"type\":\"reply\"}]},\"body\":{\"text\":\"Your bill is due\"},\"footer\":{\"text\":\"5 pm\"},\"header\":{\"text\":\"🔔 Bill\",\"type\":\"text\"},\"type\":\"button\"}")
    );
    let fields =
        reminder_fields(&client(), "+1", &reminder(None, Some(vec![button("pay", "Pay")])))
            .unwrap();
    assert_eq!(
        value_of(&fields, "Interactive"),
        Some("{\"action\":{\"buttons\":[{\"reply\":{\"id\":\"pay\",\"title\":\"Pay\"},\"type\":\"reply\"}]},\"body\":{\"text\":\"Your bill is due\"},\"header\":{\"text\":\"🔔 Bill\",\"type\":\"text\"},\"type\":\"button\"}")
    );
}

#[test]
fn reminder_with_bad_buttons_fails() {
    assert_eq!(
        reminder_fields(&client(), "+1", &reminder(None, Some(vec![]))),
        Err(ValidationError::NoButtons)
    );
    let four = vec![button("a", "A"), button("b", "B"), button("c", "C"), button("d", "D")];
    assert_eq!(
        reminder_fields(&client(), "+1", &reminder(None, Some(four))),
        Err(ValidationError::TooManyButtons)
    );
}

#[test]
fn build_fields_covers_every_kind() {
    let c = client();
    assert_eq!(
        build_fields(&c, "+1", &OutboundMessage::Text { body: "hi".to_string() }),
        Ok(pairs(&[("To", "whatsapp:+1"), ("From", "whatsapp:+15550001111"), ("Body", "hi")]))
    );
    assert_eq!(
        build_fields(
            &c,
            "+1",
            &OutboundMessage::Media { body: "hi".to_string(), media_url: "https://e/x.png".to_string() }
        ),
        Ok(pairs(&[
            ("To", "whatsapp:+1"),
            ("From", "whatsapp:+15550001111"),
            ("Body", "hi"),
            ("MediaUrl", "https://e/x.png"),
        ]))
    );
    assert_eq!(
        build_fields(
            &c,
            "+1",
            &OutboundMessage::Template { template_id: "HX1".to_string(), variables: None }
        ),
        Ok(pairs(&[("To", "whatsapp:+1"), ("From", "whatsapp:+15550001111"), ("ContentSid", "HX1")]))
    );
    assert_eq!(
        build_fields(&c, "+1", &OutboundMessage::Payment(request())),
        Ok(payment_request_fields(&c, "+1", &request(), None))
    );
    assert_eq!(
        build_fields(&c, "+1", &OutboundMessage::Reminder(reminder(None, None))),
        reminder_fields(&c, "+1", &reminder(None, None))
    );
    let four = vec![button("a", "A"), button("b", "B"), button("c", "C"), button("d", "D")];
    assert_eq!(
        build_fields(
            &c,
            "+1",
            &OutboundMessage::InteractiveButtons {
                header: "h".to_string(),
                body: "b".to_string(),
                footer: None,
                buttons: four,
            }
        ),
        Err(ValidationError::TooManyButtons)
    );
    let sections = vec![InteractiveListSection {
        title: None,
        rows: vec![
            InteractiveListRow { id: "x".to_string(), title: "1".to_string(), description: None },
            InteractiveListRow { id: "x".to_string(), title: "2".to_string(), description: None },
        ],
    }];
    assert_eq!(
        build_fields(
            &c,
            "+1",
            &OutboundMessage::InteractiveList {
                header: "h".to_string(),
                body: "b".to_string(),
                footer: None,
                action_label: "Open".to_string(),
                sections,
            }
        ),
        Err(ValidationError::DuplicateRowId)
    );
}

#[test]
fn every_kind_prefixes_both_addresses_once() {
    let c = client();
    let messages = vec![
        OutboundMessage::Text { body: "hi".to_string() },
        OutboundMessage::Media { body: "hi".to_string(), media_url: "u".to_string() },
        OutboundMessage::Template { template_id: "HX1".to_string(), variables: Some("{}".to_string()) },
        quick_replies("m", vec!["a"]),
        quick_replies("m", vec!["a", "b", "c", "d"]),
        OutboundMessage::Payment(request()),
        OutboundMessage::Reminder(reminder(None, None)),
        appointment_reminder("d", "t", "l", None),
        order_status("o", "s", None, None),
    ];
    for message in &messages {
        let fields = build_fields(&c, "+15551234567", message).unwrap();
        assert_eq!(fields[0], ("To".to_string(), "whatsapp:+15551234567".to_string()));
        assert_eq!(fields[1], ("From".to_string(), "whatsapp:+15550001111".to_string()));
        assert_eq!(fields.iter().filter(|(k, _)| k == "To").count(), 1);
        assert_eq!(fields.iter().filter(|(k, _)| k == "From").count(), 1);
    }
}
