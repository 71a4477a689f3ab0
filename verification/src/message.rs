use crate::client::TwilioClient;
use crate::payload::{
    built_view, channel_address, content_template_fields, interactive_buttons_fields,
    interactive_list_fields, media_fields, spec_content_template_fields,
    spec_interactive_buttons_fields, spec_interactive_list_fields, spec_media_fields,
    spec_text_fields, text_fields,
};
use crate::whatsapp::{
    buttons_verdict, sections_verdict, ButtonView, InteractiveButton, InteractiveListSection,
    PaymentRequest, PaymentView, ReminderMessage, ReminderView, SectionView, ValidationError,
};
use vstd::prelude::*;
use vstd::string::*;

verus! {

/// An outbound message, one variant per kind.
#[derive(Debug, Clone)]
pub enum OutboundMessage {
    Text { body: String },
    Media { body: String, media_url: String },
    Template { template_id: String, variables: Option<String> },
    InteractiveButtons {
        header: String,
        body: String,
        footer: Option<String>,
        buttons: Vec<InteractiveButton>,
    },
    InteractiveList {
        header: String,
        body: String,
        footer: Option<String>,
        action_label: String,
        sections: Vec<InteractiveListSection>,
    },
    Payment(PaymentRequest),
    Reminder(ReminderMessage),
}

/// Model of an [`OutboundMessage`].
pub enum MessageView {
    Text { body: Seq<char> },
    Media { body: Seq<char>, media_url: Seq<char> },
    Template { template_id: Seq<char>, variables: Option<Seq<char>> },
    InteractiveButtons {
        header: Seq<char>,
        body: Seq<char>,
        footer: Option<Seq<char>>,
        buttons: Seq<ButtonView>,
    },
    InteractiveList {
        header: Seq<char>,
        body: Seq<char>,
        footer: Option<Seq<char>>,
        action_label: Seq<char>,
        sections: Seq<SectionView>,
    },
    Payment(PaymentView),
    Reminder(ReminderView),
}

impl View for OutboundMessage {
    type V = MessageView;

    open spec fn view(&self) -> MessageView {
        match self {
            OutboundMessage::Text { body } => MessageView::Text { body: body@ },
            OutboundMessage::Media { body, media_url } => MessageView::Media {
                body: body@,
                media_url: media_url@,
            },
            OutboundMessage::Template { template_id, variables } => MessageView::Template {
                template_id: template_id@,
                variables: variables.deep_view(),
            },
            OutboundMessage::InteractiveButtons {
                header,
                body,
                footer,
                buttons,
            } => MessageView::InteractiveButtons {
                header: header@,
                body: body@,
                footer: footer.deep_view(),
                buttons: buttons.deep_view(),
            },
            OutboundMessage::InteractiveList {
                header,
                body,
                footer,
                action_label,
                sections,
            } => MessageView::InteractiveList {
                header: header@,
                body: body@,
                footer: footer.deep_view(),
                action_label: action_label@,
                sections: sections.deep_view(),
            },
            OutboundMessage::Payment(request) => MessageView::Payment(request@),
            OutboundMessage::Reminder(reminder) => MessageView::Reminder(reminder@),
        }
    }
}

/// The text of a payment request.
pub open spec fn payment_text(request: PaymentView) -> Seq<char> {
    "💳 Payment Request\n\nAmount: "@ + request.currency + " "@ + request.amount
        + "\nDescription: "@ + request.description + "\nReference: "@ + request.reference_id
        + "\n\nPlease complete your payment to proceed."@
}

/// The text of a reminder that is sent as plain text.
pub open spec fn reminder_text(reminder: ReminderView) -> Seq<char> {
    let base = "🔔 Reminder: "@ + reminder.title + "\n\n"@ + reminder.body;
    match reminder.reminder_time {
        Some(time) => base + "\n⏰ Scheduled for: "@ + time,
        None => base,
    }
}

/// The header of a reminder that is sent with buttons.
pub open spec fn reminder_header(title: Seq<char>) -> Seq<char> {
    "🔔 "@ + title
}

/// The rule check on a message: button and list messages answer for their
/// buttons and sections, a reminder for its buttons when it has any; the
/// other kinds break no rule.
pub open spec fn message_verdict(message: MessageView) -> Result<(), ValidationError> {
    match message {
        MessageView::InteractiveButtons { buttons, .. } => buttons_verdict(buttons),
        MessageView::InteractiveList { sections, .. } => sections_verdict(sections),
        MessageView::Reminder(reminder) => match reminder.action_buttons {
            Some(buttons) => buttons_verdict(buttons),
            None => Ok(()),
        },
        _ => Ok(()),
    }
}

/// The field list of a message addressed to `to` from `from_phone`, or the
/// rule that the message breaks.
pub open spec fn spec_build_fields(
    from_phone: Seq<char>,
    to: Seq<char>,
    message: MessageView,
) -> Result<Seq<(Seq<char>, Seq<char>)>, ValidationError> {
    match message {
        MessageView::Text { body } => Ok(spec_text_fields(from_phone, to, body)),
        MessageView::Media { body, media_url } => Ok(
            spec_media_fields(from_phone, to, body, media_url),
        ),
        MessageView::Template { template_id, variables } => Ok(
            spec_content_template_fields(from_phone, to, template_id, variables),
        ),
        MessageView::InteractiveButtons {
            header,
            body,
            footer,
            buttons,
        } => spec_interactive_buttons_fields(from_phone, to, header, body, footer, buttons),
        MessageView::InteractiveList {
            header,
            body,
            footer,
            action_label,
            sections,
        } => spec_interactive_list_fields(
            from_phone,
            to,
            header,
            body,
            footer,
            action_label,
            sections,
        ),
        MessageView::Payment(request) => Ok(
            spec_text_fields(from_phone, to, payment_text(request)),
        ),
        MessageView::Reminder(reminder) => match reminder.action_buttons {
            Some(buttons) => spec_interactive_buttons_fields(
                from_phone,
                to,
                reminder_header(reminder.title),
                reminder.body,
                reminder.reminder_time,
                buttons,
            ),
            None => Ok(spec_text_fields(from_phone, to, reminder_text(reminder))),
        },
    }
}

/// Building fails exactly when the message breaks a rule, and with that rule.
pub proof fn lemma_build_fails_as_verdict(from_phone: Seq<char>, to: Seq<char>, message: MessageView)
    ensures
        spec_build_fields(from_phone, to, message) is Ok <==> message_verdict(message) is Ok,
        message_verdict(message) matches Err(error) ==> spec_build_fields(from_phone, to, message)
            == Err::<Seq<(Seq<char>, Seq<char>)>, ValidationError>(error),
{
}

/// Every field list that is built opens with the recipient and the sender,
/// each with the channel prefix put in front once, and names neither of
/// them again.
pub proof fn lemma_addresses_once(from_phone: Seq<char>, to: Seq<char>, message: MessageView)
    ensures
        spec_build_fields(from_phone, to, message) matches Ok(fields) ==> {
            &&& fields.len() >= 3
            &&& fields[0] == ("To"@, channel_address(to))
            &&& fields[1] == ("From"@, channel_address(from_phone))
            &&& forall|i: int|
                2 <= i < fields.len() ==> (#[trigger] fields[i]).0 != "To"@ && fields[i].0
                    != "From"@
        },
{
    reveal_strlit("To");
    reveal_strlit("From");
    reveal_strlit("Body");
    reveal_strlit("MediaUrl");
    reveal_strlit("ContentSid");
    reveal_strlit("ContentVariables");
    reveal_strlit("Interactive");
    assert("To"@.len() == 2);
    assert("From"@.len() == 4);
    assert("Body"@[0] == 'B');
    assert("From"@[0] == 'F');
    assert("MediaUrl"@.len() == 8);
    assert("ContentSid"@.len() == 10);
    assert("ContentVariables"@.len() == 16);
    assert("Interactive"@.len() == 11);
}

/// Writes the text of a payment request.
pub fn payment_message(request: &PaymentRequest) -> (text: String)
    ensures
        text@ == payment_text(request@),
{
    let mut text = String::from_str("💳 Payment Request\n\nAmount: ");
    text.append(request.currency.as_str());
    text.append(" ");
    text.append(request.amount.as_str());
    text.append("\nDescription: ");
    text.append(request.description.as_str());
    text.append("\nReference: ");
    text.append(request.reference_id.as_str());
    text.append("\n\nPlease complete your payment to proceed.");
    text
}

/// Writes the text of a reminder that is sent as plain text.
pub fn reminder_message(reminder: &ReminderMessage) -> (text: String)
    ensures
        text@ == reminder_text(reminder@),
{
    let mut text = String::from_str("🔔 Reminder: ");
    text.append(reminder.title.as_str());
    text.append("\n\n");
    text.append(reminder.body.as_str());
    match &reminder.reminder_time {
        Some(time) => {
            text.append("\n⏰ Scheduled for: ");
            text.append(time.as_str());
        },
        None => {},
    }
    text
}

/// Builds the fields of a payment request; a custom message, when given,
/// replaces the standard text.
pub fn payment_request_fields(
    client: &TwilioClient,
    to: &str,
    payment_request: &PaymentRequest,
    custom_message: Option<&str>,
) -> (fields: Vec<(String, String)>)
    ensures
        fields.deep_view() == spec_text_fields(
            client.from_phone@,
            to@,
            match custom_message.deep_view() {
                Some(message) => message,
                None => payment_text(payment_request@),
            },
        ),
{
    match custom_message {
        Some(message) => text_fields(client, to, message),
        None => {
            let message = payment_message(payment_request);
            text_fields(client, to, message.as_str())
        },
    }
}

fn option_str(text: &Option<String>) -> (borrowed: Option<&str>)
    ensures
        borrowed.deep_view() == text.deep_view(),
{
    match text {
        Some(t) => Some(t.as_str()),
        None => None,
    }
}

/// Builds the fields of a reminder: a button message when the reminder
/// carries buttons, with the scheduled time as footer, else a text message.
pub fn reminder_fields(client: &TwilioClient, to: &str, reminder: &ReminderMessage) -> (built:
    Result<Vec<(String, String)>, ValidationError>)
    ensures
        built_view(built) == spec_build_fields(
            client.from_phone@,
            to@,
            MessageView::Reminder(reminder@),
        ),
{
    match &reminder.action_buttons {
        Some(buttons) => {
            let mut header = String::from_str("🔔 ");
            header.append(reminder.title.as_str());
            interactive_buttons_fields(
                client,
                to,
                header.as_str(),
                reminder.body.as_str(),
                option_str(&reminder.reminder_time),
                buttons,
            )
        },
        None => {
            let message = reminder_message(reminder);
            Ok(text_fields(client, to, message.as_str()))
        },
    }
}

/// Builds the field list of any message. Fails, before anything is built,
/// when the message breaks a structural rule.
pub fn build_fields(client: &TwilioClient, to: &str, message: &OutboundMessage) -> (built: Result<
    Vec<(String, String)>,
    ValidationError,
>)
    ensures
        built_view(built) == spec_build_fields(client.from_phone@, to@, message@),
{
    match message {
        OutboundMessage::Text { body } => Ok(text_fields(client, to, body.as_str())),
        OutboundMessage::Media { body, media_url } => Ok(
            media_fields(client, to, body.as_str(), media_url.as_str()),
        ),
        OutboundMessage::Template { template_id, variables } => Ok(
            content_template_fields(client, to, template_id.as_str(), option_str(variables)),
        ),
        OutboundMessage::InteractiveButtons {
            header,
            body,
            footer,
            buttons,
        } => interactive_buttons_fields(
            client,
            to,
            header.as_str(),
            body.as_str(),
            option_str(footer),
            buttons,
        ),
        OutboundMessage::InteractiveList {
            header,
            body,
            footer,
            action_label,
            sections,
        } => interactive_list_fields(
            client,
            to,
            header.as_str(),
            body.as_str(),
            option_str(footer),
            action_label.as_str(),
            sections,
        ),
        OutboundMessage::Payment(request) => Ok(
            payment_request_fields(client, to, request, None),
        ),
        OutboundMessage::Reminder(reminder) => reminder_fields(client, to, reminder),
    }
}

} // verus!
