use crate::message::{message_verdict, MessageView, OutboundMessage};
use crate::text::{decimal_string, decimal_text, lemma_decimal_injective};
use crate::whatsapp::{
    button_ids, has_empty_button_id, row_ids, ButtonView, InteractiveButton, InteractiveListRow,
    InteractiveListSection, RowView, SectionView, MAX_BUTTONS,
};
use vstd::prelude::*;
use vstd::string::*;

verus! {

/// The identifier of the quick-reply choice at `index`.
pub open spec fn choice_id(index: nat) -> Seq<char> {
    "choice_"@ + decimal_text(index)
}

/// One button per choice, in order, identified by the choice's index.
pub open spec fn choice_buttons(choices: Seq<Seq<char>>) -> Seq<ButtonView> {
    Seq::new(choices.len(), |i: int| ButtonView { id: choice_id(i as nat), title: choices[i] })
}

/// One row per choice, in order, identified by the choice's index.
pub open spec fn choice_rows(choices: Seq<Seq<char>>) -> Seq<RowView> {
    Seq::new(
        choices.len(),
        |i: int| RowView { id: choice_id(i as nat), title: choices[i], description: None },
    )
}

/// The quick-reply message for `choices`: buttons for up to three choices,
/// a list with one section for more.
pub open spec fn spec_quick_replies(message: Seq<char>, choices: Seq<Seq<char>>) -> MessageView {
    if choices.len() > MAX_BUTTONS {
        MessageView::InteractiveList {
            header: "Please select an option"@,
            body: message,
            footer: None,
            action_label: "Choose"@,
            sections: seq![
                SectionView { title: Some("Choose an option"@), rows: choice_rows(choices) },
            ],
        }
    } else {
        MessageView::InteractiveButtons {
            header: "Please select an option"@,
            body: message,
            footer: None,
            buttons: choice_buttons(choices),
        }
    }
}

/// Choice identifiers are never empty, and differ for different indices.
pub proof fn lemma_choice_ids(i: nat, j: nat)
    ensures
        choice_id(i).len() > 0,
        choice_id(i) == choice_id(j) ==> i == j,
{
    reveal_strlit("choice_");
    assert(choice_id(i).len() >= 7);
    if choice_id(i) == choice_id(j) {
        assert(choice_id(i).skip(7) =~= decimal_text(i));
        assert(choice_id(j).skip(7) =~= decimal_text(j));
        lemma_decimal_injective(i, j);
    }
}

/// A quick-reply message with at least one choice breaks no rule; one
/// without choices has no buttons.
pub proof fn lemma_quick_replies_verdict(message: Seq<char>, choices: Seq<Seq<char>>)
    ensures
        choices.len() >= 1 ==> message_verdict(spec_quick_replies(message, choices)) == Ok::<
            (),
            crate::whatsapp::ValidationError,
        >(()),
        choices.len() == 0 ==> message_verdict(spec_quick_replies(message, choices)) == Err::<
            (),
            crate::whatsapp::ValidationError,
        >(crate::whatsapp::ValidationError::NoButtons),
{
    if choices.len() > MAX_BUTTONS {
        let rows = choice_rows(choices);
        let section = SectionView { title: Some("Choose an option"@), rows };
        let sections = seq![section];
        assert forall|a: int, b: int|
            0 <= a < row_ids(rows).len() && 0 <= b < row_ids(rows).len() && a != b implies row_ids(
            rows,
        )[a] != row_ids(rows)[b] by {
            lemma_choice_ids(a as nat, b as nat);
        }
        assert(row_ids(rows).no_duplicates());
        assert(sections.first() == section);
        assert(sections.drop_first().len() == 0);
        assert(crate::whatsapp::sections_verdict(sections.drop_first()) is Ok);
    } else if choices.len() >= 1 {
        let buttons = choice_buttons(choices);
        assert forall|k: int| 0 <= k < buttons.len() implies (#[trigger] buttons[k]).id.len()
            != 0 by {
            lemma_choice_ids(k as nat, k as nat);
        }
        assert(!has_empty_button_id(buttons));
        assert forall|a: int, b: int|
            0 <= a < button_ids(buttons).len() && 0 <= b < button_ids(buttons).len() && a
                != b implies button_ids(buttons)[a] != button_ids(buttons)[b] by {
            lemma_choice_ids(a as nat, b as nat);
        }
        assert(button_ids(buttons).no_duplicates());
    }
}

fn choice_id_string(index: usize) -> (id: String)
    ensures
        id@ == choice_id(index as nat),
{
    let mut id = String::from_str("choice_");
    let digits = decimal_string(index as u64);
    id.append(digits.as_str());
    id
}

/// Turns a list of plain choices into a message: buttons when there are at
/// most three, else a one-section list. Each choice is identified by its
/// position, and the order of the choices is kept.
pub fn quick_replies(message: &str, choices: Vec<&str>) -> (composed: OutboundMessage)
    ensures
        composed@ == spec_quick_replies(message@, choices.deep_view()),
{
    let n = choices.len();
    if n > MAX_BUTTONS {
        let mut rows: Vec<InteractiveListRow> = Vec::new();
        let mut i: usize = 0;
        while i < n
            invariant
                n == choices.len(),
                i <= n,
                rows.len() == i,
                forall|k: int|
                    0 <= k < i ==> (#[trigger] rows@[k])@ == (RowView {
                        id: choice_id(k as nat),
                        title: choices@[k]@,
                        description: None,
                    }),
            decreases n - i,
        {
            rows.push(
                InteractiveListRow {
                    id: choice_id_string(i),
                    title: String::from_str(choices[i]),
                    description: None,
                },
            );
            i += 1;
        }
        assert(rows.deep_view() =~= choice_rows(choices.deep_view()));
        let mut sections: Vec<InteractiveListSection> = Vec::new();
        sections.push(
            InteractiveListSection { title: Some(String::from_str("Choose an option")), rows },
        );
        assert(sections.deep_view() =~= seq![
            SectionView {
                title: Some("Choose an option"@),
                rows: choice_rows(choices.deep_view()),
            },
        ]);
        OutboundMessage::InteractiveList {
            header: String::from_str("Please select an option"),
            body: String::from_str(message),
            footer: None,
            action_label: String::from_str("Choose"),
            sections,
        }
    } else {
        let mut buttons: Vec<InteractiveButton> = Vec::new();
        let mut i: usize = 0;
        while i < n
            invariant
                n == choices.len(),
                i <= n,
                buttons.len() == i,
                forall|k: int|
                    0 <= k < i ==> (#[trigger] buttons@[k])@ == (ButtonView {
                        id: choice_id(k as nat),
                        title: choices@[k]@,
                    }),
            decreases n - i,
        {
            buttons.push(
                InteractiveButton { id: choice_id_string(i), title: String::from_str(choices[i]) },
            );
            i += 1;
        }
        assert(buttons.deep_view() =~= choice_buttons(choices.deep_view()));
        OutboundMessage::InteractiveButtons {
            header: String::from_str("Please select an option"),
            body: String::from_str(message),
            footer: None,
            buttons,
        }
    }
}

/// The body of an appointment reminder; the line naming the doctor is there
/// only when a doctor is given.
pub open spec fn appointment_body(
    date: Seq<char>,
    time: Seq<char>,
    location: Seq<char>,
    doctor: Option<Seq<char>>,
) -> Seq<char> {
    let base = "📅 Date: "@ + date + "\n⏰ Time: "@ + time + "\n📍 Location: "@ + location + "\n"@;
    match doctor {
        Some(name) => base + "👨‍⚕️ With: Dr. "@ + name + "\n"@,
        None => base,
    }
}

/// The three answers offered with an appointment reminder.
pub open spec fn appointment_buttons() -> Seq<ButtonView> {
    seq![
        ButtonView { id: "confirm"@, title: "✅ Confirm"@ },
        ButtonView { id: "reschedule"@, title: "📅 Reschedule"@ },
        ButtonView { id: "cancel"@, title: "❌ Cancel"@ },
    ]
}

/// The appointment reminder as a button message.
pub open spec fn spec_appointment_reminder(
    date: Seq<char>,
    time: Seq<char>,
    location: Seq<char>,
    doctor: Option<Seq<char>>,
) -> MessageView {
    MessageView::InteractiveButtons {
        header: "🩺 Appointment Reminder"@,
        body: appointment_body(date, time, location, doctor),
        footer: Some("Please confirm your appointment"@),
        buttons: appointment_buttons(),
    }
}

/// An appointment reminder breaks no rule, whatever its texts.
pub proof fn lemma_appointment_reminder_valid(
    date: Seq<char>,
    time: Seq<char>,
    location: Seq<char>,
    doctor: Option<Seq<char>>,
)
    ensures
        message_verdict(spec_appointment_reminder(date, time, location, doctor)) is Ok,
{
    reveal_strlit("confirm");
    reveal_strlit("reschedule");
    reveal_strlit("cancel");
    let buttons = appointment_buttons();
    assert(buttons[0].id.len() == 7 && buttons[1].id.len() == 10 && buttons[2].id.len() == 6);
    assert(!has_empty_button_id(buttons));
    let ids = button_ids(buttons);
    assert(ids[0].len() == 7 && ids[1].len() == 10 && ids[2].len() == 6);
    assert(ids.no_duplicates());
}

fn button(id: &str, title: &str) -> (made: InteractiveButton)
    ensures
        made@ == (ButtonView { id: id@, title: title@ }),
{
    InteractiveButton { id: String::from_str(id), title: String::from_str(title) }
}

/// Composes an appointment reminder with its three answer buttons.
pub fn appointment_reminder(
    appointment_date: &str,
    appointment_time: &str,
    location: &str,
    doctor_name: Option<&str>,
) -> (composed: OutboundMessage)
    ensures
        composed@ == spec_appointment_reminder(
            appointment_date@,
            appointment_time@,
            location@,
            doctor_name.deep_view(),
        ),
{
    let mut body = String::from_str("📅 Date: ");
    body.append(appointment_date);
    body.append("\n⏰ Time: ");
    body.append(appointment_time);
    body.append("\n📍 Location: ");
    body.append(location);
    body.append("\n");
    match doctor_name {
        Some(name) => {
            body.append("👨‍⚕️ With: Dr. ");
            body.append(name);
            body.append("\n");
        },
        None => {},
    }
    let mut buttons: Vec<InteractiveButton> = Vec::new();
    buttons.push(button("confirm", "✅ Confirm"));
    buttons.push(button("reschedule", "📅 Reschedule"));
    buttons.push(button("cancel", "❌ Cancel"));
    assert(buttons.deep_view() =~= appointment_buttons());
    OutboundMessage::InteractiveButtons {
        header: String::from_str("🩺 Appointment Reminder"),
        body,
        footer: Some(String::from_str("Please confirm your appointment")),
        buttons,
    }
}

/// The body of an order update; the delivery estimate and the tracking
/// link are there only when given, the estimate first.
pub open spec fn order_status_body(
    order_id: Seq<char>,
    status: Seq<char>,
    tracking_url: Option<Seq<char>>,
    estimated_delivery: Option<Seq<char>>,
) -> Seq<char> {
    let base = "📦 Order Update\n\nOrder ID: "@ + order_id + "\nStatus: "@ + status;
    let with_delivery = match estimated_delivery {
        Some(delivery) => base + "\n🚚 Estimated Delivery: "@ + delivery,
        None => base,
    };
    match tracking_url {
        Some(url) => with_delivery + "\n\n🔗 Track your order: "@ + url,
        None => with_delivery,
    }
}

/// The two actions offered with an order update.
pub open spec fn order_status_buttons() -> Seq<ButtonView> {
    seq![
        ButtonView { id: "track_order"@, title: "📍 Track Order"@ },
        ButtonView { id: "contact_support"@, title: "💬 Support"@ },
    ]
}

/// The order update as a button message.
pub open spec fn spec_order_status(
    order_id: Seq<char>,
    status: Seq<char>,
    tracking_url: Option<Seq<char>>,
    estimated_delivery: Option<Seq<char>>,
) -> MessageView {
    MessageView::InteractiveButtons {
        header: "📦 Order Status Update"@,
        body: order_status_body(order_id, status, tracking_url, estimated_delivery),
        footer: Some("Need help with your order?"@),
        buttons: order_status_buttons(),
    }
}

/// An order update breaks no rule, whatever its texts.
pub proof fn lemma_order_status_valid(
    order_id: Seq<char>,
    status: Seq<char>,
    tracking_url: Option<Seq<char>>,
    estimated_delivery: Option<Seq<char>>,
)
    ensures
        message_verdict(spec_order_status(order_id, status, tracking_url, estimated_delivery))
            is Ok,
{
    reveal_strlit("track_order");
    reveal_strlit("contact_support");
    let buttons = order_status_buttons();
    assert(buttons[0].id.len() == 11 && buttons[1].id.len() == 15);
    assert(!has_empty_button_id(buttons));
    let ids = button_ids(buttons);
    assert(ids[0].len() == 11 && ids[1].len() == 15);
    assert(ids.no_duplicates());
}

/// Composes an order update with its two action buttons.
pub fn order_status(
    order_id: &str,
    status: &str,
    tracking_url: Option<&str>,
    estimated_delivery: Option<&str>,
) -> (composed: OutboundMessage)
    ensures
        composed@ == spec_order_status(
            order_id@,
            status@,
            tracking_url.deep_view(),
            estimated_delivery.deep_view(),
        ),
{
    let mut body = String::from_str("📦 Order Update\n\nOrder ID: ");
    body.append(order_id);
    body.append("\nStatus: ");
    body.append(status);
    match estimated_delivery {
        Some(delivery) => {
            body.append("\n🚚 Estimated Delivery: ");
            body.append(delivery);
        },
        None => {},
    }
    match tracking_url {
        Some(url) => {
            body.append("\n\n🔗 Track your order: ");
            body.append(url);
        },
        None => {},
    }
    let mut buttons: Vec<InteractiveButton> = Vec::new();
    buttons.push(button("track_order", "📍 Track Order"));
    buttons.push(button("contact_support", "💬 Support"));
    assert(buttons.deep_view() =~= order_status_buttons());
    OutboundMessage::InteractiveButtons {
        header: String::from_str("📦 Order Status Update"),
        body,
        footer: Some(String::from_str("Need help with your order?")),
        buttons,
    }
}

} // verus!
