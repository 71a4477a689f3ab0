use crate::json::{json_array, json_model, json_models, json_object, json_put, json_string, JsonModel};
use crate::whatsapp::{
    ButtonView, InteractiveButton, InteractiveListRow, InteractiveListSection, RowView,
    SectionView,
};
use vstd::prelude::*;

verus! {

/// The object `{"text": text}`.
pub open spec fn text_part(text: Seq<char>) -> JsonModel {
    JsonModel::Object(Map::empty().insert("text"@, JsonModel::Text(text)))
}

/// The header object of an interactive message: a text header.
pub open spec fn header_part(text: Seq<char>) -> JsonModel {
    JsonModel::Object(
        Map::empty().insert("type"@, JsonModel::Text("text"@)).insert(
            "text"@,
            JsonModel::Text(text),
        ),
    )
}

/// The reply button object for one button.
pub open spec fn button_part(button: ButtonView) -> JsonModel {
    JsonModel::Object(
        Map::empty().insert("type"@, JsonModel::Text("reply"@)).insert(
            "reply"@,
            JsonModel::Object(
                Map::empty().insert("id"@, JsonModel::Text(button.id)).insert(
                    "title"@,
                    JsonModel::Text(button.title),
                ),
            ),
        ),
    )
}

/// The object for one list row; the description is a member only when present.
pub open spec fn row_part(row: RowView) -> JsonModel {
    let base = Map::empty().insert("id"@, JsonModel::Text(row.id)).insert(
        "title"@,
        JsonModel::Text(row.title),
    );
    match row.description {
        Some(description) => JsonModel::Object(
            base.insert("description"@, JsonModel::Text(description)),
        ),
        None => JsonModel::Object(base),
    }
}

/// The object for one list section: its rows in order, and its title only
/// when present.
pub open spec fn section_part(section: SectionView) -> JsonModel {
    let base = Map::empty().insert(
        "rows"@,
        JsonModel::List(section.rows.map_values(|r: RowView| row_part(r))),
    );
    match section.title {
        Some(title) => JsonModel::Object(base.insert("title"@, JsonModel::Text(title))),
        None => JsonModel::Object(base),
    }
}

/// Adds the footer object to a payload when a footer is given.
pub open spec fn with_footer(
    members: Map<Seq<char>, JsonModel>,
    footer: Option<Seq<char>>,
) -> JsonModel {
    match footer {
        Some(text) => JsonModel::Object(members.insert("footer"@, text_part(text))),
        None => JsonModel::Object(members),
    }
}

/// The interactive payload of a button message. Buttons keep their order.
pub open spec fn buttons_payload(
    header: Seq<char>,
    body: Seq<char>,
    footer: Option<Seq<char>>,
    buttons: Seq<ButtonView>,
) -> JsonModel {
    with_footer(
        Map::empty().insert("type"@, JsonModel::Text("button"@)).insert(
            "header"@,
            header_part(header),
        ).insert("body"@, text_part(body)).insert(
            "action"@,
            JsonModel::Object(
                Map::empty().insert(
                    "buttons"@,
                    JsonModel::List(buttons.map_values(|b: ButtonView| button_part(b))),
                ),
            ),
        ),
        footer,
    )
}

/// The interactive payload of a list message. Sections and rows keep their order.
pub open spec fn list_payload(
    header: Seq<char>,
    body: Seq<char>,
    footer: Option<Seq<char>>,
    action_label: Seq<char>,
    sections: Seq<SectionView>,
) -> JsonModel {
    with_footer(
        Map::empty().insert("type"@, JsonModel::Text("list"@)).insert(
            "header"@,
            header_part(header),
        ).insert("body"@, text_part(body)).insert(
            "action"@,
            JsonModel::Object(
                Map::empty().insert("button"@, JsonModel::Text(action_label)).insert(
                    "sections"@,
                    JsonModel::List(sections.map_values(|s: SectionView| section_part(s))),
                ),
            ),
        ),
        footer,
    )
}

fn text_value(text: &str) -> (value: serde_json::Value)
    ensures
        json_model(value) == text_part(text@),
{
    let mut value = json_object();
    json_put(&mut value, "text", json_string(text));
    value
}

fn header_value(text: &str) -> (value: serde_json::Value)
    ensures
        json_model(value) == header_part(text@),
{
    let mut value = json_object();
    json_put(&mut value, "type", json_string("text"));
    json_put(&mut value, "text", json_string(text));
    value
}

fn button_value(button: &InteractiveButton) -> (value: serde_json::Value)
    ensures
        json_model(value) == button_part(button@),
{
    let mut reply = json_object();
    json_put(&mut reply, "id", json_string(button.id.as_str()));
    json_put(&mut reply, "title", json_string(button.title.as_str()));
    let mut value = json_object();
    json_put(&mut value, "type", json_string("reply"));
    json_put(&mut value, "reply", reply);
    value
}

fn row_value(row: &InteractiveListRow) -> (value: serde_json::Value)
    ensures
        json_model(value) == row_part(row@),
{
    let mut value = json_object();
    json_put(&mut value, "id", json_string(row.id.as_str()));
    json_put(&mut value, "title", json_string(row.title.as_str()));
    match &row.description {
        Some(description) => {
            json_put(&mut value, "description", json_string(description.as_str()));
        },
        None => {},
    }
    value
}

fn section_value(section: &InteractiveListSection) -> (value: serde_json::Value)
    ensures
        json_model(value) == section_part(section@),
{
    let n = section.rows.len();
    let mut rows: Vec<serde_json::Value> = Vec::new();
    let mut i: usize = 0;
    while i < n
        invariant
            n == section.rows.len(),
            i <= n,
            rows.len() == i,
            forall|k: int| 0 <= k < i ==> json_model(#[trigger] rows@[k]) == row_part(
                section.rows@[k]@,
            ),
        decreases n - i,
    {
        rows.push(row_value(&section.rows[i]));
        i += 1;
    }
    assert(json_models(rows@) =~= section@.rows.map_values(|r: RowView| row_part(r)));
    let mut value = json_object();
    json_put(&mut value, "rows", json_array(rows));
    match &section.title {
        Some(title) => {
            json_put(&mut value, "title", json_string(title.as_str()));
        },
        None => {},
    }
    value
}

fn put_footer(payload: &mut serde_json::Value, footer: Option<&str>)
    requires
        json_model(*old(payload)) is Object,
    ensures
        json_model(*final(payload)) == with_footer(
            json_model(*old(payload))->Object_0,
            footer.deep_view(),
        ),
{
    match footer {
        Some(text) => {
            json_put(payload, "footer", text_value(text));
        },
        None => {},
    }
}

/// Builds the interactive payload of a button message.
pub fn buttons_payload_value(
    header: &str,
    body: &str,
    footer: Option<&str>,
    buttons: &Vec<InteractiveButton>,
) -> (payload: serde_json::Value)
    ensures
        json_model(payload) == buttons_payload(
            header@,
            body@,
            footer.deep_view(),
            buttons.deep_view(),
        ),
{
    let n = buttons.len();
    let mut items: Vec<serde_json::Value> = Vec::new();
    let mut i: usize = 0;
    while i < n
        invariant
            n == buttons.len(),
            i <= n,
            items.len() == i,
            forall|k: int| 0 <= k < i ==> json_model(#[trigger] items@[k]) == button_part(
                buttons@[k]@,
            ),
        decreases n - i,
    {
        items.push(button_value(&buttons[i]));
        i += 1;
    }
    assert(json_models(items@) =~= buttons.deep_view().map_values(|b: ButtonView| button_part(b)));
    let mut action = json_object();
    json_put(&mut action, "buttons", json_array(items));
    let mut payload = json_object();
    json_put(&mut payload, "type", json_string("button"));
    json_put(&mut payload, "header", header_value(header));
    json_put(&mut payload, "body", text_value(body));
    json_put(&mut payload, "action", action);
    put_footer(&mut payload, footer);
    payload
}

/// Builds the interactive payload of a list message.
pub fn list_payload_value(
    header: &str,
    body: &str,
    footer: Option<&str>,
    action_label: &str,
    sections: &Vec<InteractiveListSection>,
) -> (payload: serde_json::Value)
    ensures
        json_model(payload) == list_payload(
            header@,
            body@,
            footer.deep_view(),
            action_label@,
            sections.deep_view(),
        ),
{
    let n = sections.len();
    let mut items: Vec<serde_json::Value> = Vec::new();
    let mut i: usize = 0;
    while i < n
        invariant
            n == sections.len(),
            i <= n,
            items.len() == i,
            forall|k: int| 0 <= k < i ==> json_model(#[trigger] items@[k]) == section_part(
                sections@[k]@,
            ),
        decreases n - i,
    {
        items.push(section_value(&sections[i]));
        i += 1;
    }
    assert(json_models(items@) =~= sections.deep_view().map_values(
        |s: SectionView| section_part(s),
    ));
    let mut action = json_object();
    json_put(&mut action, "button", json_string(action_label));
    json_put(&mut action, "sections", json_array(items));
    let mut payload = json_object();
    json_put(&mut payload, "type", json_string("list"));
    json_put(&mut payload, "header", header_value(header));
    json_put(&mut payload, "body", text_value(body));
    json_put(&mut payload, "action", action);
    put_footer(&mut payload, footer);
    payload
}

} // verus!
