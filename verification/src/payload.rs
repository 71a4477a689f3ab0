use crate::client::TwilioClient;
use crate::interactive::{buttons_payload, buttons_payload_value, list_payload, list_payload_value};
use crate::json::{json_render, json_text};
use crate::whatsapp::{
    buttons_verdict, sections_verdict, validate_buttons, validate_sections, ButtonView,
    InteractiveButton, InteractiveListSection, SectionView, ValidationError,
};
use vstd::prelude::*;
use vstd::string::*;

verus! {

/// The channel prefix that marks an address as a WhatsApp address.
pub open spec fn channel_prefix() -> Seq<char> {
    "whatsapp:"@
}

/// An address with the channel prefix in front.
pub open spec fn channel_address(address: Seq<char>) -> Seq<char> {
    channel_prefix() + address
}

/// The two address fields that open every WhatsApp field list: recipient,
/// then sender, each prefixed once.
pub open spec fn address_fields(from_phone: Seq<char>, to: Seq<char>) -> Seq<
    (Seq<char>, Seq<char>),
> {
    seq![("To"@, channel_address(to)), ("From"@, channel_address(from_phone))]
}

/// Fields of a plain text message.
pub open spec fn spec_text_fields(from_phone: Seq<char>, to: Seq<char>, message: Seq<char>) -> Seq<
    (Seq<char>, Seq<char>),
> {
    address_fields(from_phone, to).push(("Body"@, message))
}

/// Fields of a media message.
pub open spec fn spec_media_fields(
    from_phone: Seq<char>,
    to: Seq<char>,
    message: Seq<char>,
    media_url: Seq<char>,
) -> Seq<(Seq<char>, Seq<char>)> {
    spec_text_fields(from_phone, to, message).push(("MediaUrl"@, media_url))
}

/// Fields of a content-template message; the variables are a field only when given.
pub open spec fn spec_content_template_fields(
    from_phone: Seq<char>,
    to: Seq<char>,
    content_sid: Seq<char>,
    content_variables: Option<Seq<char>>,
) -> Seq<(Seq<char>, Seq<char>)> {
    let base = address_fields(from_phone, to).push(("ContentSid"@, content_sid));
    match content_variables {
        Some(variables) => base.push(("ContentVariables"@, variables)),
        None => base,
    }
}

/// Fields of an interactive message whose payload is `payload`.
pub open spec fn spec_interactive_fields(
    from_phone: Seq<char>,
    to: Seq<char>,
    body: Seq<char>,
    payload: Seq<char>,
) -> Seq<(Seq<char>, Seq<char>)> {
    spec_text_fields(from_phone, to, body).push(("Interactive"@, payload))
}

/// Fields of a button message, or the rule that its buttons break.
pub open spec fn spec_interactive_buttons_fields(
    from_phone: Seq<char>,
    to: Seq<char>,
    header: Seq<char>,
    body: Seq<char>,
    footer: Option<Seq<char>>,
    buttons: Seq<ButtonView>,
) -> Result<Seq<(Seq<char>, Seq<char>)>, ValidationError> {
    match buttons_verdict(buttons) {
        Err(error) => Err(error),
        Ok(_) => Ok(
            spec_interactive_fields(
                from_phone,
                to,
                body,
                json_text(buttons_payload(header, body, footer, buttons)),
            ),
        ),
    }
}

/// Fields of a list message, or the rule that its sections break.
pub open spec fn spec_interactive_list_fields(
    from_phone: Seq<char>,
    to: Seq<char>,
    header: Seq<char>,
    body: Seq<char>,
    footer: Option<Seq<char>>,
    action_label: Seq<char>,
    sections: Seq<SectionView>,
) -> Result<Seq<(Seq<char>, Seq<char>)>, ValidationError> {
    match sections_verdict(sections) {
        Err(error) => Err(error),
        Ok(_) => Ok(
            spec_interactive_fields(
                from_phone,
                to,
                body,
                json_text(list_payload(header, body, footer, action_label, sections)),
            ),
        ),
    }
}

/// The model of a built result: the field list by its texts, the error as it is.
pub open spec fn built_view(built: Result<Vec<(String, String)>, ValidationError>) -> Result<
    Seq<(Seq<char>, Seq<char>)>,
    ValidationError,
> {
    match built {
        Ok(fields) => Ok(fields.deep_view()),
        Err(error) => Err(error),
    }
}

/// A field with the given key and value.
pub fn field(key: &str, value: String) -> (pair: (String, String))
    ensures
        pair.deep_view() == (key@, value@),
{
    (String::from_str(key), value)
}

/// Prefixes an address with the channel prefix.
pub fn with_channel_prefix(address: &str) -> (prefixed: String)
    ensures
        prefixed@ == channel_address(address@),
{
    let mut prefixed = String::from_str("whatsapp:");
    prefixed.append(address);
    prefixed
}

fn addressed(client: &TwilioClient, to: &str) -> (fields: Vec<(String, String)>)
    ensures
        fields.deep_view() == address_fields(client.from_phone@, to@),
{
    let mut fields: Vec<(String, String)> = Vec::new();
    fields.push(field("To", with_channel_prefix(to)));
    fields.push(field("From", with_channel_prefix(client.from_phone.as_str())));
    assert(fields.deep_view() =~= address_fields(client.from_phone@, to@));
    fields
}

fn push_field(fields: &mut Vec<(String, String)>, key: &str, value: &str)
    ensures
        final(fields).deep_view() == old(fields).deep_view().push((key@, value@)),
{
    fields.push(field(key, String::from_str(value)));
    assert(final(fields).deep_view() =~= old(fields).deep_view().push((key@, value@)));
}

/// Builds the fields of a plain text message.
pub fn text_fields(client: &TwilioClient, to: &str, message: &str) -> (fields: Vec<
    (String, String),
>)
    ensures
        fields.deep_view() == spec_text_fields(client.from_phone@, to@, message@),
{
    let mut fields = addressed(client, to);
    push_field(&mut fields, "Body", message);
    fields
}

/// Builds the fields of a media message.
pub fn media_fields(client: &TwilioClient, to: &str, message: &str, media_url: &str) -> (fields:
    Vec<(String, String)>)
    ensures
        fields.deep_view() == spec_media_fields(client.from_phone@, to@, message@, media_url@),
{
    let mut fields = text_fields(client, to, message);
    push_field(&mut fields, "MediaUrl", media_url);
    fields
}

/// Builds the fields of a content-template message.
pub fn content_template_fields(
    client: &TwilioClient,
    to: &str,
    content_sid: &str,
    content_variables: Option<&str>,
) -> (fields: Vec<(String, String)>)
    ensures
        fields.deep_view() == spec_content_template_fields(
            client.from_phone@,
            to@,
            content_sid@,
            content_variables.deep_view(),
        ),
{
    let mut fields = addressed(client, to);
    push_field(&mut fields, "ContentSid", content_sid);
    match content_variables {
        Some(variables) => {
            push_field(&mut fields, "ContentVariables", variables);
        },
        None => {},
    }
    fields
}

/// Builds the fields of a template message from the template's name and its
/// component document. The language tag takes no part in the field list.
pub fn template_fields(
    client: &TwilioClient,
    to: &str,
    template_name: &str,
    lang: &str,
    components_json: &str,
) -> (fields: Vec<(String, String)>)
    ensures
        fields.deep_view() == spec_content_template_fields(
            client.from_phone@,
            to@,
            template_name@,
            Some(components_json@),
        ),
{
    content_template_fields(client, to, template_name, Some(components_json))
}

/// Builds the fields of an interactive message around its payload, given
/// as text.
pub fn interactive_fields(client: &TwilioClient, to: &str, body_text: &str, payload: &str) -> (fields:
    Vec<(String, String)>)
    ensures
        fields.deep_view() == spec_interactive_fields(
            client.from_phone@,
            to@,
            body_text@,
            payload@,
        ),
{
    let mut fields = text_fields(client, to, body_text);
    push_field(&mut fields, "Interactive", payload);
    fields
}

/// Builds the fields of a button message. Fails, before anything is built,
/// when the buttons break a rule.
pub fn interactive_buttons_fields(
    client: &TwilioClient,
    to: &str,
    header_text: &str,
    body_text: &str,
    footer_text: Option<&str>,
    buttons: &Vec<InteractiveButton>,
) -> (built: Result<Vec<(String, String)>, ValidationError>)
    ensures
        built_view(built) == spec_interactive_buttons_fields(
            client.from_phone@,
            to@,
            header_text@,
            body_text@,
            footer_text.deep_view(),
            buttons.deep_view(),
        ),
{
    match validate_buttons(buttons) {
        Err(error) => Err(error),
        Ok(_) => {
            let payload = buttons_payload_value(header_text, body_text, footer_text, buttons);
            let rendered = json_render(&payload);
            Ok(interactive_fields(client, to, body_text, rendered.as_str()))
        },
    }
}

/// Builds the fields of a list message. Fails, before anything is built,
/// when a section breaks a rule.
pub fn interactive_list_fields(
    client: &TwilioClient,
    to: &str,
    header_text: &str,
    body_text: &str,
    footer_text: Option<&str>,
    button_text: &str,
    sections: &Vec<InteractiveListSection>,
) -> (built: Result<Vec<(String, String)>, ValidationError>)
    ensures
        built_view(built) == spec_interactive_list_fields(
            client.from_phone@,
            to@,
            header_text@,
            body_text@,
            footer_text.deep_view(),
            button_text@,
            sections.deep_view(),
        ),
{
    match validate_sections(sections) {
        Err(error) => Err(error),
        Ok(_) => {
            let payload = list_payload_value(
                header_text,
                body_text,
                footer_text,
                button_text,
                sections,
            );
            let rendered = json_render(&payload);
            Ok(interactive_fields(client, to, body_text, rendered.as_str()))
        },
    }
}

} // verus!
