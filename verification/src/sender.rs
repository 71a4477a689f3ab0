use crate::client::TwilioClient;
use crate::message::{build_fields, spec_build_fields, MessageView, OutboundMessage};
use crate::text::{decimal_string, decimal_text, signed_decimal_string, signed_decimal_text};
use crate::whatsapp::ValidationError;
use vstd::prelude::*;
use vstd::string::*;

verus! {

/// Everything the transport needs for one send: where to post, the
/// credentials for HTTP Basic authentication, and the form fields.
#[derive(Clone)]
pub struct OutboundRequest {
    pub url: String,
    pub username: String,
    pub password: String,
    pub fields: Vec<(String, String)>,
}

/// Prepares the request that sends `fields` on behalf of `client`: a post
/// to the account's endpoint, authenticated with the account identifier
/// and the auth token. The fields pass through unchanged.
pub fn prepare_request(client: &TwilioClient, fields: Vec<(String, String)>) -> (request:
    OutboundRequest)
    ensures
        request.url@ == client.spec_base_url(),
        request.username@ == client.account_sid@,
        request.password@ == client.auth_token@,
        request.fields == fields,
{
    OutboundRequest {
        url: client.base_url(),
        username: client.account_sid.clone(),
        password: client.auth_token.clone(),
        fields,
    }
}

/// Why a message was not sent.
#[derive(Debug, Clone)]
pub enum SendError {
    /// The message breaks a structural rule. Sending it again cannot help.
    Validation(ValidationError),
    /// The provider could not be reached, or its answer could not be read.
    Transport { detail: String },
    /// The provider refused the message; its status and its body, verbatim.
    Provider { status: u16, body: String },
}

/// Model of a [`SendError`].
pub enum SendErrorView {
    Validation(ValidationError),
    Transport { detail: Seq<char> },
    Provider { status: u16, body: Seq<char> },
}

impl View for SendError {
    type V = SendErrorView;

    open spec fn view(&self) -> SendErrorView {
        match self {
            SendError::Validation(error) => SendErrorView::Validation(*error),
            SendError::Transport { detail } => SendErrorView::Transport { detail: detail@ },
            SendError::Provider { status, body } => SendErrorView::Provider {
                status: *status,
                body: body@,
            },
        }
    }
}

/// The request that sends a message, or why there is none: a message
/// that breaks a structural rule is refused before anything is prepared.
pub open spec fn spec_prepare_message(
    from_phone: Seq<char>,
    to: Seq<char>,
    message: MessageView,
) -> Result<Seq<(Seq<char>, Seq<char>)>, SendErrorView> {
    match spec_build_fields(from_phone, to, message) {
        Ok(fields) => Ok(fields),
        Err(rule) => Err(SendErrorView::Validation(rule)),
    }
}

/// Builds the fields of a message and prepares the request that sends
/// them to `to`.
pub fn prepare_message(client: &TwilioClient, to: &str, message: &OutboundMessage) -> (prepared:
    Result<OutboundRequest, SendError>)
    ensures
        match prepared {
            Ok(request) => {
                &&& spec_prepare_message(client.from_phone@, to@, message@) == Ok::<
                    Seq<(Seq<char>, Seq<char>)>,
                    SendErrorView,
                >(request.fields.deep_view())
                &&& request.url@ == client.spec_base_url()
                &&& request.username@ == client.account_sid@
                &&& request.password@ == client.auth_token@
            },
            Err(error) => spec_prepare_message(client.from_phone@, to@, message@) == Err::<
                Seq<(Seq<char>, Seq<char>)>,
                SendErrorView,
            >(error@),
        },
{
    match build_fields(client, to, message) {
        Ok(fields) => Ok(prepare_request(client, fields)),
        Err(rule) => Err(SendError::Validation(rule)),
    }
}

/// Whether an HTTP status reports success: the statuses from 200 to 299.
pub open spec fn spec_is_success(status: u16) -> bool {
    200 <= status < 300
}

/// Whether an HTTP status reports success.
pub fn is_success(status: u16) -> (success: bool)
    ensures
        success == spec_is_success(status),
{
    200 <= status && status < 300
}

/// What a response means: with a success status its body is the
/// acknowledgment, still to be decoded; with any other status it is the
/// provider's refusal, kept with its status and its body as they came.
pub open spec fn spec_check_response(status: u16, body: Seq<char>) -> Result<
    Seq<char>,
    SendErrorView,
> {
    if spec_is_success(status) {
        Ok(body)
    } else {
        Err(SendErrorView::Provider { status, body })
    }
}

/// Decides what a response means.
pub fn check_response(status: u16, body: String) -> (checked: Result<String, SendError>)
    ensures
        match checked {
            Ok(text) => spec_check_response(status, body@) == Ok::<Seq<char>, SendErrorView>(text@),
            Err(error) => spec_check_response(status, body@) == Err::<Seq<char>, SendErrorView>(
                error@,
            ),
        },
{
    if is_success(status) {
        Ok(body)
    } else {
        Err(SendError::Provider { status, body })
    }
}

impl ValidationError {
    /// The text that explains the broken rule.
    pub open spec fn spec_message(self) -> Seq<char> {
        match self {
            ValidationError::NoButtons => "WhatsApp interactive messages need at least 1 button"@,
            ValidationError::TooManyButtons => "WhatsApp interactive messages support maximum 3 buttons"@,
            ValidationError::EmptyButtonId => "WhatsApp interactive buttons need a non-empty id"@,
            ValidationError::DuplicateButtonId => "WhatsApp interactive buttons need distinct ids"@,
            ValidationError::EmptySection => "WhatsApp list sections need at least 1 row"@,
            ValidationError::DuplicateRowId => "WhatsApp list rows need distinct ids within a section"@,
        }
    }

    /// Explains the broken rule.
    pub fn message(&self) -> (text: String)
        ensures
            text@ == self.spec_message(),
    {
        match self {
            ValidationError::NoButtons => String::from_str(
                "WhatsApp interactive messages need at least 1 button",
            ),
            ValidationError::TooManyButtons => String::from_str(
                "WhatsApp interactive messages support maximum 3 buttons",
            ),
            ValidationError::EmptyButtonId => String::from_str(
                "WhatsApp interactive buttons need a non-empty id",
            ),
            ValidationError::DuplicateButtonId => String::from_str(
                "WhatsApp interactive buttons need distinct ids",
            ),
            ValidationError::EmptySection => String::from_str(
                "WhatsApp list sections need at least 1 row",
            ),
            ValidationError::DuplicateRowId => String::from_str(
                "WhatsApp list rows need distinct ids within a section",
            ),
        }
    }
}

/// The text that reports an error to the caller.
pub open spec fn error_text(error: SendErrorView) -> Seq<char> {
    match error {
        SendErrorView::Validation(rule) => rule.spec_message(),
        SendErrorView::Transport { detail } => detail,
        SendErrorView::Provider { status, body } => "Twilio API error "@ + decimal_text(
            status as nat,
        ) + ": "@ + body,
    }
}

impl SendError {
    /// Whether sending the same message again may succeed: only after a
    /// transport failure.
    pub fn may_retry(&self) -> (retry: bool)
        ensures
            retry == (self@ is Transport),
    {
        match self {
            SendError::Transport { .. } => true,
            _ => false,
        }
    }

    /// Reports the error as text. A provider's refusal is reported with its
    /// status and its body.
    pub fn describe(&self) -> (text: String)
        ensures
            text@ == error_text(self@),
    {
        match self {
            SendError::Validation(rule) => rule.message(),
            SendError::Transport { detail } => detail.clone(),
            SendError::Provider { status, body } => {
                let mut text = String::from_str("Twilio API error ");
                text.append(decimal_string(*status as u64).as_str());
                text.append(": ");
                text.append(body.as_str());
                text
            },
        }
    }
}

/// A response value that the provider writes sometimes as text and
/// sometimes as a number.
#[derive(Debug, Clone)]
pub enum LooseText {
    Text(String),
    Unsigned(u64),
    Signed(i64),
}

/// The text that a loosely written value stands for: a text as it is, a
/// number by its decimal numeral.
pub open spec fn normalized_text(value: LooseText) -> Seq<char> {
    match value {
        LooseText::Text(text) => text@,
        LooseText::Unsigned(number) => decimal_text(number as nat),
        LooseText::Signed(number) => signed_decimal_text(number as int),
    }
}

/// Normalizes a loosely written response value to text.
pub fn string_or_int(value: LooseText) -> (text: String)
    ensures
        text@ == normalized_text(value),
{
    match value {
        LooseText::Text(text) => text,
        LooseText::Unsigned(number) => decimal_string(number),
        LooseText::Signed(number) => signed_decimal_string(number),
    }
}

} // verus!
