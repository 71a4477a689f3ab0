use crate::client::TwilioClient;
use crate::form::FormParams;
use crate::payload::{channel_prefix, spec_text_fields, text_fields};
use crate::signature::{expected_signature, signature_accepted, validate_twilio_signature};
use vstd::prelude::*;
use vstd::string::*;

verus! {

/// A verified inbound message.
#[derive(Debug, Clone)]
pub struct IncomingWhatsAppMessage {
    pub from: String,
    pub to: String,
    pub body: String,
    pub message_sid: String,
    pub profile_name: Option<String>,
    pub wa_id: Option<String>,
}

/// Model of an [`IncomingWhatsAppMessage`].
pub struct IncomingView {
    pub from: Seq<char>,
    pub to: Seq<char>,
    pub body: Seq<char>,
    pub message_sid: Seq<char>,
    pub profile_name: Option<Seq<char>>,
    pub wa_id: Option<Seq<char>>,
}

impl View for IncomingWhatsAppMessage {
    type V = IncomingView;

    open spec fn view(&self) -> IncomingView {
        IncomingView {
            from: self.from@,
            to: self.to@,
            body: self.body@,
            message_sid: self.message_sid@,
            profile_name: self.profile_name.deep_view(),
            wa_id: self.wa_id.deep_view(),
        }
    }
}

/// The value of a field, if the field is present.
pub open spec fn optional_field(fields: Map<Seq<char>, Seq<char>>, name: Seq<char>) -> Option<
    Seq<char>,
> {
    if fields.contains_key(name) {
        Some(fields[name])
    } else {
        None
    }
}

/// The value of a field, or the empty text if the field is missing.
pub open spec fn required_field(fields: Map<Seq<char>, Seq<char>>, name: Seq<char>) -> Seq<char> {
    if fields.contains_key(name) {
        fields[name]
    } else {
        Seq::empty()
    }
}

/// The inbound message that a field map describes. Missing required
/// fields are empty, missing optional fields absent.
pub open spec fn incoming_message(fields: Map<Seq<char>, Seq<char>>) -> IncomingView {
    IncomingView {
        from: required_field(fields, "From"@),
        to: required_field(fields, "To"@),
        body: required_field(fields, "Body"@),
        message_sid: required_field(fields, "MessageSid"@),
        profile_name: optional_field(fields, "ProfileName"@),
        wa_id: optional_field(fields, "WaId"@),
    }
}

fn read_optional(fields: &FormParams, name: &str) -> (value: Option<String>)
    requires
        fields.wf(),
    ensures
        value.deep_view() == optional_field(fields@, name@),
{
    match fields.get(name) {
        Some(found) => Some(found.clone()),
        None => None,
    }
}

fn read_required(fields: &FormParams, name: &str) -> (value: String)
    requires
        fields.wf(),
    ensures
        value@ == required_field(fields@, name@),
{
    match fields.get(name) {
        Some(found) => found.clone(),
        None => String::new(),
    }
}

/// Reads the inbound message out of a request's fields. Never fails.
pub fn read_incoming(fields: &FormParams) -> (message: IncomingWhatsAppMessage)
    requires
        fields.wf(),
    ensures
        message@ == incoming_message(fields@),
{
    IncomingWhatsAppMessage {
        from: read_required(fields, "From"),
        to: read_required(fields, "To"),
        body: read_required(fields, "Body"),
        message_sid: read_required(fields, "MessageSid"),
        profile_name: read_optional(fields, "ProfileName"),
        wa_id: read_optional(fields, "WaId"),
    }
}

/// An address without the channel prefix, if it starts with one.
pub open spec fn without_channel_prefix(address: Seq<char>) -> Seq<char> {
    if channel_prefix().is_prefix_of(address) {
        address.skip(channel_prefix().len() as int)
    } else {
        address
    }
}

/// Strips the channel prefix from the front of an address.
pub fn strip_channel_prefix(address: &str) -> (bare: String)
    ensures
        bare@ == without_channel_prefix(address@),
{
    let prefix = "whatsapp:";
    proof {
        reveal_strlit("whatsapp:");
    }
    let n = address.unicode_len();
    let m = prefix.unicode_len();
    if n < m {
        return String::from_str(address);
    }
    let mut i: usize = 0;
    while i < m
        invariant
            prefix@ == channel_prefix(),
            m == prefix@.len(),
            n == address@.len(),
            m <= n,
            i <= m,
            forall|k: int| 0 <= k < i ==> address@[k] == prefix@[k],
        decreases m - i,
    {
        if address.get_char(i) != prefix.get_char(i) {
            assert(address@.subrange(0, m as int)[i as int] != prefix@[i as int]);
            return String::from_str(address);
        }
        i += 1;
    }
    assert(address@.subrange(0, m as int) =~= prefix@);
    let rest = address.substring_char(m, n);
    assert(address@.subrange(m as int, n as int) =~= address@.skip(m as int));
    String::from_str(rest)
}

/// What a webhook endpoint is configured with.
#[derive(Clone)]
pub struct WebhookContext {
    /// The public URL that the provider signs, exactly as the provider knows it.
    pub base_url: String,
    /// The credentials; the auth token is the shared secret.
    pub client: TwilioClient,
    /// Whether an auto-reply policy is configured.
    pub auto_reply: bool,
}

/// Model of a [`WebhookContext`].
pub struct ContextView {
    pub base_url: Seq<char>,
    pub auth_token: Seq<char>,
    pub from_phone: Seq<char>,
    pub auto_reply: bool,
}

impl View for WebhookContext {
    type V = ContextView;

    open spec fn view(&self) -> ContextView {
        ContextView {
            base_url: self.base_url@,
            auth_token: self.client.auth_token@,
            from_phone: self.client.from_phone@,
            auto_reply: self.auto_reply,
        }
    }
}

/// Why a request was not accepted as coming from the provider.
#[derive(Debug, Clone, Copy, PartialEq, Eq, Structural)]
pub enum AuthenticationError {
    /// The request has no signature header.
    MissingSignature,
    /// The signature header is not the signature expected for the request.
    SignatureMismatch,
}

/// The outcome of checking a request: the inbound message of a request
/// that carries the expected signature, else why it was not accepted.
pub open spec fn spec_authenticate(
    context: ContextView,
    fields: Map<Seq<char>, Seq<char>>,
    signature: Option<Seq<char>>,
) -> Result<IncomingView, AuthenticationError> {
    match signature {
        None => Err(AuthenticationError::MissingSignature),
        Some(presented) => if signature_accepted(
            context.base_url,
            fields,
            presented,
            context.auth_token,
        ) {
            Ok(incoming_message(fields))
        } else {
            Err(AuthenticationError::SignatureMismatch)
        },
    }
}

/// Where the handling of one webhook request stands.
#[derive(Debug, Clone)]
pub enum WebhookState {
    /// Nothing has been checked yet.
    Unverified,
    /// The signature matched; the auto-reply policy has been asked.
    Verified(IncomingWhatsAppMessage),
    /// A reply is being sent.
    Replying,
    /// The request was rejected. Terminal.
    Rejected,
    /// The request was acknowledged. Terminal.
    Acknowledged,
}

/// What happened outside since the last step.
#[derive(Debug, Clone)]
pub enum WebhookEvent {
    /// The request arrived, with its fields and the signature header if it had one.
    Request { fields: FormParams, signature: Option<String> },
    /// The auto-reply policy answered.
    PolicyAnswered { reply: Option<String> },
    /// The attempt to send the reply ended, well or not.
    ReplyAttempted { delivered: bool },
}

/// What is to be done outside next.
#[derive(Debug, Clone)]
pub enum WebhookAction {
    /// Answer the webhook caller and stop.
    Respond { status: u16, body: String },
    /// Ask the auto-reply policy for a reply to this sender and body.
    AskPolicy { from: String, body: String },
    /// Send these fields to the provider, then report how it went.
    SendReply { fields: Vec<(String, String)> },
    /// The event does not belong here; nothing is to be done.
    Ignore,
}

/// Model of a [`WebhookState`].
pub enum StateView {
    Unverified,
    Verified(IncomingView),
    Replying,
    Rejected,
    Acknowledged,
}

/// Model of a [`WebhookEvent`].
pub enum EventView {
    Request { fields: Map<Seq<char>, Seq<char>>, signature: Option<Seq<char>> },
    PolicyAnswered { reply: Option<Seq<char>> },
    ReplyAttempted { delivered: bool },
}

/// Model of a [`WebhookAction`].
pub enum ActionView {
    Respond { status: u16, body: Seq<char> },
    AskPolicy { from: Seq<char>, body: Seq<char> },
    SendReply { fields: Seq<(Seq<char>, Seq<char>)> },
    Ignore,
}

impl View for WebhookState {
    type V = StateView;

    open spec fn view(&self) -> StateView {
        match self {
            WebhookState::Unverified => StateView::Unverified,
            WebhookState::Verified(message) => StateView::Verified(message@),
            WebhookState::Replying => StateView::Replying,
            WebhookState::Rejected => StateView::Rejected,
            WebhookState::Acknowledged => StateView::Acknowledged,
        }
    }
}

impl View for WebhookEvent {
    type V = EventView;

    open spec fn view(&self) -> EventView {
        match self {
            WebhookEvent::Request { fields, signature } => EventView::Request {
                fields: fields@,
                signature: signature.deep_view(),
            },
            WebhookEvent::PolicyAnswered { reply } => EventView::PolicyAnswered {
                reply: reply.deep_view(),
            },
            WebhookEvent::ReplyAttempted { delivered } => EventView::ReplyAttempted {
                delivered: *delivered,
            },
        }
    }
}

impl View for WebhookAction {
    type V = ActionView;

    open spec fn view(&self) -> ActionView {
        match self {
            WebhookAction::Respond { status, body } => ActionView::Respond {
                status: *status,
                body: body@,
            },
            WebhookAction::AskPolicy { from, body } => ActionView::AskPolicy {
                from: from@,
                body: body@,
            },
            WebhookAction::SendReply { fields } => ActionView::SendReply {
                fields: fields.deep_view(),
            },
            WebhookAction::Ignore => ActionView::Ignore,
        }
    }
}

impl WebhookEvent {
    /// Whether the event's data is valid: a request's fields are well formed.
    pub open spec fn wf(&self) -> bool {
        match self {
            WebhookEvent::Request { fields, .. } => fields.wf(),
            _ => true,
        }
    }
}

/// The status that acknowledges a processed request.
pub const STATUS_OK: u16 = 200;

/// The status that rejects a request whose signature does not match.
pub const STATUS_UNAUTHORIZED: u16 = 401;

/// The acknowledgment: status 200 with an empty body.
pub open spec fn acknowledgment() -> ActionView {
    ActionView::Respond { status: STATUS_OK, body: Seq::empty() }
}

/// The rejection: status 401 with a short explanation.
pub open spec fn rejection() -> ActionView {
    ActionView::Respond { status: STATUS_UNAUTHORIZED, body: "Invalid Twilio signature."@ }
}

/// One step of handling a webhook request: the next state and the action
/// to take, from the state and the event.
///
/// - An unverified request is rejected unless it carries the signature
///   expected for its fields. A request that passes is acknowledged at
///   once when no policy is configured; else the policy is asked.
/// - A policy's non-empty reply is sent as text to the sender, whose
///   address loses its channel prefix first; without one the request is
///   acknowledged.
/// - After the attempt to send, the request is acknowledged, however the
///   attempt ended.
/// - Every other pairing of state and event changes nothing.
pub open spec fn spec_step(context: ContextView, state: StateView, event: EventView) -> (
    StateView,
    ActionView,
) {
    match (state, event) {
        (StateView::Unverified, EventView::Request { fields, signature }) => {
            match spec_authenticate(context, fields, signature) {
                Ok(message) => if context.auto_reply {
                    (
                        StateView::Verified(message),
                        ActionView::AskPolicy { from: message.from, body: message.body },
                    )
                } else {
                    (StateView::Acknowledged, acknowledgment())
                },
                Err(_) => (StateView::Rejected, rejection()),
            }
        },
        (StateView::Verified(message), EventView::PolicyAnswered { reply }) => {
            match reply {
                Some(text) if text.len() > 0 => (
                    StateView::Replying,
                    ActionView::SendReply {
                        fields: spec_text_fields(
                            context.from_phone,
                            without_channel_prefix(message.from),
                            text,
                        ),
                    },
                ),
                _ => (StateView::Acknowledged, acknowledgment()),
            }
        },
        (StateView::Replying, EventView::ReplyAttempted { .. }) => (
            StateView::Acknowledged,
            acknowledgment(),
        ),
        _ => (state, ActionView::Ignore),
    }
}

fn acknowledge() -> (action: WebhookAction)
    ensures
        action@ == acknowledgment(),
{
    WebhookAction::Respond { status: STATUS_OK, body: String::new() }
}

impl WebhookContext {
    /// Checks that a request comes from the provider, and reads its
    /// inbound message if it does. A request without a signature header
    /// is not accepted, nor one whose header differs from the expected
    /// signature in any character.
    pub fn authenticate(&self, fields: &FormParams, signature: Option<&str>) -> (checked: Result<
        IncomingWhatsAppMessage,
        AuthenticationError,
    >)
        requires
            fields.wf(),
        ensures
            match checked {
                Ok(message) => spec_authenticate(self@, fields@, signature.deep_view()) == Ok::<
                    IncomingView,
                    AuthenticationError,
                >(message@),
                Err(error) => spec_authenticate(self@, fields@, signature.deep_view()) == Err::<
                    IncomingView,
                    AuthenticationError,
                >(error),
            },
    {
        match signature {
            None => Err(AuthenticationError::MissingSignature),
            Some(presented) => {
                if validate_twilio_signature(
                    self.base_url.as_str(),
                    fields,
                    presented,
                    self.client.auth_token.as_str(),
                ) {
                    Ok(read_incoming(fields))
                } else {
                    Err(AuthenticationError::SignatureMismatch)
                }
            },
        }
    }

    /// Handles one event of a webhook request.
    pub fn step(&self, state: WebhookState, event: WebhookEvent) -> (next: (
        WebhookState,
        WebhookAction,
    ))
        requires
            event.wf(),
        ensures
            (next.0@, next.1@) == spec_step(self@, state@, event@),
    {
        match (state, event) {
            (WebhookState::Unverified, WebhookEvent::Request { fields, signature }) => {
                let presented = match &signature {
                    Some(text) => Some(text.as_str()),
                    None => None,
                };
                match self.authenticate(&fields, presented) {
                    Ok(message) => {
                        if self.auto_reply {
                            let action = WebhookAction::AskPolicy {
                                from: message.from.clone(),
                                body: message.body.clone(),
                            };
                            (WebhookState::Verified(message), action)
                        } else {
                            (WebhookState::Acknowledged, acknowledge())
                        }
                    },
                    Err(_) => (
                        WebhookState::Rejected,
                        WebhookAction::Respond {
                            status: STATUS_UNAUTHORIZED,
                            body: String::from_str("Invalid Twilio signature."),
                        },
                    ),
                }
            },
            (WebhookState::Verified(message), WebhookEvent::PolicyAnswered { reply }) => {
                match reply {
                    Some(text) => {
                        if text.as_str().is_empty() {
                            (WebhookState::Acknowledged, acknowledge())
                        } else {
                            let to = strip_channel_prefix(message.from.as_str());
                            let fields = text_fields(&self.client, to.as_str(), text.as_str());
                            (WebhookState::Replying, WebhookAction::SendReply { fields })
                        }
                    },
                    None => (WebhookState::Acknowledged, acknowledge()),
                }
            },
            (WebhookState::Replying, WebhookEvent::ReplyAttempted { delivered }) => (
                WebhookState::Acknowledged,
                acknowledge(),
            ),
            (state, _) => (state, WebhookAction::Ignore),
        }
    }
}

/// The actions that a sequence of events brings about, one per event,
/// starting from `state`.
pub open spec fn run_actions(context: ContextView, state: StateView, events: Seq<EventView>) -> Seq<
    ActionView,
>
    decreases events.len(),
{
    if events.len() == 0 {
        Seq::empty()
    } else {
        let (next, action) = spec_step(context, state, events.first());
        seq![action] + run_actions(context, next, events.drop_first())
    }
}

/// Whether an action reaches the auto-reply policy or the provider.
pub open spec fn reaches_outside(action: ActionView) -> bool {
    action is AskPolicy || action is SendReply
}

/// A request without a signature, or with another signature than the
/// expected one, is rejected with status 401.
pub proof fn lemma_bad_signature_is_rejected(
    context: ContextView,
    fields: Map<Seq<char>, Seq<char>>,
    signature: Option<Seq<char>>,
)
    requires
        signature != Some(expected_signature(context.base_url, fields, context.auth_token)),
    ensures
        spec_authenticate(context, fields, signature) is Err,
        spec_step(context, StateView::Unverified, EventView::Request { fields, signature }) == (
            StateView::Rejected,
            rejection(),
        ),
{
}

/// Rejection and acknowledgment are final: whatever comes after is ignored.
pub proof fn lemma_terminal_states(context: ContextView, state: StateView, event: EventView)
    requires
        state is Rejected || state is Acknowledged,
    ensures
        spec_step(context, state, event) == (state, ActionView::Ignore),
{
}

/// The policy is asked only for a request whose signature matched, a
/// reply is sent only on the policy's answer to a verified message, and
/// a request becomes verified only by a matching signature.
pub proof fn lemma_outside_only_after_verification(
    context: ContextView,
    state: StateView,
    event: EventView,
)
    ensures
        spec_step(context, state, event).1 is AskPolicy ==> state is Unverified && context.auto_reply
            && (event matches EventView::Request { fields, signature } && signature == Some(
            expected_signature(context.base_url, fields, context.auth_token),
        )),
        spec_step(context, state, event).1 is SendReply ==> state is Verified
            && event is PolicyAnswered,
        spec_step(context, state, event).0 is Verified && !(state is Verified) ==> state
            is Unverified && (event matches EventView::Request { fields, signature } && signature
            == Some(expected_signature(context.base_url, fields, context.auth_token))),
{
}

/// Once the reply has been tried, the request is acknowledged with status
/// 200, whether the reply was delivered or not.
pub proof fn lemma_acknowledged_whatever_the_send(context: ContextView, delivered: bool)
    ensures
        spec_step(context, StateView::Replying, EventView::ReplyAttempted { delivered }) == (
            StateView::Acknowledged,
            acknowledgment(),
        ),
{
}

/// From a final state no sequence of events reaches the policy or the provider.
pub proof fn lemma_nothing_after_the_end(
    context: ContextView,
    state: StateView,
    events: Seq<EventView>,
)
    requires
        state is Rejected || state is Acknowledged,
    ensures
        run_actions(context, state, events).len() == events.len(),
        forall|i: int|
            0 <= i < events.len() ==> !reaches_outside(
                #[trigger] run_actions(context, state, events)[i],
            ),
    decreases events.len(),
{
    if events.len() > 0 {
        lemma_nothing_after_the_end(context, state, events.drop_first());
        let rest = run_actions(context, state, events.drop_first());
        assert forall|i: int| 0 <= i < events.len() implies !reaches_outside(
            #[trigger] run_actions(context, state, events)[i],
        ) by {
            if i > 0 {
                assert(run_actions(context, state, events)[i] == rest[i - 1]);
            }
        }
    }
}

/// A request whose signature is missing or wrong never reaches the
/// auto-reply policy or the provider, whatever events follow it.
pub proof fn lemma_rejected_request_reaches_nothing(
    context: ContextView,
    fields: Map<Seq<char>, Seq<char>>,
    signature: Option<Seq<char>>,
    later: Seq<EventView>,
)
    requires
        signature != Some(expected_signature(context.base_url, fields, context.auth_token)),
    ensures
        forall|i: int|
            0 <= i <= later.len() ==> !reaches_outside(
                #[trigger] run_actions(
                    context,
                    StateView::Unverified,
                    seq![EventView::Request { fields, signature }] + later,
                )[i],
            ),
{
    let request = EventView::Request { fields, signature };
    let events = seq![request] + later;
    assert(events.first() == request);
    assert(events.drop_first() =~= later);
    lemma_nothing_after_the_end(context, StateView::Rejected, later);
    let rest = run_actions(context, StateView::Rejected, later);
    let all = run_actions(context, StateView::Unverified, events);
    assert forall|i: int| 0 <= i <= later.len() implies !reaches_outside(#[trigger] all[i]) by {
        if i > 0 {
            assert(all[i] == rest[i - 1]);
        }
    }
}

} // verus!
