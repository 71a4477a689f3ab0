use vstd::prelude::*;
use vstd::string::*;

verus! {

/// One quick-reply button of an interactive message.
#[derive(Debug, Clone)]
pub struct InteractiveButton {
    pub id: String,
    pub title: String,
}

/// Model of an [`InteractiveButton`].
pub struct ButtonView {
    pub id: Seq<char>,
    pub title: Seq<char>,
}

impl View for InteractiveButton {
    type V = ButtonView;

    open spec fn view(&self) -> ButtonView {
        ButtonView { id: self.id@, title: self.title@ }
    }
}

impl DeepView for InteractiveButton {
    type V = ButtonView;

    open spec fn deep_view(&self) -> ButtonView {
        self@
    }
}

/// One selectable row of a list section.
#[derive(Debug, Clone)]
pub struct InteractiveListRow {
    pub id: String,
    pub title: String,
    pub description: Option<String>,
}

/// Model of an [`InteractiveListRow`].
pub struct RowView {
    pub id: Seq<char>,
    pub title: Seq<char>,
    pub description: Option<Seq<char>>,
}

impl View for InteractiveListRow {
    type V = RowView;

    open spec fn view(&self) -> RowView {
        RowView { id: self.id@, title: self.title@, description: self.description.deep_view() }
    }
}

impl DeepView for InteractiveListRow {
    type V = RowView;

    open spec fn deep_view(&self) -> RowView {
        self@
    }
}

/// A titled group of rows in a list message.
#[derive(Debug, Clone)]
pub struct InteractiveListSection {
    pub title: Option<String>,
    pub rows: Vec<InteractiveListRow>,
}

/// Model of an [`InteractiveListSection`].
pub struct SectionView {
    pub title: Option<Seq<char>>,
    pub rows: Seq<RowView>,
}

impl View for InteractiveListSection {
    type V = SectionView;

    open spec fn view(&self) -> SectionView {
        SectionView { title: self.title.deep_view(), rows: self.rows.deep_view() }
    }
}

impl DeepView for InteractiveListSection {
    type V = SectionView;

    open spec fn deep_view(&self) -> SectionView {
        self@
    }
}

/// A request for payment. The amount is held as its decimal text.
#[derive(Debug, Clone)]
pub struct PaymentRequest {
    pub amount: String,
    pub currency: String,
    pub description: String,
    pub reference_id: String,
}

/// Model of a [`PaymentRequest`].
pub struct PaymentView {
    pub amount: Seq<char>,
    pub currency: Seq<char>,
    pub description: Seq<char>,
    pub reference_id: Seq<char>,
}

impl View for PaymentRequest {
    type V = PaymentView;

    open spec fn view(&self) -> PaymentView {
        PaymentView {
            amount: self.amount@,
            currency: self.currency@,
            description: self.description@,
            reference_id: self.reference_id@,
        }
    }
}

/// A reminder, sent as text or, when it carries buttons, as a button message.
#[derive(Debug, Clone)]
pub struct ReminderMessage {
    pub title: String,
    pub body: String,
    pub reminder_time: Option<String>,
    pub action_buttons: Option<Vec<InteractiveButton>>,
}

/// Model of a [`ReminderMessage`].
pub struct ReminderView {
    pub title: Seq<char>,
    pub body: Seq<char>,
    pub reminder_time: Option<Seq<char>>,
    pub action_buttons: Option<Seq<ButtonView>>,
}

impl View for ReminderMessage {
    type V = ReminderView;

    open spec fn view(&self) -> ReminderView {
        ReminderView {
            title: self.title@,
            body: self.body@,
            reminder_time: self.reminder_time.deep_view(),
            action_buttons: self.action_buttons.deep_view(),
        }
    }
}

/// The provider's acknowledgment of an accepted message.
#[derive(Debug, Clone)]
pub struct TwilioMessageResponse {
    pub sid: String,
    pub status: String,
    pub to: String,
    pub from: String,
    pub body: Option<String>,
    pub account_sid: String,
    pub api_version: String,
    pub date_created: Option<String>,
    pub date_sent: Option<String>,
    pub date_updated: Option<String>,
    pub direction: Option<String>,
    pub error_code: Option<String>,
    pub error_message: Option<String>,
    pub messaging_service_sid: Option<String>,
    pub num_media: String,
    pub num_segments: String,
    pub price: Option<String>,
    pub price_unit: Option<String>,
    pub uri: Option<String>,
}

/// A structural rule that an outbound message breaks.
#[derive(Debug, Clone, Copy, PartialEq, Eq, Structural)]
pub enum ValidationError {
    /// A button message without buttons.
    NoButtons,
    /// A button message with more than three buttons.
    TooManyButtons,
    /// A button whose identifier is empty.
    EmptyButtonId,
    /// Two buttons of one message with the same identifier.
    DuplicateButtonId,
    /// A list section without rows.
    EmptySection,
    /// Two rows of one section with the same identifier.
    DuplicateRowId,
}

/// The most buttons one message may carry.
pub const MAX_BUTTONS: usize = 3;

/// The identifiers of a button set, in order.
pub open spec fn button_ids(buttons: Seq<ButtonView>) -> Seq<Seq<char>> {
    buttons.map_values(|b: ButtonView| b.id)
}

/// The identifiers of a section's rows, in order.
pub open spec fn row_ids(rows: Seq<RowView>) -> Seq<Seq<char>> {
    rows.map_values(|r: RowView| r.id)
}

/// Whether some button has an empty identifier.
pub open spec fn has_empty_button_id(buttons: Seq<ButtonView>) -> bool {
    exists|i: int| 0 <= i < buttons.len() && (#[trigger] buttons[i]).id.len() == 0
}

/// The rule check on a button set: between one and three buttons, every
/// identifier non-empty, no identifier twice. The rules are tried in that
/// order and the first broken one is reported.
pub open spec fn buttons_verdict(buttons: Seq<ButtonView>) -> Result<(), ValidationError> {
    if buttons.len() == 0 {
        Err(ValidationError::NoButtons)
    } else if buttons.len() > MAX_BUTTONS {
        Err(ValidationError::TooManyButtons)
    } else if has_empty_button_id(buttons) {
        Err(ValidationError::EmptyButtonId)
    } else if !button_ids(buttons).no_duplicates() {
        Err(ValidationError::DuplicateButtonId)
    } else {
        Ok(())
    }
}

/// The rule check on one section: at least one row, no row identifier twice.
pub open spec fn section_verdict(section: SectionView) -> Result<(), ValidationError> {
    if section.rows.len() == 0 {
        Err(ValidationError::EmptySection)
    } else if !row_ids(section.rows).no_duplicates() {
        Err(ValidationError::DuplicateRowId)
    } else {
        Ok(())
    }
}

/// The rule check on a list of sections: the verdict of the first section
/// that breaks a rule, or `Ok` when none does. Row identifiers may repeat
/// across sections.
pub open spec fn sections_verdict(sections: Seq<SectionView>) -> Result<(), ValidationError>
    decreases sections.len(),
{
    if sections.len() == 0 {
        Ok(())
    } else if section_verdict(sections.first()) is Err {
        section_verdict(sections.first())
    } else {
        sections_verdict(sections.drop_first())
    }
}

/// Whether no text occurs twice in `texts`.
fn all_distinct(texts: &Vec<&String>) -> (distinct: bool)
    ensures
        distinct == texts.deep_view().no_duplicates(),
{
    let n = texts.len();
    let mut i: usize = 0;
    while i < n
        invariant
            n == texts.len(),
            i <= n,
            forall|a: int, b: int|
                0 <= a < b < n && a < i ==> texts.deep_view()[a] != texts.deep_view()[b],
        decreases n - i,
    {
        let mut j: usize = i + 1;
        while j < n
            invariant
                n == texts.len(),
                i < j <= n,
                forall|b: int| i < b < j ==> texts.deep_view()[i as int] != texts.deep_view()[b],
            decreases n - j,
        {
            if *texts[i] == *texts[j] {
                assert(texts.deep_view()[i as int] == texts.deep_view()[j as int]);
                return false;
            }
            j += 1;
        }
        i += 1;
    }
    true
}

/// Checks a button set against the rules for button messages.
pub fn validate_buttons(buttons: &Vec<InteractiveButton>) -> (verdict: Result<(), ValidationError>)
    ensures
        verdict == buttons_verdict(buttons.deep_view()),
{
    let n = buttons.len();
    if n == 0 {
        return Err(ValidationError::NoButtons);
    }
    if n > MAX_BUTTONS {
        return Err(ValidationError::TooManyButtons);
    }
    let mut ids: Vec<&String> = Vec::new();
    let mut i: usize = 0;
    while i < n
        invariant
            n == buttons.len(),
            0 < n <= MAX_BUTTONS,
            i <= n,
            ids.len() == i,
            forall|k: int| 0 <= k < i ==> (#[trigger] ids@[k])@ == buttons@[k].id@,
            forall|k: int| 0 <= k < i ==> (#[trigger] buttons@[k]).id@.len() != 0,
        decreases n - i,
    {
        if buttons[i].id.as_str().is_empty() {
            assert(buttons.deep_view()[i as int].id.len() == 0);
            return Err(ValidationError::EmptyButtonId);
        }
        ids.push(&buttons[i].id);
        i += 1;
    }
    assert(ids.deep_view() =~= button_ids(buttons.deep_view()));
    assert(!has_empty_button_id(buttons.deep_view())) by {
        assert forall|k: int| 0 <= k < buttons.deep_view().len() implies (
        #[trigger] buttons.deep_view()[k]).id.len() != 0 by {
            assert(buttons@[k].id@.len() != 0);
        }
    }
    if all_distinct(&ids) {
        Ok(())
    } else {
        Err(ValidationError::DuplicateButtonId)
    }
}

/// Checks one list section against the rules for list messages.
pub fn validate_section(section: &InteractiveListSection) -> (verdict: Result<(), ValidationError>)
    ensures
        verdict == section_verdict(section@),
{
    let n = section.rows.len();
    if n == 0 {
        return Err(ValidationError::EmptySection);
    }
    let mut ids: Vec<&String> = Vec::new();
    let mut i: usize = 0;
    while i < n
        invariant
            n == section.rows.len(),
            i <= n,
            ids.len() == i,
            forall|k: int| 0 <= k < i ==> (#[trigger] ids@[k])@ == section.rows@[k].id@,
        decreases n - i,
    {
        ids.push(&section.rows[i].id);
        i += 1;
    }
    assert(ids.deep_view() =~= row_ids(section@.rows));
    if all_distinct(&ids) {
        Ok(())
    } else {
        Err(ValidationError::DuplicateRowId)
    }
}

/// Checks every section of a list message, in order.
pub fn validate_sections(sections: &Vec<InteractiveListSection>) -> (verdict: Result<
    (),
    ValidationError,
>)
    ensures
        verdict == sections_verdict(sections.deep_view()),
{
    let n = sections.len();
    let mut i: usize = 0;
    assert(sections.deep_view().skip(0) =~= sections.deep_view());
    while i < n
        invariant
            n == sections.len(),
            i <= n,
            sections_verdict(sections.deep_view()) == sections_verdict(
                sections.deep_view().skip(i as int),
            ),
        decreases n - i,
    {
        let ghost rest = sections.deep_view().skip(i as int);
        assert(rest.first() == sections[i as int]@);
        assert(rest.drop_first() =~= sections.deep_view().skip(i + 1));
        let verdict = validate_section(&sections[i]);
        if verdict.is_err() {
            return verdict;
        }
        i += 1;
    }
    Ok(())
}

} // verus!
