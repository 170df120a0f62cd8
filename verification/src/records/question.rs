//! Structured questions and their answers.

use crate::datum::Datum;
use crate::records::StoreError;
use crate::table::Table;
use crate::text::{blank, byte_len, bytes_of, is_blank};
use vstd::prelude::*;

verus! {

/// A structured question to the application.
#[derive(Debug, PartialEq, Eq)]
pub struct Question {
    pub title: String,
    pub fields: Vec<QuestionField>,
}

/// What a `Question` holds.
#[verifier::ext_equal]
pub struct QuestionView {
    pub title: Seq<char>,
    pub fields: Seq<QuestionFieldView>,
}

impl DeepView for Question {
    type V = QuestionView;

    open spec fn deep_view(&self) -> QuestionView {
        QuestionView {
            title: self.title.deep_view(),
            fields: self.fields.deep_view(),
        }
    }
}

impl Datum for Question {
    fn duplicate(&self) -> (r: Question) {
        Question {
            title: self.title.duplicate(),
            fields: self.fields.duplicate(),
        }
    }

    fn same_as(&self, other: &Question) -> (r: bool) {
        self.title.same_as(&other.title)
            && self.fields.same_as(&other.fields)
    }
}

/// One field of a question.
#[derive(Debug, PartialEq, Eq)]
pub struct QuestionField {
    pub id: String,
    pub label: String,
    pub required: bool,
    pub kind: QuestionFieldKind,
}

/// What a `QuestionField` holds.
#[verifier::ext_equal]
pub struct QuestionFieldView {
    pub id: Seq<char>,
    pub label: Seq<char>,
    pub required: bool,
    pub kind: QuestionFieldKindView,
}

impl DeepView for QuestionField {
    type V = QuestionFieldView;

    open spec fn deep_view(&self) -> QuestionFieldView {
        QuestionFieldView {
            id: self.id.deep_view(),
            label: self.label.deep_view(),
            required: self.required.deep_view(),
            kind: self.kind.deep_view(),
        }
    }
}

impl Datum for QuestionField {
    fn duplicate(&self) -> (r: QuestionField) {
        QuestionField {
            id: self.id.duplicate(),
            label: self.label.duplicate(),
            required: self.required.duplicate(),
            kind: self.kind.duplicate(),
        }
    }

    fn same_as(&self, other: &QuestionField) -> (r: bool) {
        self.id.same_as(&other.id)
            && self.label.same_as(&other.label)
            && self.required.same_as(&other.required)
            && self.kind.same_as(&other.kind)
    }
}

/// One choice of a select field.
#[derive(Debug, PartialEq, Eq)]
pub struct QuestionOption {
    pub id: String,
    pub label: String,
}

/// What a `QuestionOption` holds.
#[verifier::ext_equal]
pub struct QuestionOptionView {
    pub id: Seq<char>,
    pub label: Seq<char>,
}

impl DeepView for QuestionOption {
    type V = QuestionOptionView;

    open spec fn deep_view(&self) -> QuestionOptionView {
        QuestionOptionView {
            id: self.id.deep_view(),
            label: self.label.deep_view(),
        }
    }
}

impl Datum for QuestionOption {
    fn duplicate(&self) -> (r: QuestionOption) {
        QuestionOption {
            id: self.id.duplicate(),
            label: self.label.duplicate(),
        }
    }

    fn same_as(&self, other: &QuestionOption) -> (r: bool) {
        self.id.same_as(&other.id)
            && self.label.same_as(&other.label)
    }
}

/// What a field asks for.
#[derive(Debug, PartialEq, Eq)]
pub enum QuestionFieldKind {
    Text { max_bytes: usize },
    Boolean,
    Integer { min: i64, max: i64 },
    Select { options: Vec<QuestionOption> },
}

/// What a `QuestionFieldKind` holds.
pub enum QuestionFieldKindView {
    Text { max_bytes: usize },
    Boolean,
    Integer { min: i64, max: i64 },
    Select { options: Seq<QuestionOptionView> },
}

impl DeepView for QuestionFieldKind {
    type V = QuestionFieldKindView;

    open spec fn deep_view(&self) -> QuestionFieldKindView {
        match self {
            QuestionFieldKind::Text { max_bytes } => QuestionFieldKindView::Text {
                max_bytes: max_bytes.deep_view(),
            },
            QuestionFieldKind::Boolean => QuestionFieldKindView::Boolean,
            QuestionFieldKind::Integer { min, max } => QuestionFieldKindView::Integer {
                min: min.deep_view(),
                max: max.deep_view(),
            },
            QuestionFieldKind::Select { options } => QuestionFieldKindView::Select {
                options: options.deep_view(),
            },
        }
    }
}

impl Datum for QuestionFieldKind {
    fn duplicate(&self) -> (r: QuestionFieldKind) {
        match self {
            QuestionFieldKind::Text { max_bytes } => QuestionFieldKind::Text {
                max_bytes: max_bytes.duplicate(),
            },
            QuestionFieldKind::Boolean => QuestionFieldKind::Boolean,
            QuestionFieldKind::Integer { min, max } => QuestionFieldKind::Integer {
                min: min.duplicate(),
                max: max.duplicate(),
            },
            QuestionFieldKind::Select { options } => QuestionFieldKind::Select {
                options: options.duplicate(),
            },
        }
    }

    fn same_as(&self, other: &QuestionFieldKind) -> (r: bool) {
        match (self, other) {
            (QuestionFieldKind::Text { max_bytes: max_bytes_a }, QuestionFieldKind::Text { max_bytes: max_bytes_b }) => {
                max_bytes_a.same_as(max_bytes_b)
            },
            (QuestionFieldKind::Boolean, QuestionFieldKind::Boolean) => true,
            (QuestionFieldKind::Integer { min: min_a, max: max_a }, QuestionFieldKind::Integer { min: min_b, max: max_b }) => {
                min_a.same_as(min_b)
                    && max_a.same_as(max_b)
            },
            (QuestionFieldKind::Select { options: options_a }, QuestionFieldKind::Select { options: options_b }) => {
                options_a.same_as(options_b)
            },
            _ => false,
        }
    }
}

/// A value given for a field.
#[derive(Debug, PartialEq, Eq)]
pub enum AnswerValue {
    Text(String),
    Boolean(bool),
    Integer(i64),
    Selected(String),
}

/// What a `AnswerValue` holds.
pub enum AnswerValueView {
    Text(Seq<char>),
    Boolean(bool),
    Integer(i64),
    Selected(Seq<char>),
}

impl DeepView for AnswerValue {
    type V = AnswerValueView;

    open spec fn deep_view(&self) -> AnswerValueView {
        match self {
            AnswerValue::Text(value) => AnswerValueView::Text(value.deep_view()),
            AnswerValue::Boolean(value) => AnswerValueView::Boolean(value.deep_view()),
            AnswerValue::Integer(value) => AnswerValueView::Integer(value.deep_view()),
            AnswerValue::Selected(value) => AnswerValueView::Selected(value.deep_view()),
        }
    }
}

impl Datum for AnswerValue {
    fn duplicate(&self) -> (r: AnswerValue) {
        match self {
            AnswerValue::Text(value) => AnswerValue::Text(value.duplicate()),
            AnswerValue::Boolean(value) => AnswerValue::Boolean(value.duplicate()),
            AnswerValue::Integer(value) => AnswerValue::Integer(value.duplicate()),
            AnswerValue::Selected(value) => AnswerValue::Selected(value.duplicate()),
        }
    }

    fn same_as(&self, other: &AnswerValue) -> (r: bool) {
        match (self, other) {
            (AnswerValue::Text(a), AnswerValue::Text(b)) => a.same_as(b),
            (AnswerValue::Boolean(a), AnswerValue::Boolean(b)) => a.same_as(b),
            (AnswerValue::Integer(a), AnswerValue::Integer(b)) => a.same_as(b),
            (AnswerValue::Selected(a), AnswerValue::Selected(b)) => a.same_as(b),
            _ => false,
        }
    }
}

/// How a question was answered.
#[derive(Debug, PartialEq, Eq)]
pub enum AnswerOutcome {
    Submitted(Table<AnswerValue>),
    Declined,
    Cancelled,
}

/// What a `AnswerOutcome` holds.
pub enum AnswerOutcomeView {
    Submitted(Map<Seq<char>, AnswerValueView>),
    Declined,
    Cancelled,
}

impl DeepView for AnswerOutcome {
    type V = AnswerOutcomeView;

    open spec fn deep_view(&self) -> AnswerOutcomeView {
        match self {
            AnswerOutcome::Submitted(value) => AnswerOutcomeView::Submitted(value.deep_view()),
            AnswerOutcome::Declined => AnswerOutcomeView::Declined,
            AnswerOutcome::Cancelled => AnswerOutcomeView::Cancelled,
        }
    }
}

impl Datum for AnswerOutcome {
    fn duplicate(&self) -> (r: AnswerOutcome) {
        match self {
            AnswerOutcome::Submitted(value) => AnswerOutcome::Submitted(value.duplicate()),
            AnswerOutcome::Declined => AnswerOutcome::Declined,
            AnswerOutcome::Cancelled => AnswerOutcome::Cancelled,
        }
    }

    fn same_as(&self, other: &AnswerOutcome) -> (r: bool) {
        match (self, other) {
            (AnswerOutcome::Submitted(a), AnswerOutcome::Submitted(b)) => a.same_as(b),
            (AnswerOutcome::Declined, AnswerOutcome::Declined) => true,
            (AnswerOutcome::Cancelled, AnswerOutcome::Cancelled) => true,
            _ => false,
        }
    }
}

/// How far an answer got.
#[derive(Debug, Clone, Copy, PartialEq, Eq, Structural)]
pub enum AnswerDelivery {
    /// Saved locally; no provider delivery is implied.
    Stored,
    Queued,
    Unknown,
}

impl DeepView for AnswerDelivery {
    type V = AnswerDelivery;

    open spec fn deep_view(&self) -> AnswerDelivery {
        *self
    }
}

impl Datum for AnswerDelivery {
    fn duplicate(&self) -> (r: AnswerDelivery) {
        *self
    }

    fn same_as(&self, other: &AnswerDelivery) -> (r: bool) {
        *self == *other
    }
}

/// The ids are distinct.
pub open spec fn distinct_options(options: Seq<QuestionOptionView>) -> bool {
    forall|i: int, j: int|
        0 <= i < j < options.len() ==> (#[trigger] options[i]).id != (#[trigger] options[j]).id
}

impl QuestionFieldKindView {
    /// A field of this kind can be answered.
    pub open spec fn valid(self) -> bool {
        match self {
            QuestionFieldKindView::Text { max_bytes } => max_bytes > 0,
            QuestionFieldKindView::Boolean => true,
            QuestionFieldKindView::Integer { min, max } => min <= max,
            QuestionFieldKindView::Select { options } => {
                &&& 1 <= options.len() <= 256
                &&& distinct_options(options)
                &&& forall|i: int|
                    0 <= i < options.len() ==> !blank((#[trigger] options[i]).id) && !blank(
                        options[i].label,
                    )
            },
        }
    }

    /// The options of a select field hold the id.
    pub open spec fn offers(self, id: Seq<char>) -> bool {
        self matches QuestionFieldKindView::Select { options } && exists|i: int|
            0 <= i < options.len() && (#[trigger] options[i]).id == id
    }
}

impl QuestionFieldView {
    /// The field can be shown and answered.
    pub open spec fn valid(self) -> bool {
        !blank(self.id) && !blank(self.label) && self.kind.valid()
    }

    /// The value answers the field.
    pub open spec fn accepts(self, value: AnswerValueView) -> bool {
        match (self.kind, value) {
            (QuestionFieldKindView::Text { max_bytes }, AnswerValueView::Text(text)) => {
                bytes_of(text) <= max_bytes && (self.required ==> !blank(text))
            },
            (QuestionFieldKindView::Boolean, AnswerValueView::Boolean(_)) => true,
            (QuestionFieldKindView::Integer { min, max }, AnswerValueView::Integer(n)) => {
                min <= n <= max
            },
            (QuestionFieldKindView::Select { .. }, AnswerValueView::Selected(id)) => {
                self.kind.offers(id)
            },
            _ => false,
        }
    }
}

impl QuestionView {
    /// Some field has the id.
    pub open spec fn asks(self, id: Seq<char>) -> bool {
        exists|i: int| 0 <= i < self.fields.len() && (#[trigger] self.fields[i]).id == id
    }

    /// The question can be shown: it has a title and between 1 and 64 fields with
    /// distinct ids, each of which can be answered.
    pub open spec fn valid(self) -> bool {
        &&& !blank(self.title)
        &&& 1 <= self.fields.len() <= 64
        &&& forall|i: int| 0 <= i < self.fields.len() ==> (#[trigger] self.fields[i]).valid()
        &&& forall|i: int, j: int|
            0 <= i < j < self.fields.len() ==> (#[trigger] self.fields[i]).id != (
            #[trigger] self.fields[j]).id
    }

    /// The outcome answers the question: it gives values for fields of the question
    /// alone, each of them acceptable, and one for each required field.
    pub open spec fn accepts(self, outcome: AnswerOutcomeView) -> bool {
        outcome matches AnswerOutcomeView::Submitted(values) ==> {
            &&& forall|id: Seq<char>| #[trigger] values.contains_key(id) ==> self.asks(id)
            &&& forall|i: int|
                0 <= i < self.fields.len() ==> {
                    let field = #[trigger] self.fields[i];
                    if values.contains_key(field.id) {
                        field.accepts(values[field.id])
                    } else {
                        !field.required
                    }
                }
        }
    }
}

fn options_valid(options: &Vec<QuestionOption>) -> (r: bool)
    ensures
        r == (QuestionFieldKindView::Select { options: options.deep_view() }).valid(),
{
    let ghost views = options.deep_view();
    if options.len() == 0 || options.len() > 256 {
        return false;
    }
    let mut i: usize = 0;
    while i < options.len()
        invariant
            i <= options.len(),
            views == options.deep_view(),
            forall|a: int|
                0 <= a < i ==> !blank((#[trigger] views[a]).id) && !blank(views[a].label),
            forall|a: int, b: int|
                0 <= a < b < i ==> (#[trigger] views[a]).id != (#[trigger] views[b]).id,
        decreases options.len() - i,
    {
        let option = &options[i];
        assert(views[i as int] == option.deep_view());
        if is_blank(option.id.as_str()) || is_blank(option.label.as_str()) {
            return false;
        }
        let mut j: usize = 0;
        while j < i
            invariant
                j <= i < options.len(),
                views == options.deep_view(),
                option == options@[i as int],
                forall|a: int| 0 <= a < j ==> (#[trigger] views[a]).id != option.id@,
            decreases i - j,
        {
            assert(views[j as int] == options@[j as int].deep_view());
            if options[j].id.same_as(&option.id) {
                assert(views[j as int].id == views[i as int].id);
                return false;
            }
            j = j + 1;
        }
        i = i + 1;
    }
    true
}

impl QuestionFieldKind {
    fn is_valid(&self) -> (r: bool)
        ensures
            r == self.deep_view().valid(),
    {
        match self {
            QuestionFieldKind::Text { max_bytes } => *max_bytes > 0,
            QuestionFieldKind::Boolean => true,
            QuestionFieldKind::Integer { min, max } => *min <= *max,
            QuestionFieldKind::Select { options } => options_valid(options),
        }
    }
}

impl QuestionField {
    fn is_valid(&self) -> (r: bool)
        ensures
            r == self.deep_view().valid(),
    {
        !is_blank(self.id.as_str()) && !is_blank(self.label.as_str()) && self.kind.is_valid()
    }

    fn is_answered_by(&self, value: &AnswerValue) -> (r: bool)
        ensures
            r == self.deep_view().accepts(value.deep_view()),
    {
        match (&self.kind, value) {
            (QuestionFieldKind::Text { max_bytes }, AnswerValue::Text(text)) => {
                byte_len(text.as_str()) <= *max_bytes && (!self.required || !is_blank(
                    text.as_str(),
                ))
            },
            (QuestionFieldKind::Boolean, AnswerValue::Boolean(_)) => true,
            (QuestionFieldKind::Integer { min, max }, AnswerValue::Integer(n)) => {
                *min <= *n && *n <= *max
            },
            (QuestionFieldKind::Select { options }, AnswerValue::Selected(id)) => {
                let ghost views = options.deep_view();
                let mut i: usize = 0;
                while i < options.len()
                    invariant
                        i <= options.len(),
                        views == options.deep_view(),
                        self.deep_view().kind == (QuestionFieldKindView::Select { options: views }),
                        value.deep_view() == AnswerValueView::Selected(id@),
                        forall|a: int| 0 <= a < i ==> (#[trigger] views[a]).id != id@,
                    decreases options.len() - i,
                {
                    assert(views[i as int] == options@[i as int].deep_view());
                    if options[i].id.same_as(id) {
                        assert(self.deep_view().kind matches QuestionFieldKindView::Select {
                            options: offered,
                        } && offered[i as int].id == id@);
                        return true;
                    }
                    i = i + 1;
                }
                false
            },
            _ => false,
        }
    }
}

impl Question {
    /// Whether the question can be shown.
    pub fn validate(&self) -> (r: Result<(), StoreError>)
        ensures
            r is Ok <==> self.deep_view().valid(),
            r matches Err(e) ==> e == StoreError::InvalidPayload,
    {
        let ghost views = self.deep_view().fields;
        if is_blank(self.title.as_str()) || self.fields.len() == 0 || self.fields.len() > 64 {
            return Err(StoreError::InvalidPayload);
        }
        let mut i: usize = 0;
        while i < self.fields.len()
            invariant
                i <= self.fields.len(),
                views == self.deep_view().fields,
                forall|a: int| 0 <= a < i ==> (#[trigger] views[a]).valid(),
                forall|a: int, b: int|
                    0 <= a < b < i ==> (#[trigger] views[a]).id != (#[trigger] views[b]).id,
            decreases self.fields.len() - i,
        {
            let field = &self.fields[i];
            assert(views[i as int] == field.deep_view());
            if !field.is_valid() {
                return Err(StoreError::InvalidPayload);
            }
            let mut j: usize = 0;
            while j < i
                invariant
                    j <= i < self.fields.len(),
                    views == self.deep_view().fields,
                    field == self.fields@[i as int],
                    forall|a: int| 0 <= a < j ==> (#[trigger] views[a]).id != field.id@,
                decreases i - j,
            {
                assert(views[j as int] == self.fields@[j as int].deep_view());
                if self.fields[j].id.same_as(&field.id) {
                    assert(views[j as int].id == views[i as int].id);
                    return Err(StoreError::InvalidPayload);
                }
                j = j + 1;
            }
            i = i + 1;
        }
        Ok(())
    }

    fn has_field(&self, id: &String) -> (r: bool)
        ensures
            r == self.deep_view().asks(id@),
    {
        let ghost views = self.deep_view().fields;
        let mut i: usize = 0;
        while i < self.fields.len()
            invariant
                i <= self.fields.len(),
                views == self.deep_view().fields,
                forall|a: int| 0 <= a < i ==> (#[trigger] views[a]).id != id@,
            decreases self.fields.len() - i,
        {
            assert(views[i as int] == self.fields@[i as int].deep_view());
            if self.fields[i].id.same_as(id) {
                return true;
            }
            i = i + 1;
        }
        false
    }

    /// Whether the outcome answers the question. An answer to a question that
    /// cannot be shown is refused as the question itself is.
    pub fn validate_answer(&self, outcome: &AnswerOutcome) -> (r: Result<(), StoreError>)
        ensures
            r is Ok <==> self.deep_view().valid() && self.deep_view().accepts(outcome.deep_view()),
            r matches Err(e) ==> e == (if self.deep_view().valid() {
                StoreError::InvalidDecision
            } else {
                StoreError::InvalidPayload
            }),
    {
        match self.validate() {
            Err(e) => return Err(e),
            Ok(_) => {},
        }
        let values = match outcome {
            AnswerOutcome::Submitted(values) => values,
            _ => return Ok(()),
        };
        let ghost given = values.deep_view();
        let ghost views = self.deep_view().fields;
        let n = values.len();
        let mut i: usize = 0;
        while i < n
            invariant
                i <= n,
                n == values.keys().len(),
                given == values.deep_view(),
                outcome.deep_view() == AnswerOutcomeView::Submitted(given),
                self.deep_view().valid(),
                forall|a: int| 0 <= a < i ==> self.deep_view().asks(#[trigger] values.keys()[a]),
            decreases n - i,
        {
            let key = values.key_at(i);
            if !self.has_field(key) {
                assert(given.contains_key(key@));
                assert(outcome.deep_view() matches AnswerOutcomeView::Submitted(submitted)
                    && submitted.contains_key(key@));
                return Err(StoreError::InvalidDecision);
            }
            i = i + 1;
        }
        assert forall|id: Seq<char>| #[trigger] given.contains_key(id) implies self.deep_view().asks(
            id,
        ) by {
            assert(values@.contains_key(id));
            let a = choose|a: int| 0 <= a < values.keys().len() && values.keys()[a] == id;
            assert(values.keys()[a] == id);
        }
        let mut i: usize = 0;
        while i < self.fields.len()
            invariant
                i <= self.fields.len(),
                given == values.deep_view(),
                views == self.deep_view().fields,
                outcome.deep_view() == AnswerOutcomeView::Submitted(given),
                self.deep_view().valid(),
                forall|a: int|
                    0 <= a < i ==> {
                        let field = #[trigger] views[a];
                        if given.contains_key(field.id) {
                            field.accepts(given[field.id])
                        } else {
                            !field.required
                        }
                    },
            decreases self.fields.len() - i,
        {
            let field = &self.fields[i];
            assert(views[i as int] == field.deep_view());
            let valid = match values.get(field.id.as_str()) {
                Some(value) => {
                    assert(given[field.id@] == value.deep_view());
                    field.is_answered_by(value)
                },
                None => !field.required,
            };
            if !valid {
                return Err(StoreError::InvalidDecision);
            }
            i = i + 1;
        }
        Ok(())
    }
}

} // verus!
