//! Returned text that has to be one JSON value.

use crate::datum::outcome;
use crate::json::{json_views, Json, JsonView};
use crate::table::Table;
use crate::text::{byte_len, bytes_of};
use vstd::prelude::*;
use vstd::string::*;

verus! {

/// Why a result was not accepted.
#[derive(Debug, PartialEq, Eq)]
pub enum JsonRejection {
    MissingOutput,
    NonTextOutput,
    AmbiguousOutput,
    Incomplete(String),
    /// The text is not the JSON value that the contract asks for, as the validator says.
    Invalid(String),
}

/// What a `JsonRejection` holds.
pub enum JsonRejectionView {
    MissingOutput,
    NonTextOutput,
    AmbiguousOutput,
    Incomplete(Seq<char>),
    Invalid(Seq<char>),
}

impl DeepView for JsonRejection {
    type V = JsonRejectionView;

    open spec fn deep_view(&self) -> JsonRejectionView {
        match self {
            JsonRejection::MissingOutput => JsonRejectionView::MissingOutput,
            JsonRejection::NonTextOutput => JsonRejectionView::NonTextOutput,
            JsonRejection::AmbiguousOutput => JsonRejectionView::AmbiguousOutput,
            JsonRejection::Incomplete(text) => JsonRejectionView::Incomplete(text@),
            JsonRejection::Invalid(text) => JsonRejectionView::Invalid(text@),
        }
    }
}

/// A tagged value, with its data where there is some.
pub open spec fn tagged(tag: Seq<char>, data: Option<Seq<char>>) -> JsonView {
    let bare = Map::<Seq<char>, JsonView>::empty().insert("type"@, JsonView::Text(tag));
    match data {
        Some(text) => JsonView::Object(bare.insert("data"@, JsonView::Text(text))),
        None => JsonView::Object(bare),
    }
}

impl JsonRejectionView {
    /// The rejection in JSON.
    pub open spec fn json(self) -> JsonView {
        match self {
            JsonRejectionView::MissingOutput => tagged("missing_output"@, None),
            JsonRejectionView::NonTextOutput => tagged("non_text_output"@, None),
            JsonRejectionView::AmbiguousOutput => tagged("ambiguous_output"@, None),
            JsonRejectionView::Incomplete(text) => tagged("incomplete"@, Some(text)),
            JsonRejectionView::Invalid(text) => tagged("invalid"@, Some(text)),
        }
    }
}

fn make_tagged(tag: &str, data: Option<&String>) -> (r: Json)
    ensures
        r.deep_view() == tagged(
            tag@,
            match data {
                Some(text) => Some(text@),
                None => None,
            },
        ),
{
    broadcast use json_views;

    let mut members: Table<Json> = Table::new();
    assert(members.deep_view() =~= Map::<Seq<char>, JsonView>::empty());
    members.put("type".to_owned(), Json::Text(tag.to_owned()));
    match data {
        Some(text) => members.put("data".to_owned(), Json::Text(text.clone())),
        None => {},
    }
    Json::Object(members)
}

impl JsonRejection {
    /// The rejection in JSON.
    pub fn to_json(&self) -> (r: Json)
        ensures
            r.deep_view() == self.deep_view().json(),
    {
        match self {
            JsonRejection::MissingOutput => make_tagged("missing_output", None),
            JsonRejection::NonTextOutput => make_tagged("non_text_output", None),
            JsonRejection::AmbiguousOutput => make_tagged("ambiguous_output", None),
            JsonRejection::Incomplete(text) => make_tagged("incomplete", Some(text)),
            JsonRejection::Invalid(text) => make_tagged("invalid", Some(text)),
        }
    }
}

/// What a result has to be.
#[derive(Debug, PartialEq, Eq)]
pub struct JsonContract {
    pub name: String,
    pub revision: String,
    pub instructions: String,
    /// Bounds parsing, not the existing transcript buffer.
    pub max_validation_bytes: u64,
    pub application_validation: bool,
}

impl JsonContract {
    /// The text, unless it is too long to be parsed.
    pub fn bounded(&self, text: String) -> (r: Result<String, JsonRejection>)
        ensures
            outcome(r) == if bytes_of(text@) > self.max_validation_bytes {
                Err::<Seq<char>, JsonRejectionView>(
                    JsonRejectionView::Invalid("JSON exceeds validation byte limit"@),
                )
            } else {
                Ok::<Seq<char>, JsonRejectionView>(text@)
            },
    {
        let length: usize = byte_len(text.as_str());
        if length as u64 > self.max_validation_bytes {
            Err(JsonRejection::Invalid("JSON exceeds validation byte limit".to_owned()))
        } else {
            Ok(text)
        }
    }
}

} // verus!
