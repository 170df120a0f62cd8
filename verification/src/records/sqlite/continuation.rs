//! Continuations in the database.

use crate::datum::{outcome, share, Datum};
use crate::id::ContinuationId;
use crate::records::continuation::{
    claimed, latest_is_in_the_registry, latest_of, may_succeed, registry_consistent, saved,
    validate, validate_successor, Continuation, ContinuationRecord, ContinuationRecordView,
    ContinuationState, ContinuationView, Continuations,
};
use crate::records::sqlite::{corrupt, make_corrupt};
use crate::records::{StoreError, StoreErrorView};
use crate::text::same_text;
use std::sync::Arc;
use vstd::prelude::*;

verus! {

/// A row of the continuations table, with its descriptor as it was decoded.
pub struct ContinuationRow {
    pub value: Result<Continuation, StoreError>,
    pub state: String,
    pub latest: bool,
    pub session: String,
    pub adapter: String,
    pub scope: String,
    pub key: String,
    pub predecessor: Option<String>,
}

/// The columns of a row say the same as its descriptor.
pub open spec fn indexed_by(row: ContinuationRow, id: Seq<char>, value: ContinuationView) -> bool {
    &&& value.id == id
    &&& value.session_id == row.session@
    &&& value.adapter == row.adapter@
    &&& value.scope == row.scope@
    &&& value.native_key == row.key@
    &&& value.predecessor == row.predecessor.deep_view()
}

/// The continuation that a row holds.
pub open spec fn continuation_meaning(row: ContinuationRow, id: Seq<char>) -> Result<
    ContinuationRecordView,
    StoreErrorView,
> {
    match outcome(row.value) {
        Err(e) => Err(e),
        Ok(value) => if !value.valid() {
            Err(StoreErrorView::InvalidContinuation)
        } else if !indexed_by(row, id, value) {
            Err(corrupt("continuation descriptor does not match its indexed identity"@))
        } else if row.state@ == "available"@ {
            Ok(
                ContinuationRecordView {
                    continuation: value,
                    state: ContinuationState::Available,
                    latest: row.latest,
                },
            )
        } else if row.state@ == "claimed"@ {
            Ok(
                ContinuationRecordView {
                    continuation: value,
                    state: ContinuationState::Claimed,
                    latest: row.latest,
                },
            )
        } else {
            Err(corrupt("invalid continuation state"@))
        },
    }
}

fn same_optional_text(a: &Option<ContinuationId>, b: &Option<String>) -> (r: bool)
    ensures
        r == (a.deep_view() == b.deep_view()),
{
    match (a, b) {
        (Some(a), Some(b)) => same_text(a.as_str(), b.as_str()),
        (None, None) => true,
        _ => false,
    }
}

impl ContinuationRow {
    /// The continuation that the row holds.
    pub fn read(self, id: &ContinuationId) -> (r: Result<Arc<ContinuationRecord>, StoreError>)
        ensures
            outcome(r) == continuation_meaning(self, id.deep_view()),
    {
        let value = match self.value {
            Err(e) => return Err(e),
            Ok(value) => value,
        };
        match validate(&value) {
            Err(e) => return Err(e),
            Ok(_) => {},
        }
        if !value.id.same_as(id) || !same_text(value.session_id.as_str(), self.session.as_str())
            || !same_text(value.adapter.as_str(), self.adapter.as_str()) || !same_text(
            value.scope.as_str(),
            self.scope.as_str(),
        ) || !same_text(value.native_key.as_str(), self.key.as_str()) || !same_optional_text(
            &value.predecessor,
            &self.predecessor,
        ) {
            return Err(
                make_corrupt("continuation descriptor does not match its indexed identity"),
            );
        }
        let state = if same_text(self.state.as_str(), "available") {
            ContinuationState::Available
        } else if same_text(self.state.as_str(), "claimed") {
            ContinuationState::Claimed
        } else {
            return Err(make_corrupt("invalid continuation state"));
        };
        Ok(Arc::new(ContinuationRecord { continuation: value, state, latest: self.latest }))
    }
}

/// What saving a continuation does.
pub enum Saving {
    /// It is there already.
    Existing(Arc<ContinuationRecord>),
    /// It is written as the latest; another may no longer be the latest.
    New { record: Arc<ContinuationRecord>, retired: Option<ContinuationId> },
}

/// What saving a continuation does.
pub enum SavingView {
    Existing(ContinuationRecordView),
    New { record: ContinuationRecordView, retired: Option<Seq<char>> },
}

impl DeepView for Saving {
    type V = SavingView;

    open spec fn deep_view(&self) -> SavingView {
        match self {
            Saving::Existing(record) => SavingView::Existing(record.deep_view()),
            Saving::New { record, retired } => SavingView::New {
                record: record.deep_view(),
                retired: retired.deep_view(),
            },
        }
    }
}

/// What saving does, given the continuation of the id and the latest one of the same
/// native session.
pub open spec fn saving(
    value: ContinuationView,
    session: bool,
    existing: Option<ContinuationRecordView>,
    previous: Option<ContinuationRecordView>,
) -> Result<SavingView, StoreErrorView> {
    if !session {
        Err(StoreErrorView::MissingSession)
    } else if !value.valid() {
        Err(StoreErrorView::InvalidContinuation)
    } else {
        match existing {
            Some(record) => if record.continuation == value {
                Ok(SavingView::Existing(record))
            } else {
                Err(StoreErrorView::IdentityConflict)
            },
            None => if !may_succeed(value, previous) {
                Err(StoreErrorView::ContinuationConflict)
            } else {
                Ok(
                    SavingView::New {
                        record: ContinuationRecordView {
                            continuation: value,
                            state: ContinuationState::Available,
                            latest: true,
                        },
                        retired: match previous {
                            Some(previous) => Some(previous.continuation.id),
                            None => None,
                        },
                    },
                )
            },
        }
    }
}

/// What saving a continuation does.
pub fn save_continuation(
    value: Continuation,
    session: bool,
    existing: &Option<Arc<ContinuationRecord>>,
    previous: &Option<Arc<ContinuationRecord>>,
) -> (r: Result<Saving, StoreError>)
    ensures
        outcome(r) == saving(
            value.deep_view(),
            session,
            existing.deep_view(),
            previous.deep_view(),
        ),
{
    if !session {
        return Err(StoreError::MissingSession);
    }
    match validate(&value) {
        Err(e) => return Err(e),
        Ok(_) => {},
    }
    match existing {
        Some(record) => {
            return if record.continuation.same_as(&value) {
                Ok(Saving::Existing(share(record)))
            } else {
                Err(StoreError::IdentityConflict)
            };
        },
        None => {},
    }
    let latest: Option<&ContinuationRecord> = match previous {
        Some(previous) => Some(&**previous),
        None => None,
    };
    match validate_successor(&value, latest) {
        Err(e) => return Err(e),
        Ok(_) => {},
    }
    let retired = match previous {
        Some(previous) => Some(previous.continuation.id.duplicate()),
        None => None,
    };
    let record = ContinuationRecord {
        continuation: value,
        state: ContinuationState::Available,
        latest: true,
    };
    Ok(Saving::New { record: Arc::new(record), retired })
}

/// What claiming leads to, given the continuation of the id.
pub open spec fn claiming(existing: Option<ContinuationRecordView>) -> Result<
    ContinuationRecordView,
    StoreErrorView,
> {
    match existing {
        None => Err(StoreErrorView::MissingContinuation),
        Some(record) => if record.state is Available && record.latest {
            Ok(ContinuationRecordView { state: ContinuationState::Claimed, ..record })
        } else {
            Err(StoreErrorView::ContinuationClaimed)
        },
    }
}

/// What claiming leads to.
pub fn claim_continuation(existing: &Option<Arc<ContinuationRecord>>) -> (r: Result<
    Arc<ContinuationRecord>,
    StoreError,
>)
    ensures
        outcome(r) == claiming(existing.deep_view()),
{
    match existing {
        None => Err(StoreError::MissingContinuation),
        Some(record) => {
            if record.state != ContinuationState::Available || !record.latest {
                return Err(StoreError::ContinuationClaimed);
            }
            Ok(
                Arc::new(
                    ContinuationRecord {
                        continuation: record.continuation.duplicate(),
                        state: ContinuationState::Claimed,
                        latest: record.latest,
                    },
                ),
            )
        },
    }
}

/// The continuation of an id, where there is one.
pub open spec fn held(records: Continuations, id: Seq<char>) -> Option<ContinuationRecordView> {
    if records.contains_key(id) {
        Some(records[id])
    } else {
        None
    }
}

/// Saving in a transaction does what the registry's rules say.
pub proof fn savings_follow_the_registry(records: Continuations, value: ContinuationView)
    requires
        registry_consistent(records),
    ensures
        match saving(value, true, held(records, value.id), latest_of(records, value)) {
            Err(e) => saved(records, value) == Err::<
                (ContinuationRecordView, Continuations),
                StoreErrorView,
            >(e),
            Ok(SavingView::Existing(record)) => saved(records, value) == Ok::<
                (ContinuationRecordView, Continuations),
                StoreErrorView,
            >((record, records)),
            Ok(SavingView::New { record, retired }) => saved(records, value) == Ok::<
                (ContinuationRecordView, Continuations),
                StoreErrorView,
            >(
                (
                    record,
                    match retired {
                        Some(id) => records.insert(
                            id,
                            ContinuationRecordView { latest: false, ..records[id] },
                        ),
                        None => records,
                    }.insert(value.id, record),
                ),
            ),
        },
{
    latest_is_in_the_registry(records, value);
}

/// Claiming in a transaction does what the registry's rules say.
pub proof fn claims_follow_the_registry(records: Continuations, id: Seq<char>)
    ensures
        match claiming(held(records, id)) {
            Err(e) => claimed(records, id) == Err::<
                (ContinuationRecordView, Continuations),
                StoreErrorView,
            >(e),
            Ok(record) => claimed(records, id) == Ok::<
                (ContinuationRecordView, Continuations),
                StoreErrorView,
            >((record, records.insert(id, record))),
        },
{
}

} // verus!
