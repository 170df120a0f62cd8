//! Single-use handoffs of native sessions.

use crate::datum::{outcome, share, Datum};
use crate::id::{ContinuationId, SessionId, SlotId};
use crate::json::{Json, JsonView};
use crate::records::{StoreError, StoreErrorView};
use crate::table::Table;
use crate::text::{blank, is_blank};
use std::sync::Arc;
use vstd::prelude::*;

verus! {

/// An immutable handoff descriptor. It is a native context locator, not a
/// transcript snapshot or proof that another client has not changed that context.
#[derive(Debug, PartialEq, Eq)]
pub struct Continuation {
    pub id: ContinuationId,
    pub session_id: SessionId,
    pub slot_id: SlotId,
    pub adapter: String,
    /// Application-owned account/profile/environment namespace. Never a credential.
    pub scope: String,
    pub native_key: String,
    pub predecessor: Option<ContinuationId>,
    /// Adapter-versioned, non-secret native metadata.
    pub data: Json,
}

/// What a `Continuation` holds.
#[verifier::ext_equal]
pub struct ContinuationView {
    pub id: Seq<char>,
    pub session_id: Seq<char>,
    pub slot_id: Seq<char>,
    pub adapter: Seq<char>,
    pub scope: Seq<char>,
    pub native_key: Seq<char>,
    pub predecessor: Option<Seq<char>>,
    pub data: JsonView,
}

impl DeepView for Continuation {
    type V = ContinuationView;

    open spec fn deep_view(&self) -> ContinuationView {
        ContinuationView {
            id: self.id.deep_view(),
            session_id: self.session_id.deep_view(),
            slot_id: self.slot_id.deep_view(),
            adapter: self.adapter.deep_view(),
            scope: self.scope.deep_view(),
            native_key: self.native_key.deep_view(),
            predecessor: self.predecessor.deep_view(),
            data: self.data.deep_view(),
        }
    }
}

impl Datum for Continuation {
    fn duplicate(&self) -> (r: Continuation) {
        Continuation {
            id: self.id.duplicate(),
            session_id: self.session_id.duplicate(),
            slot_id: self.slot_id.duplicate(),
            adapter: self.adapter.duplicate(),
            scope: self.scope.duplicate(),
            native_key: self.native_key.duplicate(),
            predecessor: self.predecessor.duplicate(),
            data: self.data.duplicate(),
        }
    }

    fn same_as(&self, other: &Continuation) -> (r: bool) {
        self.id.same_as(&other.id)
            && self.session_id.same_as(&other.session_id)
            && self.slot_id.same_as(&other.slot_id)
            && self.adapter.same_as(&other.adapter)
            && self.scope.same_as(&other.scope)
            && self.native_key.same_as(&other.native_key)
            && self.predecessor.same_as(&other.predecessor)
            && self.data.same_as(&other.data)
    }
}

/// Whether a continuation can still be claimed.
#[derive(Debug, Clone, Copy, PartialEq, Eq, Structural)]
pub enum ContinuationState {
    Available,
    Claimed,
}

impl DeepView for ContinuationState {
    type V = ContinuationState;

    open spec fn deep_view(&self) -> ContinuationState {
        *self
    }
}

impl Datum for ContinuationState {
    fn duplicate(&self) -> (r: ContinuationState) {
        *self
    }

    fn same_as(&self, other: &ContinuationState) -> (r: bool) {
        *self == *other
    }
}

/// A saved continuation and what became of it.
#[derive(Debug, PartialEq, Eq)]
pub struct ContinuationRecord {
    pub continuation: Continuation,
    pub state: ContinuationState,
    pub latest: bool,
}

/// What a `ContinuationRecord` holds.
#[verifier::ext_equal]
pub struct ContinuationRecordView {
    pub continuation: ContinuationView,
    pub state: ContinuationState,
    pub latest: bool,
}

impl DeepView for ContinuationRecord {
    type V = ContinuationRecordView;

    open spec fn deep_view(&self) -> ContinuationRecordView {
        ContinuationRecordView {
            continuation: self.continuation.deep_view(),
            state: self.state.deep_view(),
            latest: self.latest.deep_view(),
        }
    }
}

impl Datum for ContinuationRecord {
    fn duplicate(&self) -> (r: ContinuationRecord) {
        ContinuationRecord {
            continuation: self.continuation.duplicate(),
            state: self.state.duplicate(),
            latest: self.latest.duplicate(),
        }
    }

    fn same_as(&self, other: &ContinuationRecord) -> (r: bool) {
        self.continuation.same_as(&other.continuation)
            && self.state.same_as(&other.state)
            && self.latest.same_as(&other.latest)
    }
}

impl ContinuationView {
    /// The descriptor names an adapter, a scope and a native session, and does not
    /// succeed itself.
    pub open spec fn valid(self) -> bool {
        &&& !blank(self.adapter)
        &&& !blank(self.scope)
        &&& !blank(self.native_key)
        &&& self.predecessor != Some(self.id)
    }

    /// Both descriptors locate the same native session.
    pub open spec fn same_native(self, other: ContinuationView) -> bool {
        self.adapter == other.adapter && self.scope == other.scope && self.native_key
            == other.native_key
    }
}

/// Refuses a descriptor that locates nothing.
pub fn validate(value: &Continuation) -> (r: Result<(), StoreError>)
    ensures
        r is Ok <==> value.deep_view().valid(),
        r matches Err(e) ==> e == StoreError::InvalidContinuation,
{
    let own = match &value.predecessor {
        Some(id) => id.same_as(&value.id),
        None => false,
    };
    if is_blank(value.adapter.as_str()) || is_blank(value.scope.as_str()) || is_blank(
        value.native_key.as_str(),
    ) || own {
        return Err(StoreError::InvalidContinuation);
    }
    Ok(())
}

/// The descriptor may follow the latest one of its native session: it is the first,
/// or it succeeds a claimed one of the same session and slot.
pub open spec fn may_succeed(
    value: ContinuationView,
    latest: Option<ContinuationRecordView>,
) -> bool {
    match latest {
        None => value.predecessor is None,
        Some(previous) => {
            &&& value.predecessor == Some(previous.continuation.id)
            &&& previous.latest
            &&& previous.state is Claimed
            &&& previous.continuation.session_id == value.session_id
            &&& previous.continuation.slot_id == value.slot_id
        },
    }
}

/// Refuses a descriptor that does not follow the latest one.
pub fn validate_successor(value: &Continuation, latest: Option<&ContinuationRecord>) -> (r: Result<
    (),
    StoreError,
>)
    ensures
        r is Ok <==> may_succeed(
            value.deep_view(),
            match latest {
                Some(previous) => Some(previous.deep_view()),
                None => None,
            },
        ),
        r matches Err(e) ==> e == StoreError::ContinuationConflict,
{
    match (latest, &value.predecessor) {
        (None, None) => Ok(()),
        (Some(previous), Some(id)) => {
            if previous.latest && previous.state == ContinuationState::Claimed
                && previous.continuation.id.same_as(id) && previous.continuation.session_id.same_as(
                &value.session_id,
            ) && previous.continuation.slot_id.same_as(&value.slot_id) {
                Ok(())
            } else {
                Err(StoreError::ContinuationConflict)
            }
        },
        _ => Err(StoreError::ContinuationConflict),
    }
}

/// Saved continuations by id.
pub type Continuations = Map<Seq<char>, ContinuationRecordView>;

/// The record is the latest of the native session that the value locates.
pub open spec fn is_latest(records: Continuations, value: ContinuationView, id: Seq<char>) -> bool {
    records.contains_key(id) && records[id].latest && records[id].continuation.same_native(value)
}

/// The latest record of the native session that the value locates.
pub open spec fn latest_of(records: Continuations, value: ContinuationView) -> Option<
    ContinuationRecordView,
> {
    if exists|id: Seq<char>| is_latest(records, value, id) {
        Some(records[choose|id: Seq<char>| is_latest(records, value, id)])
    } else {
        None
    }
}

/// Every record stands under its id, and each native session has one latest record.
pub open spec fn registry_consistent(records: Continuations) -> bool {
    &&& forall|id: Seq<char>| #[trigger]
        records.contains_key(id) ==> records[id].continuation.id == id
    &&& forall|a: Seq<char>, b: Seq<char>|
        #![trigger records.contains_key(a), records.contains_key(b)]
        records.contains_key(a) && records.contains_key(b) && records[a].latest && records[b].latest
            && records[a].continuation.same_native(records[b].continuation) ==> a == b
}

/// The registry after saving, with the saved record, or why it is refused.
pub open spec fn saved(records: Continuations, value: ContinuationView) -> Result<
    (ContinuationRecordView, Continuations),
    StoreErrorView,
> {
    if !value.valid() {
        Err(StoreErrorView::InvalidContinuation)
    } else if records.contains_key(value.id) {
        if records[value.id].continuation == value {
            Ok((records[value.id], records))
        } else {
            Err(StoreErrorView::IdentityConflict)
        }
    } else if !may_succeed(value, latest_of(records, value)) {
        Err(StoreErrorView::ContinuationConflict)
    } else {
        let record = ContinuationRecordView {
            continuation: value,
            state: ContinuationState::Available,
            latest: true,
        };
        let retired = match latest_of(records, value) {
            Some(previous) => records.insert(
                previous.continuation.id,
                ContinuationRecordView { latest: false, ..previous },
            ),
            None => records,
        };
        Ok((record, retired.insert(value.id, record)))
    }
}

/// The record of an id.
pub open spec fn found(records: Continuations, id: Seq<char>) -> Result<
    ContinuationRecordView,
    StoreErrorView,
> {
    if records.contains_key(id) {
        Ok(records[id])
    } else {
        Err(StoreErrorView::MissingContinuation)
    }
}

/// The registry after a claim, with the claimed record, or why it is refused.
pub open spec fn claimed(records: Continuations, id: Seq<char>) -> Result<
    (ContinuationRecordView, Continuations),
    StoreErrorView,
> {
    if !records.contains_key(id) {
        Err(StoreErrorView::MissingContinuation)
    } else if records[id].state is Claimed || !records[id].latest {
        Err(StoreErrorView::ContinuationClaimed)
    } else {
        let record = ContinuationRecordView {
            state: ContinuationState::Claimed,
            ..records[id]
        };
        Ok((record, records.insert(id, record)))
    }
}

proof fn latest_is_unique(records: Continuations, value: ContinuationView, id: Seq<char>)
    requires
        registry_consistent(records),
        is_latest(records, value, id),
    ensures
        latest_of(records, value) == Some(records[id]),
{
    let chosen = choose|a: Seq<char>| is_latest(records, value, a);
    assert(is_latest(records, value, chosen));
    assert(records.contains_key(chosen) && records.contains_key(id));
}

/// The latest record of a native session is a record of the registry.
pub proof fn latest_is_in_the_registry(records: Continuations, value: ContinuationView)
    requires
        registry_consistent(records),
    ensures
        latest_of(records, value) matches Some(record) ==> records.contains_key(
            record.continuation.id,
        ) && records[record.continuation.id] == record && record.latest,
{
    if latest_of(records, value) is Some {
        let id = choose|a: Seq<char>| is_latest(records, value, a);
        assert(is_latest(records, value, id));
        assert(records.contains_key(id));
    }
}

/// Saving keeps the registry consistent.
pub proof fn saving_keeps_consistency(records: Continuations, value: ContinuationView)
    requires
        registry_consistent(records),
    ensures
        saved(records, value) matches Ok((_, after)) ==> registry_consistent(after),
{
    if saved(records, value) is Ok && !records.contains_key(value.id) {
        let after = saved(records, value)->Ok_0.1;
        if let Some(previous) = latest_of(records, value) {
            let id = choose|a: Seq<char>| is_latest(records, value, a);
            assert(is_latest(records, value, id));
            assert(previous.continuation.id == id);
            assert forall|a: Seq<char>, b: Seq<char>|
                #![trigger after.contains_key(a), after.contains_key(b)]
                after.contains_key(a) && after.contains_key(b) && after[a].latest && after[b].latest
                    && after[a].continuation.same_native(after[b].continuation) implies a == b by {
                assert(a != id && b != id);
                if a != value.id && b != value.id {
                    assert(records.contains_key(a) && records.contains_key(b));
                } else if a != b {
                    let other = if a == value.id {
                        b
                    } else {
                        a
                    };
                    assert(records.contains_key(other));
                    assert(is_latest(records, value, other));
                    assert(records.contains_key(id));
                }
            }
        } else {
            assert forall|a: Seq<char>, b: Seq<char>|
                #![trigger after.contains_key(a), after.contains_key(b)]
                after.contains_key(a) && after.contains_key(b) && after[a].latest && after[b].latest
                    && after[a].continuation.same_native(after[b].continuation) implies a == b by {
                if a != value.id && b != value.id {
                    assert(records.contains_key(a) && records.contains_key(b));
                } else if a != b {
                    let other = if a == value.id {
                        b
                    } else {
                        a
                    };
                    assert(records.contains_key(other));
                    assert(is_latest(records, value, other));
                }
            }
        }
    }
}

/// Claiming keeps the registry consistent.
pub proof fn claiming_keeps_consistency(records: Continuations, id: Seq<char>)
    requires
        registry_consistent(records),
    ensures
        claimed(records, id) matches Ok((_, after)) ==> registry_consistent(after),
{
    if claimed(records, id) is Ok {
        let after = claimed(records, id)->Ok_0.1;
        assert forall|a: Seq<char>, b: Seq<char>|
            #![trigger after.contains_key(a), after.contains_key(b)]
            after.contains_key(a) && after.contains_key(b) && after[a].latest && after[b].latest
                && after[a].continuation.same_native(after[b].continuation) implies a == b by {
            assert(records.contains_key(a) && records.contains_key(b));
        }
    }
}

/// A continuation is claimed at most once: after a successful claim, every further
/// claim of it is refused.
pub proof fn claims_are_single_use(records: Continuations, id: Seq<char>)
    ensures
        claimed(records, id) matches Ok((_, after)) ==> claimed(after, id) == Err::<
            (ContinuationRecordView, Continuations),
            StoreErrorView,
        >(StoreErrorView::ContinuationClaimed),
{
}

/// A successor makes its predecessor unclaimable, whatever state it was in.
pub proof fn superseded_continuations_cannot_be_claimed(
    records: Continuations,
    value: ContinuationView,
)
    requires
        registry_consistent(records),
        !records.contains_key(value.id),
        latest_of(records, value) is Some,
    ensures
        saved(records, value) matches Ok((_, after)) ==> claimed(
            after,
            latest_of(records, value)->0.continuation.id,
        ) == Err::<(ContinuationRecordView, Continuations), StoreErrorView>(
            StoreErrorView::ContinuationClaimed,
        ),
{
    let id = choose|a: Seq<char>| is_latest(records, value, a);
    assert(is_latest(records, value, id));
    assert(records.contains_key(id));
}

/// Saving the same descriptor again changes nothing and gives the record back, also
/// after it was claimed.
pub proof fn saving_is_idempotent(records: Continuations, value: ContinuationView)
    ensures
        saved(records, value) matches Ok((record, after)) ==> saved(after, value) == Ok::<
            (ContinuationRecordView, Continuations),
            StoreErrorView,
        >((record, after)),
        saved(records, value) matches Ok((_, after)) ==> (claimed(after, value.id) matches Ok(
            (record, later),
        ) ==> saved(later, value) == Ok::<(ContinuationRecordView, Continuations), StoreErrorView>(
            (record, later),
        )),
{
}

/// The registry of a process-local store.
pub(crate) struct Registry {
    pub(crate) records: Table<Arc<ContinuationRecord>>,
}

impl DeepView for Registry {
    type V = Continuations;

    open(crate) spec fn deep_view(&self) -> Continuations {
        self.records.deep_view()
    }
}

impl Registry {
    /// A registry without records.
    pub(crate) fn new() -> (r: Registry)
        ensures
            r.deep_view() == Continuations::empty(),
            registry_consistent(r.deep_view()),
    {
        let r = Registry { records: Table::new() };
        assert(r.deep_view() =~= Continuations::empty());
        r
    }

    fn latest(&self, value: &Continuation) -> (r: Option<Arc<ContinuationRecord>>)
        requires
            registry_consistent(self.deep_view()),
        ensures
            r.deep_view() == latest_of(self.deep_view(), value.deep_view()),
    {
        let ghost records = self.deep_view();
        let n = self.records.len();
        let mut i: usize = 0;
        while i < n
            invariant
                i <= n,
                n == self.records.keys().len(),
                records == self.deep_view(),
                registry_consistent(records),
                forall|j: int|
                    0 <= j < i ==> !is_latest(
                        records,
                        value.deep_view(),
                        #[trigger] self.records.keys()[j],
                    ),
            decreases n - i,
        {
            let record = self.records.value_at(i);
            let ghost id = self.records.keys()[i as int];
            assert(records.contains_key(id) && records[id] == record.deep_view());
            if record.latest && record.continuation.adapter.same_as(&value.adapter)
                && record.continuation.scope.same_as(&value.scope)
                && record.continuation.native_key.same_as(&value.native_key) {
                proof {
                    assert(is_latest(records, value.deep_view(), id));
                    latest_is_unique(records, value.deep_view(), id);
                }
                return Some(share(record));
            }
            i = i + 1;
        }
        proof {
            assert forall|id: Seq<char>| !is_latest(records, value.deep_view(), id) by {
                if records.contains_key(id) {
                    assert(self.records@.contains_key(id));
                    let j = choose|j: int|
                        0 <= j < self.records.keys().len() && self.records.keys()[j] == id;
                    assert(self.records.keys()[j] == id);
                }
            }
        }
        None
    }

    /// Saves a descriptor.
    pub(crate) fn save(&mut self, value: Continuation) -> (r: Result<
        Arc<ContinuationRecord>,
        StoreError,
    >)
        requires
            registry_consistent(old(self).deep_view()),
        ensures
            match saved(old(self).deep_view(), value.deep_view()) {
                Ok((record, after)) => outcome(r) == Ok::<ContinuationRecordView, StoreErrorView>(
                    record,
                ) && final(self).deep_view() == after,
                Err(e) => outcome(r) == Err::<ContinuationRecordView, StoreErrorView>(e)
                    && final(self).deep_view() == old(self).deep_view(),
            },
            registry_consistent(final(self).deep_view()),
    {
        proof {
            saving_keeps_consistency(self.deep_view(), value.deep_view());
        }
        match validate(&value) {
            Err(e) => return Err(e),
            Ok(_) => {},
        }
        match self.records.find(value.id.as_str()) {
            Some(existing) => {
                return if existing.continuation.same_as(&value) {
                    Ok(share(existing))
                } else {
                    Err(StoreError::IdentityConflict)
                };
            },
            None => {},
        }
        let previous = self.latest(&value);
        let checked = match &previous {
            Some(record) => validate_successor(&value, Some(&**record)),
            None => validate_successor(&value, None),
        };
        match checked {
            Err(e) => return Err(e),
            Ok(_) => {},
        }
        match previous {
            Some(record) => {
                let retired = ContinuationRecord {
                    continuation: record.continuation.duplicate(),
                    state: record.state,
                    latest: false,
                };
                self.records.put(record.continuation.id.as_str().to_owned(), Arc::new(retired));
            },
            None => {},
        }
        let id = value.id.as_str().to_owned();
        let record = Arc::new(
            ContinuationRecord {
                continuation: value,
                state: ContinuationState::Available,
                latest: true,
            },
        );
        self.records.put(id, share(&record));
        Ok(record)
    }

    /// The record of an id.
    pub(crate) fn get(&self, id: &ContinuationId) -> (r: Result<Arc<ContinuationRecord>, StoreError>)
        ensures
            outcome(r) == found(self.deep_view(), id.deep_view()),
    {
        match self.records.find(id.as_str()) {
            Some(record) => Ok(share(record)),
            None => Err(StoreError::MissingContinuation),
        }
    }

    /// Claims a continuation for one use.
    pub(crate) fn claim(&mut self, id: &ContinuationId) -> (r: Result<
        Arc<ContinuationRecord>,
        StoreError,
    >)
        requires
            registry_consistent(old(self).deep_view()),
        ensures
            match claimed(old(self).deep_view(), id.deep_view()) {
                Ok((record, after)) => outcome(r) == Ok::<ContinuationRecordView, StoreErrorView>(
                    record,
                ) && final(self).deep_view() == after,
                Err(e) => outcome(r) == Err::<ContinuationRecordView, StoreErrorView>(e)
                    && final(self).deep_view() == old(self).deep_view(),
            },
            registry_consistent(final(self).deep_view()),
    {
        proof {
            claiming_keeps_consistency(self.deep_view(), id.deep_view());
        }
        let record = match self.get(id) {
            Err(e) => return Err(e),
            Ok(record) => record,
        };
        if record.state != ContinuationState::Available || !record.latest {
            return Err(StoreError::ContinuationClaimed);
        }
        let record = Arc::new(
            ContinuationRecord {
                continuation: record.continuation.duplicate(),
                state: ContinuationState::Claimed,
                latest: record.latest,
            },
        );
        self.records.put(id.as_str().to_owned(), share(&record));
        Ok(record)
    }
}

} // verus!
