//! Pages of a session's state and of the changes to it.

use crate::datum::{outcome, share, Datum};
use crate::id::SessionId;
use crate::records::sqlite::{bad_number, number};
use crate::records::{Snapshot, SnapshotView, StoreError, StoreErrorView};
use crate::text::same_text;
use std::sync::Arc;
use vstd::prelude::*;

verus! {

/// A position in the changes of a session. Positions of different epochs cannot be
/// compared.
#[derive(Debug, PartialEq, Eq)]
pub struct ChangeCursor {
    pub epoch: String,
    pub session_id: SessionId,
    pub position: u64,
}

/// What a `ChangeCursor` holds.
#[verifier::ext_equal]
pub struct ChangeCursorView {
    pub epoch: Seq<char>,
    pub session_id: Seq<char>,
    pub position: u64,
}

impl DeepView for ChangeCursor {
    type V = ChangeCursorView;

    open spec fn deep_view(&self) -> ChangeCursorView {
        ChangeCursorView {
            epoch: self.epoch.deep_view(),
            session_id: self.session_id.deep_view(),
            position: self.position.deep_view(),
        }
    }
}

impl Datum for ChangeCursor {
    fn duplicate(&self) -> (r: ChangeCursor) {
        ChangeCursor {
            epoch: self.epoch.duplicate(),
            session_id: self.session_id.duplicate(),
            position: self.position.duplicate(),
        }
    }

    fn same_as(&self, other: &ChangeCursor) -> (r: bool) {
        self.epoch.same_as(&other.epoch)
            && self.session_id.same_as(&other.session_id)
            && self.position.same_as(&other.position)
    }
}


/// A page of records, with the position up to which changes are known.
#[derive(Debug, PartialEq, Eq)]
pub struct StatePage {
    pub records: Vec<Arc<Snapshot>>,
    pub cursor: ChangeCursor,
    /// Where the next page of the same snapshot starts.
    pub next_after: Option<u64>,
    pub page_full: bool,
}

/// What a `StatePage` holds.
#[verifier::ext_equal]
pub struct StatePageView {
    pub records: Seq<SnapshotView>,
    pub cursor: ChangeCursorView,
    pub next_after: Option<u64>,
    pub page_full: bool,
}

impl DeepView for StatePage {
    type V = StatePageView;

    open spec fn deep_view(&self) -> StatePageView {
        StatePageView {
            records: self.records.deep_view(),
            cursor: self.cursor.deep_view(),
            next_after: self.next_after,
            page_full: self.page_full,
        }
    }
}

/// The newest position of a session, by the database's clock.
pub fn clock(session: &SessionId, known: bool, epoch: String, position: i64) -> (r: Result<
    ChangeCursor,
    StoreError,
>)
    ensures
        outcome(r) == if !known {
            Err::<ChangeCursorView, StoreErrorView>(StoreErrorView::MissingSession)
        } else if position < 0 {
            Err(bad_number())
        } else {
            Ok(
                ChangeCursorView {
                    epoch: epoch@,
                    session_id: session.deep_view(),
                    position: position as u64,
                },
            )
        },
{
    if !known {
        return Err(StoreError::MissingSession);
    }
    match number(position) {
        Err(e) => Err(e),
        Ok(position) => Ok(ChangeCursor { epoch, session_id: session.duplicate(), position }),
    }
}

impl ChangeCursorView {
    /// The position was reached.
    pub open spec fn reached_by(self, head: ChangeCursorView) -> bool {
        self.epoch == head.epoch && self.session_id == head.session_id && self.position
            <= head.position
    }
}

/// Refuses a position that was never reached.
pub fn validate(cursor: &ChangeCursor, head: &ChangeCursor) -> (r: Result<(), StoreError>)
    ensures
        outcome(r) == if cursor.deep_view().reached_by(head.deep_view()) {
            Ok::<(), StoreErrorView>(())
        } else {
            Err(StoreErrorView::InvalidChangeCursor)
        },
{
    if !same_text(cursor.epoch.as_str(), head.epoch.as_str()) || !cursor.session_id.same_as(
        &head.session_id,
    ) || cursor.position > head.position {
        return Err(StoreError::InvalidChangeCursor);
    }
    Ok(())
}

/// Refuses a page before anything is read.
pub fn check_page(limit: usize, has_cursor: bool, after: Option<u64>) -> (r: Result<(), StoreError>)
    ensures
        outcome(r) == if !(1 <= limit <= 1000) {
            Err::<(), StoreErrorView>(StoreErrorView::InvalidPageSize)
        } else if after is Some && !has_cursor {
            Err(StoreErrorView::InvalidChangeCursor)
        } else {
            Ok(())
        },
{
    if limit < 1 || limit > 1000 {
        return Err(StoreError::InvalidPageSize);
    }
    if after.is_some() && !has_cursor {
        return Err(StoreError::InvalidChangeCursor);
    }
    Ok(())
}

/// Where a page of a snapshot starts, and the position that the snapshot is at.
pub open spec fn snapshot_from(
    cursor: Option<ChangeCursorView>,
    head: ChangeCursorView,
    after: Option<u64>,
) -> Result<(ChangeCursorView, i64), StoreErrorView> {
    if cursor is Some && !cursor->0.reached_by(head) {
        Err(StoreErrorView::InvalidChangeCursor)
    } else {
        let at = match cursor {
            Some(cursor) => cursor,
            None => head,
        };
        match after {
            None => Ok((at, -1i64)),
            Some(after) => if after <= i64::MAX {
                Ok((at, after as i64))
            } else {
                Err(StoreErrorView::InvalidChangeCursor)
            },
        }
    }
}

/// Where a page of a snapshot starts, and the position that the snapshot is at. The first
/// page is at the newest position, and the others stay at it.
pub fn snapshot_start(cursor: Option<&ChangeCursor>, head: ChangeCursor, after: Option<u64>) -> (r:
    Result<(ChangeCursor, i64), StoreError>)
    ensures
        match r {
            Ok((at, from)) => snapshot_from(
                match cursor {
                    Some(cursor) => Some(cursor.deep_view()),
                    None => None,
                },
                head.deep_view(),
                after,
            ) == Ok::<(ChangeCursorView, i64), StoreErrorView>((at.deep_view(), from)),
            Err(e) => snapshot_from(
                match cursor {
                    Some(cursor) => Some(cursor.deep_view()),
                    None => None,
                },
                head.deep_view(),
                after,
            ) == Err::<(ChangeCursorView, i64), StoreErrorView>(e.deep_view()),
        },
{
    let at = match cursor {
        Some(cursor) => {
            match validate(cursor, &head) {
                Err(e) => return Err(e),
                Ok(_) => {},
            }
            cursor.duplicate()
        },
        None => head,
    };
    match after {
        None => Ok((at, -1)),
        Some(after) => {
            if after <= i64::MAX as u64 {
                Ok((at, after as i64))
            } else {
                Err(StoreError::InvalidChangeCursor)
            }
        },
    }
}

/// The position after which the next page begins: that of the last record, if any.
pub open spec fn next_after(records: Seq<SnapshotView>) -> Option<u64> {
    if records.len() == 0 {
        None
    } else {
        Some(records.last().record.sequence)
    }
}

/// The position of the last record, if any.
pub fn last_sequence(records: &Vec<Arc<Snapshot>>) -> (r: Option<u64>)
    ensures
        r == next_after(records.deep_view()),
{
    let n: usize = records.len();
    assert(n > 0 ==> records.deep_view().last() == records@[n - 1].deep_view());
    if n == 0 {
        None
    } else {
        Some(records[n - 1].record.sequence)
    }
}

/// A page of a snapshot.
pub fn snapshot_page(records: Vec<Arc<Snapshot>>, cursor: ChangeCursor, limit: usize) -> (r: StatePage)
    ensures
        r.deep_view() == (StatePageView {
            records: records.deep_view(),
            cursor: cursor.deep_view(),
            next_after: next_after(records.deep_view()),
            page_full: records.len() == limit,
        }),
{
    let next_after = last_sequence(&records);
    let page_full = records.len() == limit;
    StatePage { records, cursor, next_after, page_full }
}

/// A change: the record as it is now, and the position of its newest change.
pub struct Change {
    pub record: Arc<Snapshot>,
    pub position: i64,
}

/// What a `Change` holds.
#[verifier::ext_equal]
pub struct ChangeView {
    pub record: SnapshotView,
    pub position: i64,
}

impl DeepView for Change {
    type V = ChangeView;

    open spec fn deep_view(&self) -> ChangeView {
        ChangeView { record: self.record.deep_view(), position: self.position }
    }
}

/// The position up to which the changes of a page are known: that of its last change if
/// there may be more, and the newest otherwise.
pub open spec fn known_up_to(rows: Seq<ChangeView>, head: u64, limit: nat) -> u64 {
    if rows.len() == limit && limit > 0 {
        rows.last().position as u64
    } else {
        head
    }
}

/// A page of changes.
pub open spec fn changes_read(rows: Seq<ChangeView>, head: ChangeCursorView, limit: nat) -> Result<
    StatePageView,
    StoreErrorView,
> {
    if exists|i: int| 0 <= i < rows.len() && (#[trigger] rows[i]).position < 0 {
        Err(bad_number())
    } else {
        Ok(
            StatePageView {
                records: rows.map_values(|row: ChangeView| row.record),
                cursor: ChangeCursorView { position: known_up_to(rows, head.position, limit), ..head },
                next_after: None,
                page_full: rows.len() == limit,
            },
        )
    }
}

/// A page of changes.
pub fn changes(rows: &Vec<Change>, head: ChangeCursor, limit: usize) -> (r: Result<
    StatePage,
    StoreError,
>)
    requires
        limit > 0,
    ensures
        outcome(r) == changes_read(rows.deep_view(), head.deep_view(), limit as nat),
{
    let mut records: Vec<Arc<Snapshot>> = Vec::new();
    let mut i: usize = 0;
    while i < rows.len()
        invariant
            i <= rows.len(),
            records.len() == i,
            forall|j: int|
                0 <= j < i ==> (#[trigger] records@[j]).deep_view() == rows.deep_view()[j].record,
            forall|j: int| 0 <= j < i ==> (#[trigger] rows.deep_view()[j]).position >= 0,
        decreases rows.len() - i,
    {
        assert(rows.deep_view()[i as int] == rows@[i as int].deep_view());
        match number(rows[i].position) {
            Err(e) => return Err(e),
            Ok(_) => {},
        }
        records.push(share(&rows[i].record));
        i = i + 1;
    }
    assert(records.deep_view() =~= rows.deep_view().map_values(|row: ChangeView| row.record));
    let page_full = rows.len() == limit;
    let position: u64 = if page_full {
        assert(rows.deep_view().last() == rows@[rows.len() - 1].deep_view());
        rows[rows.len() - 1].position as u64
    } else {
        head.position
    };
    Ok(
        StatePage {
            records,
            cursor: ChangeCursor { epoch: head.epoch, session_id: head.session_id, position },
            next_after: None,
            page_full,
        },
    )
}

/// The changes after a position are in the order of their positions, and none is newer
/// than the newest.
pub open spec fn ordered_after(log: Seq<ChangeView>, position: u64, head: u64) -> bool {
    &&& forall|i: int|
        0 <= i < log.len() ==> position < (#[trigger] log[i]).position && log[i].position <= head
    &&& forall|i: int, j: int|
        0 <= i < j < log.len() ==> (#[trigger] log[i]).position < (#[trigger] log[j]).position
}

/// Following changes skips none: if the page holds the first changes after a position,
/// the new position was reached, is not before the old one, and every change up to it is
/// in the page.
pub proof fn no_change_is_skipped(
    log: Seq<ChangeView>,
    cursor: ChangeCursorView,
    head: ChangeCursorView,
    limit: nat,
)
    requires
        cursor.reached_by(head),
        limit > 0,
        ordered_after(log, cursor.position, head.position),
    ensures
        ({
            let rows = if log.len() < limit {
                log
            } else {
                log.take(limit as int)
            };
            let page = changes_read(rows, head, limit);
            &&& page is Ok
            &&& page->Ok_0.cursor.reached_by(head)
            &&& cursor.position <= page->Ok_0.cursor.position
            &&& forall|i: int|
                0 <= i < log.len() && (#[trigger] log[i]).position
                    <= page->Ok_0.cursor.position ==> rows.contains(log[i])
        }),
{
    let rows = if log.len() < limit {
        log
    } else {
        log.take(limit as int)
    };
    let page = changes_read(rows, head, limit);
    assert forall|i: int| 0 <= i < rows.len() implies (#[trigger] rows[i]).position >= 0 by {
        assert(rows[i] == log[i]);
    }
    if rows.len() == limit {
        assert(rows.last() == log[limit - 1]);
    }
    assert forall|i: int|
        0 <= i < log.len() && (#[trigger] log[i]).position
            <= page->Ok_0.cursor.position implies rows.contains(log[i]) by {
        if i < rows.len() {
            assert(rows[i] == log[i]);
        } else {
            assert(log[limit - 1].position < log[i].position);
        }
    }
}

} // verus!
