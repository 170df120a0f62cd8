//! The execution graph in the database.

use crate::datum::{outcome, Datum};
use crate::execution::{Assignment, ExecutionRelation, ExecutionRelationView};
use crate::id::{RunId, SessionId};
use crate::records::sqlite::{corrupt, make_corrupt};
use crate::records::store::{reaches, session_error, StoreView};
use crate::records::{StoreError, StoreErrorView};
use crate::run::RunSpec;
use crate::text::same_text;
use std::sync::Arc;
use vstd::prelude::*;

verus! {

/// The edge that a row holds, given the runs that it joins.
pub open spec fn relation_meaning(
    child: Seq<char>,
    parent_column: Seq<char>,
    document: Result<ExecutionRelationView, StoreErrorView>,
    parent: Option<Assignment>,
    run: Option<Assignment>,
) -> Result<ExecutionRelationView, StoreErrorView> {
    match document {
        Err(e) => Err(e),
        Ok(relation) => if relation.child != child || relation.parent != parent_column {
            Err(corrupt("execution relation identity mismatch"@))
        } else if parent is None || run is None {
            Err(StoreErrorView::MissingRun)
        } else if !relation.valid(parent->0, run->0) {
            Err(corrupt("invalid execution relation"@))
        } else {
            Ok(relation)
        },
    }
}

/// The edge that a row holds, given the runs that it joins.
pub fn read_relation(
    child: &RunId,
    parent_column: &str,
    document: Result<ExecutionRelation, StoreError>,
    parent: &Option<RunSpec>,
    run: &Option<RunSpec>,
) -> (r: Result<Arc<ExecutionRelation>, StoreError>)
    ensures
        outcome(r) == relation_meaning(
            child.deep_view(),
            parent_column@,
            outcome(document),
            parent.deep_view(),
            run.deep_view(),
        ),
{
    let relation = match document {
        Err(e) => return Err(e),
        Ok(relation) => relation,
    };
    if !relation.child.same_as(child) || !same_text(relation.parent.as_str(), parent_column) {
        return Err(make_corrupt("execution relation identity mismatch"));
    }
    match (parent, run) {
        (Some(parent), Some(run)) => match relation.validate(parent, run) {
            Err(_) => Err(make_corrupt("invalid execution relation")),
            Ok(_) => Ok(Arc::new(relation)),
        },
        _ => Err(StoreError::MissingRun),
    }
}

/// The runs above a run, as far as they were read.
pub struct Ancestry {
    pub visited: Vec<RunId>,
    /// A run was met twice.
    pub endless: bool,
}

impl Ancestry {
    /// Nothing was read.
    pub fn new() -> (r: Ancestry)
        ensures
            r.visited.deep_view() == Seq::<Seq<char>>::empty(),
            !r.endless,
    {
        let visited: Vec<RunId> = Vec::new();
        assert(visited.deep_view() =~= Seq::<Seq<char>>::empty());
        Ancestry { visited, endless: false }
    }

    /// Meets a run. Reading goes on only if it was not met before.
    pub fn visit(&mut self, run: RunId) -> (r: bool)
        ensures
            r == !old(self).visited.deep_view().contains(run.deep_view()),
            r ==> final(self).visited.deep_view() == old(self).visited.deep_view().push(
                run.deep_view(),
            ) && final(self).endless == old(self).endless,
            !r ==> final(self).visited.deep_view() == old(self).visited.deep_view()
                && final(self).endless,
    {
        if crate::datum::holds(&self.visited, &run) {
            self.endless = true;
            return false;
        }
        let ghost before = self.visited.deep_view();
        self.visited.push(run);
        assert(self.visited.deep_view() =~= before.push(run.deep_view()));
        true
    }
}

/// What the database says of an edge that is to be written.
pub struct LinkFacts {
    /// The edge of the child.
    pub existing: Option<Arc<ExecutionRelation>>,
    pub parent: Option<RunSpec>,
    pub child: Option<RunSpec>,
    /// The edge above the parent.
    pub above: Option<Arc<ExecutionRelation>>,
    /// The edges below the child.
    pub below: Vec<Arc<ExecutionRelation>>,
    /// The sessions of the records that the child selects, in their order.
    pub context: Vec<Option<SessionId>>,
    /// The parent and the runs above it.
    pub ancestry: Ancestry,
}

/// What a `LinkFacts` holds.
#[verifier::ext_equal]
pub struct LinkFactsView {
    pub existing: Option<ExecutionRelationView>,
    pub parent: Option<Assignment>,
    pub child: Option<Assignment>,
    pub above: Option<ExecutionRelationView>,
    pub below: Seq<ExecutionRelationView>,
    pub context: Seq<Option<Seq<char>>>,
    pub ancestors: Seq<Seq<char>>,
    pub endless: bool,
}

impl DeepView for LinkFacts {
    type V = LinkFactsView;

    open spec fn deep_view(&self) -> LinkFactsView {
        LinkFactsView {
            existing: self.existing.deep_view(),
            parent: self.parent.deep_view(),
            child: self.child.deep_view(),
            above: self.above.deep_view(),
            below: self.below.deep_view(),
            context: self.context.deep_view(),
            ancestors: self.ancestry.visited.deep_view(),
            endless: self.ancestry.endless,
        }
    }
}

/// Why the records cannot be handed to a child of the session, by their sessions.
pub open spec fn sessions_error(session: Seq<char>, found: Seq<Option<Seq<char>>>) -> Option<
    StoreErrorView,
>
    decreases found.len(),
{
    if found.len() == 0 {
        None
    } else {
        match found[0] {
            None => Some(StoreErrorView::MissingRecord),
            Some(other) => if other == session {
                sessions_error(session, found.skip(1))
            } else {
                Some(StoreErrorView::WrongSession)
            },
        }
    }
}

/// The edges next to an edge carry the same authority.
pub open spec fn authority_continues(edge: ExecutionRelationView, facts: LinkFactsView) -> bool {
    &&& (facts.above matches Some(above) ==> above.child_authority == edge.parent_authority)
    &&& forall|i: int|
        0 <= i < facts.below.len() ==> (#[trigger] facts.below[i]).parent_authority
            == edge.child_authority
}

/// Whether an edge is written, or only found, or why it is refused.
pub open spec fn linking(edge: ExecutionRelationView, facts: LinkFactsView) -> Result<
    bool,
    StoreErrorView,
> {
    match facts.existing {
        Some(existing) => if existing == edge {
            Ok(false)
        } else {
            Err(StoreErrorView::ExecutionRelationConflict)
        },
        None => if facts.parent is None || facts.child is None {
            Err(StoreErrorView::MissingRun)
        } else if !edge.valid(facts.parent->0, facts.child->0) || !authority_continues(edge, facts) {
            Err(StoreErrorView::InvalidExecutionRelation)
        } else {
            match sessions_error(facts.child->0.session_id, facts.context) {
                Some(e) => Err(e),
                None => if facts.endless || facts.ancestors.contains(edge.child) {
                    Err(StoreErrorView::ExecutionCycle)
                } else {
                    Ok(true)
                },
            }
        },
    }
}

fn find_sessions_error(session: &SessionId, found: &Vec<Option<SessionId>>) -> (r: Result<
    (),
    StoreError,
>)
    ensures
        match sessions_error(session.deep_view(), found.deep_view()) {
            Some(e) => outcome(r) == Err::<(), StoreErrorView>(e),
            None => r is Ok,
        },
{
    let ghost all = found.deep_view();
    let mut i: usize = 0;
    assert(all.skip(0) =~= all);
    while i < found.len()
        invariant
            i <= found.len(),
            all == found.deep_view(),
            sessions_error(session.deep_view(), all) == sessions_error(
                session.deep_view(),
                all.skip(i as int),
            ),
        decreases found.len() - i,
    {
        assert(all.skip(i as int)[0] == found@[i as int].deep_view());
        assert(all.skip(i as int).skip(1) =~= all.skip(i + 1));
        match &found[i] {
            None => return Err(StoreError::MissingRecord),
            Some(other) => {
                if !other.same_as(session) {
                    return Err(StoreError::WrongSession);
                }
            },
        }
        i = i + 1;
    }
    Ok(())
}

fn does_authority_continue(edge: &ExecutionRelation, facts: &LinkFacts) -> (r: bool)
    ensures
        r == authority_continues(edge.deep_view(), facts.deep_view()),
{
    match &facts.above {
        Some(above) => {
            if !above.child_authority.same_as(&edge.parent_authority) {
                return false;
            }
        },
        None => {},
    }
    let mut i: usize = 0;
    while i < facts.below.len()
        invariant
            i <= facts.below.len(),
            facts.deep_view().above matches Some(above) ==> above.child_authority
                == edge.deep_view().parent_authority,
            forall|j: int|
                0 <= j < i ==> (#[trigger] facts.deep_view().below[j]).parent_authority
                    == edge.deep_view().child_authority,
        decreases facts.below.len() - i,
    {
        assert(facts.deep_view().below[i as int] == facts.below@[i as int].deep_view());
        if !facts.below[i].parent_authority.same_as(&edge.child_authority) {
            return false;
        }
        i = i + 1;
    }
    true
}

/// Whether an edge has to be written.
pub fn link_execution(edge: &ExecutionRelation, facts: &LinkFacts) -> (r: Result<bool, StoreError>)
    ensures
        outcome(r) == linking(edge.deep_view(), facts.deep_view()),
{
    match &facts.existing {
        Some(existing) => {
            return if (**existing).same_as(edge) {
                Ok(false)
            } else {
                Err(StoreError::ExecutionRelationConflict)
            };
        },
        None => {},
    }
    let (parent, child) = match (&facts.parent, &facts.child) {
        (Some(parent), Some(child)) => (parent, child),
        _ => return Err(StoreError::MissingRun),
    };
    match edge.validate(parent, child) {
        Err(e) => return Err(e),
        Ok(_) => {},
    }
    if !does_authority_continue(edge, facts) {
        return Err(StoreError::InvalidExecutionRelation);
    }
    match find_sessions_error(&child.session_id, &facts.context) {
        Err(e) => return Err(e),
        Ok(_) => {},
    }
    if facts.ancestry.endless || crate::datum::holds(&facts.ancestry.visited, &edge.child) {
        return Err(StoreError::ExecutionCycle);
    }
    Ok(true)
}

/// The facts are those of a store.
pub open spec fn facts_of(store: StoreView, edge: ExecutionRelationView, facts: LinkFactsView) -> bool {
    &&& facts.existing == store.parent_edge(edge.child)
    &&& facts.parent == match store.run(edge.parent) {
        Ok(run) => Some(run),
        Err(_) => None,
    }
    &&& facts.child == match store.run(edge.child) {
        Ok(run) => Some(run),
        Err(_) => None,
    }
    &&& facts.above == store.parent_edge(edge.parent)
    &&& forall|i: int|
        0 <= i < facts.below.len() ==> {
            let below = #[trigger] facts.below[i];
            store.relations.contains_key(below.child) && store.relations[below.child] == below
                && below.parent == edge.child
        }
    &&& forall|child: Seq<char>| #[trigger]
        store.relations.contains_key(child) && store.relations[child].parent == edge.child
            ==> facts.below.contains(store.relations[child])
    &&& (facts.child matches Some(child) ==> facts.context == child.context.records.map_values(
        |id: Seq<char>|
            if store.records.contains_key(id) {
                Some(store.records[id].current.record.session_id)
            } else {
                None
            },
    ))
    &&& !facts.endless
    &&& forall|run: Seq<char>| #[trigger]
        facts.ancestors.contains(run) == reaches(store.relations, edge.parent, run)
}

proof fn sessions_agree(store: StoreView, session: Seq<char>, ids: Seq<Seq<char>>)
    ensures
        sessions_error(
            session,
            ids.map_values(
                |id: Seq<char>|
                    if store.records.contains_key(id) {
                        Some(store.records[id].current.record.session_id)
                    } else {
                        None
                    },
            ),
        ) == session_error(store.records, session, ids),
    decreases ids.len(),
{
    let found = |id: Seq<char>|
        if store.records.contains_key(id) {
            Some(store.records[id].current.record.session_id)
        } else {
            None
        };
    if ids.len() > 0 {
        sessions_agree(store, session, ids.skip(1));
        assert(ids.map_values(found).skip(1) =~= ids.skip(1).map_values(found));
    }
}

/// Linking in a transaction does what the store's rules say.
pub proof fn links_follow_the_store(
    store: StoreView,
    edge: ExecutionRelationView,
    facts: LinkFactsView,
)
    requires
        facts_of(store, edge, facts),
    ensures
        match linking(edge, facts) {
            Err(e) => store.linked(edge) == Err::<
                (ExecutionRelationView, StoreView),
                StoreErrorView,
            >(e),
            Ok(false) => store.linked(edge) == Ok::<
                (ExecutionRelationView, StoreView),
                StoreErrorView,
            >((edge, store)),
            Ok(true) => store.linked(edge) == Ok::<
                (ExecutionRelationView, StoreView),
                StoreErrorView,
            >((edge, StoreView { relations: store.relations.insert(edge.child, edge), ..store })),
        },
{
    if facts.child is Some {
        sessions_agree(store, facts.child->0.session_id, facts.child->0.context.records);
    }
    assert(authority_continues(edge, facts) == store.continues_authority(edge)) by {
        if store.continues_authority(edge) {
            assert forall|i: int| 0 <= i < facts.below.len() implies (
            #[trigger] facts.below[i]).parent_authority == edge.child_authority by {
                assert(store.relations.contains_key(facts.below[i].child));
            }
        }
        if authority_continues(edge, facts) {
            assert forall|child: Seq<char>| #[trigger]
                store.relations.contains_key(child) && store.relations[child].parent
                    == edge.child implies store.relations[child].parent_authority
                == edge.child_authority by {
                let i = choose|i: int|
                    0 <= i < facts.below.len() && facts.below[i] == store.relations[child];
                assert(facts.below[i].parent_authority == edge.child_authority);
            }
        }
    }
    assert(facts.ancestors.contains(edge.child) == reaches(
        store.relations,
        edge.parent,
        edge.child,
    ));
}

} // verus!
