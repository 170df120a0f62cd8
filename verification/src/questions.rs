//! Local questions. Storage resolution and provider delivery are separate.

use crate::acp::error::wrapped;
use crate::datum::{outcome, share, Datum};
use crate::id::{ActorId, RecordId};
use crate::records::question::{AnswerDelivery, AnswerOutcome, AnswerOutcomeView};
use crate::records::store::{answered, environmental, RecordStore, StoreView};
use crate::records::{
    Draft, DraftView, Payload, PayloadView, RecordState, Snapshot, SnapshotView, StoreError,
    StoreErrorView,
};
use crate::text::{
    blank, byte_len, bytes_of, counted, counted_texts_do_not_collide, decimal, decimal_text,
};
use std::sync::Arc;
use vstd::prelude::*;
use vstd::string::*;

verus! {

/// Why a question could not be asked or answered.
#[derive(Debug, PartialEq, Eq)]
pub enum QuestionError {
    Store(StoreError),
    NotQuestion,
    AlreadyExists,
    ReceiverClosed,
}

/// What a `QuestionError` holds.
pub enum QuestionErrorView {
    Store(StoreErrorView),
    NotQuestion,
    AlreadyExists,
    ReceiverClosed,
}

impl DeepView for QuestionError {
    type V = QuestionErrorView;

    open spec fn deep_view(&self) -> QuestionErrorView {
        match self {
            QuestionError::Store(error) => QuestionErrorView::Store(error.deep_view()),
            QuestionError::NotQuestion => QuestionErrorView::NotQuestion,
            QuestionError::AlreadyExists => QuestionErrorView::AlreadyExists,
            QuestionError::ReceiverClosed => QuestionErrorView::ReceiverClosed,
        }
    }
}

impl QuestionErrorView {
    /// The error as it is shown for debugging.
    pub open spec fn debug(self) -> Seq<char> {
        match self {
            QuestionErrorView::Store(error) => wrapped("Store"@, error.debug()),
            QuestionErrorView::NotQuestion => "NotQuestion"@,
            QuestionErrorView::AlreadyExists => "AlreadyExists"@,
            QuestionErrorView::ReceiverClosed => "ReceiverClosed"@,
        }
    }
}

impl QuestionError {
    /// The error in words.
    pub fn to_string(&self) -> (r: String)
        ensures
            r@ == "question: "@ + self.deep_view().debug(),
    {
        let mut r = "question: ".to_owned();
        match self {
            QuestionError::Store(error) => {
                r.append("Store(");
                r.append(error.debug_text().as_str());
                r.append(")");
                proof {
                    let debug = error.deep_view().debug();
                    reveal_strlit("Store(");
                    reveal_strlit("Store");
                    reveal_strlit("(");
                    assert("Store("@ =~= "Store"@ + "("@);
                    assert(r@ =~= "question: "@ + wrapped("Store"@, debug));
                }
            },
            QuestionError::NotQuestion => r.append("NotQuestion"),
            QuestionError::AlreadyExists => r.append("AlreadyExists"),
            QuestionError::ReceiverClosed => r.append("ReceiverClosed"),
        }
        r
    }
}

/// The id of the answer to a question. The id of the question is preceded by its length,
/// so that separators within it cannot cause collisions.
pub open spec fn answer_id(question: Seq<char>) -> Seq<char> {
    "question/"@ + decimal(bytes_of(question)) + ":"@ + question + "/answer"@
}

/// Different questions have answers with different ids.
pub proof fn answer_ids_do_not_collide(a: Seq<char>, b: Seq<char>)
    requires
        answer_id(a) == answer_id(b),
    ensures
        a == b,
{
    let prefix = "question/"@;
    let rest_a = counted(a) + "/answer"@;
    let rest_b = counted(b) + "/answer"@;
    assert(answer_id(a) =~= prefix + rest_a);
    assert(answer_id(b) =~= prefix + rest_b);
    assert(rest_a =~= answer_id(a).skip(prefix.len() as int));
    assert(rest_b =~= answer_id(b).skip(prefix.len() as int));
    counted_texts_do_not_collide(a, "/answer"@, b, "/answer"@);
}

fn make_answer_id(question: &RecordId) -> (r: RecordId)
    ensures
        r.deep_view() == answer_id(question.deep_view()),
{
    let mut text = "question/".to_owned();
    text.append(decimal_text(byte_len(question.as_str()) as u64).as_str());
    text.append(":");
    text.append(question.as_str());
    text.append("/answer");
    proof {
        reveal_strlit("question/");
        assert(text@[0] == 'q');
        assert(!blank(text@));
    }
    RecordId::new(text).unwrap()
}

/// The answer that is stored.
pub open spec fn answer_draft(
    request: SnapshotView,
    actor: Seq<char>,
    outcome: AnswerOutcomeView,
) -> DraftView {
    DraftView {
        id: answer_id(request.record.id),
        session_id: request.record.session_id,
        run_id: request.record.run_id,
        actor,
        reply_to_id: Some(request.record.id),
        source: None,
        payload: PayloadView::Answer { outcome, delivery: AnswerDelivery::Stored },
        state: RecordState::Complete,
    }
}

/// A question that was asked: the question as stored, who answers if it is cancelled,
/// and the answer once there is one.
pub struct PendingQuestion {
    request: Arc<Snapshot>,
    host: ActorId,
    resolved: Option<Arc<Snapshot>>,
}

/// What a `PendingQuestion` holds.
#[verifier::ext_equal]
pub struct PendingQuestionView {
    pub request: SnapshotView,
    pub host: Seq<char>,
    pub resolved: Option<SnapshotView>,
}

impl DeepView for PendingQuestion {
    type V = PendingQuestionView;

    closed spec fn deep_view(&self) -> PendingQuestionView {
        PendingQuestionView {
            request: self.request.deep_view(),
            host: self.host.deep_view(),
            resolved: self.resolved.deep_view(),
        }
    }
}

impl Datum for PendingQuestion {
    fn duplicate(&self) -> (r: PendingQuestion) {
        PendingQuestion {
            request: self.request.duplicate(),
            host: self.host.duplicate(),
            resolved: self.resolved.duplicate(),
        }
    }

    fn same_as(&self, other: &PendingQuestion) -> (r: bool) {
        self.request.same_as(&other.request) && self.host.same_as(&other.host)
            && self.resolved.same_as(&other.resolved)
    }
}

/// What asking or answering leads to: a reply, the question, and what is then stored.
pub struct Opening {
    pub reply: Result<PendingQuestionView, QuestionErrorView>,
    pub store: StoreView,
}

/// A question is asked: it is new to the store, and stored open.
pub open spec fn question_opened(store: StoreView, draft: DraftView, host: Seq<char>) -> Opening {
    if !(draft.payload is Question) || draft.state != RecordState::Open {
        Opening { reply: Err(QuestionErrorView::NotQuestion), store }
    } else if store.records.contains_key(draft.id) {
        Opening { reply: Err(QuestionErrorView::AlreadyExists), store }
    } else {
        match store.inserted(draft) {
            Err(e) => Opening { reply: Err(QuestionErrorView::Store(e)), store },
            Ok((request, after)) => Opening {
                reply: Ok(PendingQuestionView { request, host, resolved: None }),
                store: after,
            },
        }
    }
}

impl PendingQuestionView {
    /// The answer that was given is this one.
    pub open spec fn same_answer(
        self,
        existing: SnapshotView,
        actor: Seq<char>,
        outcome: AnswerOutcomeView,
    ) -> bool {
        existing.record.actor == actor && existing.record.payload == (PayloadView::Answer {
            outcome,
            delivery: AnswerDelivery::Stored,
        })
    }

    /// The question after an answer, what is replied, and what is then stored. Only the
    /// first answer counts; giving it again is no error, nor is cancelling after it.
    pub open spec fn answered(
        self,
        store: StoreView,
        actor: Seq<char>,
        outcome: AnswerOutcomeView,
        accept_existing: bool,
    ) -> (Result<SnapshotView, QuestionErrorView>, PendingQuestionView, StoreView) {
        match self.resolved {
            Some(existing) => if accept_existing || self.same_answer(existing, actor, outcome) {
                (Ok(existing), self, store)
            } else {
                (Err(QuestionErrorView::Store(StoreErrorView::AlreadyResolved)), self, store)
            },
            None => match store.resolved(
                self.request.record.id,
                self.request.revision,
                answer_draft(self.request, actor, outcome),
            ) {
                Err(e) => (Err(QuestionErrorView::Store(e)), self, store),
                Ok((answer, after)) => (
                    Ok(answer),
                    PendingQuestionView { resolved: Some(answer), ..self },
                    after,
                ),
            },
        }
    }
}

/// The reply and the states are those expected, or nothing has changed because the store,
/// which is then not dependable, could not be used. A question that is answered needs no
/// store.
pub open spec fn answered_as(
    reply: Result<SnapshotView, QuestionErrorView>,
    question: PendingQuestionView,
    store: StoreView,
    before: PendingQuestionView,
    before_store: StoreView,
    expected: (Result<SnapshotView, QuestionErrorView>, PendingQuestionView, StoreView),
    dependable: bool,
) -> bool {
    ||| (reply, question, store) == expected
    ||| {
        &&& !dependable && before.resolved is None
        &&& reply matches Err(QuestionErrorView::Store(e)) && environmental(e)
        &&& question == before
        &&& store == before_store
    }
}

impl PendingQuestion {
    /// Persist before handing the question to a UI or other host component. Callers
    /// allocate unique request IDs; this is not a distributed waiter claim.
    pub fn open<S: RecordStore>(store: &mut S, request: Draft, host: ActorId) -> (r: Result<
        PendingQuestion,
        QuestionError,
    >)
        ensures
            final(store).dependable() == old(store).dependable(),
            ({
                let opening = question_opened(
                    old(store).contents(),
                    request.deep_view(),
                    host.deep_view(),
                );
                ||| outcome(r) == opening.reply && final(store).contents() == opening.store
                ||| !old(store).dependable() && !(opening.reply matches Err(
                    QuestionErrorView::NotQuestion,
                )) && (r matches Err(QuestionError::Store(e)) && environmental(e.deep_view()))
                    && final(store).contents() == old(store).contents()
            }),
    {
        if !matches!(request.payload, Payload::Question(_)) || request.state != RecordState::Open {
            return Err(QuestionError::NotQuestion);
        }
        match store.get(&request.id) {
            Ok(_) => return Err(QuestionError::AlreadyExists),
            Err(StoreError::MissingRecord) => {},
            Err(error) => return Err(QuestionError::Store(error)),
        }
        let request = match store.insert(request) {
            Err(e) => return Err(QuestionError::Store(e)),
            Ok(request) => request,
        };
        if request.state != RecordState::Open {
            return Err(QuestionError::Store(StoreError::Finalized));
        }
        Ok(PendingQuestion { request, host, resolved: None })
    }

    /// The question as it was stored.
    pub fn question(&self) -> (r: &Arc<Snapshot>)
        ensures
            r.deep_view() == self.deep_view().request,
    {
        &self.request
    }

    /// The answer, once there is one.
    pub fn resolution(&self) -> (r: Option<&Arc<Snapshot>>)
        ensures
            match r {
                Some(answer) => self.deep_view().resolved == Some(answer.deep_view()),
                None => self.deep_view().resolved is None,
            },
    {
        match &self.resolved {
            Some(answer) => Some(answer),
            None => None,
        }
    }

    /// Answers the question.
    pub fn answer<S: RecordStore>(
        &mut self,
        store: &mut S,
        actor: ActorId,
        chosen: AnswerOutcome,
    ) -> (r: Result<Arc<Snapshot>, QuestionError>)
        ensures
            final(store).dependable() == old(store).dependable(),
            answered_as(
                outcome(r),
                final(self).deep_view(),
                final(store).contents(),
                old(self).deep_view(),
                old(store).contents(),
                old(self).deep_view().answered(
                    old(store).contents(),
                    actor.deep_view(),
                    chosen.deep_view(),
                    false,
                ),
                old(store).dependable(),
            ),
    {
        self.resolve(store, actor, chosen, false)
    }

    fn resolve<S: RecordStore>(
        &mut self,
        store: &mut S,
        actor: ActorId,
        chosen: AnswerOutcome,
        accept_existing: bool,
    ) -> (r: Result<Arc<Snapshot>, QuestionError>)
        ensures
            final(store).dependable() == old(store).dependable(),
            answered_as(
                outcome(r),
                final(self).deep_view(),
                final(store).contents(),
                old(self).deep_view(),
                old(store).contents(),
                old(self).deep_view().answered(
                    old(store).contents(),
                    actor.deep_view(),
                    chosen.deep_view(),
                    accept_existing,
                ),
                old(store).dependable(),
            ),
    {
        match &self.resolved {
            Some(existing) => {
                let given = Payload::Answer { outcome: chosen, delivery: AnswerDelivery::Stored };
                if accept_existing || (existing.record.actor.same_as(&actor)
                    && existing.record.payload.same_as(&given)) {
                    return Ok(share(existing));
                } else {
                    return Err(QuestionError::Store(StoreError::AlreadyResolved));
                }
            },
            None => {},
        }
        let draft = Draft {
            id: make_answer_id(&self.request.record.id),
            session_id: self.request.record.session_id.duplicate(),
            run_id: self.request.record.run_id.duplicate(),
            actor,
            reply_to_id: Some(self.request.record.id.duplicate()),
            source: None,
            payload: Payload::Answer { outcome: chosen, delivery: AnswerDelivery::Stored },
            state: RecordState::Complete,
        };
        match store.resolve(&self.request.record.id, self.request.revision, draft) {
            Err(e) => Err(QuestionError::Store(e)),
            Ok(answer) => {
                self.resolved = Some(share(&answer));
                Ok(answer)
            },
        }
    }

    /// Answers the question for the host that nothing was chosen, unless there is an
    /// answer.
    pub fn cancel<S: RecordStore>(&mut self, store: &mut S) -> (r: Result<
        Arc<Snapshot>,
        QuestionError,
    >)
        ensures
            final(store).dependable() == old(store).dependable(),
            answered_as(
                outcome(r),
                final(self).deep_view(),
                final(store).contents(),
                old(self).deep_view(),
                old(store).contents(),
                old(self).deep_view().answered(
                    old(store).contents(),
                    old(self).deep_view().host,
                    AnswerOutcomeView::Cancelled,
                    true,
                ),
                old(store).dependable(),
            ),
    {
        let host = self.host.duplicate();
        self.resolve(store, host, AnswerOutcome::Cancelled, true)
    }
}

/// An answer is final: once one was given, giving it again returns it, cancelling
/// returns it, any other answer is refused, and none of these stores anything.
pub proof fn answers_are_final(
    question: PendingQuestionView,
    store: StoreView,
    actor: Seq<char>,
    outcome: AnswerOutcomeView,
    later: StoreView,
    other: Seq<char>,
    other_outcome: AnswerOutcomeView,
)
    requires
        question.answered(store, actor, outcome, false).0 is Ok,
    ensures
        ({
            let (reply, after, _) = question.answered(store, actor, outcome, false);
            &&& after.resolved == Some(reply->Ok_0)
            &&& after.answered(later, after.host, AnswerOutcomeView::Cancelled, true) == (
                reply,
                after,
                later,
            )
            &&& !after.same_answer(reply->Ok_0, other, other_outcome) ==> after.answered(
                later,
                other,
                other_outcome,
                false,
            ) == (
                Err::<SnapshotView, QuestionErrorView>(
                    QuestionErrorView::Store(StoreErrorView::AlreadyResolved),
                ),
                after,
                later,
            )
            &&& after.same_answer(reply->Ok_0, other, other_outcome) ==> after.answered(
                later,
                other,
                other_outcome,
                false,
            ) == (reply, after, later)
        }),
{
}

} // verus!
