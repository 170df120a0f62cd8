//! Sessions of the host that may take up earlier work.

use crate::acp::context::{envelope, TextContextMode};
use crate::acp::error::{RecordingError, RecordingErrorView};
use crate::acp::recording::{RecordActors, RecordActorsView, Recorder};
use crate::acp::restoration::{PortableRestore, RestorationPolicy, RestoredSession};
use crate::acp::session::{SessionState, SessionStateView};
use crate::acp::start::{
    consulted_under, context_start, json_start, policy_context, refused, start_json_run,
    start_recorded_context_json_run, start_recorded_context_run, start_recorded_with_report,
    started_from, text_start, whole_context, JsonOutputMode, JsonTask, Start,
};
use crate::context::{
    consulted, ContextLimits, ContextPolicy, ContextPolicyView, MemoryResourceStore,
    ResourceStore, Resources,
};
use crate::datum::{outcome, Datum};
use crate::host::interactions::{
    context_task, host_limits, Selection, MAX_CONTEXT_BYTES, MAX_CONTEXT_ITEMS, MAX_PROMPT_BYTES,
};
use crate::id::{ContinuationId, RunId, SessionId, SlotId};
use crate::json::{at, says_at, JsonView};
use crate::model::{ContextManifest, ContextManifestView};
use crate::records::continuation::found;
use crate::records::store::{environmental, ContinuationStore, RecordStore, StoreView};
use crate::records::StoreErrorView;
use crate::run::RunSpec;
use crate::structured::JsonContract;
use vstd::prelude::*;
use vstd::string::*;

verus! {

/// How an earlier session is taken up.
#[derive(Debug, PartialEq, Eq)]
pub enum Restore {
    Native { session_id: SessionId, continuation: ContinuationId },
    Portable { session_id: SessionId, context: Selection },
}

/// What taking up a session leads to.
pub open spec fn restore_refused(
    r: Result<(RestorationPolicy, MemoryResourceStore, SlotId), String>,
    reason: Seq<char>,
) -> bool {
    r matches Err(e) && e@ == reason
}

/// What a store error says.
pub open spec fn store_message(e: StoreErrorView) -> Seq<char> {
    "record store: "@ + e.debug()
}

/// The store could not be used.
pub open spec fn store_unusable(
    r: Result<(RestorationPolicy, MemoryResourceStore, SlotId), String>,
) -> bool {
    exists|e: StoreErrorView|
        environmental(e) && #[trigger] restore_refused(r, store_message(e))
}

impl Restore {
    /// The session that is taken up.
    pub fn session_id(&self) -> (r: &SessionId)
        ensures
            *r == match self {
                Restore::Native { session_id, .. } => *session_id,
                Restore::Portable { session_id, .. } => *session_id,
            },
    {
        match self {
            Restore::Native { session_id, .. } => session_id,
            Restore::Portable { session_id, .. } => session_id,
        }
    }

    /// What has to be restored, with the texts that it needs and the slot that it takes.
    /// A new native session takes the slot `fresh`.
    pub fn prepare<S: ContinuationStore>(self, store: &S, workspace: &str, fresh: SlotId) -> (r:
        Result<(RestorationPolicy, MemoryResourceStore, SlotId), String>)
        ensures
            (!store.dependable() && store_unusable(r)) || match self {
                Restore::Native { session_id, continuation } => match found(
                    store.contents().continuations,
                    continuation.deep_view(),
                ) {
                    Err(e) => restore_refused(r, store_message(e)),
                    Ok(saved) => if saved.continuation.session_id != session_id.deep_view()
                        || at(saved.continuation.data, "cwd"@) != JsonView::Text(workspace@) {
                        restore_refused(r, "continuation session/workspace mismatch"@)
                    } else {
                        r matches Ok((policy, texts, slot)) && {
                            &&& policy matches RestorationPolicy::Native {
                                continuation: chosen,
                            } && chosen == continuation
                            &&& texts.held() == Resources::empty()
                            &&& slot.deep_view() == saved.continuation.slot_id
                        }
                    },
                },
                Restore::Portable { session_id, context } => match store.contents().page(
                    session_id.deep_view(),
                    None,
                    1,
                ) {
                    Err(e) => restore_refused(r, store_message(e)),
                    Ok(_) => match context.deep_view().prepared() {
                        Err(e) => restore_refused(r, e),
                        Ok((manifest, held)) => r matches Ok((policy, texts, slot)) && {
                            &&& policy matches RestorationPolicy::Portable(portable) && {
                                &&& portable.session_id == session_id
                                &&& portable.slot_id.deep_view() == fresh.deep_view()
                                &&& portable.cwd@ == workspace@
                                &&& portable.manifest.deep_view() == manifest
                                &&& portable.limits == host_limits()
                                &&& portable.max_prompt_bytes == MAX_PROMPT_BYTES
                                &&& portable.mode is AppendToNative
                            }
                            &&& texts.held() == held
                            &&& slot == fresh
                        },
                    },
                },
            },
    {
        match self {
            Restore::Native { session_id, continuation } => {
                let saved = match store.get_continuation(&continuation) {
                    Err(e) => {
                        let refusal = Err(e.to_string());
                        assert(restore_refused(refusal, store_message(e.deep_view())));
                        return refusal;
                    },
                    Ok(saved) => saved,
                };
                if !saved.continuation.session_id.same_as(&session_id) || !says_at(
                    &saved.continuation.data,
                    "cwd",
                    workspace,
                ) {
                    return Err("continuation session/workspace mismatch".to_owned());
                }
                let slot = saved.continuation.slot_id.duplicate();
                Ok((RestorationPolicy::Native { continuation }, MemoryResourceStore::new(), slot))
            },
            Restore::Portable { session_id, context } => {
                match store.list(&session_id, None, 1) {
                    Err(e) => {
                        let refusal = Err(e.to_string());
                        assert(restore_refused(refusal, store_message(e.deep_view())));
                        return refusal;
                    },
                    Ok(_) => {},
                }
                let (manifest, texts) = match context.prepare() {
                    Err(e) => return Err(e),
                    Ok(prepared) => prepared,
                };
                let portable = PortableRestore {
                    session_id,
                    slot_id: fresh.duplicate(),
                    cwd: workspace.to_owned(),
                    manifest,
                    limits: ContextLimits {
                        max_items: MAX_CONTEXT_ITEMS,
                        max_resource_bytes: MAX_CONTEXT_BYTES,
                    },
                    max_prompt_bytes: MAX_PROMPT_BYTES,
                    mode: TextContextMode::AppendToNative,
                };
                Ok((RestorationPolicy::Portable(portable), texts, fresh))
            },
        }
    }
}

/// A session of the host.
pub enum Session {
    Active(SessionState),
    Restored(RestoredSession),
}

/// What a start leads to, and the text to be sent if it succeeds.
pub open spec fn hosted_start(
    session: Session,
    closed: bool,
    store: StoreView,
    id: Seq<char>,
    prompt: Seq<char>,
    context: Option<(ContextManifestView, Resources)>,
    contract: Option<JsonContract>,
    actors: RecordActorsView,
) -> (Start, Seq<char>) {
    match session {
        Session::Restored(restored) => if context is Some || contract is Some {
            (
                refused(
                    store,
                    RecordingErrorView::UnsupportedContext(
                        "first restored run must use its frozen selection without run options"@,
                    ),
                ),
                Seq::empty(),
            )
        } else {
            restored.first_start(closed, store, id, prompt, actors)
        },
        Session::Active(state) => {
            let state = state.deep_view();
            match (context, contract) {
                (None, None) => (
                    text_start(state, closed, store, id, prompt, actors, None),
                    prompt,
                ),
                (None, Some(contract)) => json_start(
                    state,
                    closed,
                    store,
                    id,
                    prompt,
                    contract,
                    JsonOutputMode::ValidateReturnedText,
                    None,
                    actors,
                ),
                (Some((manifest, resources)), None) => match state.objection(prompt, closed) {
                    Some(e) => (refused(store, RecordingErrorView::Agent(e)), Seq::empty()),
                    None => {
                        let asked = consulted(manifest, host_limits().max_items as nat);
                        match whole_context(state, store, resources, manifest, host_limits()) {
                            Err(e) => (
                                refused(store, RecordingErrorView::Context(e)).resolving(
                                    store,
                                    asked,
                                ),
                                Seq::empty(),
                            ),
                            Ok(selected) => (
                                context_start(
                                    state,
                                    closed,
                                    store,
                                    id,
                                    prompt,
                                    selected,
                                    MAX_PROMPT_BYTES,
                                    actors,
                                    None,
                                ).resolving(store, asked),
                                envelope(selected, prompt),
                            ),
                        }
                    },
                },
                (Some((manifest, resources)), Some(contract)) => {
                    let (start, wire) = match policy_context(
                        state,
                        store,
                        resources,
                        manifest,
                        host_limits(),
                        ContextPolicyView::none(),
                    ) {
                        Err(e) => (refused(store, RecordingErrorView::Context(e)), Seq::empty()),
                        Ok(selected) => json_start(
                            state,
                            closed,
                            store,
                            id,
                            prompt,
                            contract,
                            JsonOutputMode::ValidateReturnedText,
                            Some((selected, MAX_PROMPT_BYTES)),
                            actors,
                        ),
                    };
                    let asked = consulted_under(
                        manifest,
                        ContextPolicyView::none(),
                        host_limits().max_items as nat,
                    );
                    (start.resolving(store, asked), wire)
                },
            }
        },
    }
}

impl Session {
    /// Starts a run. The first run of a restored session uses its frozen selection. Gives
    /// the text to be sent besides.
    pub fn start<S: RecordStore>(
        &self,
        closed: bool,
        store: &mut S,
        id: RunId,
        prompt: &str,
        context: Option<(&ContextManifest, &MemoryResourceStore)>,
        contract: Option<&JsonContract>,
        actors: RecordActors,
    ) -> (r: Result<(Recorder, RunSpec, String), RecordingError>)
        ensures
            final(store).dependable() == old(store).dependable(),
            ({
                let (start, wire) = hosted_start(
                    *self,
                    closed,
                    old(store).contents(),
                    id.deep_view(),
                    prompt@,
                    match context {
                        Some((manifest, resources)) => Some(
                            (manifest.deep_view(), resources.held()),
                        ),
                        None => None,
                    },
                    match contract {
                        Some(contract) => Some(*contract),
                        None => None,
                    },
                    actors.deep_view(),
                );
                match r {
                    Ok((recorder, spec, text)) => started_from(
                        Ok((recorder.deep_view(), spec.deep_view())),
                        start,
                        final(store).contents(),
                        old(store).dependable(), true,
                    ) && text@ == wire,
                    Err(e) => started_from(Err(e.deep_view()), start, final(store).contents(), old(store).dependable(), true),
                }
            }),
            r matches Ok((recorder, _, _)) ==> recorder.deep_view().indexed(),
    {
        let session = match self {
            Session::Restored(restored) => {
                if context.is_some() || contract.is_some() {
                    return Err(
                        RecordingError::UnsupportedContext(
                            "first restored run must use its frozen selection without run options".to_owned(),
                        ),
                    );
                }
                return restored.start_recorded_run(closed, store, id, prompt, actors);
            },
            Session::Active(session) => session,
        };
        match contract {
            Some(contract) => {
                let task = JsonTask { prompt, contract, mode: JsonOutputMode::ValidateReturnedText };
                match context {
                    Some((manifest, resources)) => start_recorded_context_json_run(
                        session,
                        closed,
                        store,
                        id,
                        &task,
                        &context_task(prompt, manifest, resources),
                        &ContextPolicy::default(),
                        actors,
                    ),
                    None => start_json_run(session, closed, store, id, &task, None, actors),
                }
            },
            None => match context {
                Some((manifest, resources)) => start_recorded_context_run(
                    session,
                    closed,
                    store,
                    id,
                    &context_task(prompt, manifest, resources),
                    actors,
                ),
                None => match start_recorded_with_report(
                    session,
                    closed,
                    store,
                    id,
                    prompt,
                    actors,
                    None,
                ) {
                    Err(e) => Err(e),
                    Ok((recorder, spec)) => Ok((recorder, spec, prompt.to_owned())),
                },
            },
        }
    }

    /// The session without what restored it. Used after the first run was dispatched, and
    /// to hand the session off.
    pub fn into_session(self) -> (r: Result<SessionState, RecordingError>)
        ensures
            outcome(r) == match self {
                Session::Active(state) => Ok::<SessionStateView, RecordingErrorView>(
                    state.deep_view(),
                ),
                Session::Restored(restored) => if restored.undelivered() is Some {
                    Err(
                        RecordingErrorView::UnsupportedContext(
                            "portable context has not been dispatched"@,
                        ),
                    )
                } else {
                    Ok(restored.state())
                },
            },
    {
        match self {
            Session::Active(state) => Ok(state),
            Session::Restored(restored) => restored.into_session(),
        }
    }

    /// Called only after a successfully dispatched first run is over.
    pub fn into_active(self) -> (r: Result<Session, RecordingError>)
        ensures
            match self {
                Session::Active(state) => r == Ok::<Session, RecordingError>(self),
                Session::Restored(restored) => if restored.undelivered() is Some {
                    r matches Err(e) && e.deep_view() == RecordingErrorView::UnsupportedContext(
                        "portable context has not been dispatched"@,
                    )
                } else {
                    r matches Ok(Session::Active(state)) && state.deep_view() == restored.state()
                },
            },
    {
        match self {
            Session::Active(state) => Ok(Session::Active(state)),
            Session::Restored(restored) => match restored.into_session() {
                Err(e) => Err(e),
                Ok(state) => Ok(Session::Active(state)),
            },
        }
    }
}

/// A restored session takes no options for its first run: with any, nothing is started
/// and nothing is stored.
pub proof fn frozen_selections_are_not_replaced(
    restored: RestoredSession,
    closed: bool,
    store: StoreView,
    id: Seq<char>,
    prompt: Seq<char>,
    context: Option<(ContextManifestView, Resources)>,
    contract: Option<JsonContract>,
    actors: RecordActorsView,
)
    requires
        context is Some || contract is Some,
    ensures
        ({
            let (start, _) = hosted_start(
                Session::Restored(restored),
                closed,
                store,
                id,
                prompt,
                context,
                contract,
                actors,
            );
            start.reply is Err && start.store == store
        }),
{
}

} // verus!
