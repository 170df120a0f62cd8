//! What a run may be given and asked for besides its prompt.

use crate::acp::context::{ContextTask, TextContextMode};
use crate::acp::recording::member;
use crate::context::{
    resource_put, ContextLimits, MemoryResourceStore, Resource, ResourceStore, ResourceView,
    Resources,
};
use crate::datum::{append, Datum};
use crate::host::frames::new_member;
use crate::id::{RecordId, ResourceId};
use crate::json::{json_views, Json, JsonView};
use crate::model::{ContextManifest, ContextManifestView, ResourceRef, ResourceRefView};
use crate::structured::{JsonContract, JsonRejection};
use crate::text::same_text;
use vstd::prelude::*;
use vstd::string::*;
use vstd::utf8::encode_utf8;

verus! {

/// The most items of a selection.
pub const MAX_CONTEXT_ITEMS: usize = 128;

/// The most bytes of all selected resources.
pub const MAX_CONTEXT_BYTES: usize = 262144;

/// The most bytes of a prompt with its context.
pub const MAX_PROMPT_BYTES: usize = 524288;

/// The most bytes of a result that is validated.
pub const MAX_RESULT_BYTES: usize = 65536;

/// A text that is offered as context.
#[derive(Debug, PartialEq, Eq)]
pub struct TextResource {
    pub id: ResourceId,
    pub revision: String,
    pub media_type: String,
    pub text: String,
}

/// What a `TextResource` holds.
#[verifier::ext_equal]
pub struct TextResourceView {
    pub id: Seq<char>,
    pub revision: Seq<char>,
    pub media_type: Seq<char>,
    pub text: Seq<char>,
}

impl DeepView for TextResource {
    type V = TextResourceView;

    open spec fn deep_view(&self) -> TextResourceView {
        TextResourceView {
            id: self.id.deep_view(),
            revision: self.revision.deep_view(),
            media_type: self.media_type.deep_view(),
            text: self.text.deep_view(),
        }
    }
}

impl Datum for TextResource {
    fn duplicate(&self) -> (r: TextResource) {
        TextResource {
            id: self.id.duplicate(),
            revision: self.revision.duplicate(),
            media_type: self.media_type.duplicate(),
            text: self.text.duplicate(),
        }
    }

    fn same_as(&self, other: &TextResource) -> (r: bool) {
        self.id.same_as(&other.id)
            && self.revision.same_as(&other.revision)
            && self.media_type.same_as(&other.media_type)
            && self.text.same_as(&other.text)
    }
}

/// What a run is to be given besides its prompt.
#[derive(Debug, PartialEq, Eq)]
pub struct Selection {
    pub mode: String,
    pub records: Vec<RecordId>,
    pub resources: Vec<TextResource>,
}

/// What a `Selection` holds.
#[verifier::ext_equal]
pub struct SelectionView {
    pub mode: Seq<char>,
    pub records: Seq<Seq<char>>,
    pub resources: Seq<TextResourceView>,
}

impl DeepView for Selection {
    type V = SelectionView;

    open spec fn deep_view(&self) -> SelectionView {
        SelectionView {
            mode: self.mode.deep_view(),
            records: self.records.deep_view(),
            resources: self.resources.deep_view(),
        }
    }
}

impl Datum for Selection {
    fn duplicate(&self) -> (r: Selection) {
        Selection {
            mode: self.mode.duplicate(),
            records: self.records.duplicate(),
            resources: self.resources.duplicate(),
        }
    }

    fn same_as(&self, other: &Selection) -> (r: bool) {
        self.mode.same_as(&other.mode)
            && self.records.same_as(&other.records)
            && self.resources.same_as(&other.resources)
    }
}


/// What the result of a run has to be.
#[derive(Debug, PartialEq, Eq)]
pub struct ResultDefinition {
    pub name: String,
    pub revision: String,
    /// The JSON text of the schema.
    pub schema: String,
    pub max_validation_bytes: usize,
    pub mode: String,
}

impl ResultDefinition {
    /// Why a run cannot be asked for such a result. `compiled` is what came of compiling
    /// the schema.
    pub open spec fn objection(self, compiled: Result<(), String>) -> Option<Seq<char>> {
        if self.mode@ != "validate_returned_text"@ {
            Some("native result enforcement is unsupported"@)
        } else if self.max_validation_bytes > MAX_RESULT_BYTES {
            Some("result validation limit exceeds 65536 bytes"@)
        } else {
            match compiled {
                Err(e) => Some(e@),
                Ok(_) => None,
            }
        }
    }

    /// The contract of the result. `compiled` is what came of compiling the schema; the
    /// result is validated against it.
    pub fn contract(self, compiled: Result<(), String>) -> (r: Result<JsonContract, String>)
        ensures
            match self.objection(compiled) {
                Some(e) => r matches Err(error) && error@ == e,
                None => r matches Ok(contract) && {
                    &&& contract.name@ == self.name@
                    &&& contract.revision@ == self.revision@
                    &&& contract.instructions@ == "Return JSON matching this schema: "@
                        + self.schema@
                    &&& contract.max_validation_bytes == self.max_validation_bytes
                    &&& contract.application_validation
                },
            },
    {
        if !same_text(self.mode.as_str(), "validate_returned_text") {
            return Err("native result enforcement is unsupported".to_owned());
        }
        if self.max_validation_bytes > MAX_RESULT_BYTES {
            return Err("result validation limit exceeds 65536 bytes".to_owned());
        }
        match compiled {
            Err(e) => return Err(e),
            Ok(_) => {},
        }
        let mut instructions = "Return JSON matching this schema: ".to_owned();
        instructions.append(self.schema.as_str());
        Ok(
            JsonContract {
                name: self.name,
                revision: self.revision,
                instructions,
                max_validation_bytes: self.max_validation_bytes as u64,
                application_validation: true,
            },
        )
    }
}

impl TextResourceView {
    /// The revision that the text is kept under.
    pub open spec fn reference(self) -> ResourceRefView {
        ResourceRefView { id: self.id, revision: self.revision }
    }

    /// The text as it is kept.
    pub open spec fn resource(self) -> ResourceView {
        ResourceView {
            reference: self.reference(),
            media_type: self.media_type,
            bytes: encode_utf8(self.text),
        }
    }

    /// It is a text that can be read.
    pub open spec fn readable(self) -> bool {
        self.media_type == "text/plain"@ || self.media_type == "text/markdown"@
    }
}

/// The references in their order and the texts that they name, given those that came
/// before.
pub open spec fn placed(
    references: Seq<ResourceRefView>,
    held: Resources,
    texts: Seq<TextResourceView>,
) -> Result<(Seq<ResourceRefView>, Resources), Seq<char>>
    decreases texts.len(),
{
    if texts.len() == 0 {
        Ok((references, held))
    } else if !texts[0].readable() {
        Err("context resources must be plain text or Markdown"@)
    } else {
        match resource_put(held, texts[0].resource()) {
            Err(e) => Err("resource store: "@ + e.debug()),
            Ok((_, after)) => placed(
                references.push(texts[0].reference()),
                after,
                texts.skip(1),
            ),
        }
    }
}

impl SelectionView {
    /// The manifest of the selection, with the texts that it brings.
    pub open spec fn prepared(self) -> Result<(ContextManifestView, Resources), Seq<char>> {
        if self.mode != "append_to_native"@ {
            Err("only append_to_native text context is supported"@)
        } else if self.records.len() + self.resources.len() > MAX_CONTEXT_ITEMS {
            Err("context exceeds 128 items"@)
        } else {
            match placed(Seq::empty(), Resources::empty(), self.resources) {
                Err(e) => Err(e),
                Ok((references, held)) => Ok(
                    (
                        ContextManifestView {
                            records: self.records,
                            instructions: Seq::empty(),
                            resources: references,
                        },
                        held,
                    ),
                ),
            }
        }
    }
}

impl Selection {
    /// The manifest of the selection, with the texts that it brings.
    pub fn prepare(self) -> (r: Result<(ContextManifest, MemoryResourceStore), String>)
        ensures
            match self.deep_view().prepared() {
                Err(e) => r matches Err(error) && error@ == e,
                Ok((manifest, held)) => r matches Ok((made, store)) && made.deep_view() == manifest
                    && store.held() == held,
            },
    {
        if !same_text(self.mode.as_str(), "append_to_native") {
            return Err("only append_to_native text context is supported".to_owned());
        }
        let ghost whole = self.deep_view();
        let Selection { mode: _, records, resources } = self;
        if records.len() > MAX_CONTEXT_ITEMS || resources.len() > MAX_CONTEXT_ITEMS
            - records.len() {
            return Err("context exceeds 128 items".to_owned());
        }
        let ghost all = resources.deep_view();
        let mut references: Vec<ResourceRef> = Vec::new();
        let mut store = MemoryResourceStore::new();
        let mut i: usize = 0;
        assert(all.skip(0) =~= all);
        assert(references.deep_view() =~= Seq::<ResourceRefView>::empty());
        while i < resources.len()
            invariant
                i <= resources.len(),
                all == resources.deep_view(),
                placed(Seq::empty(), Resources::empty(), all) == placed(
                    references.deep_view(),
                    store.held(),
                    all.skip(i as int),
                ),
                all == whole.resources,
                whole.mode == "append_to_native"@,
                whole.records.len() + whole.resources.len() <= MAX_CONTEXT_ITEMS,
                whole == self.deep_view(),
            decreases resources.len() - i,
        {
            let text = &resources[i];
            assert(all.skip(i as int)[0] == text.deep_view());
            assert(all.skip(i as int).skip(1) =~= all.skip(i + 1));
            if !same_text(text.media_type.as_str(), "text/plain") && !same_text(
                text.media_type.as_str(),
                "text/markdown",
            ) {
                return Err("context resources must be plain text or Markdown".to_owned());
            }
            let reference = ResourceRef {
                id: text.id.duplicate(),
                revision: text.revision.clone(),
            };
            let bytes = vstd::slice::slice_to_vec(text.text.as_str().as_bytes());
            assert(bytes.deep_view() =~= encode_utf8(text.text@));
            let resource = Resource {
                reference: reference.duplicate(),
                media_type: text.media_type.clone(),
                bytes,
            };
            assert(resource.deep_view() == text.deep_view().resource());
            match store.put(resource) {
                Err(e) => return Err(e.to_string()),
                Ok(_) => {},
            }
            append(&mut references, reference);
            i = i + 1;
        }
        assert(all.skip(i as int).len() == 0);
        let manifest = ContextManifest { records, instructions: Vec::new(), resources: references };
        assert(manifest.deep_view().instructions =~= Seq::empty());
        Ok((manifest, store))
    }
}

/// A prompt with its selection, within the limits of the host.
pub fn context_task<'a>(
    prompt: &'a str,
    manifest: &'a ContextManifest,
    resources: &'a MemoryResourceStore,
) -> (r: ContextTask<'a, MemoryResourceStore>)
    ensures
        r.prompt == prompt,
        r.manifest == manifest,
        r.resources == resources,
        r.limits == host_limits(),
        r.max_prompt_bytes == MAX_PROMPT_BYTES,
        r.mode is AppendToNative,
{
    ContextTask {
        prompt,
        manifest,
        resources,
        limits: ContextLimits {
            max_items: MAX_CONTEXT_ITEMS,
            max_resource_bytes: MAX_CONTEXT_BYTES,
        },
        max_prompt_bytes: MAX_PROMPT_BYTES,
        mode: TextContextMode::AppendToNative,
    }
}

/// The limits of the host.
pub open spec fn host_limits() -> ContextLimits {
    ContextLimits { max_items: MAX_CONTEXT_ITEMS, max_resource_bytes: MAX_CONTEXT_BYTES }
}

/// The result of a run.
#[derive(Debug, PartialEq, Eq)]
pub enum HostedResult {
    /// None was asked for.
    Plain,
    Valid(Json),
    Rejected(JsonRejection),
    /// The run has not come to one.
    Unavailable,
}

impl HostedResult {
    /// The result in JSON.
    pub open spec fn json(self) -> JsonView {
        match self {
            HostedResult::Plain => JsonView::Null,
            HostedResult::Valid(value) => JsonView::Object(
                member("status"@, JsonView::Text("valid"@)).insert("value"@, value.deep_view()),
            ),
            HostedResult::Rejected(rejection) => JsonView::Object(
                member("status"@, JsonView::Text("rejected"@)).insert(
                    "rejection"@,
                    rejection.deep_view().json(),
                ),
            ),
            HostedResult::Unavailable => JsonView::Object(
                member("status"@, JsonView::Text("unavailable"@)),
            ),
        }
    }

    /// The result in JSON.
    pub fn to_json(self) -> (r: Json)
        ensures
            r.deep_view() == self.json(),
    {
        broadcast use json_views;

        match self {
            HostedResult::Plain => Json::Null,
            HostedResult::Valid(value) => {
                let mut members = new_member("status", Json::Text("valid".to_owned()));
                members.put("value".to_owned(), value);
                Json::Object(members)
            },
            HostedResult::Rejected(rejection) => {
                let mut members = new_member("status", Json::Text("rejected".to_owned()));
                members.put("rejection".to_owned(), rejection.to_json());
                Json::Object(members)
            },
            HostedResult::Unavailable => Json::Object(
                new_member("status", Json::Text("unavailable".to_owned())),
            ),
        }
    }
}

} // verus!
