//! Caller-assigned identities.

use crate::datum::Datum;
use crate::text::{blank, is_blank};
use vstd::prelude::*;

verus! {

/// An identifier must contain at least one non-whitespace character.
#[derive(Debug, Clone, Copy, PartialEq, Eq, Structural)]
pub struct InvalidId;

impl InvalidId {
    /// What the error says.
    pub fn to_string(&self) -> (r: String)
        ensures
            r@ == "an identifier cannot be empty or whitespace-only"@,
    {
        "an identifier cannot be empty or whitespace-only".to_owned()
    }
}

/// Identity of configured compute capacity.
///
/// Values are caller-assigned and preserved verbatim. Uniqueness belongs
/// to the runtime or storage layer. This value is not a filesystem path.
#[derive(Debug, PartialEq, Eq, PartialOrd, Ord, Hash)]
pub struct SlotId(String);

impl DeepView for SlotId {
    type V = Seq<char>;

    closed spec fn deep_view(&self) -> Seq<char> {
        self.0@
    }
}

impl SlotId {
    #[verifier::type_invariant]
    spec fn not_blank(self) -> bool {
        !blank(self.0@)
    }

    /// Accepts every text that is not blank, without rewriting it.
    pub fn new(value: String) -> (r: Result<SlotId, InvalidId>)
        ensures
            r is Ok <==> !blank(value@),
            r matches Ok(id) ==> id.deep_view() == value@,
    {
        if is_blank(value.as_str()) {
            return Err(InvalidId);
        }
        Ok(SlotId(value))
    }

    /// The identifier's text, which is never blank.
    pub fn as_str(&self) -> (r: &str)
        ensures
            r@ == self.deep_view(),
            !blank(r@),
    {
        proof {
            use_type_invariant(self);
        }
        self.0.as_str()
    }
}

impl Datum for SlotId {
    fn duplicate(&self) -> (r: SlotId) {
        proof {
            use_type_invariant(self);
        }
        SlotId(self.0.clone())
    }

    fn same_as(&self, other: &SlotId) -> (r: bool) {
        self.0.same_as(&other.0)
    }
}

/// Identity of an application context boundary.
///
/// Values are caller-assigned and preserved verbatim. Uniqueness belongs
/// to the runtime or storage layer. This value is not a filesystem path.
#[derive(Debug, PartialEq, Eq, PartialOrd, Ord, Hash)]
pub struct SessionId(String);

impl DeepView for SessionId {
    type V = Seq<char>;

    closed spec fn deep_view(&self) -> Seq<char> {
        self.0@
    }
}

impl SessionId {
    #[verifier::type_invariant]
    spec fn not_blank(self) -> bool {
        !blank(self.0@)
    }

    /// Accepts every text that is not blank, without rewriting it.
    pub fn new(value: String) -> (r: Result<SessionId, InvalidId>)
        ensures
            r is Ok <==> !blank(value@),
            r matches Ok(id) ==> id.deep_view() == value@,
    {
        if is_blank(value.as_str()) {
            return Err(InvalidId);
        }
        Ok(SessionId(value))
    }

    /// The identifier's text, which is never blank.
    pub fn as_str(&self) -> (r: &str)
        ensures
            r@ == self.deep_view(),
            !blank(r@),
    {
        proof {
            use_type_invariant(self);
        }
        self.0.as_str()
    }
}

impl Datum for SessionId {
    fn duplicate(&self) -> (r: SessionId) {
        proof {
            use_type_invariant(self);
        }
        SessionId(self.0.clone())
    }

    fn same_as(&self, other: &SessionId) -> (r: bool) {
        self.0.same_as(&other.0)
    }
}

/// Identity of one execution assignment.
///
/// Values are caller-assigned and preserved verbatim. Uniqueness belongs
/// to the runtime or storage layer. This value is not a filesystem path.
#[derive(Debug, PartialEq, Eq, PartialOrd, Ord, Hash)]
pub struct RunId(String);

impl DeepView for RunId {
    type V = Seq<char>;

    closed spec fn deep_view(&self) -> Seq<char> {
        self.0@
    }
}

impl RunId {
    #[verifier::type_invariant]
    spec fn not_blank(self) -> bool {
        !blank(self.0@)
    }

    /// Accepts every text that is not blank, without rewriting it.
    pub fn new(value: String) -> (r: Result<RunId, InvalidId>)
        ensures
            r is Ok <==> !blank(value@),
            r matches Ok(id) ==> id.deep_view() == value@,
    {
        if is_blank(value.as_str()) {
            return Err(InvalidId);
        }
        Ok(RunId(value))
    }

    /// The identifier's text, which is never blank.
    pub fn as_str(&self) -> (r: &str)
        ensures
            r@ == self.deep_view(),
            !blank(r@),
    {
        proof {
            use_type_invariant(self);
        }
        self.0.as_str()
    }
}

impl Datum for RunId {
    fn duplicate(&self) -> (r: RunId) {
        proof {
            use_type_invariant(self);
        }
        RunId(self.0.clone())
    }

    fn same_as(&self, other: &RunId) -> (r: bool) {
        self.0.same_as(&other.0)
    }
}

/// Identity of an input, output, or activity record.
///
/// Values are caller-assigned and preserved verbatim. Uniqueness belongs
/// to the runtime or storage layer. This value is not a filesystem path.
#[derive(Debug, PartialEq, Eq, PartialOrd, Ord, Hash)]
pub struct RecordId(String);

impl DeepView for RecordId {
    type V = Seq<char>;

    closed spec fn deep_view(&self) -> Seq<char> {
        self.0@
    }
}

impl RecordId {
    #[verifier::type_invariant]
    spec fn not_blank(self) -> bool {
        !blank(self.0@)
    }

    /// Accepts every text that is not blank, without rewriting it.
    pub fn new(value: String) -> (r: Result<RecordId, InvalidId>)
        ensures
            r is Ok <==> !blank(value@),
            r matches Ok(id) ==> id.deep_view() == value@,
    {
        if is_blank(value.as_str()) {
            return Err(InvalidId);
        }
        Ok(RecordId(value))
    }

    /// The identifier's text, which is never blank.
    pub fn as_str(&self) -> (r: &str)
        ensures
            r@ == self.deep_view(),
            !blank(r@),
    {
        proof {
            use_type_invariant(self);
        }
        self.0.as_str()
    }
}

impl Datum for RecordId {
    fn duplicate(&self) -> (r: RecordId) {
        proof {
            use_type_invariant(self);
        }
        RecordId(self.0.clone())
    }

    fn same_as(&self, other: &RecordId) -> (r: bool) {
        self.0.same_as(&other.0)
    }
}

/// Identity of referenced content.
///
/// Values are caller-assigned and preserved verbatim. Uniqueness belongs
/// to the runtime or storage layer. This value is not a filesystem path.
#[derive(Debug, PartialEq, Eq, PartialOrd, Ord, Hash)]
pub struct ResourceId(String);

impl DeepView for ResourceId {
    type V = Seq<char>;

    closed spec fn deep_view(&self) -> Seq<char> {
        self.0@
    }
}

impl ResourceId {
    #[verifier::type_invariant]
    spec fn not_blank(self) -> bool {
        !blank(self.0@)
    }

    /// Accepts every text that is not blank, without rewriting it.
    pub fn new(value: String) -> (r: Result<ResourceId, InvalidId>)
        ensures
            r is Ok <==> !blank(value@),
            r matches Ok(id) ==> id.deep_view() == value@,
    {
        if is_blank(value.as_str()) {
            return Err(InvalidId);
        }
        Ok(ResourceId(value))
    }

    /// The identifier's text, which is never blank.
    pub fn as_str(&self) -> (r: &str)
        ensures
            r@ == self.deep_view(),
            !blank(r@),
    {
        proof {
            use_type_invariant(self);
        }
        self.0.as_str()
    }
}

impl Datum for ResourceId {
    fn duplicate(&self) -> (r: ResourceId) {
        proof {
            use_type_invariant(self);
        }
        ResourceId(self.0.clone())
    }

    fn same_as(&self, other: &ResourceId) -> (r: bool) {
        self.0.same_as(&other.0)
    }
}

/// Application-owned attribution, independent of an executor.
///
/// Values are caller-assigned and preserved verbatim. Uniqueness belongs
/// to the runtime or storage layer. This value is not a filesystem path.
#[derive(Debug, PartialEq, Eq, PartialOrd, Ord, Hash)]
pub struct ActorId(String);

impl DeepView for ActorId {
    type V = Seq<char>;

    closed spec fn deep_view(&self) -> Seq<char> {
        self.0@
    }
}

impl ActorId {
    #[verifier::type_invariant]
    spec fn not_blank(self) -> bool {
        !blank(self.0@)
    }

    /// Accepts every text that is not blank, without rewriting it.
    pub fn new(value: String) -> (r: Result<ActorId, InvalidId>)
        ensures
            r is Ok <==> !blank(value@),
            r matches Ok(id) ==> id.deep_view() == value@,
    {
        if is_blank(value.as_str()) {
            return Err(InvalidId);
        }
        Ok(ActorId(value))
    }

    /// The identifier's text, which is never blank.
    pub fn as_str(&self) -> (r: &str)
        ensures
            r@ == self.deep_view(),
            !blank(r@),
    {
        proof {
            use_type_invariant(self);
        }
        self.0.as_str()
    }
}

impl Datum for ActorId {
    fn duplicate(&self) -> (r: ActorId) {
        proof {
            use_type_invariant(self);
        }
        ActorId(self.0.clone())
    }

    fn same_as(&self, other: &ActorId) -> (r: bool) {
        self.0.same_as(&other.0)
    }
}

/// Identity of a saved native-context handoff.
///
/// Values are caller-assigned and preserved verbatim. Uniqueness belongs
/// to the runtime or storage layer. This value is not a filesystem path.
#[derive(Debug, PartialEq, Eq, PartialOrd, Ord, Hash)]
pub struct ContinuationId(String);

impl DeepView for ContinuationId {
    type V = Seq<char>;

    closed spec fn deep_view(&self) -> Seq<char> {
        self.0@
    }
}

impl ContinuationId {
    #[verifier::type_invariant]
    spec fn not_blank(self) -> bool {
        !blank(self.0@)
    }

    /// Accepts every text that is not blank, without rewriting it.
    pub fn new(value: String) -> (r: Result<ContinuationId, InvalidId>)
        ensures
            r is Ok <==> !blank(value@),
            r matches Ok(id) ==> id.deep_view() == value@,
    {
        if is_blank(value.as_str()) {
            return Err(InvalidId);
        }
        Ok(ContinuationId(value))
    }

    /// The identifier's text, which is never blank.
    pub fn as_str(&self) -> (r: &str)
        ensures
            r@ == self.deep_view(),
            !blank(r@),
    {
        proof {
            use_type_invariant(self);
        }
        self.0.as_str()
    }
}

impl Datum for ContinuationId {
    fn duplicate(&self) -> (r: ContinuationId) {
        proof {
            use_type_invariant(self);
        }
        ContinuationId(self.0.clone())
    }

    fn same_as(&self, other: &ContinuationId) -> (r: bool) {
        self.0.same_as(&other.0)
    }
}

} // verus!
