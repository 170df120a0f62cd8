//! Tool authority.

use crate::datum::Datum;
use crate::id::{ActorId, SessionId, SlotId};
use vstd::prelude::*;

verus! {

/// A named tool at an exact revision.
#[derive(Debug, PartialEq, Eq)]
pub struct ToolRef {
    pub name: String,
    pub revision: String,
}

/// What a `ToolRef` holds.
#[verifier::ext_equal]
pub struct ToolRefView {
    pub name: Seq<char>,
    pub revision: Seq<char>,
}

impl DeepView for ToolRef {
    type V = ToolRefView;

    open spec fn deep_view(&self) -> ToolRefView {
        ToolRefView {
            name: self.name.deep_view(),
            revision: self.revision.deep_view(),
        }
    }
}

impl Datum for ToolRef {
    fn duplicate(&self) -> (r: ToolRef) {
        ToolRef {
            name: self.name.duplicate(),
            revision: self.revision.duplicate(),
        }
    }

    fn same_as(&self, other: &ToolRef) -> (r: bool) {
        self.name.same_as(&other.name)
            && self.revision.same_as(&other.revision)
    }
}

/// Where a grant applies.
#[derive(Debug, PartialEq, Eq)]
pub struct ToolScope {
    pub session: SessionId,
    pub slot: SlotId,
}

/// What a `ToolScope` holds.
#[verifier::ext_equal]
pub struct ToolScopeView {
    pub session: Seq<char>,
    pub slot: Seq<char>,
}

impl DeepView for ToolScope {
    type V = ToolScopeView;

    open spec fn deep_view(&self) -> ToolScopeView {
        ToolScopeView {
            session: self.session.deep_view(),
            slot: self.slot.deep_view(),
        }
    }
}

impl Datum for ToolScope {
    fn duplicate(&self) -> (r: ToolScope) {
        ToolScope {
            session: self.session.duplicate(),
            slot: self.slot.duplicate(),
        }
    }

    fn same_as(&self, other: &ToolScope) -> (r: bool) {
        self.session.same_as(&other.session)
            && self.slot.same_as(&other.slot)
    }
}

/// Tools that an issuer lets a subject use within a scope.
#[derive(Debug, PartialEq, Eq)]
pub struct ToolGrant {
    pub issuer: ActorId,
    pub subject: ActorId,
    pub scope: ToolScope,
    pub tools: Vec<ToolRef>,
}

/// What a `ToolGrant` holds.
#[verifier::ext_equal]
pub struct ToolGrantView {
    pub issuer: Seq<char>,
    pub subject: Seq<char>,
    pub scope: ToolScopeView,
    pub tools: Seq<ToolRefView>,
}

impl DeepView for ToolGrant {
    type V = ToolGrantView;

    open spec fn deep_view(&self) -> ToolGrantView {
        ToolGrantView {
            issuer: self.issuer.deep_view(),
            subject: self.subject.deep_view(),
            scope: self.scope.deep_view(),
            tools: self.tools.deep_view(),
        }
    }
}

impl Datum for ToolGrant {
    fn duplicate(&self) -> (r: ToolGrant) {
        ToolGrant {
            issuer: self.issuer.duplicate(),
            subject: self.subject.duplicate(),
            scope: self.scope.duplicate(),
            tools: self.tools.duplicate(),
        }
    }

    fn same_as(&self, other: &ToolGrant) -> (r: bool) {
        self.issuer.same_as(&other.issuer)
            && self.subject.same_as(&other.subject)
            && self.scope.same_as(&other.scope)
            && self.tools.same_as(&other.tools)
    }
}

} // verus!
