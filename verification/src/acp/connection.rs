//! What is known of a connection to an agent.

use crate::acp::error::{AcpError, AcpErrorView};
use crate::acp::session::ServerCapabilities;
use crate::datum::outcome;
use crate::text::{blank, is_blank, same_text};
use vstd::prelude::*;

verus! {

/// How waiting for the agent's first answer ended.
pub enum Initialization {
    /// The agent answered, with whether it speaks the first protocol version.
    Answered { first_version: bool },
    /// The connection ended before that, in this way.
    Ended(Result<(), AcpError>),
    TimedOut,
}

/// Whether a connection can be used, by how its initialization ended.
pub fn initialized(end: Initialization) -> (r: Result<(), AcpError>)
    ensures
        outcome(r) == match end {
            Initialization::Answered { first_version } => if first_version {
                Ok::<(), AcpErrorView>(())
            } else {
                Err(AcpErrorView::UnsupportedProtocolVersion)
            },
            Initialization::Ended(Ok(_)) => Err(AcpErrorView::ClosedBeforeInitialization),
            Initialization::Ended(Err(error)) => Err(error.deep_view()),
            Initialization::TimedOut => Err(AcpErrorView::InitializationTimedOut),
        },
{
    match end {
        Initialization::Answered { first_version } => {
            if first_version {
                Ok(())
            } else {
                Err(AcpError::UnsupportedProtocolVersion)
            }
        },
        Initialization::Ended(Ok(_)) => Err(AcpError::ClosedBeforeInitialization),
        Initialization::Ended(Err(error)) => Err(error),
        Initialization::TimedOut => Err(AcpError::InitializationTimedOut),
    }
}

/// The agent's own name and version.
#[derive(Debug, PartialEq, Eq)]
pub struct AgentIdentity {
    pub name: String,
    pub version: String,
}

/// A connection at one moment.
#[derive(Debug, PartialEq, Eq)]
pub struct ConnectionFacts {
    pub closed: bool,
    /// Whether the agent advertises that it resumes sessions.
    pub resumes: bool,
    /// Stable application-owned account/profile/environment namespace for handoffs.
    pub scope: Option<String>,
    pub agent: Option<AgentIdentity>,
    pub servers: ServerCapabilities,
}

impl ConnectionFacts {
    /// The namespace for handoffs.
    pub open spec fn handoff_scope(&self) -> Result<Seq<char>, AcpErrorView> {
        match self.scope {
            Some(scope) => if blank(scope@) {
                Err(AcpErrorView::ContinuationScopeRequired)
            } else {
                Ok(scope@)
            },
            None => Err(AcpErrorView::ContinuationScopeRequired),
        }
    }

    /// The namespace for handoffs. A blank one is none.
    pub fn scope(&self) -> (r: Result<&String, AcpError>)
        ensures
            match r {
                Ok(scope) => self.handoff_scope() == Ok::<Seq<char>, AcpErrorView>(scope@),
                Err(e) => self.handoff_scope() == Err::<Seq<char>, AcpErrorView>(e.deep_view()),
            },
    {
        match &self.scope {
            Some(scope) => {
                if is_blank(scope.as_str()) {
                    Err(AcpError::ContinuationScopeRequired)
                } else {
                    Ok(scope)
                }
            },
            None => Err(AcpError::ContinuationScopeRequired),
        }
    }
}

/// The native sessions that a connection has in use. No key is in use twice.
pub struct NativeSessions {
    keys: Vec<String>,
}

impl NativeSessions {
    #[verifier::type_invariant]
    spec fn well_formed(self) -> bool {
        forall|i: int, j: int|
            0 <= i < j < self.keys.len() ==> (#[trigger] self.keys@[i])@ != (
            #[trigger] self.keys@[j])@
    }

    /// Whether a session is in use.
    pub closed spec fn in_use(&self, key: Seq<char>) -> bool {
        exists|i: int| 0 <= i < self.keys.len() && (#[trigger] self.keys@[i])@ == key
    }

    /// Nothing is in use.
    pub fn new() -> (r: NativeSessions)
        ensures
            forall|key: Seq<char>| !r.in_use(key),
    {
        NativeSessions { keys: Vec::new() }
    }

    /// Reserves a session, unless it is in use already.
    pub fn reserve(&mut self, key: &str) -> (r: bool)
        ensures
            r == !old(self).in_use(key@),
            forall|k: Seq<char>|
                #[trigger] final(self).in_use(k) == (old(self).in_use(k) || k == key@),
    {
        proof {
            use_type_invariant(&*self);
        }
        let mut keys: Vec<String> = Vec::new();
        std::mem::swap(&mut keys, &mut self.keys);
        let mut i: usize = 0;
        while i < keys.len()
            invariant
                i <= keys.len(),
                keys@ == old(self).keys@,
                self.keys.len() == 0,
                forall|j: int| 0 <= j < i ==> (#[trigger] keys@[j])@ != key@,
                forall|a: int, b: int|
                    0 <= a < b < keys.len() ==> (#[trigger] keys@[a])@ != (#[trigger] keys@[b])@,
            decreases keys.len() - i,
        {
            if same_text(keys[i].as_str(), key) {
                assert(old(self).in_use(key@)) by {
                    assert(old(self).keys@[i as int]@ == key@);
                }
                self.keys = keys;
                return false;
            }
            i = i + 1;
        }
        assert(!old(self).in_use(key@));
        keys.push(key.to_owned());
        let ghost n = old(self).keys.len() as int;
        assert(keys@[n]@ == key@);
        assert(forall|j: int| 0 <= j < n ==> keys@[j] == old(self).keys@[j]);
        self.keys = keys;
        assert forall|k: Seq<char>| #[trigger] self.in_use(k) == (old(self).in_use(k) || k
            == key@) by {
            if old(self).in_use(k) {
                let j = choose|j: int| 0 <= j < n && (#[trigger] old(self).keys@[j])@ == k;
                assert(self.keys@[j]@ == k);
            }
            if k == key@ {
                assert(self.keys@[n]@ == k);
            }
            if self.in_use(k) {
                let j = choose|j: int|
                    0 <= j < self.keys.len() && (#[trigger] self.keys@[j])@ == k;
                if j < n {
                    assert(old(self).keys@[j]@ == k);
                }
            }
        }
        true
    }

    /// A session is no longer in use.
    pub fn release(&mut self, key: &str)
        ensures
            forall|k: Seq<char>|
                #[trigger] final(self).in_use(k) == (old(self).in_use(k) && k != key@),
    {
        proof {
            use_type_invariant(&*self);
        }
        let mut keys: Vec<String> = Vec::new();
        std::mem::swap(&mut keys, &mut self.keys);
        let mut i: usize = 0;
        while i < keys.len()
            invariant
                i <= keys.len(),
                keys@ == old(self).keys@,
                self.keys.len() == 0,
                forall|j: int| 0 <= j < i ==> (#[trigger] keys@[j])@ != key@,
                forall|a: int, b: int|
                    0 <= a < b < keys.len() ==> (#[trigger] keys@[a])@ != (#[trigger] keys@[b])@,
            decreases keys.len() - i,
        {
            if same_text(keys[i].as_str(), key) {
                let ghost at = i as int;
                let ghost before = keys@;
                keys.remove(i);
                assert(keys@ == before.remove(at));
                self.keys = keys;
                assert forall|k: Seq<char>| #[trigger] self.in_use(k) == (old(self).in_use(k) && k
                    != key@) by {
                    if self.in_use(k) {
                        let j = choose|j: int|
                            0 <= j < self.keys.len() && (#[trigger] self.keys@[j])@ == k;
                        if j < at {
                            assert(before[j]@ == k);
                            assert(before[at]@ != before[j]@);
                        } else {
                            assert(before[j + 1]@ == k);
                            assert(before[at]@ != before[j + 1]@);
                        }
                    }
                    if old(self).in_use(k) && k != key@ {
                        let j = choose|j: int|
                            0 <= j < before.len() && (#[trigger] before[j])@ == k;
                        if j < at {
                            assert(self.keys@[j]@ == k);
                        } else {
                            assert(self.keys@[j - 1]@ == k);
                        }
                    }
                }
                return ;
            }
            i = i + 1;
        }
        self.keys = keys;
    }
}

} // verus!
