//! Bounded waits around synchronous storage. A timed-out write may still commit.

use crate::datum::Datum;
use crate::providers::{FilePath, FilePathView};
use crate::records::StoreError;
use vstd::prelude::*;

verus! {

/// How long a store is waited for, in milliseconds.
pub const DEADLINE_MS: u64 = 500;

/// The most work on storage that goes on at a time.
pub struct Budget {
    active: usize,
    limit: usize,
}

impl Budget {
    /// The work that goes on.
    pub closed spec fn in_use(&self) -> usize {
        self.active
    }

    /// The most work that may go on.
    pub closed spec fn most(&self) -> usize {
        self.limit
    }

    #[verifier::type_invariant]
    spec fn kept(self) -> bool {
        self.active <= self.limit
    }

    /// Nothing goes on.
    pub fn new(limit: usize) -> (r: Budget)
        ensures
            r.in_use() == 0,
            r.most() == limit,
    {
        Budget { active: 0, limit }
    }

    /// Lets some work begin, unless too much goes on. The place stays with the actual
    /// work, even after the caller stops waiting.
    pub fn reserve(&mut self) -> (r: Result<(), StoreError>)
        ensures
            final(self).most() == old(self).most(),
            final(self).in_use() <= final(self).most(),
            if old(self).in_use() < old(self).most() {
                r is Ok && final(self).in_use() == old(self).in_use() + 1
            } else {
                &&& r == Err::<(), StoreError>(StoreError::StorageOverloaded)
                &&& final(self).in_use() == old(self).in_use()
            },
    {
        proof {
            use_type_invariant(&*self);
        }
        if self.active < self.limit {
            self.active = self.active + 1;
            Ok(())
        } else {
            Err(StoreError::StorageOverloaded)
        }
    }

    /// Work for which there was a place is over.
    pub fn release(&mut self)
        requires
            old(self).in_use() > 0,
        ensures
            final(self).most() == old(self).most(),
            final(self).in_use() <= final(self).most(),
            final(self).in_use() == old(self).in_use() - 1,
    {
        proof {
            use_type_invariant(&*self);
        }
        self.active = self.active - 1;
    }
}

/// A lane in which the writers of one file pass one at a time.
pub struct WriterLane {
    pub path: FilePath,
    /// Whether a writer still holds it.
    pub live: bool,
}

/// The lane serves a file.
pub open spec fn serves(lane: WriterLane, path: FilePathView) -> bool {
    lane.live && lane.path.deep_view() == path
}

/// The lane that the writers of a file share, if one of them still holds it.
pub fn writer_lane(lanes: &Vec<WriterLane>, path: &FilePath) -> (r: Option<usize>)
    ensures
        match r {
            Some(i) => {
                &&& i < lanes.len() && serves(lanes@[i as int], path.deep_view())
                &&& forall|j: int| 0 <= j < i ==> !serves(#[trigger] lanes@[j], path.deep_view())
            },
            None => forall|j: int|
                0 <= j < lanes.len() ==> !serves(#[trigger] lanes@[j], path.deep_view()),
        },
{
    let mut i: usize = 0;
    while i < lanes.len()
        invariant
            i <= lanes.len(),
            forall|j: int| 0 <= j < i ==> !serves(#[trigger] lanes@[j], path.deep_view()),
        decreases lanes.len() - i,
    {
        if lanes[i].live && lanes[i].path.same_as(path) {
            return Some(i);
        }
        i = i + 1;
    }
    None
}

/// Why nothing came back.
#[derive(Debug, Clone, Copy, PartialEq, Eq, Structural)]
pub enum Silence {
    Timeout,
    Disconnected,
}

/// What silence of a store means.
pub open spec fn silence_error(silence: Silence) -> StoreError {
    match silence {
        Silence::Timeout => StoreError::StorageTimedOut,
        Silence::Disconnected => StoreError::StorageUnavailable,
    }
}

/// What was received from a store within the deadline.
pub fn receive<T>(received: Result<T, Silence>) -> (r: Result<T, StoreError>)
    ensures
        r == match received {
            Ok(value) => Ok::<T, StoreError>(value),
            Err(silence) => Err(silence_error(silence)),
        },
{
    match received {
        Ok(value) => Ok(value),
        Err(Silence::Timeout) => Err(StoreError::StorageTimedOut),
        Err(Silence::Disconnected) => Err(StoreError::StorageUnavailable),
    }
}

/// Whether a job could be handed to the thread that owns a store.
#[derive(Debug, Clone, Copy, PartialEq, Eq, Structural)]
pub enum Handing {
    Taken,
    Full,
    Disconnected,
}

/// A thread that owns a store.
pub struct Worker {
    failed: bool,
}

impl Worker {
    /// The thread does no more work.
    pub closed spec fn stopped(&self) -> bool {
        self.failed
    }

    /// The thread has started, and this is what it said of its store.
    pub fn start(ready: Result<Result<(), StoreError>, Silence>) -> (r: Result<Worker, StoreError>)
        ensures
            match ready {
                Ok(Ok(_)) => r matches Ok(worker) && !worker.stopped(),
                Ok(Err(e)) => r == Err::<Worker, StoreError>(e),
                Err(silence) => r == Err::<Worker, StoreError>(silence_error(silence)),
            },
    {
        match receive(ready) {
            Ok(Ok(_)) => Ok(Worker { failed: false }),
            Ok(Err(e)) => Err(e),
            Err(e) => Err(e),
        }
    }

    /// Whether a job may be handed to the thread.
    pub fn check(&self) -> (r: Result<(), StoreError>)
        ensures
            r == if self.stopped() {
                Err::<(), StoreError>(StoreError::StorageUnavailable)
            } else {
                Ok(())
            },
    {
        if self.failed {
            Err(StoreError::StorageUnavailable)
        } else {
            Ok(())
        }
    }

    /// Whether a job was handed to the thread.
    pub fn handed(&self, handing: Handing) -> (r: Result<(), StoreError>)
        ensures
            r == match handing {
                Handing::Taken => Ok::<(), StoreError>(()),
                Handing::Full => Err(StoreError::StorageOverloaded),
                Handing::Disconnected => Err(StoreError::StorageUnavailable),
            },
    {
        match handing {
            Handing::Taken => Ok(()),
            Handing::Full => Err(StoreError::StorageOverloaded),
            Handing::Disconnected => Err(StoreError::StorageUnavailable),
        }
    }

    /// What came of a job. A thread that did not answer in time gets no other job: what
    /// it was given may still be done.
    pub fn answered<T>(&mut self, reply: Result<Result<T, StoreError>, Silence>) -> (r: Result<
        T,
        StoreError,
    >)
        ensures
            match reply {
                Ok(answer) => r == answer && final(self).stopped() == old(self).stopped(),
                Err(silence) => r == Err::<T, StoreError>(silence_error(silence))
                    && final(self).stopped(),
            },
    {
        match receive(reply) {
            Ok(answer) => answer,
            Err(e) => {
                self.failed = true;
                Err(e)
            },
        }
    }

    /// Nobody uses the thread any longer.
    pub fn stop(&mut self)
        ensures
            final(self).stopped(),
    {
        self.failed = true;
    }

    /// Whether the thread does the job that it took. One may have timed out while it
    /// waited behind another writer.
    pub fn may_work(&self) -> (r: bool)
        ensures
            r == !self.stopped(),
    {
        !self.failed
    }
}

} // verus!
