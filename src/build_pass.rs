use vstd::prelude::*;
use crate::common::RsServiceError;
use crate::registry::{keys_of, ServiceEntry};

verus! {

/// The indices `0, 1, ..., n - 1`, in that order.
pub open spec fn in_order(n: int) -> Seq<int> {
    Seq::new(n as nat, |j: int| j)
}

/// Progress of the built-hook pass over a finished context holding `total`
/// services: hooks are handed out one at a time in registration order, and
/// the first failure ends the pass.
pub struct BuildPass {
    total: usize,
    done: usize,
    failure: Option<(usize, RsServiceError)>,
    dispatched: Ghost<Seq<int>>,
}

impl BuildPass {
    /// `done` hooks have returned `Ok`; a failure, if any, came from the next
    /// one; the hooks handed out so far are exactly those, in order.
    pub closed spec fn wf(&self) -> bool {
        &&& self.done <= self.total
        &&& match self.failure {
            Some(f) => f.0 == self.done && self.done < self.total,
            None => true,
        }
        &&& self.dispatched@ == in_order(self.dispatched@.len() as int)
        &&& self.dispatched@.len() == self.done + if self.failure is Some {
            1int
        } else {
            0int
        }
    }

    pub closed spec fn total(&self) -> usize {
        self.total
    }

    /// How many hooks have returned `Ok`.
    pub closed spec fn done(&self) -> usize {
        self.done
    }

    /// The failing hook's index and its error, once one has failed.
    pub closed spec fn failure(&self) -> Option<(usize, RsServiceError)> {
        self.failure
    }

    /// The indices of the hooks handed out so far, in the order they were handed out.
    pub closed spec fn dispatched(&self) -> Seq<int> {
        self.dispatched@
    }

    /// The hook to run next, if the pass is still going.
    pub open spec fn pending(&self) -> Option<usize> {
        if self.failure() is None && self.done() < self.total() {
            Some(self.done())
        } else {
            None
        }
    }

    /// A pass over `total` hooks that has run none yet.
    pub fn new(total: usize) -> (r: Self)
        ensures
            r.wf(),
            r.total() == total,
            r.done() == 0,
            r.failure() is None,
            r.dispatched() == Seq::<int>::empty(),
    {
        let r = BuildPass { total, done: 0, failure: None, dispatched: Ghost(Seq::empty()) };
        assert(r.dispatched@ =~= in_order(0));
        r
    }

    /// The index of the hook to run next: the first one not yet run, unless
    /// a hook has failed or every hook has run.
    pub fn next_hook(&self) -> (r: Option<usize>)
        requires
            self.wf(),
        ensures
            r == self.pending(),
    {
        if self.failure.is_none() && self.done < self.total {
            Some(self.done)
        } else {
            None
        }
    }

    /// Records what the hook handed out last returned.
    pub fn record(&mut self, outcome: Result<(), RsServiceError>)
        requires
            old(self).wf(),
            old(self).pending() is Some,
        ensures
            final(self).wf(),
            final(self).total() == old(self).total(),
            final(self).dispatched() == old(self).dispatched().push(old(self).done() as int),
            match outcome {
                Ok(()) => final(self).done() == old(self).done() + 1 && final(self).failure() is None,
                Err(e) => final(self).done() == old(self).done() && final(self).failure() == Some(
                    (old(self).done(), e),
                ),
            },
    {
        let ghost before = self.dispatched@;
        self.dispatched = Ghost(before.push(self.done as int));
        assert(self.dispatched@ =~= in_order(before.len() + 1int));
        match outcome {
            Ok(()) => {
                self.done = self.done + 1;
            },
            Err(e) => {
                self.failure = Some((self.done, e));
            },
        }
    }

    /// How the pass ended: `Ok` when every hook returned `Ok`, else the
    /// failing hook's index and error.
    pub fn finish(self) -> (r: Result<(), (usize, RsServiceError)>)
        requires
            self.wf(),
            self.pending() is None,
        ensures
            match self.failure() {
                None => r is Ok && self.done() == self.total() && self.dispatched() == in_order(
                    self.total() as int,
                ),
                Some(f) => r == Err::<(), (usize, RsServiceError)>(f) && f.0 < self.total(),
            },
    {
        match self.failure {
            None => Ok(()),
            Some(f) => Err(f),
        }
    }
}

/// A pass over a context in which no hook failed and none is left has run
/// every built hook exactly once, in registration order: building succeeds.
pub proof fn law_pass_without_failure_runs_every_hook(pass: BuildPass)
    requires
        pass.wf(),
        pass.failure() is None,
        pass.pending() is None,
    ensures
        pass.done() == pass.total(),
        pass.dispatched() == in_order(pass.total() as int),
{
}

/// The built hooks handed out by a pass over `entries` belong to the
/// services in registration order: the `j`-th hook run is that of the
/// `j`-th registered service, and a pass that ends without failure has run
/// them all.
pub proof fn law_built_hooks_follow_registration_order<S>(
    pass: BuildPass,
    entries: Seq<ServiceEntry<S>>,
)
    requires
        pass.wf(),
        pass.total() == entries.len(),
    ensures
        pass.dispatched().len() <= entries.len(),
        pass.dispatched().map_values(|j: int| entries[j].key) == keys_of(entries).take(
            pass.dispatched().len() as int,
        ),
        pass.failure() is None && pass.pending() is None ==> pass.dispatched().map_values(
            |j: int| entries[j].key,
        ) == keys_of(entries),
{
    let n = pass.dispatched().len() as int;
    assert(pass.dispatched().map_values(|j: int| entries[j].key) =~= keys_of(entries).take(n));
    if pass.failure() is None && pass.pending() is None {
        assert(keys_of(entries).take(n) =~= keys_of(entries));
    }
}

} // verus!
