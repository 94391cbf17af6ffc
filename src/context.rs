use vstd::prelude::*;
use crate::registry::{
    distinct_keys, find_key, holds_key, keys_of, share_all, ServiceEntry, ServiceHandle,
};
use crate::common::{ContainerError, HookPhase, RsServiceError};
use crate::service::{BuiltHook, ServiceSet, ServiceType};

verus! {

/// The handles of the entries whose service type offers a capability among
/// the bits of `capability`, in registration order.
pub open spec fn capable<S: ServiceSet>(entries: Seq<ServiceEntry<S>>, capability: u64) -> Seq<
    ServiceHandle<S>,
>
    decreases entries.len(),
{
    if entries.len() == 0 {
        seq![]
    } else {
        let before = capable(entries.drop_last(), capability);
        if entries.last().capabilities & capability != 0 {
            before.push(entries.last().handle)
        } else {
            before
        }
    }
}

/// The handle stored under `key`, if any.
pub open spec fn handle_of<S>(entries: Seq<ServiceEntry<S>>, key: u64) -> Option<ServiceHandle<S>> {
    if holds_key(entries, key) {
        Some(entries[keys_of(entries).index_of(key)].handle)
    } else {
        None
    }
}

/// Each entry's name and key, in registration order.
pub open spec fn listing_matches<S>(
    listing: Seq<(String, u64)>,
    entries: Seq<ServiceEntry<S>>,
) -> bool {
    &&& listing.len() == entries.len()
    &&& forall|i: int|
        0 <= i < entries.len() ==> (#[trigger] listing[i]).0@ == entries[i].name@ && listing[i].1
            == entries[i].key
}

/// What a context tells about itself: each registered type's name and key,
/// in registration order, and when the context was made.
pub struct Metadata {
    pub registered_services: Vec<(String, u64)>,
    pub created_at: u64,
}

/// The finished container: an immutable set of services, each shared behind
/// its own lock, with an optional category tag.
pub struct RSContext<S: ServiceSet> {
    entries: Vec<ServiceEntry<S>>,
    category: Option<S::Category>,
    created_at: u64,
    capability_cache: Vec<(u64, Vec<ServiceHandle<S>>)>,
}

impl<S: ServiceSet> RSContext<S> {
    /// Keys are distinct and every kept capability answer is current.
    pub closed spec fn wf(&self) -> bool {
        &&& distinct_keys(self.entries@)
        &&& forall|i: int|
            0 <= i < self.capability_cache@.len() ==> (#[trigger] self.capability_cache@[i]).1@
                == capable(self.entries@, self.capability_cache@[i].0)
    }

    /// The registered services, in registration order.
    pub closed spec fn entries(&self) -> Seq<ServiceEntry<S>> {
        self.entries@
    }

    pub closed spec fn spec_category(&self) -> Option<S::Category> {
        self.category
    }

    pub closed spec fn spec_created_at(&self) -> u64 {
        self.created_at
    }

    /// Freezes registered entries into a context with no cached queries.
    pub(crate) fn freeze(
        entries: Vec<ServiceEntry<S>>,
        category: Option<S::Category>,
        created_at: u64,
    ) -> (r: Self)
        requires
            distinct_keys(entries@),
        ensures
            r.wf(),
            r.entries() == entries@,
            r.spec_category() == category,
            r.spec_created_at() == created_at,
    {
        RSContext { entries, category, created_at, capability_cache: Vec::new() }
    }

    /// The handle of the service stored under `key`; `None` when no
    /// registered type has that key.
    pub fn call_by_key(&self, key: u64) -> (r: Option<ServiceHandle<S>>)
        requires
            self.wf(),
        ensures
            r == handle_of(self.entries(), key),
    {
        match find_key(&self.entries, key) {
            Some(i) => {
                proof {
                    let ks = keys_of(self.entries@);
                    assert(ks[i as int] == key);
                    assert(ks.contains(key));
                    let j = ks.index_of(key);
                    assert(ks[j] == key);
                    assert(self.entries@[j].key == self.entries@[i as int].key);
                }
                Some(self.entries[i].handle.clone())
            },
            None => None,
        }
    }

    /// A shared handle to the instance of `T`; `None` when `T` was not registered.
    pub fn call<T: ServiceType<S>>(&self) -> (r: Option<ServiceHandle<S>>)
        requires
            self.wf(),
        ensures
            r == handle_of(self.entries(), T::KEY),
    {
        self.call_by_key(T::KEY)
    }

    /// Whether `T` was registered.
    pub fn is_registered<T: ServiceType<S>>(&self) -> (r: bool)
        ensures
            r == holds_key(self.entries(), T::KEY),
    {
        find_key(&self.entries, T::KEY).is_some()
    }
    /// The category tag that the builder carried, if any.
    pub fn category(&self) -> (r: Option<&S::Category>)
        ensures
            r == match self.spec_category() {
                Some(c) => Some(&c),
                None => None::<&S::Category>,
            },
    {
        self.category.as_ref()
    }

    /// The registered types' names and keys in registration order, and the
    /// creation time.
    pub fn metadata(&self) -> (r: Metadata)
        ensures
            listing_matches(r.registered_services@, self.entries()),
            r.created_at == self.spec_created_at(),
    {
        let mut listing: Vec<(String, u64)> = Vec::new();
        let mut i: usize = 0;
        while i < self.entries.len()
            invariant
                i <= self.entries@.len(),
                listing_matches(listing@, self.entries@.take(i as int)),
            decreases self.entries@.len() - i,
        {
            let entry = &self.entries[i];
            listing.push((entry.name.clone(), entry.key));
            i += 1;
        }
        assert(self.entries@.take(i as int) =~= self.entries@);
        Metadata { registered_services: listing, created_at: self.created_at }
    }

    /// The handles of every registered service whose type offers a
    /// capability among the bits of `capability`, in registration order. The answer is kept and handed out
    /// again on later calls with the same capability.
    pub fn call_services_by_trait(&mut self, capability: u64) -> (r: Vec<ServiceHandle<S>>)
        requires
            old(self).wf(),
        ensures
            r@ == capable(old(self).entries(), capability),
            final(self).wf(),
            final(self).entries() == old(self).entries(),
            final(self).spec_category() == old(self).spec_category(),
            final(self).spec_created_at() == old(self).spec_created_at(),
    {
        let mut c: usize = 0;
        while c < self.capability_cache.len()
            invariant
                c <= self.capability_cache@.len(),
                self.wf(),
            decreases self.capability_cache@.len() - c,
        {
            if self.capability_cache[c].0 == capability {
                return share_all(&self.capability_cache[c].1);
            }
            c += 1;
        }
        let mut found: Vec<ServiceHandle<S>> = Vec::new();
        let mut i: usize = 0;
        while i < self.entries.len()
            invariant
                self.wf(),
                i <= self.entries@.len(),
                found@ == capable(self.entries@.take(i as int), capability),
            decreases self.entries@.len() - i,
        {
            assert(self.entries@.take(i as int + 1).drop_last() =~= self.entries@.take(i as int));
            if self.entries[i].capabilities & capability != 0 {
                found.push(self.entries[i].handle.clone());
            }
            i += 1;
        }
        assert(self.entries@.take(i as int) =~= self.entries@);
        let kept = share_all(&found);
        self.capability_cache.push((capability, kept));
        found
    }

    /// The error for a failed built hook of the service at `index`.
    pub fn built_hook_failure(&self, index: usize, cause: RsServiceError) -> (r: ContainerError)
        requires
            index < self.entries().len(),
        ensures
            r.is_hook_failure_of(
                HookPhase::Built,
                self.entries()[index as int].key,
                self.entries()[index as int].name@,
            ),
            r matches ContainerError::HookFailure { cause: c, .. } && c == cause,
    {
        let entry = &self.entries[index];
        ContainerError::HookFailure {
            phase: HookPhase::Built,
            key: entry.key,
            name: entry.name.clone(),
            cause,
        }
    }

    /// How many services are registered.
    pub fn service_count(&self) -> (r: usize)
        ensures
            r == self.entries().len(),
    {
        self.entries.len()
    }

    /// The handle of the service registered at position `index`.
    pub fn handle_at(&self, index: usize) -> (r: ServiceHandle<S>)
        requires
            index < self.entries().len(),
        ensures
            r == self.entries()[index as int].handle,
    {
        self.entries[index].handle.clone()
    }
}

impl<S: ServiceSet> Default for RSContext<S> {
    /// An empty context: no services, no category, made at time zero.
    fn default() -> (r: Self)
        ensures
            r.wf(),
            r.entries() == Seq::<ServiceEntry<S>>::empty(),
            r.spec_category() is None,
            r.spec_created_at() == 0,
    {
        RSContext::freeze(Vec::new(), None, 0)
    }
}

impl<S: BuiltHook> RSContext<S> {
    /// Runs the built hook of the service at `index` against this context,
    /// holding the service's read lock meanwhile.
    pub fn run_built_hook(&self, index: usize) -> (r: Result<(), RsServiceError>)
        requires
            index < self.entries().len(),
    {
        let read = self.entries[index].handle.acquire_read();
        let outcome = read.borrow().on_all_services_built(self);
        read.release_read();
        outcome
    }
}

} // verus!
