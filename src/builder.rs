use vstd::prelude::*;
use crate::build_pass::BuildPass;
use crate::common::{ContainerError, HookPhase, RsServiceError};
use crate::context::{handle_of, RSContext};
use crate::registry::{
    distinct_keys, find_key, holds_key, keys_of, new_handle, ServiceEntry, ServiceHandle,
};
use crate::service::{BuiltHook, RSContextService, ServiceSet, ServiceType};

verus! {

/// The keys a builder holding `keys` holds after registering `key`, when the
/// registration is accepted; `None` when it is refused: the key is already
/// there, or the creation hook failed.
pub open spec fn registration(keys: Seq<u64>, key: u64, creation_ok: bool) -> Option<Seq<u64>> {
    if keys.contains(key) || !creation_ok {
        None
    } else {
        Some(keys.push(key))
    }
}

/// `after` is `before` with one entry for the type `key`, named `label`, at its end.
pub open spec fn appended<S>(
    before: Seq<ServiceEntry<S>>,
    after: Seq<ServiceEntry<S>>,
    key: u64,
    label: Seq<char>,
) -> bool {
    &&& after.len() == before.len() + 1
    &&& after.drop_last() == before
    &&& after.last().key == key
    &&& after.last().name@ == label
}

/// The mutable, single-owner accumulator of registrations.
pub struct RSContextBuilder<S: ServiceSet> {
    entries: Vec<ServiceEntry<S>>,
    category: Option<S::Category>,
}

/// A refused registration: what went wrong, and the builder as it was before
/// the attempt, with every earlier registration still pending.
pub struct Rejected<S: ServiceSet> {
    pub builder: RSContextBuilder<S>,
    pub error: ContainerError,
}

impl<S: ServiceSet> RSContextBuilder<S> {
    /// No type is registered twice.
    pub closed spec fn wf(&self) -> bool {
        distinct_keys(self.entries@)
    }

    /// The pending services, in registration order.
    pub closed spec fn entries(&self) -> Seq<ServiceEntry<S>> {
        self.entries@
    }

    pub closed spec fn spec_category(&self) -> Option<S::Category> {
        self.category
    }

    /// An empty builder: no pending services, no category.
    pub fn new() -> (r: Self)
        ensures
            r.wf(),
            r.entries() == Seq::<ServiceEntry<S>>::empty(),
            r.spec_category() is None,
    {
        RSContextBuilder { entries: Vec::new(), category: None }
    }

    /// Replaces the category tag; the last one set wins.
    pub fn set_category(self, category: S::Category) -> (r: Self)
        requires
            self.wf(),
        ensures
            r.wf(),
            r.entries() == self.entries(),
            r.spec_category() == Some(category),
    {
        RSContextBuilder { entries: self.entries, category: Some(category) }
    }

    /// Whether `T` is registered so far.
    pub fn is_registered<T: ServiceType<S>>(&self) -> (r: bool)
        ensures
            r == holds_key(self.entries(), T::KEY),
    {
        find_key(&self.entries, T::KEY).is_some()
    }

    /// A shared handle to the instance of `T`, if `T` is registered so far.
    pub fn call<T: ServiceType<S>>(&self) -> (r: Option<ServiceHandle<S>>)
        requires
            self.wf(),
        ensures
            r == handle_of(self.entries(), T::KEY),
    {
        let key = T::KEY;
        match find_key(&self.entries, key) {
            Some(i) => {
                proof {
                    let ks = keys_of(self.entries@);
                    assert(ks[i as int] == key);
                    let j = ks.index_of(key);
                    assert(self.entries@[j].key == self.entries@[i as int].key);
                }
                Some(self.entries[i].handle.clone())
            },
            None => None,
        }
    }

    /// Refuses `T` as a duplicate when it is registered already; hands the
    /// builder back unchanged otherwise.
    pub fn ensure_unregistered<T: ServiceType<S>>(self) -> (r: Result<Self, Rejected<S>>)
        requires
            self.wf(),
        ensures
            !holds_key(self.entries(), T::KEY) <==> r is Ok,
            match r {
                Ok(b) => b.wf() && b.entries() == self.entries() && b.spec_category()
                    == self.spec_category(),
                Err(rej) => {
                    &&& rej.builder.wf()
                    &&& rej.builder.entries() == self.entries()
                    &&& rej.builder.spec_category() == self.spec_category()
                    &&& rej.error.is_duplicate_of(T::KEY, T::NAME@)
                },
            },
    {
        if find_key(&self.entries, T::KEY).is_some() {
            let error = ContainerError::DuplicateRegistration { key: T::KEY, name: T::NAME.to_string() };
            Err(Rejected { builder: self, error })
        } else {
            Ok(self)
        }
    }

    /// Ends the registration of `instance` of `T` whose creation hook
    /// returned `outcome`: it is stored, with its built hook due after every
    /// earlier one, when `T` is not registered yet and the hook succeeded.
    pub fn settle_registration<T: ServiceType<S>>(
        self,
        instance: T,
        outcome: Result<(), RsServiceError>,
    ) -> (r: Result<Self, Rejected<S>>)
        requires
            self.wf(),
        ensures
            registration(keys_of(self.entries()), T::KEY, outcome is Ok) is Some <==> r is Ok,
            match r {
                Ok(b) => {
                    &&& b.wf()
                    &&& appended(self.entries(), b.entries(), T::KEY, T::NAME@)
                    &&& Some(keys_of(b.entries())) == registration(
                        keys_of(self.entries()),
                        T::KEY,
                        true,
                    )
                    &&& b.spec_category() == self.spec_category()
                },
                Err(rej) => {
                    &&& rej.builder.wf()
                    &&& rej.builder.entries() == self.entries()
                    &&& rej.builder.spec_category() == self.spec_category()
                    &&& if holds_key(self.entries(), T::KEY) {
                        rej.error.is_duplicate_of(T::KEY, T::NAME@)
                    } else {
                        &&& rej.error.is_hook_failure_of(
                            HookPhase::Creation,
                            T::KEY,
                            T::NAME@,
                        )
                        &&& outcome matches Err(e) && rej.error matches ContainerError::HookFailure {
                            cause: c,
                            ..
                        } && c == e
                    }
                },
            },
    {
        let key = T::KEY;
        if find_key(&self.entries, key).is_some() {
            let error = ContainerError::DuplicateRegistration { key, name: T::NAME.to_string() };
            return Err(Rejected { builder: self, error });
        }
        match outcome {
            Err(cause) => {
                let error = ContainerError::HookFailure {
                    phase: HookPhase::Creation,
                    key,
                    name: T::NAME.to_string(),
                    cause,
                };
                Err(Rejected { builder: self, error })
            },
            Ok(()) => {
                let RSContextBuilder { mut entries, category } = self;
                let ghost before = entries@;
                let handle = new_handle(instance.into_service());
                entries.push(
                    ServiceEntry {
                        key,
                        name: T::NAME.to_string(),
                        capabilities: T::CAPABILITIES,
                        handle,
                    },
                );
                proof {
                    assert(entries@.drop_last() =~= before);
                    assert(keys_of(entries@) =~= keys_of(before).push(key));
                    assert forall|i: int, j: int|
                        0 <= i < j < entries@.len() implies #[trigger] entries@[i].key
                        != #[trigger] entries@[j].key by {
                        if j == entries@.len() - 1 {
                            assert(keys_of(before)[i] == entries@[i].key);
                        }
                    }
                }
                Ok(RSContextBuilder { entries, category })
            },
        }
    }

    /// Registers the service type `T`: makes an instance, runs its creation
    /// hook against the builder as it stands, and on success stores it with
    /// its built hook due after every earlier one. A type already registered
    /// is refused before any instance is made.
    pub fn register<T: RSContextService<S>>(self) -> (r: Result<Self, Rejected<S>>)
        requires
            self.wf(),
        ensures
            match r {
                Ok(b) => {
                    &&& !holds_key(self.entries(), T::KEY)
                    &&& b.wf()
                    &&& appended(self.entries(), b.entries(), T::KEY, T::NAME@)
                    &&& Some(keys_of(b.entries())) == registration(
                        keys_of(self.entries()),
                        T::KEY,
                        true,
                    )
                    &&& b.spec_category() == self.spec_category()
                },
                Err(rej) => {
                    &&& rej.builder.wf()
                    &&& rej.builder.entries() == self.entries()
                    &&& rej.builder.spec_category() == self.spec_category()
                    &&& if holds_key(self.entries(), T::KEY) {
                        rej.error.is_duplicate_of(T::KEY, T::NAME@)
                    } else {
                        rej.error.is_hook_failure_of(
                            HookPhase::Creation,
                            T::KEY,
                            T::NAME@,
                        )
                    }
                },
            },
    {
        let builder = match self.ensure_unregistered::<T>() {
            Ok(b) => b,
            Err(rej) => return Err(rej),
        };
        let mut instance = T::on_register_crate_instance();
        let outcome = instance.on_service_created(&builder);
        builder.settle_registration(instance, outcome)
    }

    /// Closes registration: the pending services, in registration order,
    /// become a context made at `created_at`, with no built hook run yet.
    pub fn freeze(self, created_at: u64) -> (r: RSContext<S>)
        requires
            self.wf(),
        ensures
            r.wf(),
            r.entries() == self.entries(),
            r.spec_category() == self.spec_category(),
            r.spec_created_at() == created_at,
    {
        RSContext::freeze(self.entries, self.category, created_at)
    }
}

impl<S: BuiltHook> RSContextBuilder<S> {
    /// Freezes the pending services into a context made at `created_at`,
    /// then runs every built hook against it in registration order. The
    /// first failing hook ends the pass, and no context is handed out.
    pub fn build(self, created_at: u64) -> (r: Result<RSContext<S>, ContainerError>)
        requires
            self.wf(),
        ensures
            match r {
                Ok(c) => {
                    &&& c.wf()
                    &&& c.entries() == self.entries()
                    &&& c.spec_category() == self.spec_category()
                    &&& c.spec_created_at() == created_at
                },
                Err(e) => exists|i: int|
                    0 <= i < self.entries().len() && e.is_hook_failure_of(
                        HookPhase::Built,
                        #[trigger] self.entries()[i].key,
                        self.entries()[i].name@,
                    ),
            },
    {
        let ghost entries = self.entries();
        let context = self.freeze(created_at);
        let total = context.service_count();
        let mut pass = BuildPass::new(total);
        let mut next = pass.next_hook();

        while next.is_some()
            invariant
                pass.wf(),
                pass.total() == total,
                total == entries.len(),
                context.wf(),
                context.entries() == entries,
                context.spec_category() == self.spec_category(),
                context.spec_created_at() == created_at,
                next == pass.pending(),
            decreases pass.total() - pass.done() + if pass.failure() is None {
                1int
            } else {
                0int
            },
        {
            let index = next.unwrap();
            let outcome = context.run_built_hook(index);
            pass.record(outcome);
            next = pass.next_hook();
        }
        match pass.finish() {
            Ok(()) => Ok(context),
            Err((index, cause)) => Err(context.built_hook_failure(index, cause)),
        }
    }
}

} // verus!
