use vstd::prelude::*;
use vstd::rwlock::{RwLock, RwLockPredicate};
use std::sync::Arc;

verus! {

/// The lock predicate of a service cell: every value of the service set may be stored.
pub struct AnyService;

impl<S> RwLockPredicate<S> for AnyService {
    open spec fn inv(self, v: S) -> bool {
        true
    }
}

/// A shared, internally locked owner of one service instance.
pub type ServiceHandle<S> = Arc<RwLock<S, AnyService>>;

/// Wraps a freshly created service in its shared cell.
pub fn new_handle<S>(service: S) -> ServiceHandle<S> {
    Arc::new(RwLock::new(service, Ghost(AnyService)))
}

/// Another handle to each of `handles`' services.
pub fn share_all<S>(handles: &Vec<ServiceHandle<S>>) -> (r: Vec<ServiceHandle<S>>)
    ensures
        r@ == handles@,
{
    let mut r: Vec<ServiceHandle<S>> = Vec::new();
    let mut i: usize = 0;
    while i < handles.len()
        invariant
            i <= handles@.len(),
            r@ == handles@.take(i as int),
        decreases handles@.len() - i,
    {
        r.push(handles[i].clone());
        assert(handles@.take(i as int + 1) =~= handles@.take(i as int).push(handles@[i as int]));
        i += 1;
    }
    assert(handles@.take(i as int) =~= handles@);
    r
}

/// One registered service: its type's key, display name and capability
/// bits, and its handle.
pub struct ServiceEntry<S> {
    pub key: u64,
    pub name: String,
    pub capabilities: u64,
    pub handle: ServiceHandle<S>,
}

/// The keys of `entries`, in registration order.
pub open spec fn keys_of<S>(entries: Seq<ServiceEntry<S>>) -> Seq<u64> {
    entries.map_values(|e: ServiceEntry<S>| e.key)
}

/// No two entries share a key.
pub open spec fn distinct_keys<S>(entries: Seq<ServiceEntry<S>>) -> bool {
    forall|i: int, j: int|
        0 <= i < j < entries.len() ==> #[trigger] entries[i].key != #[trigger] entries[j].key
}

/// Some entry has `key`.
pub open spec fn holds_key<S>(entries: Seq<ServiceEntry<S>>, key: u64) -> bool {
    keys_of(entries).contains(key)
}

/// The position of the entry with `key`, or `None` when there is none.
pub fn find_key<S>(entries: &Vec<ServiceEntry<S>>, key: u64) -> (r: Option<usize>)
    ensures
        match r {
            Some(i) => i < entries@.len() && entries@[i as int].key == key && holds_key(
                entries@,
                key,
            ),
            None => !holds_key(entries@, key),
        },
{
    let mut i: usize = 0;
    while i < entries.len()
        invariant
            i <= entries@.len(),
            forall|j: int| 0 <= j < i ==> entries@[j].key != key,
        decreases entries@.len() - i,
    {
        if entries[i].key == key {
            assert(keys_of(entries@)[i as int] == key);
            return Some(i);
        }
        i += 1;
    }
    proof {
        if keys_of(entries@).contains(key) {
            let j = choose|j: int| 0 <= j < keys_of(entries@).len() && keys_of(entries@)[j] == key;
            assert(entries@[j].key == key);
        }
    }
    None
}

} // verus!
