use vstd::prelude::*;
use crate::builder::registration;
use crate::context::handle_of;
use crate::registry::{distinct_keys, holds_key, keys_of, ServiceEntry};

verus! {

/// The keys a builder holding `keys` ends with after registering the types
/// `types` one after another, the creation hook of `types[i]` reporting
/// `creation_ok[i]`; `None` once one registration is refused, since a refusal
/// ends the chain.
pub open spec fn register_chain(keys: Seq<u64>, types: Seq<u64>, creation_ok: Seq<bool>) -> Option<
    Seq<u64>,
>
    decreases types.len(),
{
    if types.len() == 0 || creation_ok.len() != types.len() {
        if creation_ok.len() == types.len() {
            Some(keys)
        } else {
            None
        }
    } else {
        match register_chain(keys, types.drop_last(), creation_ok.drop_last()) {
            Some(before) => registration(before, types.last(), creation_ok.last()),
            None => None,
        }
    }
}

/// No type occurs twice in `types`.
pub open spec fn pairwise_distinct(types: Seq<u64>) -> bool {
    forall|i: int, j: int| 0 <= i < j < types.len() ==> types[i] != types[j]
}

/// Registering pairwise-distinct types one after another, each creation hook
/// succeeding, is never refused: the builder ends with exactly those types,
/// in that order, so a type is registered if and only if it is among them.
pub proof fn law_distinct_registrations_are_admitted(types: Seq<u64>)
    requires
        pairwise_distinct(types),
    ensures
        register_chain(Seq::empty(), types, Seq::new(types.len(), |i: int| true)) == Some(types),
    decreases types.len(),
{
    let oks = Seq::new(types.len(), |i: int| true);
    if types.len() > 0 {
        let front = types.drop_last();
        assert(oks.drop_last() =~= Seq::new(front.len(), |i: int| true));
        law_distinct_registrations_are_admitted(front);
        if front.contains(types.last()) {
            let j = choose|j: int| 0 <= j < front.len() && front[j] == types.last();
            assert(types[j] == types[types.len() - 1]);
        }
        assert(front.push(types.last()) =~= types);
    } else {
        assert(types =~= Seq::<u64>::empty());
    }
}

/// Once a type is registered, registering it again is refused as a
/// duplicate whatever its creation hook would report, and the first
/// registration stays as it was.
pub proof fn law_second_registration_is_refused(keys: Seq<u64>, key: u64, creation_ok: bool)
    requires
        !keys.contains(key),
    ensures
        registration(keys, key, true) == Some(keys.push(key)),
        keys.push(key).contains(key),
        registration(keys.push(key), key, creation_ok) is None,
{
    assert(keys.push(key)[keys.len() as int] == key);
}

/// A refused creation hook keeps its type out of the builder, so its built
/// hook is never due, and the chain it belongs to never reaches a build.
pub proof fn law_failed_creation_ends_the_chain(
    keys: Seq<u64>,
    types: Seq<u64>,
    creation_ok: Seq<bool>,
    failed: int,
)
    requires
        creation_ok.len() == types.len(),
        0 <= failed < types.len(),
        !creation_ok[failed],
    ensures
        registration(keys, types[failed], false) is None,
        register_chain(keys, types, creation_ok) is None,
    decreases types.len(),
{
    if failed < types.len() - 1 {
        law_failed_creation_ends_the_chain(
            keys,
            types.drop_last(),
            creation_ok.drop_last(),
            failed,
        );
    }
}

/// Every registered service can be reached from the finished context,
/// whether it was registered before or after the one asking.
pub proof fn law_every_registered_service_is_reachable<S>(entries: Seq<ServiceEntry<S>>, i: int)
    requires
        distinct_keys(entries),
        0 <= i < entries.len(),
    ensures
        holds_key(entries, entries[i].key),
        handle_of(entries, entries[i].key) == Some(entries[i].handle),
{
    let ks = keys_of(entries);
    assert(ks[i] == entries[i].key);
    let j = ks.index_of(entries[i].key);
    assert(entries[j].key == entries[i].key);
}

} // verus!
