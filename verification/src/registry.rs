//! Key registry backed by `slab::Slab`: it hands out the keys under which
//! game instances and popups are filed, reusing freed keys first.
use vstd::prelude::*;
use slab::Slab;

verus! {

/// Upper bound on the number of live keys under which an insertion is
/// known not to exhaust the slab's storage.
pub const REGISTRY_LIMIT: usize = 0x400_0000;

#[verifier::external_type_specification]
#[verifier::external_body]
#[verifier::reject_recursive_types(T)]
pub struct ExSlab<T>(Slab<T>);

/// The keys that are occupied in a slab of unit values.
pub uninterp spec fn slab_keys(s: Slab<()>) -> Set<usize>;

/// The key that the slab's next insertion will use (its `next` field).
pub uninterp spec fn slab_next_key(s: Slab<()>) -> usize;

/// The number of slots the slab has handed out so far, occupied or freed
/// (the length of its `entries`).
pub uninterp spec fn slab_slot_count(s: Slab<()>) -> usize;

/// `Slab::new`: an empty slab with no slots, whose next insertion uses key 0
/// (`next` starts at 0).
#[verifier::external_body]
pub(crate) fn registry_new() -> (s: Slab<()>)
    ensures
        slab_keys(s) == Set::<usize>::empty(),
        slab_next_key(s) == 0,
        slab_slot_count(s) == 0,
{
    Slab::new()
}

/// `Slab::vacant_key`: the key of the next insertion, which is never occupied.
#[verifier::external_body]
pub(crate) fn registry_vacant_key(s: &Slab<()>) -> (k: usize)
    ensures
        k == slab_next_key(*s),
        !slab_keys(*s).contains(k),
{
    s.vacant_key()
}

/// `Slab::insert`: files the value under the vacant key and returns that key.
/// Afterwards `next` again heads the free list or equals the entry count, so
/// the new vacant key is not occupied. When the vacant key is a fresh slot
/// (it equals the entry count), a slot is appended and the next key is the
/// one after it (`insert_at`); otherwise a freed slot is reused, the slot
/// count stays, and the next key is the free list's successor, which is left
/// unsaid.
/// The slab only grows its storage when every slot is occupied, so below
/// `REGISTRY_LIMIT` live keys the growth cannot overflow.
#[verifier::external_body]
pub(crate) fn registry_insert(s: &mut Slab<()>) -> (k: usize)
    requires
        slab_keys(*old(s)).finite(),
        slab_keys(*old(s)).len() < REGISTRY_LIMIT,
    ensures
        k == slab_next_key(*old(s)),
        !slab_keys(*old(s)).contains(k),
        slab_keys(*final(s)) == slab_keys(*old(s)).insert(k),
        !slab_keys(*final(s)).contains(slab_next_key(*final(s))),
        slab_next_key(*old(s)) == slab_slot_count(*old(s)) ==> {
            &&& slab_slot_count(*final(s)) == slab_slot_count(*old(s)) + 1
            &&& slab_next_key(*final(s)) == slab_next_key(*old(s)) + 1
        },
        slab_next_key(*old(s)) != slab_slot_count(*old(s)) ==> slab_slot_count(*final(s))
            == slab_slot_count(*old(s)),
{
    s.insert(())
}

/// `Slab::remove`: frees an occupied key; the freed key becomes the next
/// vacant key (`next = key` in `try_remove`) and the slot count stays.
/// Panics on a vacant key, which the precondition rules out.
#[verifier::external_body]
pub(crate) fn registry_remove(s: &mut Slab<()>, k: usize)
    requires
        slab_keys(*old(s)).contains(k),
    ensures
        slab_keys(*final(s)) == slab_keys(*old(s)).remove(k),
        slab_next_key(*final(s)) == k,
        slab_slot_count(*final(s)) == slab_slot_count(*old(s)),
{
    s.remove(k);
}

/// `Slab::contains`: whether the key is occupied.
#[verifier::external_body]
pub(crate) fn registry_contains(s: &Slab<()>, k: usize) -> (b: bool)
    ensures
        b == slab_keys(*s).contains(k),
{
    s.contains(k)
}

/// `Slab::len`: the number of occupied keys.
#[verifier::external_body]
pub(crate) fn registry_len(s: &Slab<()>) -> (n: usize)
    ensures
        slab_keys(*s).finite() ==> n == slab_keys(*s).len(),
{
    s.len()
}

} // verus!
