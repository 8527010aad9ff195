use vstd::prelude::*;

use crate::slots::{
    age_key, cleared, default_name, lemma_keys_wf, name_key, read_age, read_name, record_present,
    slots_wf, stored, with_age, with_name, Slots,
};

verus! {

/// Existence round-trip: whatever the storage held before, after
/// `store_user(name, age)` the record exists, `fetch_user` reads back
/// exactly `(name, age)`, and the slots are well-typed.
pub proof fn lemma_store_roundtrip(m: Slots, name: Seq<char>, age: u32)
    ensures
        record_present(stored(m, name, age)),
        read_name(stored(m, name, age)) == name,
        read_age(stored(m, name, age)) == age,
        slots_wf(stored(m, name, age)),
{
    lemma_keys_wf();
}

/// Deletion clears state: after `delete_user` the record does not
/// exist, `fetch_user` reads back `("Unknown", 0)`, and the slots are
/// well-typed.
pub proof fn lemma_delete_clears(m: Slots)
    ensures
        !record_present(cleared(m)),
        read_name(cleared(m)) == default_name(),
        read_age(cleared(m)) == 0u32,
        slots_wf(cleared(m)),
{
    lemma_keys_wf();
}

/// Idempotent delete: deleting twice leaves the same storage as
/// deleting once, and deleting when neither slot is present leaves the
/// storage exactly as it was.
pub proof fn lemma_delete_idempotent(m: Slots)
    ensures
        cleared(cleared(m)) == cleared(m),
        !m.dom().contains(name_key()) && !m.dom().contains(age_key()) ==> cleared(m) == m,
{
    lemma_keys_wf();
    assert(cleared(cleared(m)) =~= cleared(m));
    if !m.dom().contains(name_key()) && !m.dom().contains(age_key()) {
        assert(cleared(m) =~= m);
    }
}

/// Partial-update independence: after `store_user(name, age)`,
/// `update_name(new_name)` leaves `fetch_user` reading
/// `(new_name, age)`, and a further `update_age(new_age)` leaves it
/// reading `(new_name, new_age)`.
pub proof fn lemma_partial_update_independence(
    m: Slots,
    name: Seq<char>,
    age: u32,
    new_name: Seq<char>,
    new_age: u32,
)
    ensures
        read_name(with_name(stored(m, name, age), new_name)) == new_name,
        read_age(with_name(stored(m, name, age), new_name)) == age,
        record_present(with_name(stored(m, name, age), new_name)),
        slots_wf(with_name(stored(m, name, age), new_name)),
        read_name(with_age(with_name(stored(m, name, age), new_name), new_age)) == new_name,
        read_age(with_age(with_name(stored(m, name, age), new_name), new_age)) == new_age,
        record_present(with_age(with_name(stored(m, name, age), new_name), new_age)),
        slots_wf(with_age(with_name(stored(m, name, age), new_name), new_age)),
{
    lemma_keys_wf();
}

/// Partial-state non-existence: updating only the name on storage where
/// neither slot is present leaves the record non-existent, while
/// `fetch_user` reads `(name, 0)`.
pub proof fn lemma_partial_state(m: Slots, name: Seq<char>)
    requires
        !m.dom().contains(name_key()),
        !m.dom().contains(age_key()),
    ensures
        !record_present(with_name(m, name)),
        read_name(with_name(m, name)) == name,
        read_age(with_name(m, name)) == 0u32,
        slots_wf(with_name(m, name)),
{
    lemma_keys_wf();
}

/// Overwrite semantics: a second `store_user` leaves storage exactly as
/// if only the second store had happened; nothing of the first record
/// survives, and `fetch_user` reads back the second record.
pub proof fn lemma_overwrite(m: Slots, n1: Seq<char>, a1: u32, n2: Seq<char>, a2: u32)
    ensures
        stored(stored(m, n1, a1), n2, a2) == stored(m, n2, a2),
        read_name(stored(stored(m, n1, a1), n2, a2)) == n2,
        read_age(stored(stored(m, n1, a1), n2, a2)) == a2,
{
    lemma_keys_wf();
    assert(stored(stored(m, n1, a1), n2, a2) =~= stored(m, n2, a2));
    lemma_store_roundtrip(stored(m, n1, a1), n2, a2);
}

} // verus!
