use vstd::prelude::*;

verus! {

/// A value held in one instance-storage slot: either text (the user's
/// name) or an unsigned 32-bit number (the user's age).
pub enum SlotVal {
    Text(Seq<char>),
    Num(u32),
}

/// The mathematical contents of the contract instance's storage: a map
/// from slot key to stored value.
pub type Slots = Map<Seq<char>, SlotVal>;

/// The key under which the user's name is stored.
pub open spec fn name_key() -> Seq<char> {
    "name"@
}

/// The key under which the user's age is stored.
pub open spec fn age_key() -> Seq<char> {
    "age"@
}

/// The placeholder text a read of an absent name slot returns.
pub open spec fn default_name() -> Seq<char> {
    "Unknown"@
}

/// Each of the two slots, when present, holds a value of the type the
/// contract stores there: text under the name key, a number under the
/// age key.
pub open spec fn slots_wf(m: Slots) -> bool {
    &&& m.dom().contains(name_key()) ==> m[name_key()] is Text
    &&& m.dom().contains(age_key()) ==> m[age_key()] is Num
}

/// The text in the name slot, if the slot is present and holds text.
pub open spec fn name_slot(m: Slots) -> Option<Seq<char>> {
    if m.dom().contains(name_key()) {
        match m[name_key()] {
            SlotVal::Text(s) => Some(s),
            SlotVal::Num(_) => None,
        }
    } else {
        None
    }
}

/// The number in the age slot, if the slot is present and holds a number.
pub open spec fn age_slot(m: Slots) -> Option<u32> {
    if m.dom().contains(age_key()) {
        match m[age_key()] {
            SlotVal::Num(a) => Some(a),
            SlotVal::Text(_) => None,
        }
    } else {
        None
    }
}

/// The record exists exactly when both slots are present.
pub open spec fn record_present(m: Slots) -> bool {
    m.dom().contains(name_key()) && m.dom().contains(age_key())
}

/// What a read of the name returns: the stored text, or "Unknown" when
/// the slot is absent.
pub open spec fn read_name(m: Slots) -> Seq<char> {
    match name_slot(m) {
        Some(s) => s,
        None => default_name(),
    }
}

/// What a read of the age returns: the stored number, or 0 when the
/// slot is absent.
pub open spec fn read_age(m: Slots) -> u32 {
    match age_slot(m) {
        Some(a) => a,
        None => 0,
    }
}

/// Slot contents after storing a whole record: both slots overwritten.
pub open spec fn stored(m: Slots, name: Seq<char>, age: u32) -> Slots {
    m.insert(name_key(), SlotVal::Text(name)).insert(age_key(), SlotVal::Num(age))
}

/// Slot contents after updating only the name.
pub open spec fn with_name(m: Slots, name: Seq<char>) -> Slots {
    m.insert(name_key(), SlotVal::Text(name))
}

/// Slot contents after updating only the age.
pub open spec fn with_age(m: Slots, age: u32) -> Slots {
    m.insert(age_key(), SlotVal::Num(age))
}

/// Slot contents after deleting the record: both slots removed.
pub open spec fn cleared(m: Slots) -> Slots {
    m.remove(name_key()).remove(age_key())
}

/// A character soroban_sdk::Symbol accepts.
pub open spec fn is_symbol_char(c: char) -> bool {
    ||| c == '_'
    ||| 'a' <= c && c <= 'z'
    ||| 'A' <= c && c <= 'Z'
    ||| '0' <= c && c <= '9'
}

/// A key soroban_sdk::Symbol accepts: at most 32 characters, each from
/// the symbol alphabet.
pub open spec fn is_symbol_name(s: Seq<char>) -> bool {
    s.len() <= 32 && (forall|i: int| 0 <= i < s.len() ==> is_symbol_char(#[trigger] s[i]))
}

/// The two fixed keys are valid symbol names and distinct from each other.
pub proof fn lemma_keys_wf()
    ensures
        is_symbol_name(name_key()),
        is_symbol_name(age_key()),
        name_key() != age_key(),
{
    reveal_strlit("name");
    reveal_strlit("age");
    assert(name_key().len() == 4);
    assert(age_key().len() == 3);
    assert forall|i: int| 0 <= i < name_key().len() implies is_symbol_char(
        #[trigger] name_key()[i],
    ) by {
        assert(name_key()[0] == 'n');
        assert(name_key()[1] == 'a');
        assert(name_key()[2] == 'm');
        assert(name_key()[3] == 'e');
    }
    assert forall|i: int| 0 <= i < age_key().len() implies is_symbol_char(
        #[trigger] age_key()[i],
    ) by {
        assert(age_key()[0] == 'a');
        assert(age_key()[1] == 'g');
        assert(age_key()[2] == 'e');
    }
}

} // verus!
