use vstd::prelude::*;

use crate::slots::{
    cleared, lemma_keys_wf, read_age, read_name, record_present, slots_wf, stored, with_age,
    with_name,
};
use crate::store::{kv_get_num, kv_get_text, kv_has, kv_remove, kv_set_num, kv_set_text, slots_of};

verus! {

/// The user-record contract: one (name, age) record per instance, kept
/// in two fixed instance-storage slots.
pub struct UserContract;

impl UserContract {
    /// Stores the user's name and age, overwriting both slots
    /// unconditionally.
    pub fn store_user(env: &mut soroban_sdk::Env, name: &str, age: u32)
        ensures
            slots_of(*final(env)) == stored(slots_of(*old(env)), name@, age),
    {
        proof {
            lemma_keys_wf();
        }
        kv_set_text(env, "name", name);
        kv_set_num(env, "age", age);
    }

    /// Fetches the stored user's name and age. An absent name slot reads
    /// as "Unknown", an absent age slot as 0.
    pub fn fetch_user(env: &soroban_sdk::Env) -> (r: (String, u32))
        requires
            slots_wf(slots_of(*env)),
        ensures
            r.0@ == read_name(slots_of(*env)),
            r.1 == read_age(slots_of(*env)),
    {
        proof {
            lemma_keys_wf();
        }
        let name: String = match kv_get_text(env, "name") {
            Some(s) => s,
            None => "Unknown".to_owned(),
        };
        let age: u32 = match kv_get_num(env, "age") {
            Some(a) => a,
            None => 0,
        };
        (name, age)
    }

    /// Updates only the user's name; the age slot is left untouched,
    /// even if it was never set.
    pub fn update_name(env: &mut soroban_sdk::Env, new_name: &str)
        ensures
            slots_of(*final(env)) == with_name(slots_of(*old(env)), new_name@),
    {
        proof {
            lemma_keys_wf();
        }
        kv_set_text(env, "name", new_name);
    }

    /// Updates only the user's age; the name slot is left untouched.
    pub fn update_age(env: &mut soroban_sdk::Env, new_age: u32)
        ensures
            slots_of(*final(env)) == with_age(slots_of(*old(env)), new_age),
    {
        proof {
            lemma_keys_wf();
        }
        kv_set_num(env, "age", new_age);
    }

    /// Deletes the user's stored data: removes both slots, whether or
    /// not they were present. Idempotent.
    pub fn delete_user(env: &mut soroban_sdk::Env)
        ensures
            slots_of(*final(env)) == cleared(slots_of(*old(env))),
    {
        proof {
            lemma_keys_wf();
        }
        kv_remove(env, "name");
        kv_remove(env, "age");
    }

    /// Checks if user data exists: true exactly when both the name slot
    /// and the age slot are present.
    pub fn user_exists(env: &soroban_sdk::Env) -> (r: bool)
        ensures
            r == record_present(slots_of(*env)),
    {
        proof {
            lemma_keys_wf();
        }
        kv_has(env, "name") && kv_has(env, "age")
    }
}

/// The greeting contract: a pure, stateless formatter.
pub struct Contract;

impl Contract {
    /// Returns the two-element greeting ["Hello", to].
    pub fn hello(to: &str) -> (r: Vec<String>)
        ensures
            r@.len() == 2,
            r@[0]@ == "Hello"@,
            r@[1]@ == to@,
    {
        let mut v: Vec<String> = Vec::new();
        v.push("Hello".to_owned());
        v.push(to.to_owned());
        v
    }
}

} // verus!
