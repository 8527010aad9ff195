use vstd::prelude::*;

use crate::slots::{is_symbol_name, SlotVal};

verus! {

/// soroban_sdk::Env, the host-environment handle, declared so it can
/// stand in signatures; its contents are opaque to the library.
#[verifier::external_type_specification]
#[verifier::external_body]
pub struct ExEnv(soroban_sdk::Env);

/// What the contract instance's storage holds, keyed by symbol name.
///
/// The host keeps one instance-scoped key-value store per contract; this
/// names its contents. The two slots this contract uses hold either a
/// text value or a u32, so the map's range is `SlotVal`.
pub uninterp spec fn slots_of(e: soroban_sdk::Env) -> Map<Seq<char>, SlotVal>;

/// Relies on soroban_sdk instance storage `set`: writes the text under
/// the key, replacing whatever the slot held. The text is stored as a
/// host string built with `String::from_str`.
#[verifier::external_body]
pub(crate) fn kv_set_text(env: &mut soroban_sdk::Env, key: &str, val: &str)
    requires
        is_symbol_name(key@),
    ensures
        slots_of(*final(env)) == slots_of(*old(env)).insert(key@, SlotVal::Text(val@)),
{
    let sym = soroban_sdk::Symbol::new(env, key);
    let text = soroban_sdk::String::from_str(env, val);
    env.storage().instance().set(&sym, &text);
}

/// Relies on soroban_sdk instance storage `set`: writes the number under
/// the key, replacing whatever the slot held.
#[verifier::external_body]
pub(crate) fn kv_set_num(env: &mut soroban_sdk::Env, key: &str, val: u32)
    requires
        is_symbol_name(key@),
    ensures
        slots_of(*final(env)) == slots_of(*old(env)).insert(key@, SlotVal::Num(val)),
{
    let sym = soroban_sdk::Symbol::new(env, key);
    env.storage().instance().set(&sym, &val);
}

/// Relies on soroban_sdk instance storage `get`: returns the stored
/// value when the key is present and `None` when it is absent. The slot
/// must hold text (`get` panics on a value of another type); this
/// contract only ever stores UTF-8 text under such a key, so the bytes
/// read back decode losslessly.
#[verifier::external_body]
pub(crate) fn kv_get_text(env: &soroban_sdk::Env, key: &str) -> (r: Option<String>)
    requires
        is_symbol_name(key@),
        slots_of(*env).dom().contains(key@) ==> slots_of(*env)[key@] is Text,
    ensures
        r is Some <==> slots_of(*env).dom().contains(key@),
        r matches Some(s) ==> slots_of(*env)[key@] == SlotVal::Text(s@),
{
    let sym = soroban_sdk::Symbol::new(env, key);
    let got: Option<soroban_sdk::String> = env.storage().instance().get(&sym);
    match got {
        None => None,
        Some(text) => {
            let mut buf = vec![0u8; text.len() as usize];
            text.copy_into_slice(&mut buf);
            Some(String::from_utf8_lossy(&buf).into_owned())
        },
    }
}

/// Relies on soroban_sdk instance storage `get`: returns the stored
/// value when the key is present and `None` when it is absent. The slot
/// must hold a number (`get` panics on a value of another type).
#[verifier::external_body]
pub(crate) fn kv_get_num(env: &soroban_sdk::Env, key: &str) -> (r: Option<u32>)
    requires
        is_symbol_name(key@),
        slots_of(*env).dom().contains(key@) ==> slots_of(*env)[key@] is Num,
    ensures
        r is Some <==> slots_of(*env).dom().contains(key@),
        r matches Some(a) ==> slots_of(*env)[key@] == SlotVal::Num(a),
{
    let sym = soroban_sdk::Symbol::new(env, key);
    env.storage().instance().get(&sym)
}

/// Relies on soroban_sdk instance storage `has`: whether the key is
/// present.
#[verifier::external_body]
pub(crate) fn kv_has(env: &soroban_sdk::Env, key: &str) -> (r: bool)
    requires
        is_symbol_name(key@),
    ensures
        r == slots_of(*env).dom().contains(key@),
{
    let sym = soroban_sdk::Symbol::new(env, key);
    env.storage().instance().has(&sym)
}

/// Relies on soroban_sdk instance storage `remove`: drops the key; a
/// no-op when the key is absent.
#[verifier::external_body]
pub(crate) fn kv_remove(env: &mut soroban_sdk::Env, key: &str)
    requires
        is_symbol_name(key@),
    ensures
        slots_of(*final(env)) == slots_of(*old(env)).remove(key@),
{
    let sym = soroban_sdk::Symbol::new(env, key);
    env.storage().instance().remove(&sym);
}

} // verus!
