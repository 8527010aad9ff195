use soroban_sdk::testutils::{ContractFunctionSet, EnvTestConfig};
use soroban_sdk::{Env, Val};
use user_store::contract::{Contract, UserContract};

struct NoFns;

impl ContractFunctionSet for NoFns {
    fn call(&self, _func: &str, _env: Env, _args: &[Val]) -> Option<Val> {
        None
    }
}

/// Runs `f` inside a freshly registered contract's context, so that the
/// instance storage the library uses is live.
fn in_contract<T>(f: impl FnOnce(&mut Env) -> T) -> T {
    let env = Env::new_with_config(EnvTestConfig { capture_snapshot_at_drop: false });
    #[allow(deprecated)]
    let id = env.register_contract(None, NoFns);
    let mut inner = env.clone();
    env.as_contract(&id, move || f(&mut inner))
}

#[test]
fn store_then_exists_and_fetch() {
    in_contract(|env| {
        UserContract::store_user(env, "Ada", 30);
        assert!(UserContract::user_exists(env));
        let (name, age) = UserContract::fetch_user(env);
        assert_eq!(name, "Ada");
        assert_eq!(age, 30);
    });
}

#[test]
fn delete_clears_state() {
    in_contract(|env| {
        UserContract::store_user(env, "Ada", 30);
        UserContract::delete_user(env);
        assert!(!UserContract::user_exists(env));
        let (name, age) = UserContract::fetch_user(env);
        assert_eq!(name, "Unknown");
        assert_eq!(age, 0);
    });
}

#[test]
fn delete_when_absent_is_noop() {
    in_contract(|env| {
        UserContract::delete_user(env);
        assert!(!UserContract::user_exists(env));
        let (name, age) = UserContract::fetch_user(env);
        assert_eq!(name, "Unknown");
        assert_eq!(age, 0);
        UserContract::delete_user(env);
        assert!(!UserContract::user_exists(env));
    });
}

#[test]
fn partial_update_independence() {
    in_contract(|env| {
        UserContract::store_user(env, "Ada", 30);
        UserContract::update_name(env, "Grace");
        let (name, age) = UserContract::fetch_user(env);
        assert_eq!(name, "Grace");
        assert_eq!(age, 30);
        UserContract::update_age(env, 31);
        let (name, age) = UserContract::fetch_user(env);
        assert_eq!(name, "Grace");
        assert_eq!(age, 31);
    });
}

#[test]
fn update_name_alone_leaves_no_record() {
    in_contract(|env| {
        UserContract::update_name(env, "Ada");
        assert!(!UserContract::user_exists(env));
        let (name, age) = UserContract::fetch_user(env);
        assert_eq!(name, "Ada");
        assert_eq!(age, 0);
    });
}

#[test]
fn update_age_alone_leaves_no_record() {
    in_contract(|env| {
        UserContract::update_age(env, 5);
        assert!(!UserContract::user_exists(env));
        let (name, age) = UserContract::fetch_user(env);
        assert_eq!(name, "Unknown");
        assert_eq!(age, 5);
    });
}

#[test]
fn store_overwrites_without_merge() {
    in_contract(|env| {
        UserContract::store_user(env, "Ada", 30);
        UserContract::store_user(env, "Grace", 41);
        assert!(UserContract::user_exists(env));
        let (name, age) = UserContract::fetch_user(env);
        assert_eq!(name, "Grace");
        assert_eq!(age, 41);
    });
}

#[test]
fn fresh_instance_scenario() {
    in_contract(|env| {
        assert!(!UserContract::user_exists(env));
        let (name, age) = UserContract::fetch_user(env);
        assert_eq!(name, "Unknown");
        assert_eq!(age, 0);
        UserContract::store_user(env, "Ada", 30);
        let (name, age) = UserContract::fetch_user(env);
        assert_eq!(name, "Ada");
        assert_eq!(age, 30);
        assert!(UserContract::user_exists(env));
        UserContract::update_age(env, 31);
        let (name, age) = UserContract::fetch_user(env);
        assert_eq!(name, "Ada");
        assert_eq!(age, 31);
        UserContract::delete_user(env);
        assert!(!UserContract::user_exists(env));
    });
}

#[test]
fn empty_name_is_a_stored_value() {
    in_contract(|env| {
        UserContract::store_user(env, "", 0);
        assert!(UserContract::user_exists(env));
        let (name, age) = UserContract::fetch_user(env);
        assert_eq!(name, "");
        assert_eq!(age, 0);
    });
}

#[test]
fn largest_age_round_trips() {
    in_contract(|env| {
        UserContract::store_user(env, "Ada", u32::MAX);
        let (name, age) = UserContract::fetch_user(env);
        assert_eq!(name, "Ada");
        assert_eq!(age, u32::MAX);
    });
}

#[test]
fn hello_greets() {
    let greeting = Contract::hello("World");
    assert_eq!(greeting.len(), 2);
    assert_eq!(greeting[0], "Hello");
    assert_eq!(greeting[1], "World");
}
