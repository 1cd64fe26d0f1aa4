use onchain::shared::{
    bump_persistent, bump_persistent_if_present, get_instance, get_persistent, get_persistent_with_ttl, require_matching_auth, set_instance, set_persistent,
    unwrap_or_panic,
};
use onchain::keys::{key_tag, key_tag_hash};
use onchain::model::ValueKind;
use onchain::types::Value;
use soroban_sdk::testutils::Address as _;
use soroban_sdk::testutils::storage::Persistent as _;
use soroban_sdk::testutils::{ContractFunctionSet, EnvTestConfig};
use soroban_sdk::{Address, BytesN, Env, Symbol, Val};

struct Blank;

impl ContractFunctionSet for Blank {
    fn call(&self, _func: &str, _env: Env, _args: &[Val]) -> Option<Val> {
        None
    }
}

fn run<T>(f: impl FnOnce(&mut Env) -> T) -> T {
    let env = Env::new_with_config(EnvTestConfig { capture_snapshot_at_drop: false });
    let id = env.register(Blank, ());
    let mut inner = env.clone();
    env.as_contract(&id, move || f(&mut inner))
}

fn hash(env: &Env, b: u8) -> BytesN<32> {
    BytesN::from_array(env, &[b; 32])
}

#[test]
fn unwrap_or_panic_gives_value_or_error() {
    let env = Env::new_with_config(EnvTestConfig { capture_snapshot_at_drop: false });
    assert_eq!(unwrap_or_panic(&env, Some(5u32), 9u32), Ok(5));
    assert_eq!(unwrap_or_panic::<u32, u32>(&env, None, 9u32), Err(9));
}

#[test]
fn require_matching_auth_compares_addresses() {
    let env = Env::new_with_config(EnvTestConfig { capture_snapshot_at_drop: false });
    let a = Address::generate(&env);
    let b = Address::generate(&env);
    assert_eq!(require_matching_auth(&env, &a, &a.clone(), 3u8), Ok(()));
    assert_eq!(require_matching_auth(&env, &a, &b, 3u8), Err(3));
}

#[test]
fn persistent_read_after_write() {
    run(|env| {
        let key = key_tag_hash(env, "Probe", &hash(env, 1));
        let other = key_tag_hash(env, "Probe", &hash(env, 2));
        assert!(get_persistent(env, &key, ValueKind::U64).is_none());
        set_persistent(env, &key, &Value::U64(17));
        match get_persistent(env, &key, ValueKind::U64) {
            Some(Value::U64(x)) => assert_eq!(x, 17),
            _ => panic!("expected a u64"),
        }
        assert!(get_persistent(env, &other, ValueKind::U64).is_none());
        match get_persistent_with_ttl(env, &key, ValueKind::U64) {
            Some(Value::U64(x)) => assert_eq!(x, 17),
            _ => panic!("expected a u64"),
        }
        assert!(get_persistent_with_ttl(env, &other, ValueKind::U64).is_none());
    });
}

#[test]
fn instance_and_persistent_are_separate() {
    run(|env| {
        let key = key_tag(env, "Probe");
        set_instance(env, &key, &Value::Bool(true));
        assert!(get_persistent(env, &key, ValueKind::Bool).is_none());
        match get_instance(env, &key, ValueKind::Bool) {
            Some(Value::Bool(x)) => assert!(x),
            _ => panic!("expected a bool"),
        }
    });
}

#[test]
fn variant_values_round_trip() {
    run(|env| {
        let key = key_tag(env, "Mode");
        set_persistent(env, &key, &Value::Variant(Symbol::new(env, "Shielded")));
        match get_persistent(env, &key, ValueKind::Variant) {
            Some(Value::Variant(name)) => assert_eq!(name, Symbol::new(env, "Shielded")),
            _ => panic!("expected a variant"),
        }
    });
}

#[test]
fn bump_extends_short_lifetimes_only() {
    run(|env| {
        let key = key_tag(env, "Probe");
        let other = key_tag(env, "Other");
        env.storage().persistent().set(&key, &1u32);
        env.storage().persistent().set(&other, &2u32);
        assert_eq!(env.storage().persistent().get_ttl(&key), 4095);
        bump_persistent(env, &key);
        assert_eq!(env.storage().persistent().get_ttl(&key), 518_400);
        assert_eq!(env.storage().persistent().get_ttl(&other), 4095);
        bump_persistent(env, &key);
        assert_eq!(env.storage().persistent().get_ttl(&key), 518_400);
        set_persistent(env, &other, &Value::U64(3));
        assert_eq!(env.storage().persistent().get_ttl(&other), 518_400);
    });
}

#[test]
fn bump_threshold_is_strict() {
    run(|env| {
        let at = key_tag(env, "AtThreshold");
        let below = key_tag(env, "BelowThreshold");
        env.storage().persistent().set(&at, &1u32);
        env.storage().persistent().set(&below, &1u32);
        env.storage().persistent().extend_ttl(&at, 120_960, 120_960);
        env.storage().persistent().extend_ttl(&below, 120_959, 120_959);
        assert_eq!(env.storage().persistent().get_ttl(&at), 120_960);
        assert_eq!(env.storage().persistent().get_ttl(&below), 120_959);
        bump_persistent(env, &at);
        bump_persistent(env, &below);
        assert_eq!(env.storage().persistent().get_ttl(&at), 120_960);
        assert_eq!(env.storage().persistent().get_ttl(&below), 518_400);
    });
}

#[test]
fn get_with_ttl_bumps_only_present_entries() {
    run(|env| {
        let key = key_tag(env, "Present");
        let absent = key_tag(env, "Absent");
        env.storage().persistent().set(&key, &7u64);
        assert_eq!(env.storage().persistent().get_ttl(&key), 4095);
        assert!(get_persistent_with_ttl(env, &absent, ValueKind::U64).is_none());
        assert_eq!(env.storage().persistent().get_ttl(&key), 4095);
        assert!(get_persistent_with_ttl(env, &key, ValueKind::U64).is_some());
        assert_eq!(env.storage().persistent().get_ttl(&key), 518_400);
        assert!(!bump_persistent_if_present(env, &absent));
        assert!(bump_persistent_if_present(env, &key));
    });
}
