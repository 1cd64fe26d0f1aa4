use onchain::core_storage::{
    get_admin, get_created_at, get_delegate_permissions, get_operator, get_owner, get_privacy_mode,
    get_shielded_address, has_permission, has_shielded_address, is_initialized, remove_delegate_permissions,
    set_admin, set_created_at, set_delegate_permissions, set_operator, set_owner, set_privacy_mode,
    set_shielded_address,
};
use onchain::types::{Permission, PermissionSet, PrivacyMode};
use soroban_sdk::testutils::Address as _;
use soroban_sdk::testutils::{ContractFunctionSet, EnvTestConfig};
use soroban_sdk::{Address, BytesN, Env, Symbol, Val};

struct Blank;

impl ContractFunctionSet for Blank {
    fn call(&self, _func: &str, _env: Env, _args: &[Val]) -> Option<Val> {
        None
    }
}

fn run<T>(f: impl FnOnce(&mut Env) -> T) -> T {
    let env = Env::new_with_config(EnvTestConfig { capture_snapshot_at_drop: false });
    let id = env.register(Blank, ());
    let mut inner = env.clone();
    env.as_contract(&id, move || f(&mut inner))
}

fn hash(env: &Env, b: u8) -> BytesN<32> {
    BytesN::from_array(env, &[b; 32])
}

#[test]
fn privacy_mode_defaults_to_normal() {
    run(|env| {
        let h = hash(env, 1);
        assert_eq!(get_privacy_mode(env, &h).name, Symbol::new(env, "Normal"));
    });
}

#[test]
fn privacy_mode_round_trip() {
    run(|env| {
        let h = hash(env, 1);
        set_privacy_mode(env, &h, &PrivacyMode { name: Symbol::new(env, "Private") });
        assert_eq!(get_privacy_mode(env, &h).name, Symbol::new(env, "Private"));
        assert_eq!(get_privacy_mode(env, &hash(env, 2)).name, Symbol::new(env, "Normal"));
    });
}

#[test]
fn roles_are_stored_separately() {
    run(|env| {
        assert!(!is_initialized(env));
        assert!(get_owner(env).is_none());
        let owner = Address::generate(env);
        let admin = Address::generate(env);
        let operator = Address::generate(env);
        set_owner(env, &owner);
        assert!(is_initialized(env));
        assert!(get_admin(env).is_none());
        set_admin(env, &admin);
        set_operator(env, &operator);
        assert_eq!(get_owner(env), Some(owner));
        assert_eq!(get_admin(env), Some(admin));
        assert_eq!(get_operator(env), Some(operator));
    });
}

#[test]
fn shielded_address_round_trip() {
    run(|env| {
        let h = hash(env, 7);
        assert!(!has_shielded_address(env, &h));
        assert!(get_shielded_address(env, &h).is_none());
        let c = hash(env, 9);
        set_shielded_address(env, &h, &c);
        assert!(has_shielded_address(env, &h));
        assert_eq!(get_shielded_address(env, &h), Some(c));
    });
}

#[test]
fn created_at_round_trip() {
    run(|env| {
        let h = hash(env, 3);
        assert_eq!(get_created_at(env, &h), None);
        set_created_at(env, &h, 1_700_000_000);
        assert_eq!(get_created_at(env, &h), Some(1_700_000_000));
    });
}

#[test]
fn delegate_permissions_grant_and_revoke() {
    run(|env| {
        let h = hash(env, 4);
        let delegate = Address::generate(env);
        let other = Address::generate(env);
        assert!(!has_permission(env, &h, &delegate, Permission::add_chain_address(env)));
        let mut list = soroban_sdk::Vec::new(env);
        list.push_back((Symbol::new(env, "AddChainAddress"),));
        list.push_back((Symbol::new(env, "RemoveStellarAddress"),));
        set_delegate_permissions(env, &h, &delegate, &PermissionSet { permissions: list });
        assert!(has_permission(env, &h, &delegate, Permission::add_chain_address(env)));
        assert!(has_permission(env, &h, &delegate, Permission::remove_stellar_address(env)));
        assert!(!has_permission(env, &h, &delegate, Permission::remove_chain_address(env)));
        assert!(!has_permission(env, &h, &other, Permission::add_chain_address(env)));
        let stored = get_delegate_permissions(env, &h, &delegate).unwrap();
        assert_eq!(stored.permissions.len(), 2);
        remove_delegate_permissions(env, &h, &delegate);
        assert!(get_delegate_permissions(env, &h, &delegate).is_none());
        assert!(!has_permission(env, &h, &delegate, Permission::add_chain_address(env)));
    });
}

#[test]
fn keys_match_the_tuple_encoding() {
    run(|env| {
        let owner = Address::generate(env);
        set_owner(env, &owner);
        let by_tuple: Option<Address> = env.storage().instance().get(&(Symbol::new(env, "Owner"),));
        assert_eq!(by_tuple, Some(owner));
        let h = hash(env, 1);
        set_privacy_mode(env, &h, &PrivacyMode { name: Symbol::new(env, "Private") });
        let mode: Option<(Symbol,)> = env.storage().persistent().get(&(Symbol::new(env, "PrivacyMode"), h.clone()));
        assert_eq!(mode, Some((Symbol::new(env, "Private"),)));
        env.storage().persistent().set(&(Symbol::new(env, "CreatedAt"), h.clone()), &5u64);
        assert_eq!(get_created_at(env, &h), Some(5));
    });
}

#[test]
fn delegate_permissions_are_stored_as_a_record() {
    run(|env| {
        let h = hash(env, 4);
        let delegate = Address::generate(env);
        let mut list = soroban_sdk::Vec::new(env);
        list.push_back((Symbol::new(env, "AddChainAddress"),));
        set_delegate_permissions(env, &h, &delegate, &PermissionSet { permissions: list.clone() });
        let key = onchain::core_storage::DataKey::Delegate(h.clone(), delegate.clone()).to_key(env);
        let record: soroban_sdk::Map<Symbol, soroban_sdk::Vec<(Symbol,)>> =
            env.storage().persistent().get(&key).unwrap();
        assert_eq!(record.len(), 1);
        assert_eq!(record.get(Symbol::new(env, "permissions")), Some(list.clone()));
        let read = get_delegate_permissions(env, &h, &delegate).unwrap();
        assert_eq!(read.permissions, list);
    });
}
