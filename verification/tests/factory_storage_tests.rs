use onchain::factory_storage::{
    get_admin, get_auction_contract, get_core_contract, get_operator, get_owner, has_username, set_admin,
    set_auction_contract, set_core_contract, set_operator, set_owner, DataKey,
};
use onchain::shared::set_persistent;
use onchain::types::Value;
use soroban_sdk::testutils::Address as _;
use soroban_sdk::testutils::{ContractFunctionSet, EnvTestConfig};
use soroban_sdk::{Address, BytesN, Env, Val};

struct Blank;

impl ContractFunctionSet for Blank {
    fn call(&self, _func: &str, _env: Env, _args: &[Val]) -> Option<Val> {
        None
    }
}

fn run<T>(f: impl FnOnce(&mut Env) -> T) -> T {
    let env = Env::new_with_config(EnvTestConfig { capture_snapshot_at_drop: false });
    let id = env.register(Blank, ());
    let mut inner = env.clone();
    env.as_contract(&id, move || f(&mut inner))
}

fn hash(env: &Env, b: u8) -> BytesN<32> {
    BytesN::from_array(env, &[b; 32])
}

#[test]
fn factory_addresses_round_trip() {
    run(|env| {
        assert!(get_auction_contract(env).is_none());
        assert!(get_core_contract(env).is_none());
        let auction = Address::generate(env);
        let core = Address::generate(env);
        let owner = Address::generate(env);
        let admin = Address::generate(env);
        let operator = Address::generate(env);
        set_auction_contract(env, &auction);
        set_core_contract(env, &core);
        set_owner(env, &owner);
        set_admin(env, &admin);
        set_operator(env, &operator);
        assert_eq!(get_auction_contract(env), Some(auction));
        assert_eq!(get_core_contract(env), Some(core));
        assert_eq!(get_owner(env), Some(owner.clone()));
        assert_eq!(get_admin(env), Some(admin));
        assert_eq!(get_operator(env), Some(operator));
        let replaced = Address::generate(env);
        set_owner(env, &replaced);
        assert_eq!(get_owner(env), Some(replaced));
    });
}

#[test]
fn has_username_sees_records() {
    run(|env| {
        let h = hash(env, 5);
        assert!(!has_username(env, &h));
        let key = DataKey::Username(h.clone()).to_key(env);
        set_persistent(env, &key, &Value::U64(1));
        assert!(has_username(env, &h));
        assert!(!has_username(env, &hash(env, 6)));
    });
}
