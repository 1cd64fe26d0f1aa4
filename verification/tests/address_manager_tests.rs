use onchain::address_manager::{AddressManager, CommitmentKey};
use onchain::core_storage::set_delegate_permissions;
use onchain::shared::set_persistent;
use onchain::types::{ChainAddressError, ChainType, CoreError, PermissionSet, Value};
use soroban_sdk::testutils::Address as _;
use soroban_sdk::testutils::{ContractFunctionSet, EnvTestConfig};
use soroban_sdk::{Address, Bytes, BytesN, Env, Symbol, Val};

struct Blank;

impl ContractFunctionSet for Blank {
    fn call(&self, _func: &str, _env: Env, _args: &[Val]) -> Option<Val> {
        None
    }
}

fn run<T>(f: impl FnOnce(&mut Env) -> T) -> T {
    let env = Env::new_with_config(EnvTestConfig { capture_snapshot_at_drop: false });
    let id = env.register(Blank, ());
    let mut inner = env.clone();
    env.as_contract(&id, move || f(&mut inner))
}

fn hash(env: &Env, b: u8) -> BytesN<32> {
    BytesN::from_array(env, &[b; 32])
}

fn register(env: &mut Env, h: &BytesN<32>, owner: &Address) {
    let key = CommitmentKey::Commitment(h.clone()).to_key(env);
    set_persistent(env, &key, &Value::Address(owner.clone()));
}

fn grant(env: &mut Env, h: &BytesN<32>, delegate: &Address, names: &[&str]) {
    let mut list = soroban_sdk::Vec::new(env);
    for n in names {
        list.push_back((Symbol::new(env, n),));
    }
    set_delegate_permissions(env, h, delegate, &PermissionSet { permissions: list });
}

fn evm_address(env: &Env) -> Bytes {
    Bytes::from_slice(env, b"0x52908400098527886E0F7030069857D2E4169EE7")
}

#[test]
fn add_chain_address_requires_registration() {
    run(|env| {
        let h = hash(env, 1);
        let caller = Address::generate(env);
        let a = evm_address(env);
        assert_eq!(
            AddressManager::add_chain_address(env, caller, h.clone(), ChainType::Evm, a),
            Err(ChainAddressError::NotRegistered)
        );
        assert_eq!(AddressManager::get_chain_address(env, h, ChainType::Evm), None);
    });
}

#[test]
fn add_chain_address_by_owner() {
    run(|env| {
        let h = hash(env, 1);
        let owner = Address::generate(env);
        register(env, &h, &owner);
        let a = evm_address(env);
        assert_eq!(AddressManager::add_chain_address(env, owner, h.clone(), ChainType::Evm, a.clone()), Ok(()));
        assert_eq!(AddressManager::get_chain_address(env, h.clone(), ChainType::Evm), Some(a));
        assert_eq!(AddressManager::get_chain_address(env, h, ChainType::Solana), None);
    });
}

#[test]
fn add_chain_address_by_stranger_is_refused() {
    run(|env| {
        let h = hash(env, 1);
        let owner = Address::generate(env);
        let stranger = Address::generate(env);
        register(env, &h, &owner);
        let a = evm_address(env);
        assert_eq!(
            AddressManager::add_chain_address(env, stranger, h.clone(), ChainType::Evm, a),
            Err(ChainAddressError::Unauthorized)
        );
        assert_eq!(AddressManager::get_chain_address(env, h, ChainType::Evm), None);
    });
}

#[test]
fn add_chain_address_by_delegate() {
    run(|env| {
        let h = hash(env, 1);
        let owner = Address::generate(env);
        let delegate = Address::generate(env);
        register(env, &h, &owner);
        grant(env, &h, &delegate, &["RemoveChainAddress"]);
        let a = Bytes::from_slice(env, &[7u8; 30]);
        assert_eq!(
            AddressManager::add_chain_address(env, delegate.clone(), h.clone(), ChainType::Bitcoin, a.clone()),
            Err(ChainAddressError::Unauthorized)
        );
        grant(env, &h, &delegate, &["AddChainAddress"]);
        assert_eq!(AddressManager::add_chain_address(env, delegate, h.clone(), ChainType::Bitcoin, a.clone()), Ok(()));
        assert_eq!(AddressManager::get_chain_address(env, h, ChainType::Bitcoin), Some(a));
    });
}

#[test]
fn add_chain_address_rejects_bad_format() {
    run(|env| {
        let h = hash(env, 1);
        let owner = Address::generate(env);
        register(env, &h, &owner);
        let short = Bytes::from_slice(env, &[1u8; 10]);
        assert_eq!(
            AddressManager::add_chain_address(env, owner, h.clone(), ChainType::Cosmos, short),
            Err(ChainAddressError::InvalidAddress)
        );
        assert_eq!(AddressManager::get_chain_address(env, h, ChainType::Cosmos), None);
    });
}

#[test]
fn remove_chain_address_checks_then_removes() {
    run(|env| {
        let h = hash(env, 1);
        let owner = Address::generate(env);
        let stranger = Address::generate(env);
        assert_eq!(
            AddressManager::remove_chain_address(env, owner.clone(), h.clone(), ChainType::Evm),
            Err(ChainAddressError::NotRegistered)
        );
        register(env, &h, &owner);
        let a = evm_address(env);
        assert_eq!(AddressManager::add_chain_address(env, owner.clone(), h.clone(), ChainType::Evm, a.clone()), Ok(()));
        assert_eq!(
            AddressManager::remove_chain_address(env, stranger, h.clone(), ChainType::Evm),
            Err(ChainAddressError::Unauthorized)
        );
        assert_eq!(AddressManager::get_chain_address(env, h.clone(), ChainType::Evm), Some(a));
        assert_eq!(AddressManager::remove_chain_address(env, owner, h.clone(), ChainType::Evm), Ok(()));
        assert_eq!(AddressManager::get_chain_address(env, h, ChainType::Evm), None);
    });
}

#[test]
fn validate_address_evm() {
    run(|env| {
        assert!(AddressManager::validate_address(&ChainType::Evm, &evm_address(env)));
        let mut no_prefix = [b'a'; 42];
        no_prefix[1] = b'x';
        assert!(!AddressManager::validate_address(&ChainType::Evm, &Bytes::from_slice(env, &no_prefix)));
        let mut wrong_x = [b'a'; 42];
        wrong_x[0] = b'0';
        wrong_x[1] = b'X';
        assert!(!AddressManager::validate_address(&ChainType::Evm, &Bytes::from_slice(env, &wrong_x)));
        let mut short = [b'a'; 41];
        short[0] = b'0';
        short[1] = b'x';
        assert!(!AddressManager::validate_address(&ChainType::Evm, &Bytes::from_slice(env, &short)));
    });
}

#[test]
fn validate_address_length_bounds() {
    run(|env| {
        let cases: [(ChainType, u32, u32); 3] =
            [(ChainType::Bitcoin, 25, 62), (ChainType::Solana, 32, 44), (ChainType::Cosmos, 39, 45)];
        for (chain, lo, hi) in cases {
            let ok_lo = Bytes::from_slice(env, &vec![1u8; lo as usize]);
            let ok_hi = Bytes::from_slice(env, &vec![1u8; hi as usize]);
            let below = Bytes::from_slice(env, &vec![1u8; (lo - 1) as usize]);
            let above = Bytes::from_slice(env, &vec![1u8; (hi + 1) as usize]);
            assert!(AddressManager::validate_address(&chain, &ok_lo));
            assert!(AddressManager::validate_address(&chain, &ok_hi));
            assert!(!AddressManager::validate_address(&chain, &below));
            assert!(!AddressManager::validate_address(&chain, &above));
        }
    });
}

#[test]
fn stellar_addresses_link_and_resolve() {
    run(|env| {
        let h = hash(env, 2);
        let owner = Address::generate(env);
        assert_eq!(AddressManager::get_stellar_addresses(env, h.clone()), Err(CoreError::NotFound));
        assert_eq!(AddressManager::resolve_stellar(env, h.clone()), Err(CoreError::NotFound));
        register(env, &h, &owner);
        assert_eq!(AddressManager::get_stellar_addresses(env, h.clone()).unwrap().len(), 0);
        assert_eq!(AddressManager::resolve_stellar(env, h.clone()), Err(CoreError::NoAddressLinked));
        let a = Address::generate(env);
        let b = Address::generate(env);
        assert_eq!(AddressManager::add_stellar_address(env, owner.clone(), h.clone(), a.clone()), Ok(()));
        assert_eq!(AddressManager::add_stellar_address(env, owner.clone(), h.clone(), b.clone()), Ok(()));
        let list = AddressManager::get_stellar_addresses(env, h.clone()).unwrap();
        assert_eq!(list.len(), 2);
        assert_eq!(list.get(0), Some(a));
        assert_eq!(list.get(1), Some(b.clone()));
        assert_eq!(AddressManager::resolve_stellar(env, h), Ok(b));
    });
}

#[test]
fn add_stellar_address_errors() {
    run(|env| {
        let h = hash(env, 2);
        let owner = Address::generate(env);
        let stranger = Address::generate(env);
        let a = Address::generate(env);
        assert_eq!(AddressManager::add_stellar_address(env, owner.clone(), h.clone(), a.clone()), Err(CoreError::NotFound));
        register(env, &h, &owner);
        assert_eq!(AddressManager::add_stellar_address(env, stranger.clone(), h.clone(), a.clone()), Err(CoreError::Unauthorized));
        grant(env, &h, &stranger, &["AddStellarAddress"]);
        assert_eq!(AddressManager::add_stellar_address(env, stranger, h.clone(), a.clone()), Ok(()));
        assert_eq!(AddressManager::resolve_stellar(env, h), Ok(a));
    });
}

#[test]
fn removing_primary_promotes_last_remaining() {
    run(|env| {
        let h = hash(env, 3);
        let owner = Address::generate(env);
        register(env, &h, &owner);
        let a = Address::generate(env);
        let b = Address::generate(env);
        let c = Address::generate(env);
        for x in [&a, &b, &c] {
            assert_eq!(AddressManager::add_stellar_address(env, owner.clone(), h.clone(), x.clone()), Ok(()));
        }
        assert_eq!(AddressManager::resolve_stellar(env, h.clone()), Ok(c.clone()));
        assert_eq!(AddressManager::remove_stellar_address(env, owner.clone(), h.clone(), c), Ok(()));
        let list = AddressManager::get_stellar_addresses(env, h.clone()).unwrap();
        assert_eq!(list.len(), 2);
        assert_eq!(list.get(0), Some(a.clone()));
        assert_eq!(list.get(1), Some(b.clone()));
        assert_eq!(AddressManager::resolve_stellar(env, h.clone()), Ok(b));
        assert_eq!(AddressManager::remove_stellar_address(env, owner.clone(), h.clone(), a), Ok(()));
        assert_eq!(AddressManager::get_stellar_addresses(env, h).unwrap().len(), 1);
    });
}

#[test]
fn removing_non_primary_keeps_primary() {
    run(|env| {
        let h = hash(env, 3);
        let owner = Address::generate(env);
        register(env, &h, &owner);
        let a = Address::generate(env);
        let b = Address::generate(env);
        assert_eq!(AddressManager::add_stellar_address(env, owner.clone(), h.clone(), a.clone()), Ok(()));
        assert_eq!(AddressManager::add_stellar_address(env, owner.clone(), h.clone(), b.clone()), Ok(()));
        assert_eq!(AddressManager::remove_stellar_address(env, owner.clone(), h.clone(), a), Ok(()));
        assert_eq!(AddressManager::resolve_stellar(env, h.clone()), Ok(b.clone()));
        let list = AddressManager::get_stellar_addresses(env, h).unwrap();
        assert_eq!(list.len(), 1);
        assert_eq!(list.get(0), Some(b));
    });
}

#[test]
fn removing_last_address_clears_primary() {
    run(|env| {
        let h = hash(env, 4);
        let owner = Address::generate(env);
        register(env, &h, &owner);
        let a = Address::generate(env);
        assert_eq!(AddressManager::add_stellar_address(env, owner.clone(), h.clone(), a.clone()), Ok(()));
        assert_eq!(AddressManager::add_stellar_address(env, owner.clone(), h.clone(), a.clone()), Ok(()));
        assert_eq!(AddressManager::get_stellar_addresses(env, h.clone()).unwrap().len(), 2);
        assert_eq!(AddressManager::remove_stellar_address(env, owner, h.clone(), a), Ok(()));
        assert_eq!(AddressManager::get_stellar_addresses(env, h.clone()).unwrap().len(), 0);
        assert_eq!(AddressManager::resolve_stellar(env, h), Err(CoreError::NoAddressLinked));
    });
}

#[test]
fn link_then_unlink_restores_list() {
    run(|env| {
        let h = hash(env, 5);
        let owner = Address::generate(env);
        register(env, &h, &owner);
        let a = Address::generate(env);
        let b = Address::generate(env);
        assert_eq!(AddressManager::add_stellar_address(env, owner.clone(), h.clone(), a.clone()), Ok(()));
        let before = AddressManager::get_stellar_addresses(env, h.clone()).unwrap();
        assert_eq!(AddressManager::add_stellar_address(env, owner.clone(), h.clone(), b.clone()), Ok(()));
        assert_eq!(AddressManager::remove_stellar_address(env, owner, h.clone(), b), Ok(()));
        assert_eq!(AddressManager::get_stellar_addresses(env, h.clone()).unwrap(), before);
        assert_eq!(AddressManager::resolve_stellar(env, h), Ok(a));
    });
}

#[test]
fn remove_stellar_address_errors() {
    run(|env| {
        let h = hash(env, 6);
        let owner = Address::generate(env);
        let stranger = Address::generate(env);
        let a = Address::generate(env);
        assert_eq!(AddressManager::remove_stellar_address(env, owner.clone(), h.clone(), a.clone()), Err(CoreError::NotFound));
        register(env, &h, &owner);
        assert_eq!(AddressManager::add_stellar_address(env, owner.clone(), h.clone(), a.clone()), Ok(()));
        assert_eq!(AddressManager::remove_stellar_address(env, stranger, h.clone(), a.clone()), Err(CoreError::Unauthorized));
        assert_eq!(AddressManager::resolve_stellar(env, h), Ok(a));
    });
}

#[test]
fn shielded_address_only_by_owner() {
    run(|env| {
        let h = hash(env, 8);
        let owner = Address::generate(env);
        let delegate = Address::generate(env);
        let c = hash(env, 9);
        assert_eq!(AddressManager::add_shielded_address(env, owner.clone(), h.clone(), c.clone()), Err(CoreError::NotFound));
        register(env, &h, &owner);
        grant(env, &h, &delegate, &["AddChainAddress", "AddStellarAddress"]);
        assert_eq!(AddressManager::add_shielded_address(env, delegate, h.clone(), c.clone()), Err(CoreError::Unauthorized));
        assert!(!AddressManager::is_shielded(env, h.clone()));
        assert_eq!(AddressManager::add_shielded_address(env, owner, h.clone(), c.clone()), Ok(()));
        assert!(AddressManager::is_shielded(env, h.clone()));
        assert_eq!(AddressManager::get_shielded_address(env, h), Some(c));
    });
}

#[test]
fn chain_address_key_matches_the_tuple_encoding() {
    run(|env| {
        let h = hash(env, 1);
        let owner = Address::generate(env);
        register(env, &h, &owner);
        let a = evm_address(env);
        assert_eq!(AddressManager::add_chain_address(env, owner, h.clone(), ChainType::Evm, a.clone()), Ok(()));
        let key = (Symbol::new(env, "ChainAddress"), h.clone(), (Symbol::new(env, "Evm"),));
        let stored: Option<Bytes> = env.storage().persistent().get(&key);
        assert_eq!(stored, Some(a));
    });
}

#[test]
fn chain_address_survives_other_pairs() {
    run(|env| {
        let h = hash(env, 1);
        let h2 = hash(env, 2);
        let owner = Address::generate(env);
        register(env, &h, &owner);
        register(env, &h2, &owner);
        let a = evm_address(env);
        let btc = Bytes::from_slice(env, b"1BvBMSEYstWetqTFn5Au4m4GFg7xJaNVN2");
        assert_eq!(AddressManager::add_chain_address(env, owner.clone(), h.clone(), ChainType::Evm, a.clone()), Ok(()));
        assert_eq!(AddressManager::add_chain_address(env, owner.clone(), h.clone(), ChainType::Bitcoin, btc.clone()), Ok(()));
        assert_eq!(AddressManager::add_chain_address(env, owner.clone(), h2.clone(), ChainType::Evm, a.clone()), Ok(()));
        assert_eq!(AddressManager::remove_chain_address(env, owner.clone(), h.clone(), ChainType::Bitcoin), Ok(()));
        assert_eq!(AddressManager::remove_chain_address(env, owner.clone(), h2.clone(), ChainType::Evm), Ok(()));
        let stellar = Address::generate(env);
        assert_eq!(AddressManager::add_stellar_address(env, owner.clone(), h.clone(), stellar.clone()), Ok(()));
        assert_eq!(AddressManager::remove_stellar_address(env, owner.clone(), h.clone(), stellar), Ok(()));
        assert_eq!(AddressManager::get_chain_address(env, h.clone(), ChainType::Evm), Some(a));
        assert_eq!(AddressManager::get_chain_address(env, h.clone(), ChainType::Bitcoin), None);
        assert_eq!(AddressManager::get_chain_address(env, h2.clone(), ChainType::Evm), None);
        assert_eq!(AddressManager::remove_chain_address(env, owner, h.clone(), ChainType::Evm), Ok(()));
        assert_eq!(AddressManager::get_chain_address(env, h, ChainType::Evm), None);
    });
}
