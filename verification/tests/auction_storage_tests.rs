use onchain::auction_storage::{
    add_bidder, auction_exists, auction_get_asset, auction_get_end_time, auction_get_highest_bid,
    auction_get_highest_bidder, auction_get_min_bid, auction_get_outbid_amount, auction_get_seller,
    auction_get_status, auction_get_username_hash, auction_is_bid_refunded, auction_is_claimed, auction_set_asset,
    auction_set_bid_refunded, auction_set_claimed, auction_set_end_time, auction_set_highest_bid,
    auction_set_highest_bidder, auction_set_min_bid, auction_set_outbid_amount, auction_set_seller,
    auction_set_status, auction_set_username_hash, get_all_bidders, get_end_time, get_factory_contract,
    get_highest_bid, get_highest_bidder, get_status, has_auction, set_end_time, set_factory_contract,
    set_highest_bid, set_highest_bidder, set_status, DataKey,
};
use onchain::shared::set_persistent;
use onchain::types::{AuctionError, AuctionStatus, Value};
use soroban_sdk::testutils::Address as _;
use soroban_sdk::testutils::storage::Persistent as _;
use soroban_sdk::testutils::{ContractFunctionSet, EnvTestConfig, Ledger as _};
use soroban_sdk::{Address, BytesN, Env, Symbol, Val};

struct Blank;

impl ContractFunctionSet for Blank {
    fn call(&self, _func: &str, _env: Env, _args: &[Val]) -> Option<Val> {
        None
    }
}

fn run<T>(f: impl FnOnce(&mut Env) -> T) -> T {
    let env = Env::new_with_config(EnvTestConfig { capture_snapshot_at_drop: false });
    let id = env.register(Blank, ());
    let mut inner = env.clone();
    env.as_contract(&id, move || f(&mut inner))
}

fn hash(env: &Env, b: u8) -> BytesN<32> {
    BytesN::from_array(env, &[b; 32])
}

#[test]
fn instance_defaults() {
    run(|env| {
        assert_eq!(get_status(env).name, Symbol::new(env, "Open"));
        assert_eq!(get_end_time(env), 0);
        assert_eq!(get_highest_bid(env), 0);
        assert!(get_highest_bidder(env).is_none());
        assert!(get_factory_contract(env).is_none());
    });
}

#[test]
fn instance_round_trip() {
    run(|env| {
        set_status(env, AuctionStatus { name: Symbol::new(env, "Closed") });
        set_end_time(env, 1_000);
        set_highest_bid(env, u128::MAX);
        let bidder = Address::generate(env);
        let factory = Address::generate(env);
        set_highest_bidder(env, &bidder);
        set_factory_contract(env, &factory);
        assert_eq!(get_status(env).name, Symbol::new(env, "Closed"));
        assert_eq!(get_end_time(env), 1_000);
        assert_eq!(get_highest_bid(env), u128::MAX);
        assert_eq!(get_highest_bidder(env), Some(bidder));
        assert_eq!(get_factory_contract(env), Some(factory));
    });
}

#[test]
fn numbered_auction_defaults() {
    run(|env| {
        assert!(!auction_exists(env, 1));
        assert_eq!(auction_get_status(env, 1).name, Symbol::new(env, "Open"));
        assert_eq!(auction_get_seller(env, 1), Err(AuctionError::InvalidState));
        assert_eq!(auction_get_asset(env, 1), Err(AuctionError::InvalidState));
        assert_eq!(auction_get_min_bid(env, 1), 0);
        assert_eq!(auction_get_end_time(env, 1), 0);
        assert!(auction_get_highest_bidder(env, 1).is_none());
        assert_eq!(auction_get_highest_bid(env, 1), 0);
        assert!(!auction_is_claimed(env, 1));
        assert_eq!(auction_get_username_hash(env, 1), hash(env, 0));
        let bidder = Address::generate(env);
        assert_eq!(auction_get_outbid_amount(env, 1, &bidder), 0);
        assert!(!auction_is_bid_refunded(env, 1, &bidder));
    });
}

#[test]
fn numbered_auction_round_trip() {
    run(|env| {
        let seller = Address::generate(env);
        let asset = Address::generate(env);
        let bidder = Address::generate(env);
        let other = Address::generate(env);
        auction_set_status(env, 7, AuctionStatus { name: Symbol::new(env, "Settled") });
        auction_set_seller(env, 7, &seller);
        auction_set_asset(env, 7, &asset);
        auction_set_min_bid(env, 7, -5);
        auction_set_end_time(env, 7, 99);
        auction_set_highest_bidder(env, 7, &bidder);
        auction_set_highest_bid(env, 7, i128::MIN);
        auction_set_claimed(env, 7);
        auction_set_username_hash(env, 7, &hash(env, 3));
        auction_set_outbid_amount(env, 7, &bidder, 42);
        auction_set_bid_refunded(env, 7, &bidder);
        assert!(auction_exists(env, 7));
        assert!(!auction_exists(env, 8));
        assert_eq!(auction_get_status(env, 7).name, Symbol::new(env, "Settled"));
        assert_eq!(auction_get_seller(env, 7), Ok(seller));
        assert_eq!(auction_get_asset(env, 7), Ok(asset));
        assert_eq!(auction_get_min_bid(env, 7), -5);
        assert_eq!(auction_get_end_time(env, 7), 99);
        assert_eq!(auction_get_highest_bidder(env, 7), Some(bidder.clone()));
        assert_eq!(auction_get_highest_bid(env, 7), i128::MIN);
        assert!(auction_is_claimed(env, 7));
        assert!(!auction_is_claimed(env, 8));
        assert_eq!(auction_get_username_hash(env, 7), hash(env, 3));
        assert_eq!(auction_get_outbid_amount(env, 7, &bidder), 42);
        assert_eq!(auction_get_outbid_amount(env, 7, &other), 0);
        assert!(auction_is_bid_refunded(env, 7, &bidder));
        assert!(!auction_is_bid_refunded(env, 7, &other));
    });
}

#[test]
fn add_bidder_records_each_bidder_once() {
    run(|env| {
        let h = hash(env, 1);
        assert_eq!(get_all_bidders(env, &h).len(), 0);
        let a = Address::generate(env);
        let b = Address::generate(env);
        add_bidder(env, &h, a.clone());
        add_bidder(env, &h, b.clone());
        add_bidder(env, &h, a.clone());
        let bidders = get_all_bidders(env, &h);
        assert_eq!(bidders.len(), 2);
        assert_eq!(bidders.get(0), Some(a));
        assert_eq!(bidders.get(1), Some(b));
        assert_eq!(get_all_bidders(env, &hash(env, 2)).len(), 0);
    });
}

#[test]
fn has_auction_sees_states() {
    run(|env| {
        let h = hash(env, 4);
        assert!(!has_auction(env, &h));
        let key = DataKey::Auction(h.clone()).to_key(env);
        set_persistent(env, &key, &Value::Bool(true));
        assert!(has_auction(env, &h));
    });
}

#[test]
fn add_bidder_again_leaves_lifetime() {
    run(|env| {
        let h = hash(env, 9);
        let a = Address::generate(env);
        add_bidder(env, &h, a.clone());
        let key = DataKey::AllBidders(h.clone()).to_key(env);
        assert_eq!(env.storage().persistent().get_ttl(&key), 518_400);
        env.ledger().with_mut(|l| l.sequence_number += 400_000);
        assert_eq!(env.storage().persistent().get_ttl(&key), 118_400);
        add_bidder(env, &h, a.clone());
        assert_eq!(env.storage().persistent().get_ttl(&key), 118_400);
        add_bidder(env, &h, Address::generate(env));
        assert_eq!(env.storage().persistent().get_ttl(&key), 518_400);
    });
}

#[test]
fn claimed_flag_survives_other_writes() {
    run(|env| {
        assert!(!auction_is_claimed(env, 1));
        auction_set_claimed(env, 1);
        let someone = Address::generate(env);
        auction_set_status(env, 1, AuctionStatus { name: Symbol::new(env, "Closed") });
        auction_set_seller(env, 1, &someone);
        auction_set_highest_bid(env, 1, 500);
        auction_set_bid_refunded(env, 1, &someone);
        auction_set_outbid_amount(env, 1, &someone, 20);
        auction_set_claimed(env, 2);
        add_bidder(env, &hash(env, 1), someone.clone());
        assert!(auction_is_claimed(env, 1));
        assert!(auction_is_claimed(env, 2));
        assert!(!auction_is_claimed(env, 3));
    });
}
