//! Storage of the auction contract.
//!
//! Auction states and bids are stored under `DataKey::Auction` and
//! `DataKey::Bid`; their record types belong to the contract itself, and the
//! library provides their keys.
use crate::host::{
    address_clone, address_id, address_list, address_vec_contains, address_vec_new, address_vec_push_back,
    bytesn_clone, bytesn_view, bytesn_zero, key_parts, symbol_name, KeyVal,
};
use crate::keys::{key_tag, key_tag_hash, key_tag_hash_address, key_tag_id, key_tag_id_address};
use crate::ledger::{in_contract, instance_entries, persistent_entries, persistent_has};
use crate::model::{key0, key1, key2, readable, Entry, KeyPart, ValueKind};
use crate::shared::{
    get_instance, get_persistent, lifetimes_kept, set_instance, set_persistent, written_and_bumped,
};
use crate::types::{AuctionError, AuctionStatus, Value};
use vstd::prelude::*;

verus! {

/// The per-username keys of the auction contract's persistent storage.
pub enum DataKey {
    /// The state of the auction for a username.
    Auction(soroban_sdk::BytesN<32>),
    /// One bidder's bid in the auction for a username.
    Bid(soroban_sdk::BytesN<32>, soroban_sdk::Address),
    /// Everyone who has bid in the auction for a username.
    AllBidders(soroban_sdk::BytesN<32>),
}

/// The parts of `DataKey::Auction`.
pub open spec fn auction_key(hash: Seq<u8>) -> Seq<KeyPart> {
    key1("Auction"@, KeyPart::Bytes(hash))
}

/// The parts of `DataKey::Bid`.
pub open spec fn bid_key(hash: Seq<u8>, address: Seq<char>) -> Seq<KeyPart> {
    key2("Bid"@, KeyPart::Bytes(hash), KeyPart::Addr(address))
}

/// The parts of `DataKey::AllBidders`.
pub open spec fn all_bidders_key(hash: Seq<u8>) -> Seq<KeyPart> {
    key1("AllBidders"@, KeyPart::Bytes(hash))
}

impl DataKey {
    /// The parts this key is stored under.
    pub open spec fn parts(self) -> Seq<KeyPart> {
        match self {
            DataKey::Auction(x0) => auction_key(bytesn_view(x0)),
            DataKey::Bid(x0, x1) => bid_key(bytesn_view(x0), address_id(x1)),
            DataKey::AllBidders(x0) => all_bidders_key(bytesn_view(x0)),
        }
    }

    /// The storage key for this key.
    pub fn to_key(&self, env: &soroban_sdk::Env) -> (k: KeyVal)
        ensures
            key_parts(k) == self.parts(),
    {
        match self {
            DataKey::Auction(x0) => {
                proof {
                    reveal_strlit("Auction");
                }
                key_tag_hash(env, "Auction", x0)
            },
            DataKey::Bid(x0, x1) => {
                proof {
                    reveal_strlit("Bid");
                }
                key_tag_hash_address(env, "Bid", x0, x1)
            },
            DataKey::AllBidders(x0) => {
                proof {
                    reveal_strlit("AllBidders");
                }
                key_tag_hash(env, "AllBidders", x0)
            },
        }
    }
}

/// The keys of the auction contract's instance storage.
pub enum InstanceKey {
    /// The status of the contract's auction.
    Status,
    /// The highest bidder so far.
    HighestBidder,
    /// The factory contract this auction works with.
    FactoryContract,
    /// When the auction ends.
    EndTime,
    /// The highest bid so far.
    HighestBid,
}

/// The parts of `InstanceKey::Status`.
pub open spec fn instance_status_key() -> Seq<KeyPart> {
    key0("Status"@)
}

/// The parts of `InstanceKey::HighestBidder`.
pub open spec fn instance_highest_bidder_key() -> Seq<KeyPart> {
    key0("HighestBidder"@)
}

/// The parts of `InstanceKey::FactoryContract`.
pub open spec fn instance_factory_contract_key() -> Seq<KeyPart> {
    key0("FactoryContract"@)
}

/// The parts of `InstanceKey::EndTime`.
pub open spec fn instance_end_time_key() -> Seq<KeyPart> {
    key0("EndTime"@)
}

/// The parts of `InstanceKey::HighestBid`.
pub open spec fn instance_highest_bid_key() -> Seq<KeyPart> {
    key0("HighestBid"@)
}

impl InstanceKey {
    /// The parts this key is stored under.
    pub open spec fn parts(self) -> Seq<KeyPart> {
        match self {
            InstanceKey::Status => instance_status_key(),
            InstanceKey::HighestBidder => instance_highest_bidder_key(),
            InstanceKey::FactoryContract => instance_factory_contract_key(),
            InstanceKey::EndTime => instance_end_time_key(),
            InstanceKey::HighestBid => instance_highest_bid_key(),
        }
    }

    /// The storage key for this key.
    pub fn to_key(&self, env: &soroban_sdk::Env) -> (k: KeyVal)
        ensures
            key_parts(k) == self.parts(),
    {
        match self {
            InstanceKey::Status => {
                proof {
                    reveal_strlit("Status");
                }
                key_tag(env, "Status")
            },
            InstanceKey::HighestBidder => {
                proof {
                    reveal_strlit("HighestBidder");
                }
                key_tag(env, "HighestBidder")
            },
            InstanceKey::FactoryContract => {
                proof {
                    reveal_strlit("FactoryContract");
                }
                key_tag(env, "FactoryContract")
            },
            InstanceKey::EndTime => {
                proof {
                    reveal_strlit("EndTime");
                }
                key_tag(env, "EndTime")
            },
            InstanceKey::HighestBid => {
                proof {
                    reveal_strlit("HighestBid");
                }
                key_tag(env, "HighestBid")
            },
        }
    }
}

/// The keys of numbered auctions in persistent storage.
pub enum AuctionKey {
    /// The status of an auction.
    Status(u32),
    /// The seller in an auction.
    Seller(u32),
    /// The asset an auction is paid in.
    Asset(u32),
    /// The smallest bid an auction accepts.
    MinBid(u32),
    /// When an auction ends.
    EndTime(u32),
    /// The highest bidder in an auction so far.
    HighestBidder(u32),
    /// The highest bid in an auction so far.
    HighestBid(u32),
    /// Whether an auction's prize was claimed.
    Claimed(u32),
    /// The username an auction is for.
    UsernameHash(u32),
    /// What an outbid bidder is owed in an auction.
    OutbidAmount(u32, soroban_sdk::Address),
    /// Whether an outbid bidder was refunded in an auction.
    BidRefunded(u32, soroban_sdk::Address),
}

/// The parts of `AuctionKey::Status`.
pub open spec fn auction_status_key(id: u32) -> Seq<KeyPart> {
    key1("Status"@, KeyPart::Id(id))
}

/// The parts of `AuctionKey::Seller`.
pub open spec fn auction_seller_key(id: u32) -> Seq<KeyPart> {
    key1("Seller"@, KeyPart::Id(id))
}

/// The parts of `AuctionKey::Asset`.
pub open spec fn auction_asset_key(id: u32) -> Seq<KeyPart> {
    key1("Asset"@, KeyPart::Id(id))
}

/// The parts of `AuctionKey::MinBid`.
pub open spec fn auction_min_bid_key(id: u32) -> Seq<KeyPart> {
    key1("MinBid"@, KeyPart::Id(id))
}

/// The parts of `AuctionKey::EndTime`.
pub open spec fn auction_end_time_key(id: u32) -> Seq<KeyPart> {
    key1("EndTime"@, KeyPart::Id(id))
}

/// The parts of `AuctionKey::HighestBidder`.
pub open spec fn auction_highest_bidder_key(id: u32) -> Seq<KeyPart> {
    key1("HighestBidder"@, KeyPart::Id(id))
}

/// The parts of `AuctionKey::HighestBid`.
pub open spec fn auction_highest_bid_key(id: u32) -> Seq<KeyPart> {
    key1("HighestBid"@, KeyPart::Id(id))
}

/// The parts of `AuctionKey::Claimed`.
pub open spec fn auction_claimed_key(id: u32) -> Seq<KeyPart> {
    key1("Claimed"@, KeyPart::Id(id))
}

/// The parts of `AuctionKey::UsernameHash`.
pub open spec fn auction_username_hash_key(id: u32) -> Seq<KeyPart> {
    key1("UsernameHash"@, KeyPart::Id(id))
}

/// The parts of `AuctionKey::OutbidAmount`.
pub open spec fn auction_outbid_amount_key(id: u32, address: Seq<char>) -> Seq<KeyPart> {
    key2("OutbidAmount"@, KeyPart::Id(id), KeyPart::Addr(address))
}

/// The parts of `AuctionKey::BidRefunded`.
pub open spec fn auction_bid_refunded_key(id: u32, address: Seq<char>) -> Seq<KeyPart> {
    key2("BidRefunded"@, KeyPart::Id(id), KeyPart::Addr(address))
}

impl AuctionKey {
    /// The parts this key is stored under.
    pub open spec fn parts(self) -> Seq<KeyPart> {
        match self {
            AuctionKey::Status(x0) => auction_status_key(x0),
            AuctionKey::Seller(x0) => auction_seller_key(x0),
            AuctionKey::Asset(x0) => auction_asset_key(x0),
            AuctionKey::MinBid(x0) => auction_min_bid_key(x0),
            AuctionKey::EndTime(x0) => auction_end_time_key(x0),
            AuctionKey::HighestBidder(x0) => auction_highest_bidder_key(x0),
            AuctionKey::HighestBid(x0) => auction_highest_bid_key(x0),
            AuctionKey::Claimed(x0) => auction_claimed_key(x0),
            AuctionKey::UsernameHash(x0) => auction_username_hash_key(x0),
            AuctionKey::OutbidAmount(x0, x1) => auction_outbid_amount_key(x0, address_id(x1)),
            AuctionKey::BidRefunded(x0, x1) => auction_bid_refunded_key(x0, address_id(x1)),
        }
    }

    /// The storage key for this key.
    pub fn to_key(&self, env: &soroban_sdk::Env) -> (k: KeyVal)
        ensures
            key_parts(k) == self.parts(),
    {
        match self {
            AuctionKey::Status(x0) => {
                proof {
                    reveal_strlit("Status");
                }
                key_tag_id(env, "Status", *x0)
            },
            AuctionKey::Seller(x0) => {
                proof {
                    reveal_strlit("Seller");
                }
                key_tag_id(env, "Seller", *x0)
            },
            AuctionKey::Asset(x0) => {
                proof {
                    reveal_strlit("Asset");
                }
                key_tag_id(env, "Asset", *x0)
            },
            AuctionKey::MinBid(x0) => {
                proof {
                    reveal_strlit("MinBid");
                }
                key_tag_id(env, "MinBid", *x0)
            },
            AuctionKey::EndTime(x0) => {
                proof {
                    reveal_strlit("EndTime");
                }
                key_tag_id(env, "EndTime", *x0)
            },
            AuctionKey::HighestBidder(x0) => {
                proof {
                    reveal_strlit("HighestBidder");
                }
                key_tag_id(env, "HighestBidder", *x0)
            },
            AuctionKey::HighestBid(x0) => {
                proof {
                    reveal_strlit("HighestBid");
                }
                key_tag_id(env, "HighestBid", *x0)
            },
            AuctionKey::Claimed(x0) => {
                proof {
                    reveal_strlit("Claimed");
                }
                key_tag_id(env, "Claimed", *x0)
            },
            AuctionKey::UsernameHash(x0) => {
                proof {
                    reveal_strlit("UsernameHash");
                }
                key_tag_id(env, "UsernameHash", *x0)
            },
            AuctionKey::OutbidAmount(x0, x1) => {
                proof {
                    reveal_strlit("OutbidAmount");
                }
                key_tag_id_address(env, "OutbidAmount", *x0, x1)
            },
            AuctionKey::BidRefunded(x0, x1) => {
                proof {
                    reveal_strlit("BidRefunded");
                }
                key_tag_id_address(env, "BidRefunded", *x0, x1)
            },
        }
    }
}

/// The status of the contract's auction: the one set, or `Open`.
pub fn get_status(env: &soroban_sdk::Env) -> (r: AuctionStatus)
    requires
        in_contract(*env),
        readable(instance_entries(*env), instance_status_key(), ValueKind::Variant),
    ensures
        symbol_name(r.name) == (if instance_entries(*env).contains_key(instance_status_key()) {
            instance_entries(*env)[instance_status_key()]->Variant_0
        } else {
            "Open"@
        }),
{
    let key = InstanceKey::Status.to_key(env);
    match get_instance(env, &key, ValueKind::Variant) {
        Some(Value::Variant(name)) => AuctionStatus { name },
        _ => AuctionStatus::open(env),
    }
}

/// Sets the status of the contract's auction.
pub fn set_status(env: &mut soroban_sdk::Env, status: AuctionStatus)
    requires
        in_contract(*old(env)),
    ensures
        in_contract(*final(env)),
        instance_entries(*final(env)) == instance_entries(*old(env)).insert(instance_status_key(), Entry::Variant(symbol_name(status.name))),
        persistent_entries(*final(env)) == persistent_entries(*old(env)),
        lifetimes_kept(*old(env), *final(env)),
{
    let key = InstanceKey::Status.to_key(env);
    set_instance(env, &key, &Value::Variant(status.name));
}

/// The highest bidder so far.
pub fn get_highest_bidder(env: &soroban_sdk::Env) -> (r: Option<soroban_sdk::Address>)
    requires
        in_contract(*env),
        readable(instance_entries(*env), instance_highest_bidder_key(), ValueKind::Address),
    ensures
        r is None <==> !instance_entries(*env).contains_key(instance_highest_bidder_key()),
        r matches Some(v) ==> instance_entries(*env)[instance_highest_bidder_key()] == Entry::Addr(address_id(v)),
{
    let key = InstanceKey::HighestBidder.to_key(env);
    match get_instance(env, &key, ValueKind::Address) {
        Some(Value::Address(v)) => Some(v),
        _ => None,
    }
}

/// Sets the highest bidder.
pub fn set_highest_bidder(env: &mut soroban_sdk::Env, bidder: &soroban_sdk::Address)
    requires
        in_contract(*old(env)),
    ensures
        in_contract(*final(env)),
        instance_entries(*final(env)) == instance_entries(*old(env)).insert(instance_highest_bidder_key(), Entry::Addr(address_id(*bidder))),
        persistent_entries(*final(env)) == persistent_entries(*old(env)),
        lifetimes_kept(*old(env), *final(env)),
{
    let key = InstanceKey::HighestBidder.to_key(env);
    set_instance(env, &key, &Value::Address(address_clone(bidder)));
}

/// The factory contract address.
pub fn get_factory_contract(env: &soroban_sdk::Env) -> (r: Option<soroban_sdk::Address>)
    requires
        in_contract(*env),
        readable(instance_entries(*env), instance_factory_contract_key(), ValueKind::Address),
    ensures
        r is None <==> !instance_entries(*env).contains_key(instance_factory_contract_key()),
        r matches Some(v) ==> instance_entries(*env)[instance_factory_contract_key()] == Entry::Addr(address_id(v)),
{
    let key = InstanceKey::FactoryContract.to_key(env);
    match get_instance(env, &key, ValueKind::Address) {
        Some(Value::Address(v)) => Some(v),
        _ => None,
    }
}

/// Sets the factory contract address.
pub fn set_factory_contract(env: &mut soroban_sdk::Env, factory: &soroban_sdk::Address)
    requires
        in_contract(*old(env)),
    ensures
        in_contract(*final(env)),
        instance_entries(*final(env)) == instance_entries(*old(env)).insert(instance_factory_contract_key(), Entry::Addr(address_id(*factory))),
        persistent_entries(*final(env)) == persistent_entries(*old(env)),
        lifetimes_kept(*old(env), *final(env)),
{
    let key = InstanceKey::FactoryContract.to_key(env);
    set_instance(env, &key, &Value::Address(address_clone(factory)));
}

/// When the auction ends (0 until set).
pub fn get_end_time(env: &soroban_sdk::Env) -> (r: u64)
    requires
        in_contract(*env),
        readable(instance_entries(*env), instance_end_time_key(), ValueKind::U64),
    ensures
        instance_entries(*env).contains_key(instance_end_time_key()) ==> instance_entries(*env)[instance_end_time_key()] == Entry::U64(r),
        !instance_entries(*env).contains_key(instance_end_time_key()) ==> r == 0,
{
    let key = InstanceKey::EndTime.to_key(env);
    match get_instance(env, &key, ValueKind::U64) {
        Some(Value::U64(v)) => v,
        _ => 0,
    }
}

/// Sets when the auction ends.
pub fn set_end_time(env: &mut soroban_sdk::Env, end_time: u64)
    requires
        in_contract(*old(env)),
    ensures
        in_contract(*final(env)),
        instance_entries(*final(env)) == instance_entries(*old(env)).insert(instance_end_time_key(), Entry::U64(end_time)),
        persistent_entries(*final(env)) == persistent_entries(*old(env)),
        lifetimes_kept(*old(env), *final(env)),
{
    let key = InstanceKey::EndTime.to_key(env);
    set_instance(env, &key, &Value::U64(end_time));
}

/// The highest bid so far (0 until set).
pub fn get_highest_bid(env: &soroban_sdk::Env) -> (r: u128)
    requires
        in_contract(*env),
        readable(instance_entries(*env), instance_highest_bid_key(), ValueKind::U128),
    ensures
        instance_entries(*env).contains_key(instance_highest_bid_key()) ==> instance_entries(*env)[instance_highest_bid_key()] == Entry::U128(r),
        !instance_entries(*env).contains_key(instance_highest_bid_key()) ==> r == 0,
{
    let key = InstanceKey::HighestBid.to_key(env);
    match get_instance(env, &key, ValueKind::U128) {
        Some(Value::U128(v)) => v,
        _ => 0,
    }
}

/// Sets the highest bid.
pub fn set_highest_bid(env: &mut soroban_sdk::Env, bid: u128)
    requires
        in_contract(*old(env)),
    ensures
        in_contract(*final(env)),
        instance_entries(*final(env)) == instance_entries(*old(env)).insert(instance_highest_bid_key(), Entry::U128(bid)),
        persistent_entries(*final(env)) == persistent_entries(*old(env)),
        lifetimes_kept(*old(env), *final(env)),
{
    let key = InstanceKey::HighestBid.to_key(env);
    set_instance(env, &key, &Value::U128(bid));
}

/// Whether auction `id` exists (has a status).
pub fn auction_exists(env: &soroban_sdk::Env, id: u32) -> (r: bool)
    requires
        in_contract(*env),
    ensures
        r == persistent_entries(*env).contains_key(auction_status_key(id)),
{
    let key = AuctionKey::Status(id).to_key(env);
    persistent_has(env, &key)
}

/// The status of auction `id`: the one set, or `Open`.
pub fn auction_get_status(env: &soroban_sdk::Env, id: u32) -> (r: AuctionStatus)
    requires
        in_contract(*env),
        readable(persistent_entries(*env), auction_status_key(id), ValueKind::Variant),
    ensures
        symbol_name(r.name) == (if persistent_entries(*env).contains_key(auction_status_key(id)) {
            persistent_entries(*env)[auction_status_key(id)]->Variant_0
        } else {
            "Open"@
        }),
{
    let key = AuctionKey::Status(id).to_key(env);
    match get_persistent(env, &key, ValueKind::Variant) {
        Some(Value::Variant(name)) => AuctionStatus { name },
        _ => AuctionStatus::open(env),
    }
}

/// Sets the status of auction `id`.
pub fn auction_set_status(env: &mut soroban_sdk::Env, id: u32, status: AuctionStatus)
    requires
        in_contract(*old(env)),
    ensures
        in_contract(*final(env)),
        persistent_entries(*final(env)) == persistent_entries(*old(env)).insert(auction_status_key(id), Entry::Variant(symbol_name(status.name))),
        instance_entries(*final(env)) == instance_entries(*old(env)),
        written_and_bumped(*old(env), *final(env), auction_status_key(id)),
{
    let key = AuctionKey::Status(id).to_key(env);
    set_persistent(env, &key, &Value::Variant(status.name));
}

/// The seller in auction `id`; an auction without one is in an invalid state.
pub fn auction_get_seller(env: &soroban_sdk::Env, id: u32) -> (r: Result<soroban_sdk::Address, AuctionError>)
    requires
        in_contract(*env),
        readable(persistent_entries(*env), auction_seller_key(id), ValueKind::Address),
    ensures
        !persistent_entries(*env).contains_key(auction_seller_key(id)) ==> r == Err::<soroban_sdk::Address, AuctionError>(
            AuctionError::InvalidState,
        ),
        persistent_entries(*env).contains_key(auction_seller_key(id)) ==> (r matches Ok(a)
            && persistent_entries(*env)[auction_seller_key(id)] == Entry::Addr(address_id(a))),
{
    let key = AuctionKey::Seller(id).to_key(env);
    match get_persistent(env, &key, ValueKind::Address) {
        Some(Value::Address(a)) => Ok(a),
        _ => Err(AuctionError::InvalidState),
    }
}

/// Sets the seller in auction `id`.
pub fn auction_set_seller(env: &mut soroban_sdk::Env, id: u32, seller: &soroban_sdk::Address)
    requires
        in_contract(*old(env)),
    ensures
        in_contract(*final(env)),
        persistent_entries(*final(env)) == persistent_entries(*old(env)).insert(auction_seller_key(id), Entry::Addr(address_id(*seller))),
        instance_entries(*final(env)) == instance_entries(*old(env)),
        written_and_bumped(*old(env), *final(env), auction_seller_key(id)),
{
    let key = AuctionKey::Seller(id).to_key(env);
    set_persistent(env, &key, &Value::Address(address_clone(seller)));
}

/// The asset auction `id` is paid in; an auction without one is in an invalid state.
pub fn auction_get_asset(env: &soroban_sdk::Env, id: u32) -> (r: Result<soroban_sdk::Address, AuctionError>)
    requires
        in_contract(*env),
        readable(persistent_entries(*env), auction_asset_key(id), ValueKind::Address),
    ensures
        !persistent_entries(*env).contains_key(auction_asset_key(id)) ==> r == Err::<soroban_sdk::Address, AuctionError>(
            AuctionError::InvalidState,
        ),
        persistent_entries(*env).contains_key(auction_asset_key(id)) ==> (r matches Ok(a)
            && persistent_entries(*env)[auction_asset_key(id)] == Entry::Addr(address_id(a))),
{
    let key = AuctionKey::Asset(id).to_key(env);
    match get_persistent(env, &key, ValueKind::Address) {
        Some(Value::Address(a)) => Ok(a),
        _ => Err(AuctionError::InvalidState),
    }
}

/// Sets the asset auction `id` is paid in.
pub fn auction_set_asset(env: &mut soroban_sdk::Env, id: u32, asset: &soroban_sdk::Address)
    requires
        in_contract(*old(env)),
    ensures
        in_contract(*final(env)),
        persistent_entries(*final(env)) == persistent_entries(*old(env)).insert(auction_asset_key(id), Entry::Addr(address_id(*asset))),
        instance_entries(*final(env)) == instance_entries(*old(env)),
        written_and_bumped(*old(env), *final(env), auction_asset_key(id)),
{
    let key = AuctionKey::Asset(id).to_key(env);
    set_persistent(env, &key, &Value::Address(address_clone(asset)));
}

/// The smallest bid auction `id` accepts (0 until set).
pub fn auction_get_min_bid(env: &soroban_sdk::Env, id: u32) -> (r: i128)
    requires
        in_contract(*env),
        readable(persistent_entries(*env), auction_min_bid_key(id), ValueKind::I128),
    ensures
        persistent_entries(*env).contains_key(auction_min_bid_key(id)) ==> persistent_entries(*env)[auction_min_bid_key(id)] == Entry::I128(r),
        !persistent_entries(*env).contains_key(auction_min_bid_key(id)) ==> r == 0,
{
    let key = AuctionKey::MinBid(id).to_key(env);
    match get_persistent(env, &key, ValueKind::I128) {
        Some(Value::I128(v)) => v,
        _ => 0,
    }
}

/// Sets the smallest bid auction `id` accepts.
pub fn auction_set_min_bid(env: &mut soroban_sdk::Env, id: u32, min_bid: i128)
    requires
        in_contract(*old(env)),
    ensures
        in_contract(*final(env)),
        persistent_entries(*final(env)) == persistent_entries(*old(env)).insert(auction_min_bid_key(id), Entry::I128(min_bid)),
        instance_entries(*final(env)) == instance_entries(*old(env)),
        written_and_bumped(*old(env), *final(env), auction_min_bid_key(id)),
{
    let key = AuctionKey::MinBid(id).to_key(env);
    set_persistent(env, &key, &Value::I128(min_bid));
}

/// When auction `id` ends (0 until set).
pub fn auction_get_end_time(env: &soroban_sdk::Env, id: u32) -> (r: u64)
    requires
        in_contract(*env),
        readable(persistent_entries(*env), auction_end_time_key(id), ValueKind::U64),
    ensures
        persistent_entries(*env).contains_key(auction_end_time_key(id)) ==> persistent_entries(*env)[auction_end_time_key(id)] == Entry::U64(r),
        !persistent_entries(*env).contains_key(auction_end_time_key(id)) ==> r == 0,
{
    let key = AuctionKey::EndTime(id).to_key(env);
    match get_persistent(env, &key, ValueKind::U64) {
        Some(Value::U64(v)) => v,
        _ => 0,
    }
}

/// Sets when auction `id` ends.
pub fn auction_set_end_time(env: &mut soroban_sdk::Env, id: u32, end_time: u64)
    requires
        in_contract(*old(env)),
    ensures
        in_contract(*final(env)),
        persistent_entries(*final(env)) == persistent_entries(*old(env)).insert(auction_end_time_key(id), Entry::U64(end_time)),
        instance_entries(*final(env)) == instance_entries(*old(env)),
        written_and_bumped(*old(env), *final(env), auction_end_time_key(id)),
{
    let key = AuctionKey::EndTime(id).to_key(env);
    set_persistent(env, &key, &Value::U64(end_time));
}

/// The highest bidder in auction `id` so far.
pub fn auction_get_highest_bidder(env: &soroban_sdk::Env, id: u32) -> (r: Option<soroban_sdk::Address>)
    requires
        in_contract(*env),
        readable(persistent_entries(*env), auction_highest_bidder_key(id), ValueKind::Address),
    ensures
        r is None <==> !persistent_entries(*env).contains_key(auction_highest_bidder_key(id)),
        r matches Some(v) ==> persistent_entries(*env)[auction_highest_bidder_key(id)] == Entry::Addr(address_id(v)),
{
    let key = AuctionKey::HighestBidder(id).to_key(env);
    match get_persistent(env, &key, ValueKind::Address) {
        Some(Value::Address(v)) => Some(v),
        _ => None,
    }
}

/// Sets the highest bidder in auction `id`.
pub fn auction_set_highest_bidder(env: &mut soroban_sdk::Env, id: u32, bidder: &soroban_sdk::Address)
    requires
        in_contract(*old(env)),
    ensures
        in_contract(*final(env)),
        persistent_entries(*final(env)) == persistent_entries(*old(env)).insert(auction_highest_bidder_key(id), Entry::Addr(address_id(*bidder))),
        instance_entries(*final(env)) == instance_entries(*old(env)),
        written_and_bumped(*old(env), *final(env), auction_highest_bidder_key(id)),
{
    let key = AuctionKey::HighestBidder(id).to_key(env);
    set_persistent(env, &key, &Value::Address(address_clone(bidder)));
}

/// The highest bid in auction `id` so far (0 until set).
pub fn auction_get_highest_bid(env: &soroban_sdk::Env, id: u32) -> (r: i128)
    requires
        in_contract(*env),
        readable(persistent_entries(*env), auction_highest_bid_key(id), ValueKind::I128),
    ensures
        persistent_entries(*env).contains_key(auction_highest_bid_key(id)) ==> persistent_entries(*env)[auction_highest_bid_key(id)] == Entry::I128(r),
        !persistent_entries(*env).contains_key(auction_highest_bid_key(id)) ==> r == 0,
{
    let key = AuctionKey::HighestBid(id).to_key(env);
    match get_persistent(env, &key, ValueKind::I128) {
        Some(Value::I128(v)) => v,
        _ => 0,
    }
}

/// Sets the highest bid in auction `id`.
pub fn auction_set_highest_bid(env: &mut soroban_sdk::Env, id: u32, bid: i128)
    requires
        in_contract(*old(env)),
    ensures
        in_contract(*final(env)),
        persistent_entries(*final(env)) == persistent_entries(*old(env)).insert(auction_highest_bid_key(id), Entry::I128(bid)),
        instance_entries(*final(env)) == instance_entries(*old(env)),
        written_and_bumped(*old(env), *final(env), auction_highest_bid_key(id)),
{
    let key = AuctionKey::HighestBid(id).to_key(env);
    set_persistent(env, &key, &Value::I128(bid));
}

/// Whether the prize of auction `id` was claimed (false until set).
pub fn auction_is_claimed(env: &soroban_sdk::Env, id: u32) -> (r: bool)
    requires
        in_contract(*env),
        readable(persistent_entries(*env), auction_claimed_key(id), ValueKind::Bool),
    ensures
        persistent_entries(*env).contains_key(auction_claimed_key(id)) ==> persistent_entries(*env)[auction_claimed_key(id)] == Entry::Bool(r),
        !persistent_entries(*env).contains_key(auction_claimed_key(id)) ==> r == false,
{
    let key = AuctionKey::Claimed(id).to_key(env);
    match get_persistent(env, &key, ValueKind::Bool) {
        Some(Value::Bool(v)) => v,
        _ => false,
    }
}

/// Records that the prize of auction `id` was claimed.
pub fn auction_set_claimed(env: &mut soroban_sdk::Env, id: u32)
    requires
        in_contract(*old(env)),
    ensures
        in_contract(*final(env)),
        persistent_entries(*final(env)) == persistent_entries(*old(env)).insert(auction_claimed_key(id), Entry::Bool(true)),
        instance_entries(*final(env)) == instance_entries(*old(env)),
        written_and_bumped(*old(env), *final(env), auction_claimed_key(id)),
{
    let key = AuctionKey::Claimed(id).to_key(env);
    set_persistent(env, &key, &Value::Bool(true));
}

/// The username auction `id` is for (thirty-two zero bytes until set).
pub fn auction_get_username_hash(env: &soroban_sdk::Env, id: u32) -> (r: soroban_sdk::BytesN<32>)
    requires
        in_contract(*env),
        readable(persistent_entries(*env), auction_username_hash_key(id), ValueKind::Hash),
    ensures
        persistent_entries(*env).contains_key(auction_username_hash_key(id)) ==> persistent_entries(*env)[auction_username_hash_key(id)]
            == Entry::Bytes(bytesn_view(r)),
        !persistent_entries(*env).contains_key(auction_username_hash_key(id)) ==> bytesn_view(r) == Seq::new(32, |i: int| 0u8),
{
    let key = AuctionKey::UsernameHash(id).to_key(env);
    match get_persistent(env, &key, ValueKind::Hash) {
        Some(Value::Hash(h)) => h,
        _ => bytesn_zero(env),
    }
}

/// Sets the username auction `id` is for.
pub fn auction_set_username_hash(env: &mut soroban_sdk::Env, id: u32, username_hash: &soroban_sdk::BytesN<32>)
    requires
        in_contract(*old(env)),
    ensures
        in_contract(*final(env)),
        persistent_entries(*final(env)) == persistent_entries(*old(env)).insert(auction_username_hash_key(id), Entry::Bytes(bytesn_view(*username_hash))),
        instance_entries(*final(env)) == instance_entries(*old(env)),
        written_and_bumped(*old(env), *final(env), auction_username_hash_key(id)),
{
    let key = AuctionKey::UsernameHash(id).to_key(env);
    set_persistent(env, &key, &Value::Hash(bytesn_clone(username_hash)));
}

/// What the outbid `bidder` is owed in auction `id` (0 until set).
pub fn auction_get_outbid_amount(env: &soroban_sdk::Env, id: u32, bidder: &soroban_sdk::Address) -> (r: i128)
    requires
        in_contract(*env),
        readable(persistent_entries(*env), auction_outbid_amount_key(id, address_id(*bidder)), ValueKind::I128),
    ensures
        persistent_entries(*env).contains_key(auction_outbid_amount_key(id, address_id(*bidder))) ==> persistent_entries(*env)[auction_outbid_amount_key(id, address_id(*bidder))] == Entry::I128(r),
        !persistent_entries(*env).contains_key(auction_outbid_amount_key(id, address_id(*bidder))) ==> r == 0,
{
    let key = AuctionKey::OutbidAmount(id, address_clone(bidder)).to_key(env);
    match get_persistent(env, &key, ValueKind::I128) {
        Some(Value::I128(v)) => v,
        _ => 0,
    }
}

/// Sets what the outbid `bidder` is owed in auction `id`.
pub fn auction_set_outbid_amount(env: &mut soroban_sdk::Env, id: u32, bidder: &soroban_sdk::Address, amount: i128)
    requires
        in_contract(*old(env)),
    ensures
        in_contract(*final(env)),
        persistent_entries(*final(env)) == persistent_entries(*old(env)).insert(auction_outbid_amount_key(id, address_id(*bidder)), Entry::I128(amount)),
        instance_entries(*final(env)) == instance_entries(*old(env)),
        written_and_bumped(*old(env), *final(env), auction_outbid_amount_key(id, address_id(*bidder))),
{
    let key = AuctionKey::OutbidAmount(id, address_clone(bidder)).to_key(env);
    set_persistent(env, &key, &Value::I128(amount));
}

/// Whether `bidder` was refunded in auction `id` (false until set).
pub fn auction_is_bid_refunded(env: &soroban_sdk::Env, id: u32, bidder: &soroban_sdk::Address) -> (r: bool)
    requires
        in_contract(*env),
        readable(persistent_entries(*env), auction_bid_refunded_key(id, address_id(*bidder)), ValueKind::Bool),
    ensures
        persistent_entries(*env).contains_key(auction_bid_refunded_key(id, address_id(*bidder))) ==> persistent_entries(*env)[auction_bid_refunded_key(id, address_id(*bidder))] == Entry::Bool(r),
        !persistent_entries(*env).contains_key(auction_bid_refunded_key(id, address_id(*bidder))) ==> r == false,
{
    let key = AuctionKey::BidRefunded(id, address_clone(bidder)).to_key(env);
    match get_persistent(env, &key, ValueKind::Bool) {
        Some(Value::Bool(v)) => v,
        _ => false,
    }
}

/// Records that `bidder` was refunded in auction `id`.
pub fn auction_set_bid_refunded(env: &mut soroban_sdk::Env, id: u32, bidder: &soroban_sdk::Address)
    requires
        in_contract(*old(env)),
    ensures
        in_contract(*final(env)),
        persistent_entries(*final(env)) == persistent_entries(*old(env)).insert(auction_bid_refunded_key(id, address_id(*bidder)), Entry::Bool(true)),
        instance_entries(*final(env)) == instance_entries(*old(env)),
        written_and_bumped(*old(env), *final(env), auction_bid_refunded_key(id, address_id(*bidder))),
{
    let key = AuctionKey::BidRefunded(id, address_clone(bidder)).to_key(env);
    set_persistent(env, &key, &Value::Bool(true));
}

/// Whether there is an auction for a username.
pub fn has_auction(env: &soroban_sdk::Env, hash: &soroban_sdk::BytesN<32>) -> (r: bool)
    requires
        in_contract(*env),
    ensures
        r == persistent_entries(*env).contains_key(auction_key(bytesn_view(*hash))),
{
    let key = DataKey::Auction(bytesn_clone(hash)).to_key(env);
    persistent_has(env, &key)
}

/// The bidders of the auction for a username, in the order they first bid
/// (none until someone bids).
pub fn get_all_bidders(env: &soroban_sdk::Env, hash: &soroban_sdk::BytesN<32>) -> (r: soroban_sdk::Vec<soroban_sdk::Address>)
    requires
        in_contract(*env),
        readable(persistent_entries(*env), all_bidders_key(bytesn_view(*hash)), ValueKind::Addresses),
    ensures
        address_list(r) == bidder_list(persistent_entries(*env), bytesn_view(*hash)),
{
    let key = DataKey::AllBidders(bytesn_clone(hash)).to_key(env);
    match get_persistent(env, &key, ValueKind::Addresses) {
        Some(Value::Addresses(v)) => v,
        _ => address_vec_new(env),
    }
}

/// The bidders recorded for a username (none when nothing is stored).
pub open spec fn bidder_list(p: Map<Seq<KeyPart>, Entry>, hash: Seq<u8>) -> Seq<Seq<char>> {
    if p.contains_key(all_bidders_key(hash)) {
        p[all_bidders_key(hash)]->Addrs_0
    } else {
        Seq::empty()
    }
}

/// Persistent storage after recording `bidder` for a username: a new bidder
/// is appended; one already recorded leaves storage as it was.
pub open spec fn with_bidder(p: Map<Seq<KeyPart>, Entry>, hash: Seq<u8>, bidder: Seq<char>) -> Map<Seq<KeyPart>, Entry> {
    if bidder_list(p, hash).contains(bidder) {
        p
    } else {
        p.insert(all_bidders_key(hash), Entry::Addrs(bidder_list(p, hash).push(bidder)))
    }
}

/// Records `bidder` as a bidder in the auction for a username, once.
pub fn add_bidder(env: &mut soroban_sdk::Env, hash: &soroban_sdk::BytesN<32>, bidder: soroban_sdk::Address)
    requires
        in_contract(*old(env)),
        readable(persistent_entries(*old(env)), all_bidders_key(bytesn_view(*hash)), ValueKind::Addresses),
        bidder_list(persistent_entries(*old(env)), bytesn_view(*hash)).len() < u32::MAX,
    ensures
        in_contract(*final(env)),
        persistent_entries(*final(env)) == with_bidder(persistent_entries(*old(env)), bytesn_view(*hash), address_id(bidder)),
        instance_entries(*final(env)) == instance_entries(*old(env)),
        bidder_list(persistent_entries(*old(env)), bytesn_view(*hash)).contains(address_id(bidder)) ==> lifetimes_kept(
            *old(env),
            *final(env),
        ),
        !bidder_list(persistent_entries(*old(env)), bytesn_view(*hash)).contains(address_id(bidder)) ==> written_and_bumped(
            *old(env),
            *final(env),
            all_bidders_key(bytesn_view(*hash)),
        ),
{
    let mut bidders = get_all_bidders(env, hash);
    if !address_vec_contains(&bidders, &bidder) {
        address_vec_push_back(&mut bidders, bidder);
        let key = DataKey::AllBidders(bytesn_clone(hash)).to_key(env);
        set_persistent(env, &key, &Value::Addresses(bidders));
    }
}


impl InstanceKey {
    /// The position of this key's variant in the enum.
    pub open spec fn variant_index(self) -> int {
        match self {
            InstanceKey::Status => 0,
            InstanceKey::HighestBidder => 1,
            InstanceKey::FactoryContract => 2,
            InstanceKey::EndTime => 3,
            InstanceKey::HighestBid => 4,
        }
    }
}

/// Keys of different variants never collide, so writing one leaves what the others hold.
pub proof fn law_instance_keys_distinct(a: InstanceKey, b: InstanceKey)
    requires
        a.variant_index() != b.variant_index(),
    ensures
        a.parts() != b.parts(),
{
    reveal_strlit("Status");
    reveal_strlit("HighestBidder");
    reveal_strlit("FactoryContract");
    reveal_strlit("EndTime");
    reveal_strlit("HighestBid");
    assert("Status"@.len() != "HighestBidder"@.len());
    assert("Status"@.len() != "FactoryContract"@.len());
    assert("Status"@.len() != "EndTime"@.len());
    assert("Status"@.len() != "HighestBid"@.len());
    assert("HighestBidder"@.len() != "FactoryContract"@.len());
    assert("HighestBidder"@.len() != "EndTime"@.len());
    assert("HighestBidder"@.len() != "HighestBid"@.len());
    assert("FactoryContract"@.len() != "EndTime"@.len());
    assert("FactoryContract"@.len() != "HighestBid"@.len());
    assert("EndTime"@.len() != "HighestBid"@.len());
    assert(a.parts()[0] != b.parts()[0]);
}


impl AuctionKey {
    /// The position of this key's variant in the enum.
    pub open spec fn variant_index(self) -> int {
        match self {
            AuctionKey::Status(..) => 0,
            AuctionKey::Seller(..) => 1,
            AuctionKey::Asset(..) => 2,
            AuctionKey::MinBid(..) => 3,
            AuctionKey::EndTime(..) => 4,
            AuctionKey::HighestBidder(..) => 5,
            AuctionKey::HighestBid(..) => 6,
            AuctionKey::Claimed(..) => 7,
            AuctionKey::UsernameHash(..) => 8,
            AuctionKey::OutbidAmount(..) => 9,
            AuctionKey::BidRefunded(..) => 10,
        }
    }
}

/// Keys of different variants never collide, so writing one leaves what the others hold.
pub proof fn law_auction_keys_distinct(a: AuctionKey, b: AuctionKey)
    requires
        a.variant_index() != b.variant_index(),
    ensures
        a.parts() != b.parts(),
{
    reveal_strlit("Status");
    reveal_strlit("Seller");
    reveal_strlit("Asset");
    reveal_strlit("MinBid");
    reveal_strlit("EndTime");
    reveal_strlit("HighestBidder");
    reveal_strlit("HighestBid");
    reveal_strlit("Claimed");
    reveal_strlit("UsernameHash");
    reveal_strlit("OutbidAmount");
    reveal_strlit("BidRefunded");
    assert("Status"@[1] != "Seller"@[1]);
    assert("Status"@.len() != "Asset"@.len());
    assert("Status"@[0] != "MinBid"@[0]);
    assert("Status"@.len() != "EndTime"@.len());
    assert("Status"@.len() != "HighestBidder"@.len());
    assert("Status"@.len() != "HighestBid"@.len());
    assert("Status"@.len() != "Claimed"@.len());
    assert("Status"@.len() != "UsernameHash"@.len());
    assert("Status"@.len() != "OutbidAmount"@.len());
    assert("Status"@.len() != "BidRefunded"@.len());
    assert("Seller"@.len() != "Asset"@.len());
    assert("Seller"@[0] != "MinBid"@[0]);
    assert("Seller"@.len() != "EndTime"@.len());
    assert("Seller"@.len() != "HighestBidder"@.len());
    assert("Seller"@.len() != "HighestBid"@.len());
    assert("Seller"@.len() != "Claimed"@.len());
    assert("Seller"@.len() != "UsernameHash"@.len());
    assert("Seller"@.len() != "OutbidAmount"@.len());
    assert("Seller"@.len() != "BidRefunded"@.len());
    assert("Asset"@.len() != "MinBid"@.len());
    assert("Asset"@.len() != "EndTime"@.len());
    assert("Asset"@.len() != "HighestBidder"@.len());
    assert("Asset"@.len() != "HighestBid"@.len());
    assert("Asset"@.len() != "Claimed"@.len());
    assert("Asset"@.len() != "UsernameHash"@.len());
    assert("Asset"@.len() != "OutbidAmount"@.len());
    assert("Asset"@.len() != "BidRefunded"@.len());
    assert("MinBid"@.len() != "EndTime"@.len());
    assert("MinBid"@.len() != "HighestBidder"@.len());
    assert("MinBid"@.len() != "HighestBid"@.len());
    assert("MinBid"@.len() != "Claimed"@.len());
    assert("MinBid"@.len() != "UsernameHash"@.len());
    assert("MinBid"@.len() != "OutbidAmount"@.len());
    assert("MinBid"@.len() != "BidRefunded"@.len());
    assert("EndTime"@.len() != "HighestBidder"@.len());
    assert("EndTime"@.len() != "HighestBid"@.len());
    assert("EndTime"@[0] != "Claimed"@[0]);
    assert("EndTime"@.len() != "UsernameHash"@.len());
    assert("EndTime"@.len() != "OutbidAmount"@.len());
    assert("EndTime"@.len() != "BidRefunded"@.len());
    assert("HighestBidder"@.len() != "HighestBid"@.len());
    assert("HighestBidder"@.len() != "Claimed"@.len());
    assert("HighestBidder"@.len() != "UsernameHash"@.len());
    assert("HighestBidder"@.len() != "OutbidAmount"@.len());
    assert("HighestBidder"@.len() != "BidRefunded"@.len());
    assert("HighestBid"@.len() != "Claimed"@.len());
    assert("HighestBid"@.len() != "UsernameHash"@.len());
    assert("HighestBid"@.len() != "OutbidAmount"@.len());
    assert("HighestBid"@.len() != "BidRefunded"@.len());
    assert("Claimed"@.len() != "UsernameHash"@.len());
    assert("Claimed"@.len() != "OutbidAmount"@.len());
    assert("Claimed"@.len() != "BidRefunded"@.len());
    assert("UsernameHash"@[0] != "OutbidAmount"@[0]);
    assert("UsernameHash"@.len() != "BidRefunded"@.len());
    assert("OutbidAmount"@.len() != "BidRefunded"@.len());
    assert(a.parts()[0] != b.parts()[0]);
}


impl DataKey {
    /// The position of this key's variant in the enum.
    pub open spec fn variant_index(self) -> int {
        match self {
            DataKey::Auction(..) => 0,
            DataKey::Bid(..) => 1,
            DataKey::AllBidders(..) => 2,
        }
    }
}

/// Keys of different variants never collide, so writing one leaves what the others hold.
pub proof fn law_auction_data_keys_distinct(a: DataKey, b: DataKey)
    requires
        a.variant_index() != b.variant_index(),
    ensures
        a.parts() != b.parts(),
{
    reveal_strlit("Auction");
    reveal_strlit("Bid");
    reveal_strlit("AllBidders");
    assert("Auction"@.len() != "Bid"@.len());
    assert("Auction"@.len() != "AllBidders"@.len());
    assert("Bid"@.len() != "AllBidders"@.len());
    assert(a.parts()[0] != b.parts()[0]);
}

} // verus!
