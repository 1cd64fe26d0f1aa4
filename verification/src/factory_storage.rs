//! Storage of the factory contract.
//!
//! Username records and the deployment configuration are stored under
//! `DataKey::Username` and `DataKey::Config`; their record types belong to
//! the contract itself, and the library provides their keys.
use crate::host::{address_clone, address_id, bytesn_clone, bytesn_view, key_parts, KeyVal};
use crate::keys::{key_tag, key_tag_hash};
use crate::ledger::{in_contract, instance_entries, persistent_entries, persistent_has};
use crate::model::{key0, key1, readable, Entry, KeyPart, ValueKind};
use crate::shared::{get_instance, lifetimes_kept, set_instance};
use crate::types::Value;
use vstd::prelude::*;

verus! {

/// The keys of the factory contract's storage.
pub enum DataKey {
    /// The auction contract this factory works with.
    AuctionContract,
    /// The contract owner.
    Owner,
    /// The contract admin.
    Admin,
    /// The contract operator.
    Operator,
    /// The core contract this factory works with.
    CoreContract,
    /// The record of a username.
    Username(soroban_sdk::BytesN<32>),
    /// The deployment configuration.
    Config,
}

/// The parts of `DataKey::AuctionContract`.
pub open spec fn auction_contract_key() -> Seq<KeyPart> {
    key0("AuctionContract"@)
}

/// The parts of `DataKey::Owner`.
pub open spec fn owner_key() -> Seq<KeyPart> {
    key0("Owner"@)
}

/// The parts of `DataKey::Admin`.
pub open spec fn admin_key() -> Seq<KeyPart> {
    key0("Admin"@)
}

/// The parts of `DataKey::Operator`.
pub open spec fn operator_key() -> Seq<KeyPart> {
    key0("Operator"@)
}

/// The parts of `DataKey::CoreContract`.
pub open spec fn core_contract_key() -> Seq<KeyPart> {
    key0("CoreContract"@)
}

/// The parts of `DataKey::Username`.
pub open spec fn username_key(hash: Seq<u8>) -> Seq<KeyPart> {
    key1("Username"@, KeyPart::Bytes(hash))
}

/// The parts of `DataKey::Config`.
pub open spec fn config_key() -> Seq<KeyPart> {
    key0("Config"@)
}

impl DataKey {
    /// The parts this key is stored under.
    pub open spec fn parts(self) -> Seq<KeyPart> {
        match self {
            DataKey::AuctionContract => auction_contract_key(),
            DataKey::Owner => owner_key(),
            DataKey::Admin => admin_key(),
            DataKey::Operator => operator_key(),
            DataKey::CoreContract => core_contract_key(),
            DataKey::Username(x0) => username_key(bytesn_view(x0)),
            DataKey::Config => config_key(),
        }
    }

    /// The storage key for this key.
    pub fn to_key(&self, env: &soroban_sdk::Env) -> (k: KeyVal)
        ensures
            key_parts(k) == self.parts(),
    {
        match self {
            DataKey::AuctionContract => {
                proof {
                    reveal_strlit("AuctionContract");
                }
                key_tag(env, "AuctionContract")
            },
            DataKey::Owner => {
                proof {
                    reveal_strlit("Owner");
                }
                key_tag(env, "Owner")
            },
            DataKey::Admin => {
                proof {
                    reveal_strlit("Admin");
                }
                key_tag(env, "Admin")
            },
            DataKey::Operator => {
                proof {
                    reveal_strlit("Operator");
                }
                key_tag(env, "Operator")
            },
            DataKey::CoreContract => {
                proof {
                    reveal_strlit("CoreContract");
                }
                key_tag(env, "CoreContract")
            },
            DataKey::Username(x0) => {
                proof {
                    reveal_strlit("Username");
                }
                key_tag_hash(env, "Username", x0)
            },
            DataKey::Config => {
                proof {
                    reveal_strlit("Config");
                }
                key_tag(env, "Config")
            },
        }
    }
}

/// Sets the auction contract address.
pub fn set_auction_contract(env: &mut soroban_sdk::Env, auction_contract: &soroban_sdk::Address)
    requires
        in_contract(*old(env)),
    ensures
        in_contract(*final(env)),
        instance_entries(*final(env)) == instance_entries(*old(env)).insert(auction_contract_key(), Entry::Addr(address_id(*auction_contract))),
        persistent_entries(*final(env)) == persistent_entries(*old(env)),
        lifetimes_kept(*old(env), *final(env)),
{
    let key = DataKey::AuctionContract.to_key(env);
    set_instance(env, &key, &Value::Address(address_clone(auction_contract)));
}

/// Returns the auction contract address.
pub fn get_auction_contract(env: &soroban_sdk::Env) -> (r: Option<soroban_sdk::Address>)
    requires
        in_contract(*env),
        readable(instance_entries(*env), auction_contract_key(), ValueKind::Address),
    ensures
        r is None <==> !instance_entries(*env).contains_key(auction_contract_key()),
        r matches Some(v) ==> instance_entries(*env)[auction_contract_key()] == Entry::Addr(address_id(v)),
{
    let key = DataKey::AuctionContract.to_key(env);
    match get_instance(env, &key, ValueKind::Address) {
        Some(Value::Address(v)) => Some(v),
        _ => None,
    }
}

/// Sets the contract owner.
pub fn set_owner(env: &mut soroban_sdk::Env, owner: &soroban_sdk::Address)
    requires
        in_contract(*old(env)),
    ensures
        in_contract(*final(env)),
        instance_entries(*final(env)) == instance_entries(*old(env)).insert(owner_key(), Entry::Addr(address_id(*owner))),
        persistent_entries(*final(env)) == persistent_entries(*old(env)),
        lifetimes_kept(*old(env), *final(env)),
{
    let key = DataKey::Owner.to_key(env);
    set_instance(env, &key, &Value::Address(address_clone(owner)));
}

/// Returns the contract owner.
pub fn get_owner(env: &soroban_sdk::Env) -> (r: Option<soroban_sdk::Address>)
    requires
        in_contract(*env),
        readable(instance_entries(*env), owner_key(), ValueKind::Address),
    ensures
        r is None <==> !instance_entries(*env).contains_key(owner_key()),
        r matches Some(v) ==> instance_entries(*env)[owner_key()] == Entry::Addr(address_id(v)),
{
    let key = DataKey::Owner.to_key(env);
    match get_instance(env, &key, ValueKind::Address) {
        Some(Value::Address(v)) => Some(v),
        _ => None,
    }
}

/// Sets the contract admin.
pub fn set_admin(env: &mut soroban_sdk::Env, admin: &soroban_sdk::Address)
    requires
        in_contract(*old(env)),
    ensures
        in_contract(*final(env)),
        instance_entries(*final(env)) == instance_entries(*old(env)).insert(admin_key(), Entry::Addr(address_id(*admin))),
        persistent_entries(*final(env)) == persistent_entries(*old(env)),
        lifetimes_kept(*old(env), *final(env)),
{
    let key = DataKey::Admin.to_key(env);
    set_instance(env, &key, &Value::Address(address_clone(admin)));
}

/// Returns the contract admin.
pub fn get_admin(env: &soroban_sdk::Env) -> (r: Option<soroban_sdk::Address>)
    requires
        in_contract(*env),
        readable(instance_entries(*env), admin_key(), ValueKind::Address),
    ensures
        r is None <==> !instance_entries(*env).contains_key(admin_key()),
        r matches Some(v) ==> instance_entries(*env)[admin_key()] == Entry::Addr(address_id(v)),
{
    let key = DataKey::Admin.to_key(env);
    match get_instance(env, &key, ValueKind::Address) {
        Some(Value::Address(v)) => Some(v),
        _ => None,
    }
}

/// Sets the contract operator.
pub fn set_operator(env: &mut soroban_sdk::Env, operator: &soroban_sdk::Address)
    requires
        in_contract(*old(env)),
    ensures
        in_contract(*final(env)),
        instance_entries(*final(env)) == instance_entries(*old(env)).insert(operator_key(), Entry::Addr(address_id(*operator))),
        persistent_entries(*final(env)) == persistent_entries(*old(env)),
        lifetimes_kept(*old(env), *final(env)),
{
    let key = DataKey::Operator.to_key(env);
    set_instance(env, &key, &Value::Address(address_clone(operator)));
}

/// Returns the contract operator.
pub fn get_operator(env: &soroban_sdk::Env) -> (r: Option<soroban_sdk::Address>)
    requires
        in_contract(*env),
        readable(instance_entries(*env), operator_key(), ValueKind::Address),
    ensures
        r is None <==> !instance_entries(*env).contains_key(operator_key()),
        r matches Some(v) ==> instance_entries(*env)[operator_key()] == Entry::Addr(address_id(v)),
{
    let key = DataKey::Operator.to_key(env);
    match get_instance(env, &key, ValueKind::Address) {
        Some(Value::Address(v)) => Some(v),
        _ => None,
    }
}

/// Sets the core contract address.
pub fn set_core_contract(env: &mut soroban_sdk::Env, core_contract: &soroban_sdk::Address)
    requires
        in_contract(*old(env)),
    ensures
        in_contract(*final(env)),
        instance_entries(*final(env)) == instance_entries(*old(env)).insert(core_contract_key(), Entry::Addr(address_id(*core_contract))),
        persistent_entries(*final(env)) == persistent_entries(*old(env)),
        lifetimes_kept(*old(env), *final(env)),
{
    let key = DataKey::CoreContract.to_key(env);
    set_instance(env, &key, &Value::Address(address_clone(core_contract)));
}

/// Returns the core contract address.
pub fn get_core_contract(env: &soroban_sdk::Env) -> (r: Option<soroban_sdk::Address>)
    requires
        in_contract(*env),
        readable(instance_entries(*env), core_contract_key(), ValueKind::Address),
    ensures
        r is None <==> !instance_entries(*env).contains_key(core_contract_key()),
        r matches Some(v) ==> instance_entries(*env)[core_contract_key()] == Entry::Addr(address_id(v)),
{
    let key = DataKey::CoreContract.to_key(env);
    match get_instance(env, &key, ValueKind::Address) {
        Some(Value::Address(v)) => Some(v),
        _ => None,
    }
}

/// Whether a username hash is registered.
pub fn has_username(env: &soroban_sdk::Env, hash: &soroban_sdk::BytesN<32>) -> (r: bool)
    requires
        in_contract(*env),
    ensures
        r == persistent_entries(*env).contains_key(username_key(bytesn_view(*hash))),
{
    let key = DataKey::Username(bytesn_clone(hash)).to_key(env);
    persistent_has(env, &key)
}


impl DataKey {
    /// The position of this key's variant in the enum.
    pub open spec fn variant_index(self) -> int {
        match self {
            DataKey::AuctionContract => 0,
            DataKey::Owner => 1,
            DataKey::Admin => 2,
            DataKey::Operator => 3,
            DataKey::CoreContract => 4,
            DataKey::Username(..) => 5,
            DataKey::Config => 6,
        }
    }
}

/// Keys of different variants never collide, so writing one leaves what the others hold.
pub proof fn law_factory_keys_distinct(a: DataKey, b: DataKey)
    requires
        a.variant_index() != b.variant_index(),
    ensures
        a.parts() != b.parts(),
{
    reveal_strlit("AuctionContract");
    reveal_strlit("Owner");
    reveal_strlit("Admin");
    reveal_strlit("Operator");
    reveal_strlit("CoreContract");
    reveal_strlit("Username");
    reveal_strlit("Config");
    assert("AuctionContract"@.len() != "Owner"@.len());
    assert("AuctionContract"@.len() != "Admin"@.len());
    assert("AuctionContract"@.len() != "Operator"@.len());
    assert("AuctionContract"@.len() != "CoreContract"@.len());
    assert("AuctionContract"@.len() != "Username"@.len());
    assert("AuctionContract"@.len() != "Config"@.len());
    assert("Owner"@[0] != "Admin"@[0]);
    assert("Owner"@.len() != "Operator"@.len());
    assert("Owner"@.len() != "CoreContract"@.len());
    assert("Owner"@.len() != "Username"@.len());
    assert("Owner"@.len() != "Config"@.len());
    assert("Admin"@.len() != "Operator"@.len());
    assert("Admin"@.len() != "CoreContract"@.len());
    assert("Admin"@.len() != "Username"@.len());
    assert("Admin"@.len() != "Config"@.len());
    assert("Operator"@.len() != "CoreContract"@.len());
    assert("Operator"@[0] != "Username"@[0]);
    assert("Operator"@.len() != "Config"@.len());
    assert("CoreContract"@.len() != "Username"@.len());
    assert("CoreContract"@.len() != "Config"@.len());
    assert("Username"@.len() != "Config"@.len());
    assert(a.parts()[0] != b.parts()[0]);
}

} // verus!
