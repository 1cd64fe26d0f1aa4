//! Storage of the core (username registry) contract.
use crate::host::{
    address_clone, address_id, bytesn_clone, bytesn_view, key_parts, symbol_clone, symbol_name, variant_list,
    variant_list_clone, variant_list_contains, KeyVal,
};
use crate::keys::{key_tag, key_tag_hash, key_tag_hash_address};
use crate::ledger::{in_contract, instance_entries, instance_has, persistent_entries, persistent_has, persistent_remove};
use crate::model::{key0, key1, key2, readable, Entry, KeyPart, ValueKind};
use crate::shared::{
    get_instance, get_persistent, lifetimes_kept, lifetimes_kept_except, set_instance, set_persistent, written_and_bumped,
};
use crate::types::{Permission, PermissionSet, PrivacyMode, Value};
use vstd::prelude::*;

verus! {

/// The keys of the core contract's storage.
pub enum DataKey {
    /// The resolver record of a username.
    Resolver(soroban_sdk::BytesN<32>),
    /// The root of the username Merkle tree.
    SmtRoot,
    /// The primary Stellar address of a username.
    StellarAddress(soroban_sdk::BytesN<32>),
    /// All Stellar addresses linked to a username.
    StellarAddresses(soroban_sdk::BytesN<32>),
    /// The privacy mode of a username.
    PrivacyMode(soroban_sdk::BytesN<32>),
    /// The contract owner.
    Owner,
    /// The contract admin.
    Admin,
    /// The contract operator.
    Operator,
    /// The shielded-address commitment of a username.
    ShieldedAddress(soroban_sdk::BytesN<32>),
    /// When a username was created.
    CreatedAt(soroban_sdk::BytesN<32>),
    /// The permissions of one delegate of a username.
    Delegate(soroban_sdk::BytesN<32>, soroban_sdk::Address),
}

/// The parts of `DataKey::Resolver` for a username hash.
pub open spec fn resolver_key(hash: Seq<u8>) -> Seq<KeyPart> {
    key1("Resolver"@, KeyPart::Bytes(hash))
}

/// The parts of `DataKey::SmtRoot`.
pub open spec fn smt_root_key() -> Seq<KeyPart> {
    key0("SmtRoot"@)
}

/// The parts of `DataKey::StellarAddress` for a username hash.
pub open spec fn stellar_address_key(hash: Seq<u8>) -> Seq<KeyPart> {
    key1("StellarAddress"@, KeyPart::Bytes(hash))
}

/// The parts of `DataKey::StellarAddresses` for a username hash.
pub open spec fn stellar_addresses_key(hash: Seq<u8>) -> Seq<KeyPart> {
    key1("StellarAddresses"@, KeyPart::Bytes(hash))
}

/// The parts of `DataKey::PrivacyMode` for a username hash.
pub open spec fn privacy_mode_key(hash: Seq<u8>) -> Seq<KeyPart> {
    key1("PrivacyMode"@, KeyPart::Bytes(hash))
}

/// The parts of `DataKey::Owner`.
pub open spec fn owner_key() -> Seq<KeyPart> {
    key0("Owner"@)
}

/// The parts of `DataKey::Admin`.
pub open spec fn admin_key() -> Seq<KeyPart> {
    key0("Admin"@)
}

/// The parts of `DataKey::Operator`.
pub open spec fn operator_key() -> Seq<KeyPart> {
    key0("Operator"@)
}

/// The parts of `DataKey::ShieldedAddress` for a username hash.
pub open spec fn shielded_address_key(hash: Seq<u8>) -> Seq<KeyPart> {
    key1("ShieldedAddress"@, KeyPart::Bytes(hash))
}

/// The parts of `DataKey::CreatedAt` for a username hash.
pub open spec fn created_at_key(hash: Seq<u8>) -> Seq<KeyPart> {
    key1("CreatedAt"@, KeyPart::Bytes(hash))
}

/// The parts of `DataKey::Delegate` for a username hash and a delegate.
pub open spec fn delegate_key(hash: Seq<u8>, delegate: Seq<char>) -> Seq<KeyPart> {
    key2("Delegate"@, KeyPart::Bytes(hash), KeyPart::Addr(delegate))
}

impl DataKey {
    /// The parts this key is stored under.
    pub open spec fn parts(self) -> Seq<KeyPart> {
        match self {
            DataKey::Resolver(h) => resolver_key(bytesn_view(h)),
            DataKey::SmtRoot => smt_root_key(),
            DataKey::StellarAddress(h) => stellar_address_key(bytesn_view(h)),
            DataKey::StellarAddresses(h) => stellar_addresses_key(bytesn_view(h)),
            DataKey::PrivacyMode(h) => privacy_mode_key(bytesn_view(h)),
            DataKey::Owner => owner_key(),
            DataKey::Admin => admin_key(),
            DataKey::Operator => operator_key(),
            DataKey::ShieldedAddress(h) => shielded_address_key(bytesn_view(h)),
            DataKey::CreatedAt(h) => created_at_key(bytesn_view(h)),
            DataKey::Delegate(h, a) => delegate_key(bytesn_view(h), address_id(a)),
        }
    }

    /// The storage key for this key.
    pub fn to_key(&self, env: &soroban_sdk::Env) -> (k: KeyVal)
        ensures
            key_parts(k) == self.parts(),
    {
        match self {
            DataKey::Resolver(h) => {
                proof {
                    reveal_strlit("Resolver");
                }
                key_tag_hash(env, "Resolver", h)
            },
            DataKey::SmtRoot => {
                proof {
                    reveal_strlit("SmtRoot");
                }
                key_tag(env, "SmtRoot")
            },
            DataKey::StellarAddress(h) => {
                proof {
                    reveal_strlit("StellarAddress");
                }
                key_tag_hash(env, "StellarAddress", h)
            },
            DataKey::StellarAddresses(h) => {
                proof {
                    reveal_strlit("StellarAddresses");
                }
                key_tag_hash(env, "StellarAddresses", h)
            },
            DataKey::PrivacyMode(h) => {
                proof {
                    reveal_strlit("PrivacyMode");
                }
                key_tag_hash(env, "PrivacyMode", h)
            },
            DataKey::Owner => {
                proof {
                    reveal_strlit("Owner");
                }
                key_tag(env, "Owner")
            },
            DataKey::Admin => {
                proof {
                    reveal_strlit("Admin");
                }
                key_tag(env, "Admin")
            },
            DataKey::Operator => {
                proof {
                    reveal_strlit("Operator");
                }
                key_tag(env, "Operator")
            },
            DataKey::ShieldedAddress(h) => {
                proof {
                    reveal_strlit("ShieldedAddress");
                }
                key_tag_hash(env, "ShieldedAddress", h)
            },
            DataKey::CreatedAt(h) => {
                proof {
                    reveal_strlit("CreatedAt");
                }
                key_tag_hash(env, "CreatedAt", h)
            },
            DataKey::Delegate(h, a) => {
                proof {
                    reveal_strlit("Delegate");
                }
                key_tag_hash_address(env, "Delegate", h, a)
            },
        }
    }
}

/// Sets the privacy mode of a username.
pub fn set_privacy_mode(env: &mut soroban_sdk::Env, username_hash: &soroban_sdk::BytesN<32>, mode: &PrivacyMode)
    requires
        in_contract(*old(env)),
    ensures
        in_contract(*final(env)),
        persistent_entries(*final(env)) == persistent_entries(*old(env)).insert(
            privacy_mode_key(bytesn_view(*username_hash)),
            Entry::Variant(symbol_name(mode.name)),
        ),
        instance_entries(*final(env)) == instance_entries(*old(env)),
        written_and_bumped(*old(env), *final(env), privacy_mode_key(bytesn_view(*username_hash))),
{
    let key = DataKey::PrivacyMode(bytesn_clone(username_hash)).to_key(env);
    set_persistent(env, &key, &Value::Variant(symbol_clone(&mode.name)));
}

/// Returns the privacy mode of a username: the one set, or `Normal`.
pub fn get_privacy_mode(env: &soroban_sdk::Env, username_hash: &soroban_sdk::BytesN<32>) -> (r: PrivacyMode)
    requires
        in_contract(*env),
        readable(persistent_entries(*env), privacy_mode_key(bytesn_view(*username_hash)), ValueKind::Variant),
    ensures
        symbol_name(r.name) == (if persistent_entries(*env).contains_key(privacy_mode_key(bytesn_view(*username_hash))) {
            persistent_entries(*env)[privacy_mode_key(bytesn_view(*username_hash))]->Variant_0
        } else {
            "Normal"@
        }),
{
    let key = DataKey::PrivacyMode(bytesn_clone(username_hash)).to_key(env);
    match get_persistent(env, &key, ValueKind::Variant) {
        Some(Value::Variant(name)) => PrivacyMode { name },
        _ => PrivacyMode::normal(env),
    }
}

/// Writes an address to instance storage under `key`.
fn set_instance_address(env: &mut soroban_sdk::Env, key: &DataKey, address: &soroban_sdk::Address)
    requires
        in_contract(*old(env)),
    ensures
        in_contract(*final(env)),
        instance_entries(*final(env)) == instance_entries(*old(env)).insert(key.parts(), Entry::Addr(address_id(*address))),
        persistent_entries(*final(env)) == persistent_entries(*old(env)),
        lifetimes_kept(*old(env), *final(env)),
{
    let k = key.to_key(env);
    set_instance(env, &k, &Value::Address(address_clone(address)));
}

/// Reads an address from instance storage under `key`.
fn get_instance_address(env: &soroban_sdk::Env, key: &DataKey) -> (r: Option<soroban_sdk::Address>)
    requires
        in_contract(*env),
        readable(instance_entries(*env), key.parts(), ValueKind::Address),
    ensures
        r is None <==> !instance_entries(*env).contains_key(key.parts()),
        r matches Some(a) ==> instance_entries(*env)[key.parts()] == Entry::Addr(address_id(a)),
{
    let k = key.to_key(env);
    match get_instance(env, &k, ValueKind::Address) {
        Some(Value::Address(a)) => Some(a),
        _ => None,
    }
}

/// Sets the contract owner.
pub fn set_owner(env: &mut soroban_sdk::Env, owner: &soroban_sdk::Address)
    requires
        in_contract(*old(env)),
    ensures
        in_contract(*final(env)),
        instance_entries(*final(env)) == instance_entries(*old(env)).insert(owner_key(), Entry::Addr(address_id(*owner))),
        persistent_entries(*final(env)) == persistent_entries(*old(env)),
        lifetimes_kept(*old(env), *final(env)),
{
    set_instance_address(env, &DataKey::Owner, owner);
}

/// Returns the contract owner.
pub fn get_owner(env: &soroban_sdk::Env) -> (r: Option<soroban_sdk::Address>)
    requires
        in_contract(*env),
        readable(instance_entries(*env), owner_key(), ValueKind::Address),
    ensures
        r is None <==> !instance_entries(*env).contains_key(owner_key()),
        r matches Some(a) ==> instance_entries(*env)[owner_key()] == Entry::Addr(address_id(a)),
{
    get_instance_address(env, &DataKey::Owner)
}

/// Sets the contract admin.
pub fn set_admin(env: &mut soroban_sdk::Env, admin: &soroban_sdk::Address)
    requires
        in_contract(*old(env)),
    ensures
        in_contract(*final(env)),
        instance_entries(*final(env)) == instance_entries(*old(env)).insert(admin_key(), Entry::Addr(address_id(*admin))),
        persistent_entries(*final(env)) == persistent_entries(*old(env)),
        lifetimes_kept(*old(env), *final(env)),
{
    set_instance_address(env, &DataKey::Admin, admin);
}

/// Returns the contract admin.
pub fn get_admin(env: &soroban_sdk::Env) -> (r: Option<soroban_sdk::Address>)
    requires
        in_contract(*env),
        readable(instance_entries(*env), admin_key(), ValueKind::Address),
    ensures
        r is None <==> !instance_entries(*env).contains_key(admin_key()),
        r matches Some(a) ==> instance_entries(*env)[admin_key()] == Entry::Addr(address_id(a)),
{
    get_instance_address(env, &DataKey::Admin)
}

/// Sets the contract operator.
pub fn set_operator(env: &mut soroban_sdk::Env, operator: &soroban_sdk::Address)
    requires
        in_contract(*old(env)),
    ensures
        in_contract(*final(env)),
        instance_entries(*final(env)) == instance_entries(*old(env)).insert(operator_key(), Entry::Addr(address_id(*operator))),
        persistent_entries(*final(env)) == persistent_entries(*old(env)),
        lifetimes_kept(*old(env), *final(env)),
{
    set_instance_address(env, &DataKey::Operator, operator);
}

/// Returns the contract operator.
pub fn get_operator(env: &soroban_sdk::Env) -> (r: Option<soroban_sdk::Address>)
    requires
        in_contract(*env),
        readable(instance_entries(*env), operator_key(), ValueKind::Address),
    ensures
        r is None <==> !instance_entries(*env).contains_key(operator_key()),
        r matches Some(a) ==> instance_entries(*env)[operator_key()] == Entry::Addr(address_id(a)),
{
    get_instance_address(env, &DataKey::Operator)
}

/// Whether the contract has an owner, which is what initialization sets.
pub fn is_initialized(env: &soroban_sdk::Env) -> (r: bool)
    requires
        in_contract(*env),
    ensures
        r == instance_entries(*env).contains_key(owner_key()),
{
    let k = DataKey::Owner.to_key(env);
    instance_has(env, &k)
}

/// Sets the shielded-address commitment of a username.
pub fn set_shielded_address(
    env: &mut soroban_sdk::Env,
    username_hash: &soroban_sdk::BytesN<32>,
    commitment: &soroban_sdk::BytesN<32>,
)
    requires
        in_contract(*old(env)),
    ensures
        in_contract(*final(env)),
        persistent_entries(*final(env)) == persistent_entries(*old(env)).insert(
            shielded_address_key(bytesn_view(*username_hash)),
            Entry::Bytes(bytesn_view(*commitment)),
        ),
        persistent_entries(*final(env))[shielded_address_key(bytesn_view(*username_hash))]->Bytes_0.len() == 32,
        instance_entries(*final(env)) == instance_entries(*old(env)),
        written_and_bumped(*old(env), *final(env), shielded_address_key(bytesn_view(*username_hash))),
{
    let key = DataKey::ShieldedAddress(bytesn_clone(username_hash)).to_key(env);
    set_persistent(env, &key, &Value::Hash(bytesn_clone(commitment)));
}

/// Returns the shielded-address commitment of a username.
pub fn get_shielded_address(env: &soroban_sdk::Env, username_hash: &soroban_sdk::BytesN<32>) -> (r: Option<soroban_sdk::BytesN<32>>)
    requires
        in_contract(*env),
        readable(persistent_entries(*env), shielded_address_key(bytesn_view(*username_hash)), ValueKind::Hash),
    ensures
        r is None <==> !persistent_entries(*env).contains_key(shielded_address_key(bytesn_view(*username_hash))),
        r matches Some(c) ==> persistent_entries(*env)[shielded_address_key(bytesn_view(*username_hash))]
            == Entry::Bytes(bytesn_view(c)),
{
    let key = DataKey::ShieldedAddress(bytesn_clone(username_hash)).to_key(env);
    match get_persistent(env, &key, ValueKind::Hash) {
        Some(Value::Hash(c)) => Some(c),
        _ => None,
    }
}

/// Whether a username has a shielded-address commitment.
pub fn has_shielded_address(env: &soroban_sdk::Env, username_hash: &soroban_sdk::BytesN<32>) -> (r: bool)
    requires
        in_contract(*env),
    ensures
        r == persistent_entries(*env).contains_key(shielded_address_key(bytesn_view(*username_hash))),
{
    let key = DataKey::ShieldedAddress(bytesn_clone(username_hash)).to_key(env);
    persistent_has(env, &key)
}

/// Records when a username was created.
pub fn set_created_at(env: &mut soroban_sdk::Env, username_hash: &soroban_sdk::BytesN<32>, timestamp: u64)
    requires
        in_contract(*old(env)),
    ensures
        in_contract(*final(env)),
        persistent_entries(*final(env)) == persistent_entries(*old(env)).insert(
            created_at_key(bytesn_view(*username_hash)),
            Entry::U64(timestamp),
        ),
        instance_entries(*final(env)) == instance_entries(*old(env)),
        written_and_bumped(*old(env), *final(env), created_at_key(bytesn_view(*username_hash))),
{
    let key = DataKey::CreatedAt(bytesn_clone(username_hash)).to_key(env);
    set_persistent(env, &key, &Value::U64(timestamp));
}

/// Returns when a username was created.
pub fn get_created_at(env: &soroban_sdk::Env, username_hash: &soroban_sdk::BytesN<32>) -> (r: Option<u64>)
    requires
        in_contract(*env),
        readable(persistent_entries(*env), created_at_key(bytesn_view(*username_hash)), ValueKind::U64),
    ensures
        r is None <==> !persistent_entries(*env).contains_key(created_at_key(bytesn_view(*username_hash))),
        r matches Some(t) ==> persistent_entries(*env)[created_at_key(bytesn_view(*username_hash))] == Entry::U64(t),
{
    let key = DataKey::CreatedAt(bytesn_clone(username_hash)).to_key(env);
    match get_persistent(env, &key, ValueKind::U64) {
        Some(Value::U64(t)) => Some(t),
        _ => None,
    }
}

/// Grants a delegate a set of permissions for a username.
pub fn set_delegate_permissions(
    env: &mut soroban_sdk::Env,
    username_hash: &soroban_sdk::BytesN<32>,
    delegate: &soroban_sdk::Address,
    permissions: &PermissionSet,
)
    requires
        in_contract(*old(env)),
    ensures
        in_contract(*final(env)),
        persistent_entries(*final(env)) == persistent_entries(*old(env)).insert(
            delegate_key(bytesn_view(*username_hash), address_id(*delegate)),
            Entry::Permissions(variant_list(permissions.permissions)),
        ),
        instance_entries(*final(env)) == instance_entries(*old(env)),
        written_and_bumped(*old(env), *final(env), delegate_key(bytesn_view(*username_hash), address_id(*delegate))),
{
    let key = DataKey::Delegate(bytesn_clone(username_hash), address_clone(delegate)).to_key(env);
    set_persistent(env, &key, &Value::Permissions(variant_list_clone(&permissions.permissions)));
}

/// Returns the permissions granted to a delegate for a username.
pub fn get_delegate_permissions(
    env: &soroban_sdk::Env,
    username_hash: &soroban_sdk::BytesN<32>,
    delegate: &soroban_sdk::Address,
) -> (r: Option<PermissionSet>)
    requires
        in_contract(*env),
        readable(
            persistent_entries(*env),
            delegate_key(bytesn_view(*username_hash), address_id(*delegate)),
            ValueKind::Permissions,
        ),
    ensures
        r is None <==> !persistent_entries(*env).contains_key(
            delegate_key(bytesn_view(*username_hash), address_id(*delegate)),
        ),
        r matches Some(p) ==> persistent_entries(*env)[delegate_key(bytesn_view(*username_hash), address_id(*delegate))]
            == Entry::Permissions(variant_list(p.permissions)),
{
    let key = DataKey::Delegate(bytesn_clone(username_hash), address_clone(delegate)).to_key(env);
    match get_persistent(env, &key, ValueKind::Permissions) {
        Some(Value::Permissions(permissions)) => Some(PermissionSet { permissions }),
        _ => None,
    }
}

/// Revokes all permissions of a delegate for a username.
pub fn remove_delegate_permissions(
    env: &mut soroban_sdk::Env,
    username_hash: &soroban_sdk::BytesN<32>,
    delegate: &soroban_sdk::Address,
)
    requires
        in_contract(*old(env)),
    ensures
        in_contract(*final(env)),
        persistent_entries(*final(env)) == persistent_entries(*old(env)).remove(
            delegate_key(bytesn_view(*username_hash), address_id(*delegate)),
        ),
        instance_entries(*final(env)) == instance_entries(*old(env)),
        lifetimes_kept_except(*old(env), *final(env), delegate_key(bytesn_view(*username_hash), address_id(*delegate))),
{
    let key = DataKey::Delegate(bytesn_clone(username_hash), address_clone(delegate)).to_key(env);
    persistent_remove(env, &key);
}

/// Whether the delegate `caller` holds `permission` for a username.
pub fn has_permission(
    env: &soroban_sdk::Env,
    username_hash: &soroban_sdk::BytesN<32>,
    caller: &soroban_sdk::Address,
    permission: Permission,
) -> (r: bool)
    requires
        in_contract(*env),
        readable(
            persistent_entries(*env),
            delegate_key(bytesn_view(*username_hash), address_id(*caller)),
            ValueKind::Permissions,
        ),
    ensures
        r == delegate_holds(persistent_entries(*env), bytesn_view(*username_hash), address_id(*caller), symbol_name(permission.name)),
{
    if let Some(permissions) = get_delegate_permissions(env, username_hash, caller) {
        variant_list_contains(&permissions.permissions, &permission.name)
    } else {
        false
    }
}

/// Whether, in persistent storage `m`, the delegate `delegate` holds the
/// permission named `permission` for the username with hash `hash`.
pub open spec fn delegate_holds(m: Map<Seq<KeyPart>, Entry>, hash: Seq<u8>, delegate: Seq<char>, permission: Seq<char>) -> bool {
    &&& m.contains_key(delegate_key(hash, delegate))
    &&& m[delegate_key(hash, delegate)]->Permissions_0.contains(permission)
}



impl DataKey {
    /// The position of this key's variant in the enum.
    pub open spec fn variant_index(self) -> int {
        match self {
            DataKey::Resolver(..) => 0,
            DataKey::SmtRoot => 1,
            DataKey::StellarAddress(..) => 2,
            DataKey::StellarAddresses(..) => 3,
            DataKey::PrivacyMode(..) => 4,
            DataKey::Owner => 5,
            DataKey::Admin => 6,
            DataKey::Operator => 7,
            DataKey::ShieldedAddress(..) => 8,
            DataKey::CreatedAt(..) => 9,
            DataKey::Delegate(..) => 10,
        }
    }
}

/// Keys of different variants never collide, so writing one leaves what the others hold.
pub proof fn law_core_keys_distinct(a: DataKey, b: DataKey)
    requires
        a.variant_index() != b.variant_index(),
    ensures
        a.parts() != b.parts(),
{
    reveal_strlit("Resolver");
    reveal_strlit("SmtRoot");
    reveal_strlit("StellarAddress");
    reveal_strlit("StellarAddresses");
    reveal_strlit("PrivacyMode");
    reveal_strlit("Owner");
    reveal_strlit("Admin");
    reveal_strlit("Operator");
    reveal_strlit("ShieldedAddress");
    reveal_strlit("CreatedAt");
    reveal_strlit("Delegate");
    assert("Resolver"@.len() != "SmtRoot"@.len());
    assert("Resolver"@.len() != "StellarAddress"@.len());
    assert("Resolver"@.len() != "StellarAddresses"@.len());
    assert("Resolver"@.len() != "PrivacyMode"@.len());
    assert("Resolver"@.len() != "Owner"@.len());
    assert("Resolver"@.len() != "Admin"@.len());
    assert("Resolver"@[0] != "Operator"@[0]);
    assert("Resolver"@.len() != "ShieldedAddress"@.len());
    assert("Resolver"@.len() != "CreatedAt"@.len());
    assert("Resolver"@[0] != "Delegate"@[0]);
    assert("SmtRoot"@.len() != "StellarAddress"@.len());
    assert("SmtRoot"@.len() != "StellarAddresses"@.len());
    assert("SmtRoot"@.len() != "PrivacyMode"@.len());
    assert("SmtRoot"@.len() != "Owner"@.len());
    assert("SmtRoot"@.len() != "Admin"@.len());
    assert("SmtRoot"@.len() != "Operator"@.len());
    assert("SmtRoot"@.len() != "ShieldedAddress"@.len());
    assert("SmtRoot"@.len() != "CreatedAt"@.len());
    assert("SmtRoot"@.len() != "Delegate"@.len());
    assert("StellarAddress"@.len() != "StellarAddresses"@.len());
    assert("StellarAddress"@.len() != "PrivacyMode"@.len());
    assert("StellarAddress"@.len() != "Owner"@.len());
    assert("StellarAddress"@.len() != "Admin"@.len());
    assert("StellarAddress"@.len() != "Operator"@.len());
    assert("StellarAddress"@.len() != "ShieldedAddress"@.len());
    assert("StellarAddress"@.len() != "CreatedAt"@.len());
    assert("StellarAddress"@.len() != "Delegate"@.len());
    assert("StellarAddresses"@.len() != "PrivacyMode"@.len());
    assert("StellarAddresses"@.len() != "Owner"@.len());
    assert("StellarAddresses"@.len() != "Admin"@.len());
    assert("StellarAddresses"@.len() != "Operator"@.len());
    assert("StellarAddresses"@.len() != "ShieldedAddress"@.len());
    assert("StellarAddresses"@.len() != "CreatedAt"@.len());
    assert("StellarAddresses"@.len() != "Delegate"@.len());
    assert("PrivacyMode"@.len() != "Owner"@.len());
    assert("PrivacyMode"@.len() != "Admin"@.len());
    assert("PrivacyMode"@.len() != "Operator"@.len());
    assert("PrivacyMode"@.len() != "ShieldedAddress"@.len());
    assert("PrivacyMode"@.len() != "CreatedAt"@.len());
    assert("PrivacyMode"@.len() != "Delegate"@.len());
    assert("Owner"@[0] != "Admin"@[0]);
    assert("Owner"@.len() != "Operator"@.len());
    assert("Owner"@.len() != "ShieldedAddress"@.len());
    assert("Owner"@.len() != "CreatedAt"@.len());
    assert("Owner"@.len() != "Delegate"@.len());
    assert("Admin"@.len() != "Operator"@.len());
    assert("Admin"@.len() != "ShieldedAddress"@.len());
    assert("Admin"@.len() != "CreatedAt"@.len());
    assert("Admin"@.len() != "Delegate"@.len());
    assert("Operator"@.len() != "ShieldedAddress"@.len());
    assert("Operator"@.len() != "CreatedAt"@.len());
    assert("Operator"@[0] != "Delegate"@[0]);
    assert("ShieldedAddress"@.len() != "CreatedAt"@.len());
    assert("ShieldedAddress"@.len() != "Delegate"@.len());
    assert("CreatedAt"@.len() != "Delegate"@.len());
    assert(a.parts()[0] != b.parts()[0]);
}

} // verus!
