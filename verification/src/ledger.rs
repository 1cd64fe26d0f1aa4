//! The contract's storage as the host keeps it, and the trusted wrappers
//! that read and write it.
//!
//! `persistent_entries` and `instance_entries` name what the executing
//! contract's persistent and instance storage hold (its live entries),
//! keyed by the plain parts of each key. `persistent_live_until` names the
//! last ledger each persistent entry lives until. A write takes `&mut Env`:
//! the host changes its state through any handle, and the library passes on
//! the one handle it was given.
use crate::host::{
    address_id, address_list, bytes_view, bytesn_view, key_parts, symbol_name, variant_list, KeyVal, VariantList,
};
use crate::model::{readable, Entry, KeyPart, ValueKind};
use vstd::prelude::*;

verus! {

/// Whether `env` is executing a deployed contract, so that its persistent and
/// instance storage can be reached. Outside such a frame every storage call
/// of the host fails.
pub uninterp spec fn in_contract(env: soroban_sdk::Env) -> bool;

/// What the executing contract's persistent storage holds.
pub uninterp spec fn persistent_entries(env: soroban_sdk::Env) -> Map<Seq<KeyPart>, Entry>;

/// What the executing contract's instance storage holds.
pub uninterp spec fn instance_entries(env: soroban_sdk::Env) -> Map<Seq<KeyPart>, Entry>;

/// The current ledger sequence number.
pub uninterp spec fn ledger_sequence(env: soroban_sdk::Env) -> u32;

/// The last ledger the network lets any entry live until (the current
/// ledger plus the network's maximum entry TTL, less one).
pub uninterp spec fn max_live_until(env: soroban_sdk::Env) -> u32;

/// The last ledger a newly created persistent entry lives until (the current
/// ledger plus the network's minimum persistent TTL, less one).
pub uninterp spec fn new_persistent_live_until(env: soroban_sdk::Env) -> u32;

/// The last ledger until which the persistent entry under `key` lives.
pub uninterp spec fn persistent_live_until(env: soroban_sdk::Env, key: Seq<KeyPart>) -> u32;

/// The live-until ledger of an entry after `extend_ttl(threshold,
/// extend_to)` at ledger `seq` with network limit `max`: when at most
/// `threshold` ledgers remain, the entry is extended to `seq + extend_to`
/// (clamped to `max`), unless it already lives that long.
pub open spec fn extended_live_until(old: u32, seq: u32, max: u32, threshold: u32, extend_to: u32) -> u32 {
    let current = if old >= seq { old - seq } else { 0 };
    let target = if seq + extend_to <= max { (seq + extend_to) as u32 } else { max };
    if current <= threshold && target > old {
        target
    } else {
        old
    }
}

/// `Persistent::get` of an address. The host panics when the stored value has
/// another shape, which `requires` leaves out.
#[verifier::external_body]
pub fn persistent_get_address(env: &soroban_sdk::Env, key: &KeyVal) -> (r: Option<soroban_sdk::Address>)
    requires
        in_contract(*env),
        readable(persistent_entries(*env), key_parts(*key), ValueKind::Address),
    ensures
        r is None <==> !persistent_entries(*env).contains_key(key_parts(*key)),
        r matches Some(v) ==> persistent_entries(*env)[key_parts(*key)] == Entry::Addr(address_id(v)),
{
    env.storage().persistent().get(key)
}

/// `Persistent::set` of an address.
/// An existing entry keeps its lifetime; a new one gets the network's
/// minimum.
#[verifier::external_body]
pub fn persistent_set_address(env: &mut soroban_sdk::Env, key: &KeyVal, value: &soroban_sdk::Address)
    requires
        in_contract(*old(env)),
    ensures
        in_contract(*final(env)),
        persistent_entries(*final(env)) == persistent_entries(*old(env)).insert(key_parts(*key), Entry::Addr(address_id(*value))),
        instance_entries(*final(env)) == instance_entries(*old(env)),
        ledger_sequence(*final(env)) == ledger_sequence(*old(env)),
        max_live_until(*final(env)) == max_live_until(*old(env)),
        new_persistent_live_until(*final(env)) == new_persistent_live_until(*old(env)),
        forall|k: Seq<KeyPart>|
            k != key_parts(*key) ==> #[trigger] persistent_live_until(*final(env), k) == persistent_live_until(*old(env), k),
        persistent_live_until(*final(env), key_parts(*key)) == (if persistent_entries(*old(env)).contains_key(key_parts(*key)) {
            persistent_live_until(*old(env), key_parts(*key))
        } else {
            new_persistent_live_until(*old(env))
        }),
{
    env.storage().persistent().set(key, value);
}

/// `Persistent::get` of a `BytesN<32>`. The host panics when the stored value has
/// another shape, which `requires` leaves out.
#[verifier::external_body]
pub fn persistent_get_bytesn(env: &soroban_sdk::Env, key: &KeyVal) -> (r: Option<soroban_sdk::BytesN<32>>)
    requires
        in_contract(*env),
        readable(persistent_entries(*env), key_parts(*key), ValueKind::Hash),
    ensures
        r is None <==> !persistent_entries(*env).contains_key(key_parts(*key)),
        r matches Some(v) ==> persistent_entries(*env)[key_parts(*key)] == Entry::Bytes(bytesn_view(v)),
{
    env.storage().persistent().get(key)
}

/// `Persistent::set` of a `BytesN<32>`.
/// An existing entry keeps its lifetime; a new one gets the network's
/// minimum.
#[verifier::external_body]
pub fn persistent_set_bytesn(env: &mut soroban_sdk::Env, key: &KeyVal, value: &soroban_sdk::BytesN<32>)
    requires
        in_contract(*old(env)),
    ensures
        in_contract(*final(env)),
        persistent_entries(*final(env)) == persistent_entries(*old(env)).insert(key_parts(*key), Entry::Bytes(bytesn_view(*value))),
        instance_entries(*final(env)) == instance_entries(*old(env)),
        persistent_entries(*final(env))[key_parts(*key)]->Bytes_0.len() == 32,
        ledger_sequence(*final(env)) == ledger_sequence(*old(env)),
        max_live_until(*final(env)) == max_live_until(*old(env)),
        new_persistent_live_until(*final(env)) == new_persistent_live_until(*old(env)),
        forall|k: Seq<KeyPart>|
            k != key_parts(*key) ==> #[trigger] persistent_live_until(*final(env), k) == persistent_live_until(*old(env), k),
        persistent_live_until(*final(env), key_parts(*key)) == (if persistent_entries(*old(env)).contains_key(key_parts(*key)) {
            persistent_live_until(*old(env), key_parts(*key))
        } else {
            new_persistent_live_until(*old(env))
        }),
{
    env.storage().persistent().set(key, value);
}

/// `Persistent::get` of a `Bytes`. The host panics when the stored value has
/// another shape, which `requires` leaves out.
#[verifier::external_body]
pub fn persistent_get_bytes(env: &soroban_sdk::Env, key: &KeyVal) -> (r: Option<soroban_sdk::Bytes>)
    requires
        in_contract(*env),
        readable(persistent_entries(*env), key_parts(*key), ValueKind::Bytes),
    ensures
        r is None <==> !persistent_entries(*env).contains_key(key_parts(*key)),
        r matches Some(v) ==> persistent_entries(*env)[key_parts(*key)] == Entry::Bytes(bytes_view(v)),
{
    env.storage().persistent().get(key)
}

/// `Persistent::set` of a `Bytes`.
/// An existing entry keeps its lifetime; a new one gets the network's
/// minimum.
#[verifier::external_body]
pub fn persistent_set_bytes(env: &mut soroban_sdk::Env, key: &KeyVal, value: &soroban_sdk::Bytes)
    requires
        in_contract(*old(env)),
    ensures
        in_contract(*final(env)),
        persistent_entries(*final(env)) == persistent_entries(*old(env)).insert(key_parts(*key), Entry::Bytes(bytes_view(*value))),
        instance_entries(*final(env)) == instance_entries(*old(env)),
        ledger_sequence(*final(env)) == ledger_sequence(*old(env)),
        max_live_until(*final(env)) == max_live_until(*old(env)),
        new_persistent_live_until(*final(env)) == new_persistent_live_until(*old(env)),
        forall|k: Seq<KeyPart>|
            k != key_parts(*key) ==> #[trigger] persistent_live_until(*final(env), k) == persistent_live_until(*old(env), k),
        persistent_live_until(*final(env), key_parts(*key)) == (if persistent_entries(*old(env)).contains_key(key_parts(*key)) {
            persistent_live_until(*old(env), key_parts(*key))
        } else {
            new_persistent_live_until(*old(env))
        }),
{
    env.storage().persistent().set(key, value);
}

/// `Persistent::get` of a `u64`. The host panics when the stored value has
/// another shape, which `requires` leaves out.
#[verifier::external_body]
pub fn persistent_get_u64(env: &soroban_sdk::Env, key: &KeyVal) -> (r: Option<u64>)
    requires
        in_contract(*env),
        readable(persistent_entries(*env), key_parts(*key), ValueKind::U64),
    ensures
        r is None <==> !persistent_entries(*env).contains_key(key_parts(*key)),
        r matches Some(v) ==> persistent_entries(*env)[key_parts(*key)] == Entry::U64(v),
{
    env.storage().persistent().get(key)
}

/// `Persistent::set` of a `u64`.
/// An existing entry keeps its lifetime; a new one gets the network's
/// minimum.
#[verifier::external_body]
pub fn persistent_set_u64(env: &mut soroban_sdk::Env, key: &KeyVal, value: u64)
    requires
        in_contract(*old(env)),
    ensures
        in_contract(*final(env)),
        persistent_entries(*final(env)) == persistent_entries(*old(env)).insert(key_parts(*key), Entry::U64(value)),
        instance_entries(*final(env)) == instance_entries(*old(env)),
        ledger_sequence(*final(env)) == ledger_sequence(*old(env)),
        max_live_until(*final(env)) == max_live_until(*old(env)),
        new_persistent_live_until(*final(env)) == new_persistent_live_until(*old(env)),
        forall|k: Seq<KeyPart>|
            k != key_parts(*key) ==> #[trigger] persistent_live_until(*final(env), k) == persistent_live_until(*old(env), k),
        persistent_live_until(*final(env), key_parts(*key)) == (if persistent_entries(*old(env)).contains_key(key_parts(*key)) {
            persistent_live_until(*old(env), key_parts(*key))
        } else {
            new_persistent_live_until(*old(env))
        }),
{
    env.storage().persistent().set(key, &value);
}

/// `Persistent::get` of an `i128`. The host panics when the stored value has
/// another shape, which `requires` leaves out.
#[verifier::external_body]
pub fn persistent_get_i128(env: &soroban_sdk::Env, key: &KeyVal) -> (r: Option<i128>)
    requires
        in_contract(*env),
        readable(persistent_entries(*env), key_parts(*key), ValueKind::I128),
    ensures
        r is None <==> !persistent_entries(*env).contains_key(key_parts(*key)),
        r matches Some(v) ==> persistent_entries(*env)[key_parts(*key)] == Entry::I128(v),
{
    env.storage().persistent().get(key)
}

/// `Persistent::set` of an `i128`.
/// An existing entry keeps its lifetime; a new one gets the network's
/// minimum.
#[verifier::external_body]
pub fn persistent_set_i128(env: &mut soroban_sdk::Env, key: &KeyVal, value: i128)
    requires
        in_contract(*old(env)),
    ensures
        in_contract(*final(env)),
        persistent_entries(*final(env)) == persistent_entries(*old(env)).insert(key_parts(*key), Entry::I128(value)),
        instance_entries(*final(env)) == instance_entries(*old(env)),
        ledger_sequence(*final(env)) == ledger_sequence(*old(env)),
        max_live_until(*final(env)) == max_live_until(*old(env)),
        new_persistent_live_until(*final(env)) == new_persistent_live_until(*old(env)),
        forall|k: Seq<KeyPart>|
            k != key_parts(*key) ==> #[trigger] persistent_live_until(*final(env), k) == persistent_live_until(*old(env), k),
        persistent_live_until(*final(env), key_parts(*key)) == (if persistent_entries(*old(env)).contains_key(key_parts(*key)) {
            persistent_live_until(*old(env), key_parts(*key))
        } else {
            new_persistent_live_until(*old(env))
        }),
{
    env.storage().persistent().set(key, &value);
}

/// `Persistent::get` of a `u128`. The host panics when the stored value has
/// another shape, which `requires` leaves out.
#[verifier::external_body]
pub fn persistent_get_u128(env: &soroban_sdk::Env, key: &KeyVal) -> (r: Option<u128>)
    requires
        in_contract(*env),
        readable(persistent_entries(*env), key_parts(*key), ValueKind::U128),
    ensures
        r is None <==> !persistent_entries(*env).contains_key(key_parts(*key)),
        r matches Some(v) ==> persistent_entries(*env)[key_parts(*key)] == Entry::U128(v),
{
    env.storage().persistent().get(key)
}

/// `Persistent::set` of a `u128`.
/// An existing entry keeps its lifetime; a new one gets the network's
/// minimum.
#[verifier::external_body]
pub fn persistent_set_u128(env: &mut soroban_sdk::Env, key: &KeyVal, value: u128)
    requires
        in_contract(*old(env)),
    ensures
        in_contract(*final(env)),
        persistent_entries(*final(env)) == persistent_entries(*old(env)).insert(key_parts(*key), Entry::U128(value)),
        instance_entries(*final(env)) == instance_entries(*old(env)),
        ledger_sequence(*final(env)) == ledger_sequence(*old(env)),
        max_live_until(*final(env)) == max_live_until(*old(env)),
        new_persistent_live_until(*final(env)) == new_persistent_live_until(*old(env)),
        forall|k: Seq<KeyPart>|
            k != key_parts(*key) ==> #[trigger] persistent_live_until(*final(env), k) == persistent_live_until(*old(env), k),
        persistent_live_until(*final(env), key_parts(*key)) == (if persistent_entries(*old(env)).contains_key(key_parts(*key)) {
            persistent_live_until(*old(env), key_parts(*key))
        } else {
            new_persistent_live_until(*old(env))
        }),
{
    env.storage().persistent().set(key, &value);
}

/// `Persistent::get` of a `bool`. The host panics when the stored value has
/// another shape, which `requires` leaves out.
#[verifier::external_body]
pub fn persistent_get_bool(env: &soroban_sdk::Env, key: &KeyVal) -> (r: Option<bool>)
    requires
        in_contract(*env),
        readable(persistent_entries(*env), key_parts(*key), ValueKind::Bool),
    ensures
        r is None <==> !persistent_entries(*env).contains_key(key_parts(*key)),
        r matches Some(v) ==> persistent_entries(*env)[key_parts(*key)] == Entry::Bool(v),
{
    env.storage().persistent().get(key)
}

/// `Persistent::set` of a `bool`.
/// An existing entry keeps its lifetime; a new one gets the network's
/// minimum.
#[verifier::external_body]
pub fn persistent_set_bool(env: &mut soroban_sdk::Env, key: &KeyVal, value: bool)
    requires
        in_contract(*old(env)),
    ensures
        in_contract(*final(env)),
        persistent_entries(*final(env)) == persistent_entries(*old(env)).insert(key_parts(*key), Entry::Bool(value)),
        instance_entries(*final(env)) == instance_entries(*old(env)),
        ledger_sequence(*final(env)) == ledger_sequence(*old(env)),
        max_live_until(*final(env)) == max_live_until(*old(env)),
        new_persistent_live_until(*final(env)) == new_persistent_live_until(*old(env)),
        forall|k: Seq<KeyPart>|
            k != key_parts(*key) ==> #[trigger] persistent_live_until(*final(env), k) == persistent_live_until(*old(env), k),
        persistent_live_until(*final(env), key_parts(*key)) == (if persistent_entries(*old(env)).contains_key(key_parts(*key)) {
            persistent_live_until(*old(env), key_parts(*key))
        } else {
            new_persistent_live_until(*old(env))
        }),
{
    env.storage().persistent().set(key, &value);
}

/// `Persistent::get` of a unit-variant enum value, stored as `(Symbol,)`. The host panics when the stored value has
/// another shape, which `requires` leaves out.
#[verifier::external_body]
pub fn persistent_get_variant(env: &soroban_sdk::Env, key: &KeyVal) -> (r: Option<soroban_sdk::Symbol>)
    requires
        in_contract(*env),
        readable(persistent_entries(*env), key_parts(*key), ValueKind::Variant),
    ensures
        r is None <==> !persistent_entries(*env).contains_key(key_parts(*key)),
        r matches Some(v) ==> persistent_entries(*env)[key_parts(*key)] == Entry::Variant(symbol_name(v)),
{
    env.storage().persistent().get::<KeyVal, (soroban_sdk::Symbol,)>(key).map(|t| t.0)
}

/// `Persistent::set` of a unit-variant enum value, as `(Symbol,)`.
/// An existing entry keeps its lifetime; a new one gets the network's
/// minimum.
#[verifier::external_body]
pub fn persistent_set_variant(env: &mut soroban_sdk::Env, key: &KeyVal, value: &soroban_sdk::Symbol)
    requires
        in_contract(*old(env)),
    ensures
        in_contract(*final(env)),
        persistent_entries(*final(env)) == persistent_entries(*old(env)).insert(key_parts(*key), Entry::Variant(symbol_name(*value))),
        instance_entries(*final(env)) == instance_entries(*old(env)),
        ledger_sequence(*final(env)) == ledger_sequence(*old(env)),
        max_live_until(*final(env)) == max_live_until(*old(env)),
        new_persistent_live_until(*final(env)) == new_persistent_live_until(*old(env)),
        forall|k: Seq<KeyPart>|
            k != key_parts(*key) ==> #[trigger] persistent_live_until(*final(env), k) == persistent_live_until(*old(env), k),
        persistent_live_until(*final(env), key_parts(*key)) == (if persistent_entries(*old(env)).contains_key(key_parts(*key)) {
            persistent_live_until(*old(env), key_parts(*key))
        } else {
            new_persistent_live_until(*old(env))
        }),
{
    env.storage().persistent().set(key, &(value.clone(),));
}

/// `Persistent::get` of a permission record (a map whose one field, named by
/// `field`, holds a list of unit-variant enum values), then
/// `Map::get_unchecked` of that field. The host panics when the stored value
/// has another shape, which `requires` leaves out.
#[verifier::external_body]
pub fn persistent_get_permissions(env: &soroban_sdk::Env, key: &KeyVal, field: &soroban_sdk::Symbol) -> (r: Option<
    VariantList,
>)
    requires
        in_contract(*env),
        symbol_name(*field) == "permissions"@,
        readable(persistent_entries(*env), key_parts(*key), ValueKind::Permissions),
    ensures
        r is None <==> !persistent_entries(*env).contains_key(key_parts(*key)),
        r matches Some(v) ==> persistent_entries(*env)[key_parts(*key)] == Entry::Permissions(variant_list(v)),
{
    match env.storage().persistent().get::<KeyVal, soroban_sdk::Map<soroban_sdk::Symbol, VariantList>>(key) {
        Some(record) => Some(record.get_unchecked(field.clone())),
        None => None,
    }
}

/// `Persistent::set` of a permission record: a map (built by
/// `Map::from_array`) whose one field, named by `field`, holds `value`.
/// An existing entry keeps its lifetime; a new one gets the network's
/// minimum.
#[verifier::external_body]
pub fn persistent_set_permissions(
    env: &mut soroban_sdk::Env,
    key: &KeyVal,
    field: &soroban_sdk::Symbol,
    value: &VariantList,
)
    requires
        in_contract(*old(env)),
        symbol_name(*field) == "permissions"@,
    ensures
        in_contract(*final(env)),
        persistent_entries(*final(env)) == persistent_entries(*old(env)).insert(key_parts(*key), Entry::Permissions(variant_list(*value))),
        instance_entries(*final(env)) == instance_entries(*old(env)),
        ledger_sequence(*final(env)) == ledger_sequence(*old(env)),
        max_live_until(*final(env)) == max_live_until(*old(env)),
        new_persistent_live_until(*final(env)) == new_persistent_live_until(*old(env)),
        forall|k: Seq<KeyPart>|
            k != key_parts(*key) ==> #[trigger] persistent_live_until(*final(env), k) == persistent_live_until(*old(env), k),
        persistent_live_until(*final(env), key_parts(*key)) == (if persistent_entries(*old(env)).contains_key(key_parts(*key)) {
            persistent_live_until(*old(env), key_parts(*key))
        } else {
            new_persistent_live_until(*old(env))
        }),
{
    let record = soroban_sdk::Map::from_array(env, [(field.clone(), value.clone())]);
    env.storage().persistent().set(key, &record);
}

/// `Persistent::get` of a vector of addresses. The host panics when the stored value has
/// another shape, which `requires` leaves out.
#[verifier::external_body]
pub fn persistent_get_addresses(env: &soroban_sdk::Env, key: &KeyVal) -> (r: Option<soroban_sdk::Vec<soroban_sdk::Address>>)
    requires
        in_contract(*env),
        readable(persistent_entries(*env), key_parts(*key), ValueKind::Addresses),
    ensures
        r is None <==> !persistent_entries(*env).contains_key(key_parts(*key)),
        r matches Some(v) ==> persistent_entries(*env)[key_parts(*key)] == Entry::Addrs(address_list(v)),
{
    env.storage().persistent().get(key)
}

/// `Persistent::set` of a vector of addresses.
/// An existing entry keeps its lifetime; a new one gets the network's
/// minimum.
#[verifier::external_body]
pub fn persistent_set_addresses(env: &mut soroban_sdk::Env, key: &KeyVal, value: &soroban_sdk::Vec<soroban_sdk::Address>)
    requires
        in_contract(*old(env)),
    ensures
        in_contract(*final(env)),
        persistent_entries(*final(env)) == persistent_entries(*old(env)).insert(key_parts(*key), Entry::Addrs(address_list(*value))),
        instance_entries(*final(env)) == instance_entries(*old(env)),
        ledger_sequence(*final(env)) == ledger_sequence(*old(env)),
        max_live_until(*final(env)) == max_live_until(*old(env)),
        new_persistent_live_until(*final(env)) == new_persistent_live_until(*old(env)),
        forall|k: Seq<KeyPart>|
            k != key_parts(*key) ==> #[trigger] persistent_live_until(*final(env), k) == persistent_live_until(*old(env), k),
        persistent_live_until(*final(env), key_parts(*key)) == (if persistent_entries(*old(env)).contains_key(key_parts(*key)) {
            persistent_live_until(*old(env), key_parts(*key))
        } else {
            new_persistent_live_until(*old(env))
        }),
{
    env.storage().persistent().set(key, value);
}

/// `Persistent::has`: whether a value is stored under `key`.
#[verifier::external_body]
pub fn persistent_has(env: &soroban_sdk::Env, key: &KeyVal) -> (r: bool)
    requires
        in_contract(*env),
    ensures
        r == persistent_entries(*env).contains_key(key_parts(*key)),
{
    env.storage().persistent().has(key)
}

/// `Instance::get` of an address. The host panics when the stored value has
/// another shape, which `requires` leaves out.
#[verifier::external_body]
pub fn instance_get_address(env: &soroban_sdk::Env, key: &KeyVal) -> (r: Option<soroban_sdk::Address>)
    requires
        in_contract(*env),
        readable(instance_entries(*env), key_parts(*key), ValueKind::Address),
    ensures
        r is None <==> !instance_entries(*env).contains_key(key_parts(*key)),
        r matches Some(v) ==> instance_entries(*env)[key_parts(*key)] == Entry::Addr(address_id(v)),
{
    env.storage().instance().get(key)
}

/// `Instance::set` of an address.
/// Lifetimes of persistent entries do not change.
#[verifier::external_body]
pub fn instance_set_address(env: &mut soroban_sdk::Env, key: &KeyVal, value: &soroban_sdk::Address)
    requires
        in_contract(*old(env)),
    ensures
        in_contract(*final(env)),
        instance_entries(*final(env)) == instance_entries(*old(env)).insert(key_parts(*key), Entry::Addr(address_id(*value))),
        persistent_entries(*final(env)) == persistent_entries(*old(env)),
        ledger_sequence(*final(env)) == ledger_sequence(*old(env)),
        max_live_until(*final(env)) == max_live_until(*old(env)),
        new_persistent_live_until(*final(env)) == new_persistent_live_until(*old(env)),
        forall|k: Seq<KeyPart>| #[trigger] persistent_live_until(*final(env), k) == persistent_live_until(*old(env), k),
{
    env.storage().instance().set(key, value);
}

/// `Instance::get` of a `BytesN<32>`. The host panics when the stored value has
/// another shape, which `requires` leaves out.
#[verifier::external_body]
pub fn instance_get_bytesn(env: &soroban_sdk::Env, key: &KeyVal) -> (r: Option<soroban_sdk::BytesN<32>>)
    requires
        in_contract(*env),
        readable(instance_entries(*env), key_parts(*key), ValueKind::Hash),
    ensures
        r is None <==> !instance_entries(*env).contains_key(key_parts(*key)),
        r matches Some(v) ==> instance_entries(*env)[key_parts(*key)] == Entry::Bytes(bytesn_view(v)),
{
    env.storage().instance().get(key)
}

/// `Instance::set` of a `BytesN<32>`.
/// Lifetimes of persistent entries do not change.
#[verifier::external_body]
pub fn instance_set_bytesn(env: &mut soroban_sdk::Env, key: &KeyVal, value: &soroban_sdk::BytesN<32>)
    requires
        in_contract(*old(env)),
    ensures
        in_contract(*final(env)),
        instance_entries(*final(env)) == instance_entries(*old(env)).insert(key_parts(*key), Entry::Bytes(bytesn_view(*value))),
        persistent_entries(*final(env)) == persistent_entries(*old(env)),
        instance_entries(*final(env))[key_parts(*key)]->Bytes_0.len() == 32,
        ledger_sequence(*final(env)) == ledger_sequence(*old(env)),
        max_live_until(*final(env)) == max_live_until(*old(env)),
        new_persistent_live_until(*final(env)) == new_persistent_live_until(*old(env)),
        forall|k: Seq<KeyPart>| #[trigger] persistent_live_until(*final(env), k) == persistent_live_until(*old(env), k),
{
    env.storage().instance().set(key, value);
}

/// `Instance::get` of a `Bytes`. The host panics when the stored value has
/// another shape, which `requires` leaves out.
#[verifier::external_body]
pub fn instance_get_bytes(env: &soroban_sdk::Env, key: &KeyVal) -> (r: Option<soroban_sdk::Bytes>)
    requires
        in_contract(*env),
        readable(instance_entries(*env), key_parts(*key), ValueKind::Bytes),
    ensures
        r is None <==> !instance_entries(*env).contains_key(key_parts(*key)),
        r matches Some(v) ==> instance_entries(*env)[key_parts(*key)] == Entry::Bytes(bytes_view(v)),
{
    env.storage().instance().get(key)
}

/// `Instance::set` of a `Bytes`.
/// Lifetimes of persistent entries do not change.
#[verifier::external_body]
pub fn instance_set_bytes(env: &mut soroban_sdk::Env, key: &KeyVal, value: &soroban_sdk::Bytes)
    requires
        in_contract(*old(env)),
    ensures
        in_contract(*final(env)),
        instance_entries(*final(env)) == instance_entries(*old(env)).insert(key_parts(*key), Entry::Bytes(bytes_view(*value))),
        persistent_entries(*final(env)) == persistent_entries(*old(env)),
        ledger_sequence(*final(env)) == ledger_sequence(*old(env)),
        max_live_until(*final(env)) == max_live_until(*old(env)),
        new_persistent_live_until(*final(env)) == new_persistent_live_until(*old(env)),
        forall|k: Seq<KeyPart>| #[trigger] persistent_live_until(*final(env), k) == persistent_live_until(*old(env), k),
{
    env.storage().instance().set(key, value);
}

/// `Instance::get` of a `u64`. The host panics when the stored value has
/// another shape, which `requires` leaves out.
#[verifier::external_body]
pub fn instance_get_u64(env: &soroban_sdk::Env, key: &KeyVal) -> (r: Option<u64>)
    requires
        in_contract(*env),
        readable(instance_entries(*env), key_parts(*key), ValueKind::U64),
    ensures
        r is None <==> !instance_entries(*env).contains_key(key_parts(*key)),
        r matches Some(v) ==> instance_entries(*env)[key_parts(*key)] == Entry::U64(v),
{
    env.storage().instance().get(key)
}

/// `Instance::set` of a `u64`.
/// Lifetimes of persistent entries do not change.
#[verifier::external_body]
pub fn instance_set_u64(env: &mut soroban_sdk::Env, key: &KeyVal, value: u64)
    requires
        in_contract(*old(env)),
    ensures
        in_contract(*final(env)),
        instance_entries(*final(env)) == instance_entries(*old(env)).insert(key_parts(*key), Entry::U64(value)),
        persistent_entries(*final(env)) == persistent_entries(*old(env)),
        ledger_sequence(*final(env)) == ledger_sequence(*old(env)),
        max_live_until(*final(env)) == max_live_until(*old(env)),
        new_persistent_live_until(*final(env)) == new_persistent_live_until(*old(env)),
        forall|k: Seq<KeyPart>| #[trigger] persistent_live_until(*final(env), k) == persistent_live_until(*old(env), k),
{
    env.storage().instance().set(key, &value);
}

/// `Instance::get` of an `i128`. The host panics when the stored value has
/// another shape, which `requires` leaves out.
#[verifier::external_body]
pub fn instance_get_i128(env: &soroban_sdk::Env, key: &KeyVal) -> (r: Option<i128>)
    requires
        in_contract(*env),
        readable(instance_entries(*env), key_parts(*key), ValueKind::I128),
    ensures
        r is None <==> !instance_entries(*env).contains_key(key_parts(*key)),
        r matches Some(v) ==> instance_entries(*env)[key_parts(*key)] == Entry::I128(v),
{
    env.storage().instance().get(key)
}

/// `Instance::set` of an `i128`.
/// Lifetimes of persistent entries do not change.
#[verifier::external_body]
pub fn instance_set_i128(env: &mut soroban_sdk::Env, key: &KeyVal, value: i128)
    requires
        in_contract(*old(env)),
    ensures
        in_contract(*final(env)),
        instance_entries(*final(env)) == instance_entries(*old(env)).insert(key_parts(*key), Entry::I128(value)),
        persistent_entries(*final(env)) == persistent_entries(*old(env)),
        ledger_sequence(*final(env)) == ledger_sequence(*old(env)),
        max_live_until(*final(env)) == max_live_until(*old(env)),
        new_persistent_live_until(*final(env)) == new_persistent_live_until(*old(env)),
        forall|k: Seq<KeyPart>| #[trigger] persistent_live_until(*final(env), k) == persistent_live_until(*old(env), k),
{
    env.storage().instance().set(key, &value);
}

/// `Instance::get` of a `u128`. The host panics when the stored value has
/// another shape, which `requires` leaves out.
#[verifier::external_body]
pub fn instance_get_u128(env: &soroban_sdk::Env, key: &KeyVal) -> (r: Option<u128>)
    requires
        in_contract(*env),
        readable(instance_entries(*env), key_parts(*key), ValueKind::U128),
    ensures
        r is None <==> !instance_entries(*env).contains_key(key_parts(*key)),
        r matches Some(v) ==> instance_entries(*env)[key_parts(*key)] == Entry::U128(v),
{
    env.storage().instance().get(key)
}

/// `Instance::set` of a `u128`.
/// Lifetimes of persistent entries do not change.
#[verifier::external_body]
pub fn instance_set_u128(env: &mut soroban_sdk::Env, key: &KeyVal, value: u128)
    requires
        in_contract(*old(env)),
    ensures
        in_contract(*final(env)),
        instance_entries(*final(env)) == instance_entries(*old(env)).insert(key_parts(*key), Entry::U128(value)),
        persistent_entries(*final(env)) == persistent_entries(*old(env)),
        ledger_sequence(*final(env)) == ledger_sequence(*old(env)),
        max_live_until(*final(env)) == max_live_until(*old(env)),
        new_persistent_live_until(*final(env)) == new_persistent_live_until(*old(env)),
        forall|k: Seq<KeyPart>| #[trigger] persistent_live_until(*final(env), k) == persistent_live_until(*old(env), k),
{
    env.storage().instance().set(key, &value);
}

/// `Instance::get` of a `bool`. The host panics when the stored value has
/// another shape, which `requires` leaves out.
#[verifier::external_body]
pub fn instance_get_bool(env: &soroban_sdk::Env, key: &KeyVal) -> (r: Option<bool>)
    requires
        in_contract(*env),
        readable(instance_entries(*env), key_parts(*key), ValueKind::Bool),
    ensures
        r is None <==> !instance_entries(*env).contains_key(key_parts(*key)),
        r matches Some(v) ==> instance_entries(*env)[key_parts(*key)] == Entry::Bool(v),
{
    env.storage().instance().get(key)
}

/// `Instance::set` of a `bool`.
/// Lifetimes of persistent entries do not change.
#[verifier::external_body]
pub fn instance_set_bool(env: &mut soroban_sdk::Env, key: &KeyVal, value: bool)
    requires
        in_contract(*old(env)),
    ensures
        in_contract(*final(env)),
        instance_entries(*final(env)) == instance_entries(*old(env)).insert(key_parts(*key), Entry::Bool(value)),
        persistent_entries(*final(env)) == persistent_entries(*old(env)),
        ledger_sequence(*final(env)) == ledger_sequence(*old(env)),
        max_live_until(*final(env)) == max_live_until(*old(env)),
        new_persistent_live_until(*final(env)) == new_persistent_live_until(*old(env)),
        forall|k: Seq<KeyPart>| #[trigger] persistent_live_until(*final(env), k) == persistent_live_until(*old(env), k),
{
    env.storage().instance().set(key, &value);
}

/// `Instance::get` of a unit-variant enum value, stored as `(Symbol,)`. The host panics when the stored value has
/// another shape, which `requires` leaves out.
#[verifier::external_body]
pub fn instance_get_variant(env: &soroban_sdk::Env, key: &KeyVal) -> (r: Option<soroban_sdk::Symbol>)
    requires
        in_contract(*env),
        readable(instance_entries(*env), key_parts(*key), ValueKind::Variant),
    ensures
        r is None <==> !instance_entries(*env).contains_key(key_parts(*key)),
        r matches Some(v) ==> instance_entries(*env)[key_parts(*key)] == Entry::Variant(symbol_name(v)),
{
    env.storage().instance().get::<KeyVal, (soroban_sdk::Symbol,)>(key).map(|t| t.0)
}

/// `Instance::set` of a unit-variant enum value, as `(Symbol,)`.
/// Lifetimes of persistent entries do not change.
#[verifier::external_body]
pub fn instance_set_variant(env: &mut soroban_sdk::Env, key: &KeyVal, value: &soroban_sdk::Symbol)
    requires
        in_contract(*old(env)),
    ensures
        in_contract(*final(env)),
        instance_entries(*final(env)) == instance_entries(*old(env)).insert(key_parts(*key), Entry::Variant(symbol_name(*value))),
        persistent_entries(*final(env)) == persistent_entries(*old(env)),
        ledger_sequence(*final(env)) == ledger_sequence(*old(env)),
        max_live_until(*final(env)) == max_live_until(*old(env)),
        new_persistent_live_until(*final(env)) == new_persistent_live_until(*old(env)),
        forall|k: Seq<KeyPart>| #[trigger] persistent_live_until(*final(env), k) == persistent_live_until(*old(env), k),
{
    env.storage().instance().set(key, &(value.clone(),));
}

/// `Instance::get` of a permission record (a map whose one field, named by
/// `field`, holds a list of unit-variant enum values), then
/// `Map::get_unchecked` of that field. The host panics when the stored value
/// has another shape, which `requires` leaves out.
#[verifier::external_body]
pub fn instance_get_permissions(env: &soroban_sdk::Env, key: &KeyVal, field: &soroban_sdk::Symbol) -> (r: Option<
    VariantList,
>)
    requires
        in_contract(*env),
        symbol_name(*field) == "permissions"@,
        readable(instance_entries(*env), key_parts(*key), ValueKind::Permissions),
    ensures
        r is None <==> !instance_entries(*env).contains_key(key_parts(*key)),
        r matches Some(v) ==> instance_entries(*env)[key_parts(*key)] == Entry::Permissions(variant_list(v)),
{
    match env.storage().instance().get::<KeyVal, soroban_sdk::Map<soroban_sdk::Symbol, VariantList>>(key) {
        Some(record) => Some(record.get_unchecked(field.clone())),
        None => None,
    }
}

/// `Instance::set` of a permission record: a map (built by
/// `Map::from_array`) whose one field, named by `field`, holds `value`.
/// Lifetimes of persistent entries do not change.
#[verifier::external_body]
pub fn instance_set_permissions(
    env: &mut soroban_sdk::Env,
    key: &KeyVal,
    field: &soroban_sdk::Symbol,
    value: &VariantList,
)
    requires
        in_contract(*old(env)),
        symbol_name(*field) == "permissions"@,
    ensures
        in_contract(*final(env)),
        instance_entries(*final(env)) == instance_entries(*old(env)).insert(key_parts(*key), Entry::Permissions(variant_list(*value))),
        persistent_entries(*final(env)) == persistent_entries(*old(env)),
        ledger_sequence(*final(env)) == ledger_sequence(*old(env)),
        max_live_until(*final(env)) == max_live_until(*old(env)),
        new_persistent_live_until(*final(env)) == new_persistent_live_until(*old(env)),
        forall|k: Seq<KeyPart>| #[trigger] persistent_live_until(*final(env), k) == persistent_live_until(*old(env), k),
{
    let record = soroban_sdk::Map::from_array(env, [(field.clone(), value.clone())]);
    env.storage().instance().set(key, &record);
}

/// `Instance::get` of a vector of addresses. The host panics when the stored value has
/// another shape, which `requires` leaves out.
#[verifier::external_body]
pub fn instance_get_addresses(env: &soroban_sdk::Env, key: &KeyVal) -> (r: Option<soroban_sdk::Vec<soroban_sdk::Address>>)
    requires
        in_contract(*env),
        readable(instance_entries(*env), key_parts(*key), ValueKind::Addresses),
    ensures
        r is None <==> !instance_entries(*env).contains_key(key_parts(*key)),
        r matches Some(v) ==> instance_entries(*env)[key_parts(*key)] == Entry::Addrs(address_list(v)),
{
    env.storage().instance().get(key)
}

/// `Instance::set` of a vector of addresses.
/// Lifetimes of persistent entries do not change.
#[verifier::external_body]
pub fn instance_set_addresses(env: &mut soroban_sdk::Env, key: &KeyVal, value: &soroban_sdk::Vec<soroban_sdk::Address>)
    requires
        in_contract(*old(env)),
    ensures
        in_contract(*final(env)),
        instance_entries(*final(env)) == instance_entries(*old(env)).insert(key_parts(*key), Entry::Addrs(address_list(*value))),
        persistent_entries(*final(env)) == persistent_entries(*old(env)),
        ledger_sequence(*final(env)) == ledger_sequence(*old(env)),
        max_live_until(*final(env)) == max_live_until(*old(env)),
        new_persistent_live_until(*final(env)) == new_persistent_live_until(*old(env)),
        forall|k: Seq<KeyPart>| #[trigger] persistent_live_until(*final(env), k) == persistent_live_until(*old(env), k),
{
    env.storage().instance().set(key, value);
}

/// `Instance::has`: whether a value is stored under `key`.
#[verifier::external_body]
pub fn instance_has(env: &soroban_sdk::Env, key: &KeyVal) -> (r: bool)
    requires
        in_contract(*env),
    ensures
        r == instance_entries(*env).contains_key(key_parts(*key)),
{
    env.storage().instance().has(key)
}

/// `Persistent::remove`: deletes what is stored under `key` (nothing when
/// nothing is). Other entries keep their lifetimes.
#[verifier::external_body]
pub fn persistent_remove(env: &mut soroban_sdk::Env, key: &KeyVal)
    requires
        in_contract(*old(env)),
    ensures
        in_contract(*final(env)),
        persistent_entries(*final(env)) == persistent_entries(*old(env)).remove(key_parts(*key)),
        instance_entries(*final(env)) == instance_entries(*old(env)),
        ledger_sequence(*final(env)) == ledger_sequence(*old(env)),
        max_live_until(*final(env)) == max_live_until(*old(env)),
        new_persistent_live_until(*final(env)) == new_persistent_live_until(*old(env)),
        forall|k: Seq<KeyPart>|
            k != key_parts(*key) ==> #[trigger] persistent_live_until(*final(env), k) == persistent_live_until(*old(env), k),
{
    env.storage().persistent().remove(key);
}

/// `Persistent::extend_ttl`: when at most `threshold` ledgers remain of the
/// entry under `key`, extends its lifetime to `extend_to` ledgers from the
/// current one, clamped to the network's limit; a lifetime is never
/// shortened. The host fails on a key with no entry and on a `threshold`
/// above `extend_to`, which `requires` leaves out. The stored entries, the
/// ledger and the lifetimes of other entries do not change.
#[verifier::external_body]
pub fn persistent_extend_ttl(env: &mut soroban_sdk::Env, key: &KeyVal, threshold: u32, extend_to: u32)
    requires
        in_contract(*old(env)),
        persistent_entries(*old(env)).contains_key(key_parts(*key)),
        threshold <= extend_to,
    ensures
        in_contract(*final(env)),
        persistent_entries(*final(env)) == persistent_entries(*old(env)),
        instance_entries(*final(env)) == instance_entries(*old(env)),
        ledger_sequence(*final(env)) == ledger_sequence(*old(env)),
        max_live_until(*final(env)) == max_live_until(*old(env)),
        new_persistent_live_until(*final(env)) == new_persistent_live_until(*old(env)),
        forall|k: Seq<KeyPart>|
            k != key_parts(*key) ==> #[trigger] persistent_live_until(*final(env), k) == persistent_live_until(*old(env), k),
        persistent_live_until(*final(env), key_parts(*key)) == extended_live_until(
            persistent_live_until(*old(env), key_parts(*key)),
            ledger_sequence(*old(env)),
            max_live_until(*old(env)),
            threshold,
            extend_to,
        ),
{
    env.storage().persistent().extend_ttl(key, threshold, extend_to);
}

} // verus!
