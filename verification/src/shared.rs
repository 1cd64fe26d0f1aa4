//! Authorization and storage helpers shared by the contracts.
//!
//! The storage helpers read and write one key of persistent or instance
//! storage; a persistent write also extends the entry's lifetime under the
//! shared policy (`PERSISTENT_LIFETIME_THRESHOLD`, `PERSISTENT_BUMP_AMOUNT`).
use crate::host::{address_eq, address_id, key_parts, KeyVal};
use crate::ledger::{
    extended_live_until, in_contract, instance_entries, ledger_sequence, max_live_until, new_persistent_live_until,
    persistent_entries, persistent_extend_ttl, persistent_has, persistent_live_until,
    persistent_get_address, persistent_set_address, persistent_get_bytesn, persistent_set_bytesn, persistent_get_bytes, persistent_set_bytes, persistent_get_u64, persistent_set_u64, persistent_get_i128, persistent_set_i128, persistent_get_u128, persistent_set_u128, persistent_get_bool, persistent_set_bool, persistent_get_variant, persistent_set_variant, persistent_get_permissions, persistent_set_permissions, persistent_get_addresses, persistent_set_addresses, instance_get_address, instance_set_address, instance_get_bytesn, instance_set_bytesn, instance_get_bytes, instance_set_bytes, instance_get_u64, instance_set_u64, instance_get_i128, instance_set_i128, instance_get_u128, instance_set_u128, instance_get_bool, instance_set_bool, instance_get_variant, instance_set_variant, instance_get_permissions, instance_set_permissions, instance_get_addresses, instance_set_addresses,
};
use crate::model::{fits, readable, KeyPart, ValueKind};
use crate::types::{PermissionSet, Value};
use vstd::prelude::*;

verus! {

/// Bump amount: about 30 days of ledgers (at about 5 s per ledger close).
pub const PERSISTENT_BUMP_AMOUNT: u32 = 518_400;

/// Lifetime threshold: about 7 days of ledgers; an entry is extended when
/// its remaining lifetime drops below this.
pub const PERSISTENT_LIFETIME_THRESHOLD: u32 = 120_960;

/// The live-until ledger of a persistent entry after a bump under the shared
/// policy at ledger `seq` with network limit `max`: when fewer than
/// `PERSISTENT_LIFETIME_THRESHOLD` ledgers remain, the entry is made to live
/// `PERSISTENT_BUMP_AMOUNT` ledgers from `seq` (clamped to `max`), unless it
/// already lives that long.
pub open spec fn bumped_live_until(old: u32, seq: u32, max: u32) -> u32 {
    extended_live_until(old, seq, max, (PERSISTENT_LIFETIME_THRESHOLD - 1) as u32, PERSISTENT_BUMP_AMOUNT)
}

/// The ledger, its limits and the new-entry lifetime are the same in both
/// states.
pub open spec fn same_ledger(e0: soroban_sdk::Env, e1: soroban_sdk::Env) -> bool {
    &&& ledger_sequence(e1) == ledger_sequence(e0)
    &&& max_live_until(e1) == max_live_until(e0)
    &&& new_persistent_live_until(e1) == new_persistent_live_until(e0)
}

/// No persistent entry's lifetime changed.
pub open spec fn lifetimes_kept(e0: soroban_sdk::Env, e1: soroban_sdk::Env) -> bool {
    &&& same_ledger(e0, e1)
    &&& forall|k: Seq<KeyPart>| #[trigger] persistent_live_until(e1, k) == persistent_live_until(e0, k)
}

/// No persistent entry's lifetime changed but that of `key`.
pub open spec fn lifetimes_kept_except(e0: soroban_sdk::Env, e1: soroban_sdk::Env, key: Seq<KeyPart>) -> bool {
    &&& same_ledger(e0, e1)
    &&& forall|k: Seq<KeyPart>| k != key ==> #[trigger] persistent_live_until(e1, k) == persistent_live_until(e0, k)
}

/// The lifetime the entry under `key` has once written in state `e`: its
/// own when it exists, the network's minimum when it is new.
pub open spec fn live_until_once_written(e: soroban_sdk::Env, key: Seq<KeyPart>) -> u32 {
    if persistent_entries(e).contains_key(key) {
        persistent_live_until(e, key)
    } else {
        new_persistent_live_until(e)
    }
}

/// From `e0` to `e1`, the entry under `key` was written and bumped under the
/// shared policy, and no other lifetime changed.
pub open spec fn written_and_bumped(e0: soroban_sdk::Env, e1: soroban_sdk::Env, key: Seq<KeyPart>) -> bool {
    &&& lifetimes_kept_except(e0, e1, key)
    &&& persistent_live_until(e1, key) == bumped_live_until(
        live_until_once_written(e0, key),
        ledger_sequence(e0),
        max_live_until(e0),
    )
}

/// From `e0` to `e1`, the entries under `k1` and then `k2` (two different
/// keys) were written and bumped under the shared policy, and no other
/// lifetime changed.
pub open spec fn both_written_and_bumped(
    e0: soroban_sdk::Env,
    e1: soroban_sdk::Env,
    k1: Seq<KeyPart>,
    k2: Seq<KeyPart>,
) -> bool {
    &&& same_ledger(e0, e1)
    &&& forall|k: Seq<KeyPart>| k != k1 && k != k2 ==> #[trigger] persistent_live_until(e1, k) == persistent_live_until(e0, k)
    &&& persistent_live_until(e1, k1) == bumped_live_until(live_until_once_written(e0, k1), ledger_sequence(e0), max_live_until(e0))
    &&& persistent_live_until(e1, k2) == bumped_live_until(live_until_once_written(e0, k2), ledger_sequence(e0), max_live_until(e0))
}

/// The value, or the given contract error when there is none.
pub fn unwrap_or_panic<T, E>(_env: &soroban_sdk::Env, value: Option<T>, error: E) -> (r: Result<T, E>)
    ensures
        r == (match value {
            Some(v) => Ok::<T, E>(v),
            None => Err::<T, E>(error),
        }),
{
    match value {
        Some(v) => Ok(v),
        None => Err(error),
    }
}

/// Succeeds when the (already authenticated) caller is the expected owner,
/// and fails with the given contract error otherwise.
pub fn require_matching_auth<E>(
    _env: &soroban_sdk::Env,
    caller: &soroban_sdk::Address,
    owner: &soroban_sdk::Address,
    error: E,
) -> (r: Result<(), E>)
    ensures
        r == (if address_id(*caller) == address_id(*owner) {
            Ok::<(), E>(())
        } else {
            Err::<(), E>(error)
        }),
{
    if address_eq(caller, owner) {
        Ok(())
    } else {
        Err(error)
    }
}

/// Extends the lifetime of the persistent entry under `key` under the shared
/// policy: when fewer than `PERSISTENT_LIFETIME_THRESHOLD` ledgers remain, it
/// is made to live `PERSISTENT_BUMP_AMOUNT` ledgers from the current one
/// (within the network's limit). The entry must exist. The stored entries and
/// the lifetimes of other entries do not change.
pub fn bump_persistent(env: &mut soroban_sdk::Env, key: &KeyVal)
    requires
        in_contract(*old(env)),
        persistent_entries(*old(env)).contains_key(key_parts(*key)),
    ensures
        in_contract(*final(env)),
        persistent_entries(*final(env)) == persistent_entries(*old(env)),
        instance_entries(*final(env)) == instance_entries(*old(env)),
        lifetimes_kept_except(*old(env), *final(env), key_parts(*key)),
        persistent_live_until(*final(env), key_parts(*key)) == bumped_live_until(
            persistent_live_until(*old(env), key_parts(*key)),
            ledger_sequence(*old(env)),
            max_live_until(*old(env)),
        ),
{
    persistent_extend_ttl(env, key, PERSISTENT_LIFETIME_THRESHOLD - 1, PERSISTENT_BUMP_AMOUNT);
}

/// Extends the lifetime of the persistent entry under `key`, as
/// `bump_persistent` does, when there is one; reports whether there was.
pub fn bump_persistent_if_present(env: &mut soroban_sdk::Env, key: &KeyVal) -> (r: bool)
    requires
        in_contract(*old(env)),
    ensures
        in_contract(*final(env)),
        r == persistent_entries(*old(env)).contains_key(key_parts(*key)),
        persistent_entries(*final(env)) == persistent_entries(*old(env)),
        instance_entries(*final(env)) == instance_entries(*old(env)),
        lifetimes_kept_except(*old(env), *final(env), key_parts(*key)),
        persistent_live_until(*final(env), key_parts(*key)) == (if r {
            bumped_live_until(
                persistent_live_until(*old(env), key_parts(*key)),
                ledger_sequence(*old(env)),
                max_live_until(*old(env)),
            )
        } else {
            persistent_live_until(*old(env), key_parts(*key))
        }),
{
    if persistent_has(env, key) {
        bump_persistent(env, key);
        true
    } else {
        false
    }
}

/// Writes a persistent value and extends its lifetime under the shared
/// policy.
pub fn set_persistent(env: &mut soroban_sdk::Env, key: &KeyVal, value: &Value)
    requires
        in_contract(*old(env)),
    ensures
        in_contract(*final(env)),
        persistent_entries(*final(env)) == persistent_entries(*old(env)).insert(key_parts(*key), value.entry()),
        instance_entries(*final(env)) == instance_entries(*old(env)),
        fits(persistent_entries(*final(env))[key_parts(*key)], value.kind()),
        written_and_bumped(*old(env), *final(env), key_parts(*key)),
{
    match value {
        Value::Address(x) => persistent_set_address(env, key, x),
        Value::Hash(x) => persistent_set_bytesn(env, key, x),
        Value::Bytes(x) => persistent_set_bytes(env, key, x),
        Value::U64(x) => persistent_set_u64(env, key, *x),
        Value::I128(x) => persistent_set_i128(env, key, *x),
        Value::U128(x) => persistent_set_u128(env, key, *x),
        Value::Bool(x) => persistent_set_bool(env, key, *x),
        Value::Variant(x) => persistent_set_variant(env, key, x),
        Value::Permissions(x) => {
            let field = PermissionSet::field_name(env);
            persistent_set_permissions(env, key, &field, x)
        },
        Value::Addresses(x) => persistent_set_addresses(env, key, x),
    }
    bump_persistent(env, key);
}

/// Reads a persistent value of the given kind.
pub fn get_persistent(env: &soroban_sdk::Env, key: &KeyVal, kind: ValueKind) -> (r: Option<Value>)
    requires
        in_contract(*env),
        readable(persistent_entries(*env), key_parts(*key), kind),
    ensures
        r is None <==> !persistent_entries(*env).contains_key(key_parts(*key)),
        r matches Some(v) ==> v.kind() == kind && v.entry() == persistent_entries(*env)[key_parts(*key)],
{
    match kind {
        ValueKind::Address => match persistent_get_address(env, key) {
            Some(x) => Some(Value::Address(x)),
            None => None,
        },
        ValueKind::Hash => match persistent_get_bytesn(env, key) {
            Some(x) => Some(Value::Hash(x)),
            None => None,
        },
        ValueKind::Bytes => match persistent_get_bytes(env, key) {
            Some(x) => Some(Value::Bytes(x)),
            None => None,
        },
        ValueKind::U64 => match persistent_get_u64(env, key) {
            Some(x) => Some(Value::U64(x)),
            None => None,
        },
        ValueKind::I128 => match persistent_get_i128(env, key) {
            Some(x) => Some(Value::I128(x)),
            None => None,
        },
        ValueKind::U128 => match persistent_get_u128(env, key) {
            Some(x) => Some(Value::U128(x)),
            None => None,
        },
        ValueKind::Bool => match persistent_get_bool(env, key) {
            Some(x) => Some(Value::Bool(x)),
            None => None,
        },
        ValueKind::Variant => match persistent_get_variant(env, key) {
            Some(x) => Some(Value::Variant(x)),
            None => None,
        },
        ValueKind::Permissions => match persistent_get_permissions(env, key, &PermissionSet::field_name(env)) {
            Some(x) => Some(Value::Permissions(x)),
            None => None,
        },
        ValueKind::Addresses => match persistent_get_addresses(env, key) {
            Some(x) => Some(Value::Addresses(x)),
            None => None,
        },
    }
}

/// Reads a persistent value of the given kind and, when there is one,
/// extends its lifetime under the shared policy. The stored entries do not
/// change.
pub fn get_persistent_with_ttl(env: &mut soroban_sdk::Env, key: &KeyVal, kind: ValueKind) -> (r: Option<Value>)
    requires
        in_contract(*old(env)),
        readable(persistent_entries(*old(env)), key_parts(*key), kind),
    ensures
        in_contract(*final(env)),
        persistent_entries(*final(env)) == persistent_entries(*old(env)),
        instance_entries(*final(env)) == instance_entries(*old(env)),
        r is None <==> !persistent_entries(*old(env)).contains_key(key_parts(*key)),
        r matches Some(v) ==> v.kind() == kind && v.entry() == persistent_entries(*old(env))[key_parts(*key)],
        r is None ==> lifetimes_kept(*old(env), *final(env)),
        r is Some ==> lifetimes_kept_except(*old(env), *final(env), key_parts(*key)),
        r is Some ==> persistent_live_until(*final(env), key_parts(*key)) == bumped_live_until(
            persistent_live_until(*old(env), key_parts(*key)),
            ledger_sequence(*old(env)),
            max_live_until(*old(env)),
        ),
{
    let value = get_persistent(env, key, kind);
    if value.is_some() {
        bump_persistent(env, key);
    }
    value
}

/// Reads an instance value of the given kind.
pub fn get_instance(env: &soroban_sdk::Env, key: &KeyVal, kind: ValueKind) -> (r: Option<Value>)
    requires
        in_contract(*env),
        readable(instance_entries(*env), key_parts(*key), kind),
    ensures
        r is None <==> !instance_entries(*env).contains_key(key_parts(*key)),
        r matches Some(v) ==> v.kind() == kind && v.entry() == instance_entries(*env)[key_parts(*key)],
{
    match kind {
        ValueKind::Address => match instance_get_address(env, key) {
            Some(x) => Some(Value::Address(x)),
            None => None,
        },
        ValueKind::Hash => match instance_get_bytesn(env, key) {
            Some(x) => Some(Value::Hash(x)),
            None => None,
        },
        ValueKind::Bytes => match instance_get_bytes(env, key) {
            Some(x) => Some(Value::Bytes(x)),
            None => None,
        },
        ValueKind::U64 => match instance_get_u64(env, key) {
            Some(x) => Some(Value::U64(x)),
            None => None,
        },
        ValueKind::I128 => match instance_get_i128(env, key) {
            Some(x) => Some(Value::I128(x)),
            None => None,
        },
        ValueKind::U128 => match instance_get_u128(env, key) {
            Some(x) => Some(Value::U128(x)),
            None => None,
        },
        ValueKind::Bool => match instance_get_bool(env, key) {
            Some(x) => Some(Value::Bool(x)),
            None => None,
        },
        ValueKind::Variant => match instance_get_variant(env, key) {
            Some(x) => Some(Value::Variant(x)),
            None => None,
        },
        ValueKind::Permissions => match instance_get_permissions(env, key, &PermissionSet::field_name(env)) {
            Some(x) => Some(Value::Permissions(x)),
            None => None,
        },
        ValueKind::Addresses => match instance_get_addresses(env, key) {
            Some(x) => Some(Value::Addresses(x)),
            None => None,
        },
    }
}

/// Writes an instance value. Lifetimes of persistent entries do not change.
pub fn set_instance(env: &mut soroban_sdk::Env, key: &KeyVal, value: &Value)
    requires
        in_contract(*old(env)),
    ensures
        in_contract(*final(env)),
        instance_entries(*final(env)) == instance_entries(*old(env)).insert(key_parts(*key), value.entry()),
        persistent_entries(*final(env)) == persistent_entries(*old(env)),
        fits(instance_entries(*final(env))[key_parts(*key)], value.kind()),
        lifetimes_kept(*old(env), *final(env)),
{
    match value {
        Value::Address(x) => instance_set_address(env, key, x),
        Value::Hash(x) => instance_set_bytesn(env, key, x),
        Value::Bytes(x) => instance_set_bytes(env, key, x),
        Value::U64(x) => instance_set_u64(env, key, *x),
        Value::I128(x) => instance_set_i128(env, key, *x),
        Value::U128(x) => instance_set_u128(env, key, *x),
        Value::Bool(x) => instance_set_bool(env, key, *x),
        Value::Variant(x) => instance_set_variant(env, key, x),
        Value::Permissions(x) => {
            let field = PermissionSet::field_name(env);
            instance_set_permissions(env, key, &field, x)
        },
        Value::Addresses(x) => instance_set_addresses(env, key, x),
    }
}

} // verus!
