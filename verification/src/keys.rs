//! Building storage keys: a tag symbol followed by the key's fields, the
//! form in which the contracts' key enums are stored.
use crate::host::{
    address_id, bytesn_view, key_new, key_parts, key_push_address, key_push_bytesn, key_push_u32,
    key_push_variant, KeyVal,
};
use crate::model::{is_symbol_name, key0, key1, key2, KeyPart};
use vstd::prelude::*;

verus! {

/// The key `tag` with no fields.
pub fn key_tag(env: &soroban_sdk::Env, tag: &str) -> (k: KeyVal)
    requires
        is_symbol_name(tag@),
    ensures
        key_parts(k) == key0(tag@),
{
    key_new(env, tag)
}

/// The key `tag(hash)`.
pub fn key_tag_hash(env: &soroban_sdk::Env, tag: &str, hash: &soroban_sdk::BytesN<32>) -> (k: KeyVal)
    requires
        is_symbol_name(tag@),
    ensures
        key_parts(k) == key1(tag@, KeyPart::Bytes(bytesn_view(*hash))),
{
    let mut k = key_new(env, tag);
    key_push_bytesn(&mut k, hash);
    proof {
        assert(key_parts(k) =~= key1(tag@, KeyPart::Bytes(bytesn_view(*hash))));
    }
    k
}

/// The key `tag(hash, address)`.
pub fn key_tag_hash_address(
    env: &soroban_sdk::Env,
    tag: &str,
    hash: &soroban_sdk::BytesN<32>,
    address: &soroban_sdk::Address,
) -> (k: KeyVal)
    requires
        is_symbol_name(tag@),
    ensures
        key_parts(k) == key2(tag@, KeyPart::Bytes(bytesn_view(*hash)), KeyPart::Addr(address_id(*address))),
{
    let mut k = key_new(env, tag);
    key_push_bytesn(&mut k, hash);
    key_push_address(&mut k, address);
    proof {
        assert(key_parts(k) =~= key2(
            tag@,
            KeyPart::Bytes(bytesn_view(*hash)),
            KeyPart::Addr(address_id(*address)),
        ));
    }
    k
}

/// The key `tag(hash, variant)`, where `variant` names a unit-variant value.
pub fn key_tag_hash_variant(
    env: &soroban_sdk::Env,
    tag: &str,
    hash: &soroban_sdk::BytesN<32>,
    variant: &str,
) -> (k: KeyVal)
    requires
        is_symbol_name(tag@),
        is_symbol_name(variant@),
    ensures
        key_parts(k) == key2(tag@, KeyPart::Bytes(bytesn_view(*hash)), KeyPart::Variant(variant@)),
{
    let mut k = key_new(env, tag);
    key_push_bytesn(&mut k, hash);
    key_push_variant(&mut k, variant);
    proof {
        assert(key_parts(k) =~= key2(
            tag@,
            KeyPart::Bytes(bytesn_view(*hash)),
            KeyPart::Variant(variant@),
        ));
    }
    k
}

/// The key `tag(id)`.
pub fn key_tag_id(env: &soroban_sdk::Env, tag: &str, id: u32) -> (k: KeyVal)
    requires
        is_symbol_name(tag@),
    ensures
        key_parts(k) == key1(tag@, KeyPart::Id(id)),
{
    let mut k = key_new(env, tag);
    key_push_u32(&mut k, id);
    proof {
        assert(key_parts(k) =~= key1(tag@, KeyPart::Id(id)));
    }
    k
}

/// The key `tag(id, address)`.
pub fn key_tag_id_address(env: &soroban_sdk::Env, tag: &str, id: u32, address: &soroban_sdk::Address) -> (k: KeyVal)
    requires
        is_symbol_name(tag@),
    ensures
        key_parts(k) == key2(tag@, KeyPart::Id(id), KeyPart::Addr(address_id(*address))),
{
    let mut k = key_new(env, tag);
    key_push_u32(&mut k, id);
    key_push_address(&mut k, address);
    proof {
        assert(key_parts(k) =~= key2(tag@, KeyPart::Id(id), KeyPart::Addr(address_id(*address))));
    }
    k
}

} // verus!
