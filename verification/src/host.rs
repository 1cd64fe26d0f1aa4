//! The Soroban host values the library works with, and what it believes of
//! them.
//!
//! The types below come from `soroban_sdk`, and are opaque here. Each value is described by a name (an uninterpreted spec
//! function) for its plain content, and each operation the library needs is
//! a small trusted wrapper whose contract is stated over those names.
use crate::model::{is_symbol_name, KeyPart};
use vstd::prelude::*;

verus! {

#[verifier::external_type_specification]
#[verifier::external_body]
pub struct ExEnv(soroban_sdk::Env);

#[verifier::external_type_specification]
#[verifier::external_body]
pub struct ExAddress(soroban_sdk::Address);

#[verifier::external_type_specification]
#[verifier::external_body]
pub struct ExBytes(soroban_sdk::Bytes);

#[verifier::external_type_specification]
#[verifier::external_body]
pub struct ExBytesN<const N: usize>(soroban_sdk::BytesN<N>);

#[verifier::external_type_specification]
#[verifier::external_body]
pub struct ExSymbol(soroban_sdk::Symbol);

#[verifier::external_type_specification]
#[verifier::external_body]
pub struct ExVal(soroban_sdk::Val);

#[verifier::external_type_specification]
#[verifier::external_body]
#[verifier::reject_recursive_types(T)]
pub struct ExVec<T>(soroban_sdk::Vec<T>);

/// A storage key as the host holds it: a vector whose first element is the
/// tag symbol and whose other elements are the key's fields.
pub type KeyVal = soroban_sdk::Vec<soroban_sdk::Val>;

/// A list of unit-variant enum values, each held as a one-element tuple of
/// its variant symbol (the form in which such values are stored).
pub type VariantList = soroban_sdk::Vec<(soroban_sdk::Symbol,)>;

/// The strkey of an address (what `Address::to_string` renders). Two
/// addresses are equal exactly when their strkeys are.
pub uninterp spec fn address_id(a: soroban_sdk::Address) -> Seq<char>;

/// The bytes held by a `BytesN<32>`.
pub uninterp spec fn bytesn_view(b: soroban_sdk::BytesN<32>) -> Seq<u8>;

/// The bytes held by a `Bytes`.
pub uninterp spec fn bytes_view(b: soroban_sdk::Bytes) -> Seq<u8>;

/// The parts of a storage key, in order.
pub uninterp spec fn key_parts(k: KeyVal) -> Seq<KeyPart>;

/// The strkeys of the addresses held by a vector of addresses, in order.
pub uninterp spec fn address_list(v: soroban_sdk::Vec<soroban_sdk::Address>) -> Seq<Seq<char>>;

/// The name of a symbol. Two symbols are equal exactly when their names are.
pub uninterp spec fn symbol_name(s: soroban_sdk::Symbol) -> Seq<char>;

/// The variant names held by a list of unit-variant values, in order.
pub uninterp spec fn variant_list(v: VariantList) -> Seq<Seq<char>>;

/// Starts a storage key with the tag symbol `tag`.
/// Calls `Vec::new`, `Symbol::new` and `Vec::push_back`; `Symbol::new`
/// panics on a name that is not a symbol, which `requires` leaves out.
#[verifier::external_body]
pub fn key_new(env: &soroban_sdk::Env, tag: &str) -> (k: KeyVal)
    requires
        is_symbol_name(tag@),
    ensures
        key_parts(k) == seq![KeyPart::Sym(tag@)],
{
    let mut k = soroban_sdk::Vec::new(env);
    k.push_back(soroban_sdk::Symbol::new(env, tag).to_val());
    k
}

/// Appends a 32-byte field to a key (`Vec::push_back` of the bytes object).
#[verifier::external_body]
pub fn key_push_bytesn(k: &mut KeyVal, b: &soroban_sdk::BytesN<32>)
    ensures
        key_parts(*final(k)) == key_parts(*old(k)).push(KeyPart::Bytes(bytesn_view(*b))),
{
    k.push_back(b.to_val());
}

/// Appends an address field to a key (`Vec::push_back` of the address).
#[verifier::external_body]
pub fn key_push_address(k: &mut KeyVal, a: &soroban_sdk::Address)
    ensures
        key_parts(*final(k)) == key_parts(*old(k)).push(KeyPart::Addr(address_id(*a))),
{
    k.push_back(a.to_val());
}

/// Appends a `u32` field to a key (`Vec::push_back` of the integer).
#[verifier::external_body]
pub fn key_push_u32(k: &mut KeyVal, x: u32)
    ensures
        key_parts(*final(k)) == key_parts(*old(k)).push(KeyPart::Id(x)),
{
    k.push_back(soroban_sdk::Val::from(x));
}

/// Appends a unit-variant enum field to a key: a one-element vector holding
/// the variant symbol, the form such a value takes when stored.
#[verifier::external_body]
pub fn key_push_variant(k: &mut KeyVal, name: &str)
    requires
        is_symbol_name(name@),
    ensures
        key_parts(*final(k)) == key_parts(*old(k)).push(KeyPart::Variant(name@)),
{
    let env = k.env().clone();
    let inner: soroban_sdk::Vec<soroban_sdk::Val> =
        soroban_sdk::Vec::from_array(&env, [soroban_sdk::Symbol::new(&env, name).to_val()]);
    k.push_back(inner.to_val());
}

/// `Address == Address`: the host compares the two addresses by content.
#[verifier::external_body]
pub fn address_eq(a: &soroban_sdk::Address, b: &soroban_sdk::Address) -> (r: bool)
    ensures
        r == (address_id(*a) == address_id(*b)),
{
    a == b
}

/// `Address::clone`: the same address.
#[verifier::external_body]
pub fn address_clone(a: &soroban_sdk::Address) -> (r: soroban_sdk::Address)
    ensures
        address_id(r) == address_id(*a),
{
    a.clone()
}

/// `BytesN::clone`: the same bytes.
#[verifier::external_body]
pub fn bytesn_clone(b: &soroban_sdk::BytesN<32>) -> (r: soroban_sdk::BytesN<32>)
    ensures
        bytesn_view(r) == bytesn_view(*b),
{
    b.clone()
}

/// `BytesN::from_array(env, &[0; 32])`: thirty-two zero bytes.
#[verifier::external_body]
pub fn bytesn_zero(env: &soroban_sdk::Env) -> (r: soroban_sdk::BytesN<32>)
    ensures
        bytesn_view(r) == Seq::new(32, |i: int| 0u8),
{
    soroban_sdk::BytesN::from_array(env, &[0u8; 32])
}

/// `Bytes::len`: the number of bytes.
#[verifier::external_body]
pub fn bytes_len(b: &soroban_sdk::Bytes) -> (r: u32)
    ensures
        r == bytes_view(*b).len(),
{
    b.len()
}

/// `Bytes::get`: the byte at `i`, or `None` past the end.
#[verifier::external_body]
pub fn bytes_get(b: &soroban_sdk::Bytes, i: u32) -> (r: Option<u8>)
    ensures
        r == (if i < bytes_view(*b).len() { Some(bytes_view(*b)[i as int]) } else { None }),
{
    b.get(i)
}

/// `Vec::new`: an empty vector of addresses.
#[verifier::external_body]
pub fn address_vec_new(env: &soroban_sdk::Env) -> (r: soroban_sdk::Vec<soroban_sdk::Address>)
    ensures
        address_list(r) == Seq::<Seq<char>>::empty(),
{
    soroban_sdk::Vec::new(env)
}

/// `Vec::push_back`: appends an address. The host caps a vector's length at
/// `u32::MAX`, which `requires` keeps clear of.
#[verifier::external_body]
pub fn address_vec_push_back(v: &mut soroban_sdk::Vec<soroban_sdk::Address>, a: soroban_sdk::Address)
    requires
        address_list(*old(v)).len() < u32::MAX,
    ensures
        address_list(*final(v)) == address_list(*old(v)).push(address_id(a)),
{
    v.push_back(a);
}

/// `Vec::len`: the number of addresses.
#[verifier::external_body]
pub fn address_vec_len(v: &soroban_sdk::Vec<soroban_sdk::Address>) -> (r: u32)
    ensures
        r == address_list(*v).len(),
{
    v.len()
}

/// `Vec::get_unchecked`: the address at `i`, which must be in range.
#[verifier::external_body]
pub fn address_vec_get(v: &soroban_sdk::Vec<soroban_sdk::Address>, i: u32) -> (r: soroban_sdk::Address)
    requires
        i < address_list(*v).len(),
    ensures
        address_id(r) == address_list(*v)[i as int],
{
    v.get_unchecked(i)
}

/// `Vec::contains`: whether an equal address is in the vector.
#[verifier::external_body]
pub fn address_vec_contains(v: &soroban_sdk::Vec<soroban_sdk::Address>, a: &soroban_sdk::Address) -> (r: bool)
    ensures
        r == address_list(*v).contains(address_id(*a)),
{
    v.contains(a)
}

/// `Vec::clone`: the same list of variant values.
#[verifier::external_body]
pub fn variant_list_clone(v: &VariantList) -> (r: VariantList)
    ensures
        variant_list(r) == variant_list(*v),
{
    v.clone()
}

/// `Vec::contains` of `(symbol,)`: whether the variant `s` is in the list.
#[verifier::external_body]
pub fn variant_list_contains(v: &VariantList, s: &soroban_sdk::Symbol) -> (r: bool)
    ensures
        r == variant_list(*v).contains(symbol_name(*s)),
{
    v.contains((s.clone(),))
}

/// `Symbol::new`: the symbol named `name`. It panics on a name that is not
/// a symbol, which `requires` leaves out.
#[verifier::external_body]
pub fn symbol_new(env: &soroban_sdk::Env, name: &str) -> (r: soroban_sdk::Symbol)
    requires
        is_symbol_name(name@),
    ensures
        symbol_name(r) == name@,
{
    soroban_sdk::Symbol::new(env, name)
}

/// `Symbol::clone`: the same symbol.
#[verifier::external_body]
pub fn symbol_clone(s: &soroban_sdk::Symbol) -> (r: soroban_sdk::Symbol)
    ensures
        symbol_name(r) == symbol_name(*s),
{
    s.clone()
}

} // verus!
