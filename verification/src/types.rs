//! The contracts' own value types: chains, permissions, modes, statuses,
//! errors, and the stored-value union used by the shared storage helpers.
use crate::host::{address_id, address_list, bytes_view, bytesn_view, symbol_name, symbol_new, variant_list, VariantList};
use crate::model::{is_symbol_name, Entry, ValueKind};
use vstd::prelude::*;

verus! {

/// The chains an external address can be registered for.
#[derive(Clone, Copy, PartialEq, Eq, Structural, Debug)]
pub enum ChainType {
    Evm,
    Bitcoin,
    Solana,
    Cosmos,
}

impl ChainType {
    /// The variant name, under which a chain type is stored.
    pub open spec fn spec_name(self) -> Seq<char> {
        match self {
            ChainType::Evm => "Evm"@,
            ChainType::Bitcoin => "Bitcoin"@,
            ChainType::Solana => "Solana"@,
            ChainType::Cosmos => "Cosmos"@,
        }
    }

    /// The variant name of this chain type.
    pub fn name(&self) -> (r: &'static str)
        ensures
            r@ == self.spec_name(),
            is_symbol_name(r@),
    {
        match self {
            ChainType::Evm => {
                proof {
                    reveal_strlit("Evm");
                }
                "Evm"
            },
            ChainType::Bitcoin => {
                proof {
                    reveal_strlit("Bitcoin");
                }
                "Bitcoin"
            },
            ChainType::Solana => {
                proof {
                    reveal_strlit("Solana");
                }
                "Solana"
            },
            ChainType::Cosmos => {
                proof {
                    reveal_strlit("Cosmos");
                }
                "Cosmos"
            },
        }
    }
}

/// An action a delegate may be allowed to take for a username, held by its
/// variant symbol.
#[derive(Debug)]
pub struct Permission {
    pub name: soroban_sdk::Symbol,
}

impl Permission {
    /// Allowed to add a chain address.
    pub fn add_chain_address(env: &soroban_sdk::Env) -> (r: Permission)
        ensures
            symbol_name(r.name) == "AddChainAddress"@,
    {
        proof {
            reveal_strlit("AddChainAddress");
        }
        Permission { name: symbol_new(env, "AddChainAddress") }
    }

    /// Allowed to remove a chain address.
    pub fn remove_chain_address(env: &soroban_sdk::Env) -> (r: Permission)
        ensures
            symbol_name(r.name) == "RemoveChainAddress"@,
    {
        proof {
            reveal_strlit("RemoveChainAddress");
        }
        Permission { name: symbol_new(env, "RemoveChainAddress") }
    }

    /// Allowed to add a Stellar address.
    pub fn add_stellar_address(env: &soroban_sdk::Env) -> (r: Permission)
        ensures
            symbol_name(r.name) == "AddStellarAddress"@,
    {
        proof {
            reveal_strlit("AddStellarAddress");
        }
        Permission { name: symbol_new(env, "AddStellarAddress") }
    }

    /// Allowed to remove a Stellar address.
    pub fn remove_stellar_address(env: &soroban_sdk::Env) -> (r: Permission)
        ensures
            symbol_name(r.name) == "RemoveStellarAddress"@,
    {
        proof {
            reveal_strlit("RemoveStellarAddress");
        }
        Permission { name: symbol_new(env, "RemoveStellarAddress") }
    }
}

/// The permissions granted to one delegate of one username.
pub struct PermissionSet {
    pub permissions: VariantList,
}

impl PermissionSet {
    /// The name of the record's one field, under which the permissions are
    /// stored.
    pub(crate) fn field_name(env: &soroban_sdk::Env) -> (r: soroban_sdk::Symbol)
        ensures
            symbol_name(r) == "permissions"@,
    {
        proof {
            reveal_strlit("permissions");
        }
        symbol_new(env, "permissions")
    }
}

/// How a username's addresses are disclosed, held by its variant symbol.
#[derive(Debug)]
pub struct PrivacyMode {
    pub name: soroban_sdk::Symbol,
}

impl PrivacyMode {
    /// The mode a username has until one is set.
    pub fn normal(env: &soroban_sdk::Env) -> (r: PrivacyMode)
        ensures
            symbol_name(r.name) == "Normal"@,
    {
        proof {
            reveal_strlit("Normal");
        }
        PrivacyMode { name: symbol_new(env, "Normal") }
    }
}

/// The stage an auction is in, held by its variant symbol.
#[derive(Debug)]
pub struct AuctionStatus {
    pub name: soroban_sdk::Symbol,
}

impl AuctionStatus {
    /// The status of an auction until one is set.
    pub fn open(env: &soroban_sdk::Env) -> (r: AuctionStatus)
        ensures
            symbol_name(r.name) == "Open"@,
    {
        proof {
            reveal_strlit("Open");
        }
        AuctionStatus { name: symbol_new(env, "Open") }
    }
}

/// Why a chain-address operation was refused.
#[derive(Clone, Copy, PartialEq, Eq, Structural, Debug)]
pub enum ChainAddressError {
    NotRegistered,
    Unauthorized,
    InvalidAddress,
}

/// Why a core-contract operation was refused.
#[derive(Clone, Copy, PartialEq, Eq, Structural, Debug)]
pub enum CoreError {
    NotFound,
    Unauthorized,
    NoAddressLinked,
}

/// Why an auction operation was refused.
#[derive(Clone, Copy, PartialEq, Eq, Structural, Debug)]
pub enum AuctionError {
    InvalidState,
}

/// A value of one of the shapes that storage holds.
pub enum Value {
    Address(soroban_sdk::Address),
    Hash(soroban_sdk::BytesN<32>),
    Bytes(soroban_sdk::Bytes),
    U64(u64),
    I128(i128),
    U128(u128),
    Bool(bool),
    Variant(soroban_sdk::Symbol),
    Permissions(VariantList),
    Addresses(soroban_sdk::Vec<soroban_sdk::Address>),
}

impl Value {
    /// The stored entry this value becomes.
    pub open spec fn entry(self) -> Entry {
        match self {
            Value::Address(a) => Entry::Addr(address_id(a)),
            Value::Hash(h) => Entry::Bytes(bytesn_view(h)),
            Value::Bytes(b) => Entry::Bytes(bytes_view(b)),
            Value::U64(x) => Entry::U64(x),
            Value::I128(x) => Entry::I128(x),
            Value::U128(x) => Entry::U128(x),
            Value::Bool(x) => Entry::Bool(x),
            Value::Variant(s) => Entry::Variant(symbol_name(s)),
            Value::Permissions(v) => Entry::Permissions(variant_list(v)),
            Value::Addresses(v) => Entry::Addrs(address_list(v)),
        }
    }

    /// The shape of this value.
    pub open spec fn kind(self) -> ValueKind {
        match self {
            Value::Address(_) => ValueKind::Address,
            Value::Hash(_) => ValueKind::Hash,
            Value::Bytes(_) => ValueKind::Bytes,
            Value::U64(_) => ValueKind::U64,
            Value::I128(_) => ValueKind::I128,
            Value::U128(_) => ValueKind::U128,
            Value::Bool(_) => ValueKind::Bool,
            Value::Variant(_) => ValueKind::Variant,
            Value::Permissions(_) => ValueKind::Permissions,
            Value::Addresses(_) => ValueKind::Addresses,
        }
    }
}

} // verus!
