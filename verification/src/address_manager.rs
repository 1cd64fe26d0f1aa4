//! Linking addresses to a registered username: addresses on other chains,
//! Stellar addresses (with one primary among them) and a shielded-address
//! commitment.
//!
//! Each mutating operation takes a caller that the contract has already
//! authenticated (`require_auth`), and fails, leaving storage as it was, when
//! the username is not registered or when the caller is neither its owner nor
//! a delegate holding the needed permission.
use crate::address_list::{lemma_without_len, lemma_without_push, without};
use crate::core_storage::{
    delegate_holds, delegate_key, get_shielded_address as stored_shielded_address, has_permission,
    has_shielded_address, set_shielded_address, shielded_address_key, stellar_address_key,
    stellar_addresses_key, DataKey,
};
use crate::host::{
    address_eq, address_id, address_list, address_vec_get, address_vec_len, address_vec_new,
    address_vec_push_back, bytes_get, bytes_len, bytes_view, bytesn_clone, bytesn_view, key_parts, symbol_name, KeyVal,
};
use crate::keys::{key_tag_hash, key_tag_hash_variant};
use crate::ledger::{
    in_contract, instance_entries, ledger_sequence, max_live_until, persistent_entries, persistent_live_until,
    persistent_remove,
};
use crate::model::{key1, key2, readable, Entry, KeyPart, ValueKind};
use crate::shared::{
    both_written_and_bumped, bumped_live_until, get_persistent, lifetimes_kept, lifetimes_kept_except,
    live_until_once_written, same_ledger, set_persistent, written_and_bumped,
};
use crate::types::{ChainAddressError, ChainType, CoreError, Permission, Value};
use vstd::prelude::*;

verus! {

/// The key of an address registered for a username on another chain.
pub enum ChainAddrKey {
    ChainAddress(soroban_sdk::BytesN<32>, ChainType),
}

/// The key under which registration records a username's owner.
pub enum CommitmentKey {
    Commitment(soroban_sdk::BytesN<32>),
}

/// The parts of `ChainAddrKey::ChainAddress`.
pub open spec fn chain_address_key(hash: Seq<u8>, chain: ChainType) -> Seq<KeyPart> {
    key2("ChainAddress"@, KeyPart::Bytes(hash), KeyPart::Variant(chain.spec_name()))
}

/// The parts of `CommitmentKey::Commitment`.
pub open spec fn commitment_key(hash: Seq<u8>) -> Seq<KeyPart> {
    key1("Commitment"@, KeyPart::Bytes(hash))
}

impl ChainAddrKey {
    /// The parts this key is stored under.
    pub open spec fn parts(self) -> Seq<KeyPart> {
        match self {
            ChainAddrKey::ChainAddress(h, c) => chain_address_key(bytesn_view(h), c),
        }
    }

    /// The storage key for this key.
    pub fn to_key(&self, env: &soroban_sdk::Env) -> (k: KeyVal)
        ensures
            key_parts(k) == self.parts(),
    {
        match self {
            ChainAddrKey::ChainAddress(h, c) => {
                proof {
                    reveal_strlit("ChainAddress");
                }
                key_tag_hash_variant(env, "ChainAddress", h, c.name())
            },
        }
    }
}

impl CommitmentKey {
    /// The parts this key is stored under.
    pub open spec fn parts(self) -> Seq<KeyPart> {
        match self {
            CommitmentKey::Commitment(h) => commitment_key(bytesn_view(h)),
        }
    }

    /// The storage key for this key.
    pub fn to_key(&self, env: &soroban_sdk::Env) -> (k: KeyVal)
        ensures
            key_parts(k) == self.parts(),
    {
        match self {
            CommitmentKey::Commitment(h) => {
                proof {
                    reveal_strlit("Commitment");
                }
                key_tag_hash(env, "Commitment", h)
            },
        }
    }
}

/// The owner recorded for a username, if it is registered.
pub open spec fn registered_owner(p: Map<Seq<KeyPart>, Entry>, hash: Seq<u8>) -> Option<Seq<char>> {
    if p.contains_key(commitment_key(hash)) {
        Some(p[commitment_key(hash)]->Addr_0)
    } else {
        None
    }
}

/// Whether the reads an authorization check makes succeed: the owner record
/// is an address, and, when the caller is not the owner, the caller's
/// delegate record is a permission record.
pub open spec fn auth_readable(p: Map<Seq<KeyPart>, Entry>, hash: Seq<u8>, caller: Seq<char>) -> bool {
    &&& readable(p, commitment_key(hash), ValueKind::Address)
    &&& (registered_owner(p, hash) matches Some(o) && o != caller) ==> readable(
        p,
        delegate_key(hash, caller),
        ValueKind::Permissions,
    )
}

/// The outcome of checking whether `caller` may act on a username.
#[derive(PartialEq, Eq, Structural)]
pub enum Access {
    /// The username is not registered.
    Unregistered,
    /// The caller is neither the owner nor a delegate with the permission.
    Denied,
    /// The caller is the owner, or a delegate with the permission.
    Granted,
}

/// Who may act on a username: its owner, or a delegate holding `permission`.
pub open spec fn access_of(p: Map<Seq<KeyPart>, Entry>, hash: Seq<u8>, caller: Seq<char>, permission: Seq<char>) -> Access {
    match registered_owner(p, hash) {
        None => Access::Unregistered,
        Some(o) => if o == caller || delegate_holds(p, hash, caller, permission) {
            Access::Granted
        } else {
            Access::Denied
        },
    }
}

/// Whether `bytes` has the format of an address on `chain`: an EVM address
/// is 42 bytes starting with `0x`; the others are judged by length alone
/// (Bitcoin 25 to 62 bytes, Solana 32 to 44, Cosmos 39 to 45).
pub open spec fn valid_chain_address(chain: ChainType, bytes: Seq<u8>) -> bool {
    match chain {
        ChainType::Evm => bytes.len() == 42 && bytes[0] == 0x30u8 && bytes[1] == 0x78u8,
        ChainType::Bitcoin => 25 <= bytes.len() <= 62,
        ChainType::Solana => 32 <= bytes.len() <= 44,
        ChainType::Cosmos => 39 <= bytes.len() <= 45,
    }
}

/// The Stellar addresses linked to a username (none when nothing is stored).
pub open spec fn stellar_list(p: Map<Seq<KeyPart>, Entry>, hash: Seq<u8>) -> Seq<Seq<char>> {
    if p.contains_key(stellar_addresses_key(hash)) {
        p[stellar_addresses_key(hash)]->Addrs_0
    } else {
        Seq::empty()
    }
}

/// Persistent storage after linking `address` to a username: it is appended
/// to the list and becomes the primary address.
pub open spec fn with_stellar_address(p: Map<Seq<KeyPart>, Entry>, hash: Seq<u8>, address: Seq<char>) -> Map<
    Seq<KeyPart>,
    Entry,
> {
    p.insert(stellar_addresses_key(hash), Entry::Addrs(stellar_list(p, hash).push(address))).insert(
        stellar_address_key(hash),
        Entry::Addr(address),
    )
}

/// Persistent storage after unlinking `address` from a username: every
/// occurrence leaves the list; when it was the primary address, the primary
/// becomes the last address left, or is cleared when none is left.
pub open spec fn without_stellar_address(p: Map<Seq<KeyPart>, Entry>, hash: Seq<u8>, address: Seq<char>) -> Map<
    Seq<KeyPart>,
    Entry,
> {
    let updated = without(stellar_list(p, hash), address);
    let p1 = p.insert(stellar_addresses_key(hash), Entry::Addrs(updated));
    if p.contains_key(stellar_address_key(hash)) && p[stellar_address_key(hash)] == Entry::Addr(address) {
        if updated.len() == 0 {
            p1.remove(stellar_address_key(hash))
        } else {
            p1.insert(stellar_address_key(hash), Entry::Addr(updated.last()))
        }
    } else {
        p1
    }
}

/// Lifetimes from `e0` to `e1` when `address` is unlinked from a username:
/// the list is written and bumped; a primary that is promoted is bumped; a
/// primary that is cleared has no entry left; no other lifetime changes.
pub open spec fn unlink_lifetimes(e0: soroban_sdk::Env, e1: soroban_sdk::Env, hash: Seq<u8>, address: Seq<char>) -> bool {
    let p = persistent_entries(e0);
    let lk = stellar_addresses_key(hash);
    let pk = stellar_address_key(hash);
    let updated = without(stellar_list(p, hash), address);
    let replaced = p.contains_key(pk) && p[pk] == Entry::Addr(address);
    &&& same_ledger(e0, e1)
    &&& persistent_live_until(e1, lk) == bumped_live_until(
        live_until_once_written(e0, lk),
        ledger_sequence(e0),
        max_live_until(e0),
    )
    &&& forall|k: Seq<KeyPart>| k != lk && k != pk ==> #[trigger] persistent_live_until(e1, k) == persistent_live_until(e0, k)
    &&& !replaced ==> persistent_live_until(e1, pk) == persistent_live_until(e0, pk)
    &&& (replaced && updated.len() > 0) ==> persistent_live_until(e1, pk) == bumped_live_until(
        persistent_live_until(e0, pk),
        ledger_sequence(e0),
        max_live_until(e0),
    )
}

/// The two Stellar-address keys of a username differ (their tags do).
pub proof fn lemma_stellar_keys_differ(hash: Seq<u8>)
    ensures
        stellar_addresses_key(hash) != stellar_address_key(hash),
{
    reveal_strlit("StellarAddresses");
    reveal_strlit("StellarAddress");
    assert(stellar_addresses_key(hash)[0] == KeyPart::Sym("StellarAddresses"@));
    assert(stellar_address_key(hash)[0] == KeyPart::Sym("StellarAddress"@));
    assert("StellarAddresses"@.len() != "StellarAddress"@.len());
}

/// The owner recorded for a username at registration.
fn registered_owner_of(env: &soroban_sdk::Env, username_hash: &soroban_sdk::BytesN<32>) -> (r: Option<soroban_sdk::Address>)
    requires
        in_contract(*env),
        readable(persistent_entries(*env), commitment_key(bytesn_view(*username_hash)), ValueKind::Address),
    ensures
        r is None <==> registered_owner(persistent_entries(*env), bytesn_view(*username_hash)) is None,
        r matches Some(a) ==> registered_owner(persistent_entries(*env), bytesn_view(*username_hash)) == Some(
            address_id(a),
        ),
{
    let key = CommitmentKey::Commitment(bytesn_clone(username_hash)).to_key(env);
    match get_persistent(env, &key, ValueKind::Address) {
        Some(Value::Address(a)) => Some(a),
        _ => None,
    }
}

/// Whether `caller` may act on a username with `permission`.
fn check_access(
    env: &soroban_sdk::Env,
    username_hash: &soroban_sdk::BytesN<32>,
    caller: &soroban_sdk::Address,
    permission: Permission,
) -> (r: Access)
    requires
        in_contract(*env),
        auth_readable(persistent_entries(*env), bytesn_view(*username_hash), address_id(*caller)),
    ensures
        r == access_of(persistent_entries(*env), bytesn_view(*username_hash), address_id(*caller), symbol_name(permission.name)),
{
    match registered_owner_of(env, username_hash) {
        None => Access::Unregistered,
        Some(owner) => {
            if !address_eq(&owner, caller) && !has_permission(env, username_hash, caller, permission) {
                Access::Denied
            } else {
                Access::Granted
            }
        },
    }
}

/// The outcome of adding a chain address: the result and persistent storage
/// afterwards.
pub open spec fn add_chain_address_outcome(
    p: Map<Seq<KeyPart>, Entry>,
    hash: Seq<u8>,
    caller: Seq<char>,
    chain: ChainType,
    address: Seq<u8>,
) -> (Result<(), ChainAddressError>, Map<Seq<KeyPart>, Entry>) {
    match access_of(p, hash, caller, "AddChainAddress"@) {
        Access::Unregistered => (Err(ChainAddressError::NotRegistered), p),
        Access::Denied => (Err(ChainAddressError::Unauthorized), p),
        Access::Granted => if valid_chain_address(chain, address) {
            (Ok(()), p.insert(chain_address_key(hash, chain), Entry::Bytes(address)))
        } else {
            (Err(ChainAddressError::InvalidAddress), p)
        },
    }
}

/// The outcome of removing a chain address.
pub open spec fn remove_chain_address_outcome(
    p: Map<Seq<KeyPart>, Entry>,
    hash: Seq<u8>,
    caller: Seq<char>,
    chain: ChainType,
) -> (Result<(), ChainAddressError>, Map<Seq<KeyPart>, Entry>) {
    match access_of(p, hash, caller, "RemoveChainAddress"@) {
        Access::Unregistered => (Err(ChainAddressError::NotRegistered), p),
        Access::Denied => (Err(ChainAddressError::Unauthorized), p),
        Access::Granted => (Ok(()), p.remove(chain_address_key(hash, chain))),
    }
}

/// The outcome of linking a Stellar address.
pub open spec fn add_stellar_address_outcome(
    p: Map<Seq<KeyPart>, Entry>,
    hash: Seq<u8>,
    caller: Seq<char>,
    address: Seq<char>,
) -> (Result<(), CoreError>, Map<Seq<KeyPart>, Entry>) {
    match access_of(p, hash, caller, "AddStellarAddress"@) {
        Access::Unregistered => (Err(CoreError::NotFound), p),
        Access::Denied => (Err(CoreError::Unauthorized), p),
        Access::Granted => (Ok(()), with_stellar_address(p, hash, address)),
    }
}

/// The outcome of unlinking a Stellar address.
pub open spec fn remove_stellar_address_outcome(
    p: Map<Seq<KeyPart>, Entry>,
    hash: Seq<u8>,
    caller: Seq<char>,
    address: Seq<char>,
) -> (Result<(), CoreError>, Map<Seq<KeyPart>, Entry>) {
    match access_of(p, hash, caller, "RemoveStellarAddress"@) {
        Access::Unregistered => (Err(CoreError::NotFound), p),
        Access::Denied => (Err(CoreError::Unauthorized), p),
        Access::Granted => (Ok(()), without_stellar_address(p, hash, address)),
    }
}

/// The outcome of setting a shielded-address commitment: only the owner may.
pub open spec fn add_shielded_address_outcome(
    p: Map<Seq<KeyPart>, Entry>,
    hash: Seq<u8>,
    caller: Seq<char>,
    commitment: Seq<u8>,
) -> (Result<(), CoreError>, Map<Seq<KeyPart>, Entry>) {
    match registered_owner(p, hash) {
        None => (Err(CoreError::NotFound), p),
        Some(o) => if o == caller {
            (Ok(()), p.insert(shielded_address_key(hash), Entry::Bytes(commitment)))
        } else {
            (Err(CoreError::Unauthorized), p)
        },
    }
}

/// Address management of the core contract.
pub struct AddressManager;

impl AddressManager {
    /// Registers `address` as the username's address on `chain`.
    pub fn add_chain_address(
        env: &mut soroban_sdk::Env,
        caller: soroban_sdk::Address,
        username_hash: soroban_sdk::BytesN<32>,
        chain: ChainType,
        address: soroban_sdk::Bytes,
    ) -> (r: Result<(), ChainAddressError>)
        requires
            in_contract(*old(env)),
            auth_readable(persistent_entries(*old(env)), bytesn_view(username_hash), address_id(caller)),
        ensures
            in_contract(*final(env)),
            instance_entries(*final(env)) == instance_entries(*old(env)),
            (r, persistent_entries(*final(env))) == add_chain_address_outcome(
                persistent_entries(*old(env)),
                bytesn_view(username_hash),
                address_id(caller),
                chain,
                bytes_view(address),
            ),
            r is Ok ==> written_and_bumped(
                *old(env),
                *final(env),
                chain_address_key(bytesn_view(username_hash), chain),
            ),
            r is Err ==> lifetimes_kept(*old(env), *final(env)),
    {
        match check_access(env, &username_hash, &caller, Permission::add_chain_address(env)) {
            Access::Unregistered => {
                return Err(ChainAddressError::NotRegistered);
            },
            Access::Denied => {
                return Err(ChainAddressError::Unauthorized);
            },
            Access::Granted => {},
        }
        if !Self::validate_address(&chain, &address) {
            return Err(ChainAddressError::InvalidAddress);
        }
        let key = ChainAddrKey::ChainAddress(username_hash, chain).to_key(env);
        set_persistent(env, &key, &Value::Bytes(address));
        Ok(())
    }

    /// The username's address on `chain`, if one is registered.
    pub fn get_chain_address(env: &soroban_sdk::Env, username_hash: soroban_sdk::BytesN<32>, chain: ChainType) -> (r: Option<
        soroban_sdk::Bytes,
    >)
        requires
            in_contract(*env),
            readable(persistent_entries(*env), chain_address_key(bytesn_view(username_hash), chain), ValueKind::Bytes),
        ensures
            r is None <==> !persistent_entries(*env).contains_key(chain_address_key(bytesn_view(username_hash), chain)),
            r matches Some(b) ==> persistent_entries(*env)[chain_address_key(bytesn_view(username_hash), chain)]
                == Entry::Bytes(bytes_view(b)),
    {
        let key = ChainAddrKey::ChainAddress(username_hash, chain).to_key(env);
        match get_persistent(env, &key, ValueKind::Bytes) {
            Some(Value::Bytes(b)) => Some(b),
            _ => None,
        }
    }

    /// Removes the username's address on `chain`.
    pub fn remove_chain_address(
        env: &mut soroban_sdk::Env,
        caller: soroban_sdk::Address,
        username_hash: soroban_sdk::BytesN<32>,
        chain: ChainType,
    ) -> (r: Result<(), ChainAddressError>)
        requires
            in_contract(*old(env)),
            auth_readable(persistent_entries(*old(env)), bytesn_view(username_hash), address_id(caller)),
        ensures
            in_contract(*final(env)),
            instance_entries(*final(env)) == instance_entries(*old(env)),
            (r, persistent_entries(*final(env))) == remove_chain_address_outcome(
                persistent_entries(*old(env)),
                bytesn_view(username_hash),
                address_id(caller),
                chain,
            ),
            r is Ok ==> lifetimes_kept_except(
                *old(env),
                *final(env),
                chain_address_key(bytesn_view(username_hash), chain),
            ),
            r is Err ==> lifetimes_kept(*old(env), *final(env)),
    {
        match check_access(env, &username_hash, &caller, Permission::remove_chain_address(env)) {
            Access::Unregistered => {
                return Err(ChainAddressError::NotRegistered);
            },
            Access::Denied => {
                return Err(ChainAddressError::Unauthorized);
            },
            Access::Granted => {},
        }
        let key = ChainAddrKey::ChainAddress(username_hash, chain).to_key(env);
        persistent_remove(env, &key);
        Ok(())
    }

    /// Links `stellar_address` to the username and makes it the primary
    /// address.
    pub fn add_stellar_address(
        env: &mut soroban_sdk::Env,
        caller: soroban_sdk::Address,
        username_hash: soroban_sdk::BytesN<32>,
        stellar_address: soroban_sdk::Address,
    ) -> (r: Result<(), CoreError>)
        requires
            in_contract(*old(env)),
            auth_readable(persistent_entries(*old(env)), bytesn_view(username_hash), address_id(caller)),
            access_of(
                persistent_entries(*old(env)),
                bytesn_view(username_hash),
                address_id(caller),
                "AddStellarAddress"@,
            ) == Access::Granted ==> {
                &&& readable(
                    persistent_entries(*old(env)),
                    stellar_addresses_key(bytesn_view(username_hash)),
                    ValueKind::Addresses,
                )
                &&& stellar_list(persistent_entries(*old(env)), bytesn_view(username_hash)).len() < u32::MAX
            },
        ensures
            in_contract(*final(env)),
            instance_entries(*final(env)) == instance_entries(*old(env)),
            (r, persistent_entries(*final(env))) == add_stellar_address_outcome(
                persistent_entries(*old(env)),
                bytesn_view(username_hash),
                address_id(caller),
                address_id(stellar_address),
            ),
            r is Ok ==> both_written_and_bumped(
                *old(env),
                *final(env),
                stellar_addresses_key(bytesn_view(username_hash)),
                stellar_address_key(bytesn_view(username_hash)),
            ),
            r is Err ==> lifetimes_kept(*old(env), *final(env)),
    {
        match check_access(env, &username_hash, &caller, Permission::add_stellar_address(env)) {
            Access::Unregistered => {
                return Err(CoreError::NotFound);
            },
            Access::Denied => {
                return Err(CoreError::Unauthorized);
            },
            Access::Granted => {},
        }
        let ghost hash = bytesn_view(username_hash);
        let ghost id = address_id(stellar_address);
        let ghost p0 = persistent_entries(*env);
        let addresses_key = DataKey::StellarAddresses(bytesn_clone(&username_hash)).to_key(env);
        let mut linked = match get_persistent(env, &addresses_key, ValueKind::Addresses) {
            Some(Value::Addresses(v)) => v,
            _ => address_vec_new(env),
        };
        assert(address_list(linked) == stellar_list(p0, hash));
        let primary_value = Value::Address(crate::host::address_clone(&stellar_address));
        address_vec_push_back(&mut linked, stellar_address);
        set_persistent(env, &addresses_key, &Value::Addresses(linked));
        let primary_key = DataKey::StellarAddress(username_hash).to_key(env);
        set_persistent(env, &primary_key, &primary_value);
        Ok(())
    }

    /// Unlinks every occurrence of `stellar_address` from the username. When
    /// it was the primary address, the last remaining address becomes the
    /// primary, or the primary is cleared when none remains.
    pub fn remove_stellar_address(
        env: &mut soroban_sdk::Env,
        caller: soroban_sdk::Address,
        username_hash: soroban_sdk::BytesN<32>,
        stellar_address: soroban_sdk::Address,
    ) -> (r: Result<(), CoreError>)
        requires
            in_contract(*old(env)),
            auth_readable(persistent_entries(*old(env)), bytesn_view(username_hash), address_id(caller)),
            access_of(
                persistent_entries(*old(env)),
                bytesn_view(username_hash),
                address_id(caller),
                "RemoveStellarAddress"@,
            ) == Access::Granted ==> {
                &&& readable(
                    persistent_entries(*old(env)),
                    stellar_addresses_key(bytesn_view(username_hash)),
                    ValueKind::Addresses,
                )
                &&& readable(
                    persistent_entries(*old(env)),
                    stellar_address_key(bytesn_view(username_hash)),
                    ValueKind::Address,
                )
            },
        ensures
            in_contract(*final(env)),
            instance_entries(*final(env)) == instance_entries(*old(env)),
            (r, persistent_entries(*final(env))) == remove_stellar_address_outcome(
                persistent_entries(*old(env)),
                bytesn_view(username_hash),
                address_id(caller),
                address_id(stellar_address),
            ),
            r is Ok ==> unlink_lifetimes(*old(env), *final(env), bytesn_view(username_hash), address_id(stellar_address)),
            r is Err ==> lifetimes_kept(*old(env), *final(env)),
    {
        match check_access(env, &username_hash, &caller, Permission::remove_stellar_address(env)) {
            Access::Unregistered => {
                return Err(CoreError::NotFound);
            },
            Access::Denied => {
                return Err(CoreError::Unauthorized);
            },
            Access::Granted => {},
        }
        let ghost hash = bytesn_view(username_hash);
        let ghost id = address_id(stellar_address);
        let ghost p0 = persistent_entries(*env);
        let addresses_key = DataKey::StellarAddresses(bytesn_clone(&username_hash)).to_key(env);
        let existing = match get_persistent(env, &addresses_key, ValueKind::Addresses) {
            Some(Value::Addresses(v)) => v,
            _ => address_vec_new(env),
        };
        assert(address_list(existing) == stellar_list(p0, hash));
        let mut updated = address_vec_new(env);
        let n = address_vec_len(&existing);
        let mut i: u32 = 0;
        while i < n
            invariant
                n == address_list(existing).len(),
                id == address_id(stellar_address),
                i <= n,
                address_list(updated) == without(address_list(existing).take(i as int), id),
            decreases n - i,
        {
            let addr = address_vec_get(&existing, i);
            proof {
                let s = address_list(existing);
                assert(s.take(i + 1) =~= s.take(i as int).push(s[i as int]));
                lemma_without_push(s.take(i as int), s[i as int], id);
                lemma_without_len(s.take(i as int), id);
            }
            if !address_eq(&addr, &stellar_address) {
                address_vec_push_back(&mut updated, addr);
            }
            i = i + 1;
        }
        assert(address_list(existing).take(n as int) =~= address_list(existing));
        let updated_len = address_vec_len(&updated);
        let last = if updated_len > 0 {
            Some(address_vec_get(&updated, updated_len - 1))
        } else {
            None
        };
        set_persistent(env, &addresses_key, &Value::Addresses(updated));
        proof {
            lemma_stellar_keys_differ(hash);
        }
        let primary_key = DataKey::StellarAddress(username_hash).to_key(env);
        let primary = match get_persistent(env, &primary_key, ValueKind::Address) {
            Some(Value::Address(a)) => Some(a),
            _ => None,
        };
        if let Some(p) = primary {
            if address_eq(&p, &stellar_address) {
                match last {
                    None => persistent_remove(env, &primary_key),
                    Some(l) => set_persistent(env, &primary_key, &Value::Address(l)),
                }
            }
        }
        Ok(())
    }

    /// The Stellar addresses linked to a registered username (none when
    /// nothing is linked).
    pub fn get_stellar_addresses(env: &soroban_sdk::Env, username_hash: soroban_sdk::BytesN<32>) -> (r: Result<
        soroban_sdk::Vec<soroban_sdk::Address>,
        CoreError,
    >)
        requires
            in_contract(*env),
            readable(persistent_entries(*env), commitment_key(bytesn_view(username_hash)), ValueKind::Address),
            registered_owner(persistent_entries(*env), bytesn_view(username_hash)) is Some ==> readable(
                persistent_entries(*env),
                stellar_addresses_key(bytesn_view(username_hash)),
                ValueKind::Addresses,
            ),
        ensures
            registered_owner(persistent_entries(*env), bytesn_view(username_hash)) is None ==> r == Err::<
                soroban_sdk::Vec<soroban_sdk::Address>,
                CoreError,
            >(CoreError::NotFound),
            registered_owner(persistent_entries(*env), bytesn_view(username_hash)) is Some ==> (r matches Ok(v)
                && address_list(v) == stellar_list(persistent_entries(*env), bytesn_view(username_hash))),
    {
        if registered_owner_of(env, &username_hash).is_none() {
            return Err(CoreError::NotFound);
        }
        let key = DataKey::StellarAddresses(username_hash).to_key(env);
        match get_persistent(env, &key, ValueKind::Addresses) {
            Some(Value::Addresses(v)) => Ok(v),
            _ => Ok(address_vec_new(env)),
        }
    }

    /// The primary Stellar address of a registered username.
    pub fn resolve_stellar(env: &soroban_sdk::Env, username_hash: soroban_sdk::BytesN<32>) -> (r: Result<
        soroban_sdk::Address,
        CoreError,
    >)
        requires
            in_contract(*env),
            readable(persistent_entries(*env), commitment_key(bytesn_view(username_hash)), ValueKind::Address),
            registered_owner(persistent_entries(*env), bytesn_view(username_hash)) is Some ==> readable(
                persistent_entries(*env),
                stellar_address_key(bytesn_view(username_hash)),
                ValueKind::Address,
            ),
        ensures
            ({
                let p = persistent_entries(*env);
                let h = bytesn_view(username_hash);
                if registered_owner(p, h) is None {
                    r == Err::<soroban_sdk::Address, CoreError>(CoreError::NotFound)
                } else if !p.contains_key(stellar_address_key(h)) {
                    r == Err::<soroban_sdk::Address, CoreError>(CoreError::NoAddressLinked)
                } else {
                    r matches Ok(a) && p[stellar_address_key(h)] == Entry::Addr(address_id(a))
                }
            }),
    {
        if registered_owner_of(env, &username_hash).is_none() {
            return Err(CoreError::NotFound);
        }
        let key = DataKey::StellarAddress(username_hash).to_key(env);
        match get_persistent(env, &key, ValueKind::Address) {
            Some(Value::Address(a)) => Ok(a),
            _ => Err(CoreError::NoAddressLinked),
        }
    }

    /// Sets the username's shielded-address commitment; only the owner may.
    pub fn add_shielded_address(
        env: &mut soroban_sdk::Env,
        caller: soroban_sdk::Address,
        username_hash: soroban_sdk::BytesN<32>,
        address_commitment: soroban_sdk::BytesN<32>,
    ) -> (r: Result<(), CoreError>)
        requires
            in_contract(*old(env)),
            readable(persistent_entries(*old(env)), commitment_key(bytesn_view(username_hash)), ValueKind::Address),
        ensures
            in_contract(*final(env)),
            instance_entries(*final(env)) == instance_entries(*old(env)),
            (r, persistent_entries(*final(env))) == add_shielded_address_outcome(
                persistent_entries(*old(env)),
                bytesn_view(username_hash),
                address_id(caller),
                bytesn_view(address_commitment),
            ),
            r is Ok ==> written_and_bumped(
                *old(env),
                *final(env),
                shielded_address_key(bytesn_view(username_hash)),
            ),
            r is Err ==> lifetimes_kept(*old(env), *final(env)),
    {
        let owner = match registered_owner_of(env, &username_hash) {
            Some(o) => o,
            None => {
                return Err(CoreError::NotFound);
            },
        };
        if !address_eq(&owner, &caller) {
            return Err(CoreError::Unauthorized);
        }
        set_shielded_address(env, &username_hash, &address_commitment);
        Ok(())
    }

    /// The username's shielded-address commitment, if any.
    pub fn get_shielded_address(env: &soroban_sdk::Env, username_hash: soroban_sdk::BytesN<32>) -> (r: Option<
        soroban_sdk::BytesN<32>,
    >)
        requires
            in_contract(*env),
            readable(persistent_entries(*env), shielded_address_key(bytesn_view(username_hash)), ValueKind::Hash),
        ensures
            r is None <==> !persistent_entries(*env).contains_key(shielded_address_key(bytesn_view(username_hash))),
            r matches Some(c) ==> persistent_entries(*env)[shielded_address_key(bytesn_view(username_hash))]
                == Entry::Bytes(bytesn_view(c)),
    {
        stored_shielded_address(env, &username_hash)
    }

    /// Whether the username has a shielded-address commitment.
    pub fn is_shielded(env: &soroban_sdk::Env, username_hash: soroban_sdk::BytesN<32>) -> (r: bool)
        requires
            in_contract(*env),
        ensures
            r == persistent_entries(*env).contains_key(shielded_address_key(bytesn_view(username_hash))),
    {
        has_shielded_address(env, &username_hash)
    }

    /// Whether `address` has the format of an address on `chain`.
    pub fn validate_address(chain: &ChainType, address: &soroban_sdk::Bytes) -> (r: bool)
        ensures
            r == valid_chain_address(*chain, bytes_view(*address)),
    {
        let len = bytes_len(address);
        match chain {
            ChainType::Evm => len == 42 && bytes_get(address, 0) == Some(0x30u8) && bytes_get(address, 1) == Some(
                0x78u8,
            ),
            ChainType::Bitcoin => 25 <= len && len <= 62,
            ChainType::Solana => 32 <= len && len <= 44,
            ChainType::Cosmos => 39 <= len && len <= 45,
        }
    }
}

} // verus!
