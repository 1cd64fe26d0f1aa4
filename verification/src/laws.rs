//! Properties of the library that span several operations.
use crate::address_list::{lemma_without_absent, lemma_without_contains, lemma_without_push, without};
use crate::address_manager::{
    add_chain_address_outcome, add_shielded_address_outcome, add_stellar_address_outcome,
    lemma_stellar_keys_differ, remove_chain_address_outcome, remove_stellar_address_outcome, stellar_list,
    registered_owner, with_stellar_address, without_stellar_address, Access,
};
use crate::address_manager::chain_address_key;
use crate::auction_storage::{
    all_bidders_key, auction_claimed_key, bidder_list, law_auction_keys_distinct, with_bidder, AuctionKey,
};
use crate::core_storage::{delegate_holds, delegate_key, shielded_address_key, stellar_address_key, stellar_addresses_key};
use crate::model::{fits, readable, Entry, KeyPart, ValueKind};
use crate::types::{ChainAddressError, ChainType, CoreError};
use vstd::prelude::*;

verus! {

/// Whether the primary Stellar address of a username, when there is one, is
/// among its linked addresses.
pub open spec fn primary_is_linked(p: Map<Seq<KeyPart>, Entry>, hash: Seq<u8>) -> bool {
    p.contains_key(stellar_address_key(hash)) ==> stellar_list(p, hash).contains(
        p[stellar_address_key(hash)]->Addr_0,
    )
}

/// A refused request changes nothing: whenever adding or removing a chain
/// address, linking or unlinking a Stellar address, or setting a shielded
/// address fails, persistent storage is what it was.
pub proof fn law_refusal_changes_nothing(
    p: Map<Seq<KeyPart>, Entry>,
    hash: Seq<u8>,
    caller: Seq<char>,
    chain: ChainType,
    bytes: Seq<u8>,
    address: Seq<char>,
)
    ensures
        add_chain_address_outcome(p, hash, caller, chain, bytes).0 is Err ==> add_chain_address_outcome(
            p,
            hash,
            caller,
            chain,
            bytes,
        ).1 == p,
        remove_chain_address_outcome(p, hash, caller, chain).0 is Err ==> remove_chain_address_outcome(
            p,
            hash,
            caller,
            chain,
        ).1 == p,
        add_stellar_address_outcome(p, hash, caller, address).0 is Err ==> add_stellar_address_outcome(
            p,
            hash,
            caller,
            address,
        ).1 == p,
        remove_stellar_address_outcome(p, hash, caller, address).0 is Err ==> remove_stellar_address_outcome(
            p,
            hash,
            caller,
            address,
        ).1 == p,
        add_shielded_address_outcome(p, hash, caller, bytes).0 is Err ==> add_shielded_address_outcome(
            p,
            hash,
            caller,
            bytes,
        ).1 == p,
{
}

/// Only the owner of a username, or a delegate holding the permission
/// named for the operation, gets a chain address added: a caller that is
/// neither is refused with `Unauthorized` on a registered username.
pub proof fn law_only_owner_or_delegate_adds_chain_address(
    p: Map<Seq<KeyPart>, Entry>,
    hash: Seq<u8>,
    caller: Seq<char>,
    chain: ChainType,
    bytes: Seq<u8>,
)
    ensures
        add_chain_address_outcome(p, hash, caller, chain, bytes).0 is Ok ==> (
        crate::address_manager::registered_owner(p, hash) == Some(caller) || delegate_holds(
            p,
            hash,
            caller,
            "AddChainAddress"@,
        )),
{
}

/// After a Stellar address is unlinked, it is no longer linked, every other
/// address is linked exactly when it was before, and it is not the primary
/// address.
pub proof fn law_unlinked_address_is_gone(p: Map<Seq<KeyPart>, Entry>, hash: Seq<u8>, address: Seq<char>, other: Seq<char>)
    requires
        p.contains_key(stellar_address_key(hash)) ==> p[stellar_address_key(hash)] is Addr,
    ensures
        ({
            let q = without_stellar_address(p, hash, address);
            &&& !stellar_list(q, hash).contains(address)
            &&& other != address ==> (stellar_list(q, hash).contains(other) <==> stellar_list(p, hash).contains(other))
            &&& q.contains_key(stellar_address_key(hash)) ==> q[stellar_address_key(hash)] != Entry::Addr(address)
        }),
{
    lemma_stellar_keys_differ(hash);
    let updated = without(stellar_list(p, hash), address);
    lemma_without_contains(stellar_list(p, hash), address, address);
    lemma_without_contains(stellar_list(p, hash), address, other);
    let q = without_stellar_address(p, hash, address);
    assert(stellar_list(q, hash) == updated);
    if updated.len() > 0 {
        lemma_without_contains(stellar_list(p, hash), address, updated.last());
        assert(updated.contains(updated.last())) by {
            assert(updated[updated.len() - 1] == updated.last());
        }
    }
}

/// The primary Stellar address of a username is always one of its linked
/// addresses: linking and unlinking keep this true.
pub proof fn law_primary_stays_linked(p: Map<Seq<KeyPart>, Entry>, hash: Seq<u8>, address: Seq<char>)
    requires
        primary_is_linked(p, hash),
        p.contains_key(stellar_address_key(hash)) ==> p[stellar_address_key(hash)] is Addr,
    ensures
        primary_is_linked(with_stellar_address(p, hash, address), hash),
        primary_is_linked(without_stellar_address(p, hash, address), hash),
{
    lemma_stellar_keys_differ(hash);
    let l = stellar_list(p, hash);
    let added = with_stellar_address(p, hash, address);
    assert(stellar_list(added, hash) == l.push(address));
    assert(l.push(address)[l.len() as int] == address);
    let q = without_stellar_address(p, hash, address);
    let updated = without(l, address);
    assert(stellar_list(q, hash) == updated);
    if p.contains_key(stellar_address_key(hash)) {
        let prim = p[stellar_address_key(hash)]->Addr_0;
        if prim == address {
            if updated.len() > 0 {
                assert(updated.contains(updated.last())) by {
                    assert(updated[updated.len() - 1] == updated.last());
                }
            }
        } else {
            lemma_without_contains(l, address, prim);
        }
    }
}

/// A newly linked Stellar address is the username's primary address and the
/// last of its linked addresses, after all those linked before.
pub proof fn law_linked_address_becomes_primary(p: Map<Seq<KeyPart>, Entry>, hash: Seq<u8>, address: Seq<char>)
    ensures
        ({
            let q = with_stellar_address(p, hash, address);
            &&& q.contains_key(stellar_address_key(hash))
            &&& q[stellar_address_key(hash)] == Entry::Addr(address)
            &&& stellar_list(q, hash) == stellar_list(p, hash).push(address)
        }),
{
    lemma_stellar_keys_differ(hash);
}

/// Whether the primary Stellar address of a username is the last of its
/// linked addresses, and is absent exactly when none is linked.
pub open spec fn primary_is_last_linked(p: Map<Seq<KeyPart>, Entry>, hash: Seq<u8>) -> bool {
    &&& p.contains_key(stellar_address_key(hash)) <==> stellar_list(p, hash).len() > 0
    &&& p.contains_key(stellar_address_key(hash)) ==> p[stellar_address_key(hash)] == Entry::Addr(
        stellar_list(p, hash).last(),
    )
}

/// The primary Stellar address of a username is always the last linked one,
/// and there is none exactly when no address is linked: linking and
/// unlinking keep this true.
pub proof fn law_primary_is_last_linked(p: Map<Seq<KeyPart>, Entry>, hash: Seq<u8>, address: Seq<char>)
    requires
        primary_is_last_linked(p, hash),
    ensures
        primary_is_last_linked(with_stellar_address(p, hash, address), hash),
        primary_is_last_linked(without_stellar_address(p, hash, address), hash),
{
    lemma_stellar_keys_differ(hash);
    let l = stellar_list(p, hash);
    let added = with_stellar_address(p, hash, address);
    assert(stellar_list(added, hash) == l.push(address));
    let q = without_stellar_address(p, hash, address);
    let updated = without(l, address);
    assert(stellar_list(q, hash) == updated);
    if l.len() > 0 {
        let last = l.last();
        assert(l =~= l.drop_last().push(last));
        lemma_without_push(l.drop_last(), last, address);
        if last != address {
            assert(updated == without(l.drop_last(), address).push(last));
        }
    } else {
        assert(updated.len() == 0);
    }
}

/// Linking an address that was not linked and then unlinking it leaves the
/// username's list of linked addresses as it was.
pub proof fn law_link_then_unlink_restores_list(p: Map<Seq<KeyPart>, Entry>, hash: Seq<u8>, address: Seq<char>)
    requires
        !stellar_list(p, hash).contains(address),
    ensures
        stellar_list(without_stellar_address(with_stellar_address(p, hash, address), hash, address), hash)
            == stellar_list(p, hash),
{
    lemma_stellar_keys_differ(hash);
    let l = stellar_list(p, hash);
    let added = with_stellar_address(p, hash, address);
    assert(stellar_list(added, hash) == l.push(address));
    lemma_without_push(l, address, address);
    lemma_without_absent(l, address);
}

/// Recording a bidder twice is the same as recording it once, and afterwards
/// the bidder is recorded.
pub proof fn law_add_bidder_idempotent(p: Map<Seq<KeyPart>, Entry>, hash: Seq<u8>, bidder: Seq<char>)
    ensures
        with_bidder(with_bidder(p, hash, bidder), hash, bidder) == with_bidder(p, hash, bidder),
        bidder_list(with_bidder(p, hash, bidder), hash).contains(bidder),
{
    let l = bidder_list(p, hash);
    if !l.contains(bidder) {
        assert(l.push(bidder)[l.len() as int] == bidder);
    }
}

/// Recording bidders never records one twice: a list without repeats stays
/// without repeats.
pub proof fn law_bidders_stay_distinct(p: Map<Seq<KeyPart>, Entry>, hash: Seq<u8>, bidder: Seq<char>)
    requires
        bidder_list(p, hash).no_duplicates(),
    ensures
        bidder_list(with_bidder(p, hash, bidder), hash).no_duplicates(),
{
    let l = bidder_list(p, hash);
    if !l.contains(bidder) {
        let m = l.push(bidder);
        assert forall|i: int, j: int| 0 <= i < m.len() && 0 <= j < m.len() && i != j implies m[i] != m[j] by {
            if i == l.len() as int {
                assert(l[j] == m[j]);
            } else if j == l.len() as int {
                assert(l[i] == m[i]);
            }
        }
    }
}

/// What is written under a key is what is read back from it, in the shape
/// it was written in, and every other key keeps what it held. (Both
/// persistent and instance storage are maps from key parts to entries;
/// `set_persistent`/`set_instance` insert, `get_persistent`/`get_instance`
/// look up.)
pub proof fn law_read_after_write(
    m: Map<Seq<KeyPart>, Entry>,
    key: Seq<KeyPart>,
    e: Entry,
    kind: ValueKind,
    other: Seq<KeyPart>,
)
    requires
        fits(e, kind),
    ensures
        readable(m.insert(key, e), key, kind),
        m.insert(key, e).contains_key(key),
        m.insert(key, e)[key] == e,
        other != key ==> (m.insert(key, e).contains_key(other) <==> m.contains_key(other)),
        other != key && m.contains_key(other) ==> m.insert(key, e)[other] == m[other],
{
}

/// A delegate holds exactly the permissions last granted to it, and none
/// once they are revoked.
pub proof fn law_granted_permissions(
    m: Map<Seq<KeyPart>, Entry>,
    hash: Seq<u8>,
    delegate: Seq<char>,
    names: Seq<Seq<char>>,
    permission: Seq<char>,
)
    ensures
        delegate_holds(m.insert(delegate_key(hash, delegate), Entry::Permissions(names)), hash, delegate, permission)
            <==> names.contains(permission),
        !delegate_holds(m.remove(delegate_key(hash, delegate)), hash, delegate, permission),
{
}

/// Whether `q` holds under `key` exactly what `p` holds there.
pub open spec fn same_at(p: Map<Seq<KeyPart>, Entry>, q: Map<Seq<KeyPart>, Entry>, key: Seq<KeyPart>) -> bool {
    &&& q.contains_key(key) <==> p.contains_key(key)
    &&& p.contains_key(key) ==> q[key] == p[key]
}

/// The chain-address keys of two different (username, chain) pairs differ.
proof fn lemma_chain_keys_differ(hash: Seq<u8>, chain: ChainType, hash2: Seq<u8>, chain2: ChainType)
    requires
        hash2 != hash || chain2 != chain,
    ensures
        chain_address_key(hash2, chain2) != chain_address_key(hash, chain),
{
    reveal_strlit("Evm");
    reveal_strlit("Bitcoin");
    reveal_strlit("Solana");
    reveal_strlit("Cosmos");
    let k = chain_address_key(hash, chain);
    let k2 = chain_address_key(hash2, chain2);
    if k2 == k {
        assert(k2[1] == k[1]);
        assert(k2[2] == k[2]);
        assert(chain2.spec_name() == chain.spec_name());
        assert("Evm"@.len() != "Bitcoin"@.len());
        assert("Evm"@.len() != "Solana"@.len());
        assert("Evm"@.len() != "Cosmos"@.len());
        assert("Bitcoin"@.len() != "Solana"@.len());
        assert("Bitcoin"@.len() != "Cosmos"@.len());
        assert("Solana"@[0] != "Cosmos"@[0]);
        assert(chain2 == chain);
    }
}

/// A chain-address key is none of a username's Stellar-address or
/// shielded-address keys (the tags differ).
proof fn lemma_chain_key_not_other_address_keys(hash: Seq<u8>, chain: ChainType, hash2: Seq<u8>)
    ensures
        chain_address_key(hash, chain) != stellar_addresses_key(hash2),
        chain_address_key(hash, chain) != stellar_address_key(hash2),
        chain_address_key(hash, chain) != shielded_address_key(hash2),
{
    reveal_strlit("ChainAddress");
    reveal_strlit("StellarAddresses");
    reveal_strlit("StellarAddress");
    reveal_strlit("ShieldedAddress");
    let k = chain_address_key(hash, chain);
    assert(k[0] == KeyPart::Sym("ChainAddress"@));
    assert(stellar_addresses_key(hash2)[0] == KeyPart::Sym("StellarAddresses"@));
    assert(stellar_address_key(hash2)[0] == KeyPart::Sym("StellarAddress"@));
    assert(shielded_address_key(hash2)[0] == KeyPart::Sym("ShieldedAddress"@));
    assert("ChainAddress"@.len() != "StellarAddresses"@.len());
    assert("ChainAddress"@.len() != "StellarAddress"@.len());
    assert("ChainAddress"@.len() != "ShieldedAddress"@.len());
}

/// A username's address on a chain is what was last added for that username
/// and chain: a successful add stores the given bytes there, a successful
/// removal leaves nothing there, and adding or removing the address of any
/// other (username, chain) pair leaves it as it was, whatever the outcome.
pub proof fn law_chain_address_kept(
    p: Map<Seq<KeyPart>, Entry>,
    hash: Seq<u8>,
    chain: ChainType,
    hash2: Seq<u8>,
    chain2: ChainType,
    caller: Seq<char>,
    bytes: Seq<u8>,
)
    requires
        hash2 != hash || chain2 != chain,
    ensures
        ({
            let added = add_chain_address_outcome(p, hash, caller, chain, bytes);
            added.0 is Ok ==> added.1.contains_key(chain_address_key(hash, chain)) && added.1[chain_address_key(
                hash,
                chain,
            )] == Entry::Bytes(bytes)
        }),
        ({
            let removed = remove_chain_address_outcome(p, hash, caller, chain);
            removed.0 is Ok ==> !removed.1.contains_key(chain_address_key(hash, chain))
        }),
        same_at(p, add_chain_address_outcome(p, hash2, caller, chain2, bytes).1, chain_address_key(hash, chain)),
        same_at(p, remove_chain_address_outcome(p, hash2, caller, chain2).1, chain_address_key(hash, chain)),
{
    lemma_chain_keys_differ(hash, chain, hash2, chain2);
}

/// Linking or unlinking a Stellar address and setting a shielded address
/// never touch any username's chain addresses.
pub proof fn law_other_address_operations_keep_chain_addresses(
    p: Map<Seq<KeyPart>, Entry>,
    hash: Seq<u8>,
    chain: ChainType,
    hash2: Seq<u8>,
    caller: Seq<char>,
    address: Seq<char>,
    commitment: Seq<u8>,
)
    ensures
        same_at(p, add_stellar_address_outcome(p, hash2, caller, address).1, chain_address_key(hash, chain)),
        same_at(p, remove_stellar_address_outcome(p, hash2, caller, address).1, chain_address_key(hash, chain)),
        same_at(p, add_shielded_address_outcome(p, hash2, caller, commitment).1, chain_address_key(hash, chain)),
{
    lemma_chain_key_not_other_address_keys(hash, chain, hash2);
}

/// Whether auction `id` is recorded as claimed.
pub open spec fn auction_claimed(p: Map<Seq<KeyPart>, Entry>, id: u32) -> bool {
    p.contains_key(auction_claimed_key(id)) && p[auction_claimed_key(id)] == Entry::Bool(true)
}

/// The per-username keys of the auction contract are none of the keys of
/// numbered auctions' claimed flags (the tags differ).
proof fn lemma_auction_data_key_not_claimed(d: crate::auction_storage::DataKey, id: u32, hash: Seq<u8>)
    ensures
        d.parts() != auction_claimed_key(id),
        all_bidders_key(hash) != auction_claimed_key(id),
{
    reveal_strlit("Auction");
    reveal_strlit("Bid");
    reveal_strlit("AllBidders");
    reveal_strlit("Claimed");
    assert(auction_claimed_key(id)[0] == KeyPart::Sym("Claimed"@));
    assert("Auction"@[0] != "Claimed"@[0]);
    assert("Bid"@.len() != "Claimed"@.len());
    assert("AllBidders"@.len() != "Claimed"@.len());
    assert(d.parts()[0] != auction_claimed_key(id)[0]);
    assert(all_bidders_key(hash)[0] != auction_claimed_key(id)[0]);
}

/// Once an auction's prize is claimed it stays claimed: recording the claim
/// marks it claimed, and no write of the auction storage undoes that, be it
/// a write under any numbered-auction key (the only value written under a
/// claimed flag is `true`), a write of any value under a per-username key,
/// or recording a bidder.
pub proof fn law_claimed_stays_claimed(
    p: Map<Seq<KeyPart>, Entry>,
    id: u32,
    k: AuctionKey,
    ke: Entry,
    d: crate::auction_storage::DataKey,
    de: Entry,
    hash: Seq<u8>,
    bidder: Seq<char>,
)
    requires
        auction_claimed(p, id),
        k is Claimed ==> ke == Entry::Bool(true),
    ensures
        auction_claimed(p.insert(auction_claimed_key(id), Entry::Bool(true)), id),
        auction_claimed(p.insert(k.parts(), ke), id),
        auction_claimed(p.insert(d.parts(), de), id),
        auction_claimed(with_bidder(p, hash, bidder), id),
{
    if !(k is Claimed) {
        law_auction_keys_distinct(k, AuctionKey::Claimed(id));
    }
    lemma_auction_data_key_not_claimed(d, id, hash);
}

/// Removing a username's chain address: an unregistered username is
/// reported as not registered; its owner, and a delegate holding the
/// `RemoveChainAddress` permission, succeed and the address is gone
/// afterwards; any other caller (a delegate holding only other permissions
/// among them) is refused with `Unauthorized`. No other key changes.
pub proof fn law_remove_chain_address_access(
    p: Map<Seq<KeyPart>, Entry>,
    hash: Seq<u8>,
    caller: Seq<char>,
    chain: ChainType,
    other: Seq<KeyPart>,
)
    ensures
        ({
            let out = remove_chain_address_outcome(p, hash, caller, chain);
            let allowed = registered_owner(p, hash) == Some(caller) || delegate_holds(
                p,
                hash,
                caller,
                "RemoveChainAddress"@,
            );
            &&& registered_owner(p, hash) is None ==> out.0 == Err::<(), ChainAddressError>(
                ChainAddressError::NotRegistered,
            )
            &&& (registered_owner(p, hash) is Some && allowed) ==> out.0 == Ok::<(), ChainAddressError>(())
                && !out.1.contains_key(chain_address_key(hash, chain))
            &&& (registered_owner(p, hash) is Some && !allowed) ==> out.0 == Err::<(), ChainAddressError>(
                ChainAddressError::Unauthorized,
            )
            &&& out.0 is Ok ==> registered_owner(p, hash) is Some && allowed
            &&& other != chain_address_key(hash, chain) ==> same_at(p, out.1, other)
        }),
{
}

/// Adding a chain address: an unregistered username is reported as not
/// registered; a caller that is neither the owner nor a delegate holding the
/// `AddChainAddress` permission is refused with `Unauthorized`; for the
/// owner or such a delegate the address is accepted exactly when it has its
/// chain's format, and is then stored. The formats: an EVM address is 42
/// bytes starting with `0x`; a Bitcoin address is 25 to 62 bytes; a Solana
/// address 32 to 44 bytes; a Cosmos address 39 to 45 bytes. No other key
/// changes.
pub proof fn law_add_chain_address_access_and_format(
    p: Map<Seq<KeyPart>, Entry>,
    hash: Seq<u8>,
    caller: Seq<char>,
    chain: ChainType,
    bytes: Seq<u8>,
    other: Seq<KeyPart>,
)
    ensures
        ({
            let out = add_chain_address_outcome(p, hash, caller, chain, bytes);
            let allowed = registered_owner(p, hash) == Some(caller) || delegate_holds(
                p,
                hash,
                caller,
                "AddChainAddress"@,
            );
            let well_formed = match chain {
                ChainType::Evm => bytes.len() == 42 && bytes[0] == 0x30u8 && bytes[1] == 0x78u8,
                ChainType::Bitcoin => 25 <= bytes.len() && bytes.len() <= 62,
                ChainType::Solana => 32 <= bytes.len() && bytes.len() <= 44,
                ChainType::Cosmos => 39 <= bytes.len() && bytes.len() <= 45,
            };
            &&& registered_owner(p, hash) is None ==> out.0 == Err::<(), ChainAddressError>(
                ChainAddressError::NotRegistered,
            )
            &&& (registered_owner(p, hash) is Some && !allowed) ==> out.0 == Err::<(), ChainAddressError>(
                ChainAddressError::Unauthorized,
            )
            &&& (registered_owner(p, hash) is Some && allowed && !well_formed) ==> out.0 == Err::<
                (),
                ChainAddressError,
            >(ChainAddressError::InvalidAddress)
            &&& (registered_owner(p, hash) is Some && allowed && well_formed) ==> out.0 == Ok::<
                (),
                ChainAddressError,
            >(()) && out.1.contains_key(chain_address_key(hash, chain)) && out.1[chain_address_key(hash, chain)]
                == Entry::Bytes(bytes)
            &&& other != chain_address_key(hash, chain) ==> same_at(p, out.1, other)
        }),
{
}

/// Every byte string of 25 to 62 bytes is a Bitcoin address the owner of a
/// registered username can add, and none shorter or longer is.
pub proof fn law_bitcoin_address_lengths(p: Map<Seq<KeyPart>, Entry>, hash: Seq<u8>, owner: Seq<char>, bytes: Seq<u8>)
    requires
        registered_owner(p, hash) == Some(owner),
    ensures
        add_chain_address_outcome(p, hash, owner, ChainType::Bitcoin, bytes).0 is Ok <==> 25 <= bytes.len() <= 62,
{
}

/// Linking a Stellar address: the owner, and a delegate holding the
/// `AddStellarAddress` permission, succeed, and the address is appended to
/// the linked ones and becomes the primary; any other caller is refused with
/// `Unauthorized`, an unregistered username with `NotFound`. Only the
/// username's two Stellar-address keys change.
pub proof fn law_add_stellar_address_access(
    p: Map<Seq<KeyPart>, Entry>,
    hash: Seq<u8>,
    caller: Seq<char>,
    address: Seq<char>,
    other: Seq<KeyPart>,
)
    ensures
        ({
            let out = add_stellar_address_outcome(p, hash, caller, address);
            let allowed = registered_owner(p, hash) == Some(caller) || delegate_holds(
                p,
                hash,
                caller,
                "AddStellarAddress"@,
            );
            &&& registered_owner(p, hash) is None ==> out.0 == Err::<(), CoreError>(CoreError::NotFound)
            &&& (registered_owner(p, hash) is Some && !allowed) ==> out.0 == Err::<(), CoreError>(
                CoreError::Unauthorized,
            )
            &&& (registered_owner(p, hash) is Some && allowed) ==> {
                &&& out.0 == Ok::<(), CoreError>(())
                &&& stellar_list(out.1, hash) == stellar_list(p, hash).push(address)
                &&& out.1.contains_key(stellar_address_key(hash))
                &&& out.1[stellar_address_key(hash)] == Entry::Addr(address)
            }
            &&& (other != stellar_addresses_key(hash) && other != stellar_address_key(hash)) ==> same_at(
                p,
                out.1,
                other,
            )
        }),
{
    lemma_stellar_keys_differ(hash);
}

/// Unlinking a Stellar address: the owner, and a delegate holding the
/// `RemoveStellarAddress` permission, succeed, and the address is no longer
/// linked afterwards; any other caller is refused with `Unauthorized` and
/// nothing changes; an unregistered username is reported with `NotFound`.
/// Only the username's two Stellar-address keys change.
pub proof fn law_remove_stellar_address_access(
    p: Map<Seq<KeyPart>, Entry>,
    hash: Seq<u8>,
    caller: Seq<char>,
    address: Seq<char>,
    other: Seq<KeyPart>,
)
    ensures
        ({
            let out = remove_stellar_address_outcome(p, hash, caller, address);
            let allowed = registered_owner(p, hash) == Some(caller) || delegate_holds(
                p,
                hash,
                caller,
                "RemoveStellarAddress"@,
            );
            &&& registered_owner(p, hash) is None ==> out.0 == Err::<(), CoreError>(CoreError::NotFound)
            &&& (registered_owner(p, hash) is Some && !allowed) ==> out.0 == Err::<(), CoreError>(
                CoreError::Unauthorized,
            ) && out.1 == p
            &&& (registered_owner(p, hash) is Some && allowed) ==> out.0 == Ok::<(), CoreError>(())
                && !stellar_list(out.1, hash).contains(address)
            &&& (other != stellar_addresses_key(hash) && other != stellar_address_key(hash)) ==> same_at(
                p,
                out.1,
                other,
            )
        }),
{
    lemma_stellar_keys_differ(hash);
    lemma_without_contains(stellar_list(p, hash), address, address);
}

/// Setting a shielded-address commitment: only the owner may, delegates
/// included in the refusal; when the owner does, the commitment stored
/// afterwards is exactly the one given, whatever was stored before, and it
/// is the only change.
pub proof fn law_add_shielded_address_overwrites(
    p: Map<Seq<KeyPart>, Entry>,
    hash: Seq<u8>,
    caller: Seq<char>,
    commitment: Seq<u8>,
    other: Seq<KeyPart>,
)
    ensures
        ({
            let out = add_shielded_address_outcome(p, hash, caller, commitment);
            &&& registered_owner(p, hash) is None ==> out.0 == Err::<(), CoreError>(CoreError::NotFound)
            &&& (registered_owner(p, hash) matches Some(o) && o != caller) ==> out.0 == Err::<(), CoreError>(
                CoreError::Unauthorized,
            )
            &&& registered_owner(p, hash) == Some(caller) ==> {
                &&& out.0 == Ok::<(), CoreError>(())
                &&& out.1.contains_key(shielded_address_key(hash))
                &&& out.1[shielded_address_key(hash)] == Entry::Bytes(commitment)
                &&& other != shielded_address_key(hash) ==> (out.1.contains_key(other) <==> p.contains_key(other))
                &&& other != shielded_address_key(hash) && p.contains_key(other) ==> out.1[other] == p[other]
            }
        }),
{
}

/// Bidders are recorded in the order they first bid: a bidder not yet
/// recorded is appended after all earlier bidders, and recording one
/// already recorded leaves the list as it was.
pub proof fn law_new_bidder_appended(p: Map<Seq<KeyPart>, Entry>, hash: Seq<u8>, bidder: Seq<char>)
    ensures
        !bidder_list(p, hash).contains(bidder) ==> bidder_list(with_bidder(p, hash, bidder), hash) == bidder_list(
            p,
            hash,
        ).push(bidder),
        bidder_list(p, hash).contains(bidder) ==> bidder_list(with_bidder(p, hash, bidder), hash) == bidder_list(
            p,
            hash,
        ),
{
}

} // verus!
