//! Mathematical model of contract storage.
//!
//! A storage key is a tuple of parts (a tag symbol followed by the variant's
//! fields), and every stored value is one of a few plain shapes. Contracts
//! of the storage functions speak of maps from `Seq<KeyPart>` to `Entry`.
use vstd::prelude::*;

verus! {

/// One component of a storage key, by its plain value.
pub enum KeyPart {
    /// A symbol (the variant name that tags every key).
    Sym(Seq<char>),
    /// A byte string (a username hash or other fixed-size bytes).
    Bytes(Seq<u8>),
    /// An address, by its strkey.
    Addr(Seq<char>),
    /// A 32-bit identifier.
    Id(u32),
    /// A unit-variant enum value, by its variant name.
    Variant(Seq<char>),
}

/// A stored value, by its plain value.
pub enum Entry {
    /// An address, by its strkey.
    Addr(Seq<char>),
    /// A byte string (`Bytes`, or `BytesN` when it has that length).
    Bytes(Seq<u8>),
    U64(u64),
    I128(i128),
    U128(u128),
    Bool(bool),
    /// A unit-variant enum value: a one-element vector holding the variant
    /// symbol, by the variant name.
    Variant(Seq<char>),
    /// A permission record: a map whose one field, `permissions`, holds a
    /// vector of unit-variant enum values, by their variant names.
    Permissions(Seq<Seq<char>>),
    /// A vector of addresses, by their strkeys.
    Addrs(Seq<Seq<char>>),
    /// A value of any other shape, such as a record that the contracts store
    /// themselves. No reader of this library can read it.
    Other,
}

/// Characters a symbol may hold: `a-z`, `A-Z`, `0-9` and `_`.
pub open spec fn is_symbol_char(c: char) -> bool {
    ('a' <= c && c <= 'z') || ('A' <= c && c <= 'Z') || ('0' <= c && c <= '9') || c == '_'
}

/// Whether `s` can be the name of a symbol: at most 32 symbol characters.
pub open spec fn is_symbol_name(s: Seq<char>) -> bool {
    &&& s.len() <= 32
    &&& forall|i: int| 0 <= i < s.len() ==> #[trigger] is_symbol_char(s[i])
}

/// The key with tag `tag` and no fields.
pub open spec fn key0(tag: Seq<char>) -> Seq<KeyPart> {
    seq![KeyPart::Sym(tag)]
}

/// The key with tag `tag` and one field.
pub open spec fn key1(tag: Seq<char>, a: KeyPart) -> Seq<KeyPart> {
    seq![KeyPart::Sym(tag), a]
}

/// The key with tag `tag` and two fields.
pub open spec fn key2(tag: Seq<char>, a: KeyPart, b: KeyPart) -> Seq<KeyPart> {
    seq![KeyPart::Sym(tag), a, b]
}

/// The shape of value a reader expects under a key.
#[derive(Clone, Copy, PartialEq, Eq, Structural)]
pub enum ValueKind {
    Address,
    Hash,
    Bytes,
    U64,
    I128,
    U128,
    Bool,
    Variant,
    Permissions,
    Addresses,
}

/// Whether entry `e` can be read as a value of kind `kind`.
pub open spec fn fits(e: Entry, kind: ValueKind) -> bool {
    match kind {
        ValueKind::Address => e is Addr,
        ValueKind::Hash => e is Bytes && e->Bytes_0.len() == 32,
        ValueKind::Bytes => e is Bytes,
        ValueKind::U64 => e is U64,
        ValueKind::I128 => e is I128,
        ValueKind::U128 => e is U128,
        ValueKind::Bool => e is Bool,
        ValueKind::Variant => e is Variant,
        ValueKind::Permissions => e is Permissions,
        ValueKind::Addresses => e is Addrs,
    }
}

/// Whether reading `key` from `m` as `kind` succeeds: nothing is stored
/// there, or what is stored has that shape.
pub open spec fn readable(m: Map<Seq<KeyPart>, Entry>, key: Seq<KeyPart>, kind: ValueKind) -> bool {
    m.contains_key(key) ==> fits(m[key], kind)
}

} // verus!
