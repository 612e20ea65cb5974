//! The host behind the ledger: the types of `soroban_sdk` that the library
//! handles, what they hold in plain values, and one function for each call
//! that the library makes into the host.
//!
//! No function of this file is proved: each states what the SDK and the host
//! do, as their source shows it. A key of storage is a vector of host values;
//! the library makes its keys of a symbol, or of a symbol and an address.
//!
//! An address, a string or a symbol is a handle too: it names an object of
//! the host in which it was made, and means nothing to another. Each call
//! that hands one to the host asks that it was made in that host.
//!
//! An `Env` is a handle on the host, and a clone of it a second handle on the
//! same storage: what is stated here holds for a caller who writes through
//! one handle only.

use vstd::prelude::*;
use vstd::string::StringSliceAdditionalSpecFns;
use soroban_sdk::{Address, Env, Symbol, TryFromVal, Val};
use crate::ledger::{extended_ttl, Ledger, StoreKey, Stored};

verus! {

#[verifier::external_type_specification]
#[verifier::external_body]
pub struct ExEnv(Env);

#[verifier::external_type_specification]
#[verifier::external_body]
pub struct ExAddress(Address);

#[verifier::external_type_specification]
#[verifier::external_body]
pub struct ExString(soroban_sdk::String);

#[verifier::external_type_specification]
#[verifier::external_body]
pub struct ExSymbol(Symbol);

/// The host that an `Env` is a handle on.
pub uninterp spec fn env_host(env: Env) -> int;

/// The host in which an address was made.
pub uninterp spec fn address_host(a: Address) -> int;

/// The host in which a string was made.
pub uninterp spec fn string_host(s: soroban_sdk::String) -> int;

/// The host in which a symbol was made.
pub uninterp spec fn symbol_host(s: Symbol) -> int;

/// The address was made in the host of `env`.
pub open spec fn owns_address(env: Env, a: Address) -> bool {
    address_host(a) == env_host(env)
}

/// The string was made in the host of `env`.
pub open spec fn owns_string(env: Env, s: soroban_sdk::String) -> bool {
    string_host(s) == env_host(env)
}

/// The symbol was made in the host of `env`.
pub open spec fn owns_symbol(env: Env, s: Symbol) -> bool {
    symbol_host(s) == env_host(env)
}

/// The account or contract that an address names, as the bytes of its string
/// form. Two addresses are equal where these bytes are.
pub uninterp spec fn address_bytes(a: Address) -> Seq<u8>;

/// The bytes that a host string holds.
pub uninterp spec fn string_bytes(s: soroban_sdk::String) -> Seq<u8>;

/// The characters that a symbol holds.
pub uninterp spec fn symbol_chars(s: Symbol) -> Seq<char>;

/// Whether a contract is being run in the host, with its instance and code
/// alive and the entries of its storage within its reach. Outside such a run
/// the host refuses every call on storage.
pub uninterp spec fn in_contract(env: Env) -> bool;

/// The entries that the instance storage of the running contract holds under
/// keys made of a symbol, or of a symbol and an address.
pub uninterp spec fn instance_entries(env: Env) -> Map<StoreKey, Stored>;

/// The entries that the persistent storage of the running contract holds
/// under keys made of a symbol, or of a symbol and an address.
pub uninterp spec fn persistent_entries(env: Env) -> Map<StoreKey, Stored>;

/// The number of ledgers, after the current one, for which the instance of
/// the running contract stays alive.
pub uninterp spec fn instance_ttl(env: Env) -> nat;

/// For each persistent entry, the number of ledgers, after the current one,
/// for which it stays alive.
pub uninterp spec fn persistent_ttl(env: Env) -> Map<StoreKey, nat>;

/// The longest time to live that the network grants to an entry.
pub uninterp spec fn max_ttl(env: Env) -> nat;

/// The time to live that the network gives to a new persistent entry.
pub uninterp spec fn fresh_ttl(env: Env) -> nat;

/// The storage of the running contract as a [`Ledger`].
pub open spec fn ledger(env: Env) -> Ledger {
    Ledger {
        instance: instance_entries(env),
        persistent: persistent_entries(env),
        instance_ttl: instance_ttl(env),
        persistent_ttl: persistent_ttl(env),
        max_ttl: max_ttl(env),
        fresh_ttl: fresh_ttl(env),
    }
}

/// The texts of which a symbol can be made: at most 32 characters, each a
/// letter of ASCII, a digit or an underscore.
pub open spec fn symbol_text(s: Seq<char>) -> bool {
    &&& s.len() <= 32
    &&& forall|i: int|
        0 <= i < s.len() ==> {
            let c = #[trigger] s[i];
            ('a' <= c && c <= 'z') || ('A' <= c && c <= 'Z') || ('0' <= c && c <= '9') || c == '_'
        }
}

/// `Instance::has` under the key made of the symbol: whether instance storage
/// holds an entry there.
#[verifier::external_body]
pub(crate) fn instance_has(env: &Env, key: &Symbol) -> (r: bool)
    requires
        symbol_host(*key) == env_host(*env),
        in_contract(*env),
    ensures
        r == instance_entries(*env).contains_key(StoreKey::plain(symbol_chars(*key))),
{
    env.storage().instance().has(&(key,))
}

/// `Instance::get` under the key made of the symbol, with the entry read by
/// `Address::try_from_val`: the address that instance storage holds there, as
/// a handle of this host; nothing where it holds no entry, or an entry that
/// is no address.
#[verifier::external_body]
pub(crate) fn instance_get_address(env: &Env, key: &Symbol) -> (r: Option<Address>)
    requires
        symbol_host(*key) == env_host(*env),
        in_contract(*env),
    ensures
        match r {
            Some(a) => address_host(a) == env_host(*env) && instance_entries(*env).contains_key(
                StoreKey::plain(symbol_chars(*key)),
            ) && instance_entries(*env)[StoreKey::plain(symbol_chars(*key))]
                == Stored::Identity(address_bytes(a)),
            None => !(instance_entries(*env).contains_key(StoreKey::plain(symbol_chars(*key)))
                && instance_entries(*env)[StoreKey::plain(symbol_chars(*key))] is Identity),
        },
{
    match env.storage().instance().get::<_, Val>(&(key,)) {
        Some(v) => Address::try_from_val(env, &v).ok(),
        None => None,
    }
}

/// `Instance::get` under the key made of the symbol, with the entry read by
/// `u32::try_from_val`: the number that instance storage holds there; nothing
/// where it holds no entry, or an entry that is no `u32`.
#[verifier::external_body]
pub(crate) fn instance_get_u32(env: &Env, key: &Symbol) -> (r: Option<u32>)
    requires
        symbol_host(*key) == env_host(*env),
        in_contract(*env),
    ensures
        match r {
            Some(n) => instance_entries(*env).contains_key(StoreKey::plain(symbol_chars(*key)))
                && instance_entries(*env)[StoreKey::plain(symbol_chars(*key))] == Stored::Number(
                n,
            ),
            None => !(instance_entries(*env).contains_key(StoreKey::plain(symbol_chars(*key)))
                && instance_entries(*env)[StoreKey::plain(symbol_chars(*key))] is Number),
        },
{
    match env.storage().instance().get::<_, Val>(&(key,)) {
        Some(v) => u32::try_from_val(env, &v).ok(),
        None => None,
    }
}

/// `Instance::set` of an address under the key made of the symbol: the entry
/// then holds the address, and nothing else changes.
#[verifier::external_body]
pub(crate) fn instance_set_address(env: &mut Env, key: &Symbol, value: &Address)
    requires
        symbol_host(*key) == env_host(*old(env)),
        address_host(*value) == env_host(*old(env)),
        in_contract(*old(env)),
    ensures
        env_host(*final(env)) == env_host(*old(env)),
        in_contract(*final(env)),
        instance_entries(*final(env)) == instance_entries(*old(env)).insert(
            StoreKey::plain(symbol_chars(*key)),
            Stored::Identity(address_bytes(*value)),
        ),
        ledger(*final(env)) == (Ledger {
            instance: instance_entries(*final(env)),
            ..ledger(*old(env))
        }),
{
    env.storage().instance().set(&(key,), value)
}

/// `Instance::set` of a `u32` under the key made of the symbol: the entry then
/// holds the number, and nothing else changes.
#[verifier::external_body]
pub(crate) fn instance_set_u32(env: &mut Env, key: &Symbol, value: u32)
    requires
        symbol_host(*key) == env_host(*old(env)),
        in_contract(*old(env)),
    ensures
        env_host(*final(env)) == env_host(*old(env)),
        in_contract(*final(env)),
        instance_entries(*final(env)) == instance_entries(*old(env)).insert(
            StoreKey::plain(symbol_chars(*key)),
            Stored::Number(value),
        ),
        ledger(*final(env)) == (Ledger {
            instance: instance_entries(*final(env)),
            ..ledger(*old(env))
        }),
{
    env.storage().instance().set(&(key,), &value)
}

/// `Instance::extend_ttl`: an instance whose time to live is at most
/// `threshold` gets `extend_to`, capped by what the network grants; no entry
/// changes. The host refuses a threshold above `extend_to`.
#[verifier::external_body]
pub(crate) fn instance_extend_ttl(env: &mut Env, threshold: u32, extend_to: u32)
    requires
        in_contract(*old(env)),
        threshold <= extend_to,
    ensures
        env_host(*final(env)) == env_host(*old(env)),
        in_contract(*final(env)),
        instance_ttl(*final(env)) == extended_ttl(
            instance_ttl(*old(env)),
            threshold as nat,
            extend_to as nat,
            max_ttl(*old(env)),
        ),
        ledger(*final(env)) == (Ledger {
            instance_ttl: instance_ttl(*final(env)),
            ..ledger(*old(env))
        }),
{
    env.storage().instance().extend_ttl(threshold, extend_to)
}

/// `Persistent::get` under the key made of the symbol and `usuario`, with the
/// entry read by `String::try_from_val`: the string that persistent storage
/// holds there, as a handle of this host; nothing where it holds no entry,
/// or an entry that is no string.
#[verifier::external_body]
pub(crate) fn persistent_get_string(env: &Env, key: &Symbol, usuario: &Address) -> (r: Option<
    soroban_sdk::String,
>)
    requires
        symbol_host(*key) == env_host(*env),
        address_host(*usuario) == env_host(*env),
        in_contract(*env),
    ensures
        match r {
            Some(s) => string_host(s) == env_host(*env) && persistent_entries(*env).contains_key(
                StoreKey::of_user(symbol_chars(*key), address_bytes(*usuario)),
            ) && persistent_entries(*env)[StoreKey::of_user(
                symbol_chars(*key),
                address_bytes(*usuario),
            )] == Stored::Text(string_bytes(s)),
            None => !(persistent_entries(*env).contains_key(
                StoreKey::of_user(symbol_chars(*key), address_bytes(*usuario)),
            ) && persistent_entries(*env)[StoreKey::of_user(
                symbol_chars(*key),
                address_bytes(*usuario),
            )] is Text),
        },
{
    match env.storage().persistent().get::<_, Val>(&(key, usuario)) {
        Some(v) => soroban_sdk::String::try_from_val(env, &v).ok(),
        None => None,
    }
}

/// `Persistent::set` of a string under the key made of the symbol and `usuario`:
/// the entry then holds the string. An entry that was there keeps its time
/// to live, a new one starts with the network's minimum; nothing else
/// changes.
#[verifier::external_body]
pub(crate) fn persistent_set_string(
    env: &mut Env,
    key: &Symbol,
    usuario: &Address,
    value: &soroban_sdk::String,
)
    requires
        symbol_host(*key) == env_host(*old(env)),
        address_host(*usuario) == env_host(*old(env)),
        string_host(*value) == env_host(*old(env)),
        in_contract(*old(env)),
    ensures
        env_host(*final(env)) == env_host(*old(env)),
        in_contract(*final(env)),
        persistent_entries(*final(env)) == persistent_entries(*old(env)).insert(
            StoreKey::of_user(symbol_chars(*key), address_bytes(*usuario)),
            Stored::Text(string_bytes(*value)),
        ),
        persistent_ttl(*final(env)) == if persistent_entries(*old(env)).contains_key(
            StoreKey::of_user(symbol_chars(*key), address_bytes(*usuario)),
        ) {
            persistent_ttl(*old(env))
        } else {
            persistent_ttl(*old(env)).insert(
                StoreKey::of_user(symbol_chars(*key), address_bytes(*usuario)),
                fresh_ttl(*old(env)),
            )
        },
        ledger(*final(env)) == (Ledger {
            persistent: persistent_entries(*final(env)),
            persistent_ttl: persistent_ttl(*final(env)),
            ..ledger(*old(env))
        }),
{
    env.storage().persistent().set(&(key, usuario), value)
}

/// `Persistent::extend_ttl` under the key made of the symbol and `usuario`: an
/// entry whose time to live is at most `threshold` gets `extend_to`, capped
/// by what the network grants; no entry changes. The host refuses a
/// threshold above `extend_to`, and a key without an entry.
#[verifier::external_body]
pub(crate) fn persistent_extend_ttl(
    env: &mut Env,
    key: &Symbol,
    usuario: &Address,
    threshold: u32,
    extend_to: u32,
)
    requires
        symbol_host(*key) == env_host(*old(env)),
        address_host(*usuario) == env_host(*old(env)),
        in_contract(*old(env)),
        threshold <= extend_to,
        persistent_entries(*old(env)).contains_key(
            StoreKey::of_user(symbol_chars(*key), address_bytes(*usuario)),
        ),
    ensures
        env_host(*final(env)) == env_host(*old(env)),
        in_contract(*final(env)),
        persistent_ttl(*final(env)) == persistent_ttl(*old(env)).insert(
            StoreKey::of_user(symbol_chars(*key), address_bytes(*usuario)),
            extended_ttl(
                persistent_ttl(*old(env))[StoreKey::of_user(symbol_chars(*key), address_bytes(*usuario))],
                threshold as nat,
                extend_to as nat,
                max_ttl(*old(env)),
            ),
        ),
        ledger(*final(env)) == (Ledger {
            persistent_ttl: persistent_ttl(*final(env)),
            ..ledger(*old(env))
        }),
{
    env.storage().persistent().extend_ttl(&(key, usuario), threshold, extend_to)
}

/// `==` on two addresses: they are equal where they name the same account or
/// contract.
#[verifier::external_body]
pub(crate) fn same_address(a: &Address, b: &Address) -> (r: bool)
    ensures
        r == (address_bytes(*a) == address_bytes(*b)),
{
    a == b
}

/// `String::len`: the number of bytes that the string holds.
#[verifier::external_body]
pub(crate) fn string_len(s: &soroban_sdk::String) -> (n: u32)
    ensures
        n == string_bytes(*s).len(),
{
    s.len()
}

/// `String::from_str`: a string of this host that holds the bytes of `s`.
#[verifier::external_body]
pub(crate) fn new_string(env: &Env, s: &str) -> (r: soroban_sdk::String)
    ensures
        string_host(r) == env_host(*env),
        string_bytes(r) == s.spec_bytes(),
{
    soroban_sdk::String::from_str(env, s)
}

/// `Symbol::new`: a symbol of this host that holds the characters of `s`.
/// The SDK panics on a text of which no symbol can be made.
#[verifier::external_body]
pub(crate) fn new_symbol(env: &Env, s: &str) -> (r: Symbol)
    requires
        symbol_text(s@),
    ensures
        symbol_host(r) == env_host(*env),
        symbol_chars(r) == s@,
{
    Symbol::new(env, s)
}

} // verus!
