//! The entries of the ledger: the key of each, and the reads and writes of
//! each, proved from what the host says of its storage.

use vstd::prelude::*;
use soroban_sdk::{Address, Env, Symbol};
use crate::host::{
    address_bytes, env_host, in_contract, instance_get_address, instance_get_u32, instance_has,
    instance_set_address, instance_set_u32, ledger, new_symbol, owns_address, owns_string,
    owns_symbol, persistent_extend_ttl, persistent_get_string, persistent_set_string,
    string_bytes, symbol_chars,
};
use crate::ledger::{extended_ttl, DataKey, Ledger, StoreKey, Stored};

verus! {

/// The key under which the administrator is stored.
fn admin_key(env: &Env) -> (key: Symbol)
    ensures
        owns_symbol(*env, key),
        StoreKey::plain(symbol_chars(key)) == DataKey::Admin.key(),
{
    proof {
        reveal_strlit("Admin");
    }
    new_symbol(env, "Admin")
}

/// The key under which the counter is stored.
fn contador_key(env: &Env) -> (key: Symbol)
    ensures
        owns_symbol(*env, key),
        StoreKey::plain(symbol_chars(key)) == DataKey::ContadorSaludos.key(),
{
    proof {
        reveal_strlit("ContadorSaludos");
    }
    new_symbol(env, "ContadorSaludos")
}

/// The symbol of the key under which a user's last greeting is stored.
fn saludo_key(env: &Env) -> (key: Symbol)
    ensures
        owns_symbol(*env, key),
        forall|usuario: Seq<u8>|
            StoreKey::of_user(symbol_chars(key), usuario) == #[trigger] DataKey::UltimoSaludo(
                usuario,
            ).key(),
{
    proof {
        reveal_strlit("UltimoSaludo");
    }
    new_symbol(env, "UltimoSaludo")
}

/// Whether an administrator is stored.
pub(crate) fn has_admin(env: &Env) -> (r: bool)
    requires
        in_contract(*env),
    ensures
        r == ledger(*env).initialized(),
{
    let key = admin_key(env);
    instance_has(env, &key)
}

/// The administrator, if one is stored.
pub(crate) fn read_admin(env: &Env) -> (r: Option<Address>)
    requires
        in_contract(*env),
    ensures
        match r {
            Some(a) => owns_address(*env, a) && ledger(*env).admin() == Some(
                address_bytes(a),
            ),
            None => ledger(*env).admin() is None,
        },
{
    let key = admin_key(env);
    instance_get_address(env, &key)
}

/// Stores the administrator.
pub(crate) fn write_admin(env: &mut Env, admin: &Address)
    requires
        in_contract(*old(env)),
        owns_address(*old(env), *admin),
    ensures
        in_contract(*final(env)),
        env_host(*final(env)) == env_host(*old(env)),
        ledger(*final(env)) == (Ledger {
            instance: ledger(*old(env)).instance.insert(
                DataKey::Admin.key(),
                Stored::Identity(address_bytes(*admin)),
            ),
            ..ledger(*old(env))
        }),
{
    let key = admin_key(env);
    instance_set_address(env, &key, admin)
}

/// The counter: zero where none is stored.
pub(crate) fn read_contador(env: &Env) -> (n: u32)
    requires
        in_contract(*env),
    ensures
        n == ledger(*env).contador(),
{
    let key = contador_key(env);
    match instance_get_u32(env, &key) {
        Some(n) => n,
        None => 0,
    }
}

/// Stores the counter.
pub(crate) fn write_contador(env: &mut Env, n: u32)
    requires
        in_contract(*old(env)),
    ensures
        in_contract(*final(env)),
        env_host(*final(env)) == env_host(*old(env)),
        ledger(*final(env)) == (Ledger {
            instance: ledger(*old(env)).instance.insert(
                DataKey::ContadorSaludos.key(),
                Stored::Number(n),
            ),
            ..ledger(*old(env))
        }),
{
    let key = contador_key(env);
    instance_set_u32(env, &key, n)
}

/// The last greeting of a user, if one is stored.
pub(crate) fn read_saludo(env: &Env, usuario: &Address) -> (r: Option<soroban_sdk::String>)
    requires
        in_contract(*env),
        owns_address(*env, *usuario),
    ensures
        match r {
            Some(s) => owns_string(*env, s) && string_bytes(s) == ledger(
                *env,
            ).ultimo_saludo(address_bytes(*usuario)),
            None => ledger(*env).ultimo_saludo(address_bytes(*usuario)) == Seq::<u8>::empty(),
        },
{
    let key = saludo_key(env);
    persistent_get_string(env, &key, usuario)
}

/// Stores the last greeting of a user and asks for the extension of its
/// time to live.
pub(crate) fn write_saludo(
    env: &mut Env,
    usuario: &Address,
    nombre: &soroban_sdk::String,
    threshold: u32,
    extend_to: u32,
)
    requires
        in_contract(*old(env)),
        owns_address(*old(env), *usuario),
        owns_string(*old(env), *nombre),
        threshold <= extend_to,
    ensures
        in_contract(*final(env)),
        env_host(*final(env)) == env_host(*old(env)),
        ledger(*final(env)) == (Ledger {
            persistent: ledger(*old(env)).persistent.insert(
                DataKey::UltimoSaludo(address_bytes(*usuario)).key(),
                Stored::Text(string_bytes(*nombre)),
            ),
            persistent_ttl: ledger(*old(env)).persistent_ttl.insert(
                DataKey::UltimoSaludo(address_bytes(*usuario)).key(),
                extended_ttl(
                    ledger(*old(env)).greeting_ttl(address_bytes(*usuario)),
                    threshold as nat,
                    extend_to as nat,
                    ledger(*old(env)).max_ttl,
                ),
            ),
            ..ledger(*old(env))
        }),
{
    let key = saludo_key(env);
    persistent_set_string(env, &key, usuario, nombre);
    persistent_extend_ttl(env, &key, usuario, threshold, extend_to);
}

} // verus!
