//! The operations of the ledger, each proved against the model of
//! [`crate::ledger`].

use vstd::prelude::*;
use soroban_sdk::{Address, Env, Symbol};
use crate::error::Error;
use crate::host::{
    address_bytes, env_host, in_contract, instance_extend_ttl, ledger, new_string, new_symbol,
    owns_address, owns_string, owns_symbol, same_address, string_bytes, string_len, symbol_chars,
};
use crate::store::{
    has_admin, read_admin, read_contador, read_saludo, write_admin, write_contador, write_saludo,
};
use crate::ledger::{lemma_keys_differ, MAX_NOMBRE, TTL_EXTEND_TO, TTL_THRESHOLD};

verus! {

/// The greeting ledger. It holds nothing itself: its state is the storage of
/// the contract that runs it.
pub struct HelloContract;

impl HelloContract {
    /// Sets the administrator and puts the counter at zero. Accepted once:
    /// on a ledger that has an administrator nothing is written.
    pub fn initialize(env: &mut Env, admin: Address) -> (r: Result<(), Error>)
        requires
            in_contract(*old(env)),
            owns_address(*old(env), admin),
        ensures
            in_contract(*final(env)),
            env_host(*final(env)) == env_host(*old(env)),
            r == ledger(*old(env)).initialize_result(),
            ledger(*final(env)) == ledger(*old(env)).after_initialize(address_bytes(admin)),
    {
        if has_admin(env) {
            return Err(Error::NoInicializado);
        }
        proof {
            lemma_keys_differ();
        }
        write_admin(env, &admin);
        write_contador(env, 0);
        instance_extend_ttl(env, TTL_THRESHOLD, TTL_EXTEND_TO);
        Ok(())
    }

    /// Whether `hello` would be accepted, and if not, why. Nothing is
    /// written.
    pub fn check_hello(env: &Env, usuario: &Address, nombre: &soroban_sdk::String) -> (r: Result<
        (),
        Error,
    >)
        requires
            in_contract(*env),
        ensures
            r == ledger(*env).hello_result(address_bytes(*usuario), string_bytes(*nombre)),
    {
        let len: u32 = string_len(nombre);
        if len == 0 {
            return Err(Error::NombreVacio);
        }
        if len > MAX_NOMBRE {
            return Err(Error::NombreMuyLargo);
        }
        let admin = match read_admin(env) {
            Some(a) => a,
            None => {
                return Err(Error::NoInicializado);
            },
        };
        if !same_address(usuario, &admin) {
            return Err(Error::NoAutorizado);
        }
        Ok(())
    }

    /// Records a greeting of the administrator: counts it, keeps `nombre` as
    /// the caller's last greeting and extends the time to live of what it
    /// wrote. Answers with the symbol `Hola`. On an error nothing is written.
    ///
    /// Where the greeting is accepted, the counter must have room for it:
    /// [`HelloContract::try_hello`] looks before it writes. The address and
    /// the name are handles of the host of `env`, as in every operation that
    /// is handed one.
    pub fn hello(env: &mut Env, usuario: Address, nombre: soroban_sdk::String) -> (r: Result<
        Symbol,
        Error,
    >)
        requires
            in_contract(*old(env)),
            owns_address(*old(env), usuario),
            owns_string(*old(env), nombre),
            ledger(*old(env)).hello_result(address_bytes(usuario), string_bytes(nombre)) is Ok
                ==> ledger(*old(env)).has_room(),
        ensures
            in_contract(*final(env)),
            env_host(*final(env)) == env_host(*old(env)),
            ledger(*final(env)) == ledger(*old(env)).after_hello(
                address_bytes(usuario),
                string_bytes(nombre),
            ),
            match r {
                Ok(s) => ledger(*old(env)).hello_result(
                    address_bytes(usuario),
                    string_bytes(nombre),
                ) is Ok && symbol_chars(s) == "Hola"@ && owns_symbol(*final(env), s),
                Err(e) => ledger(*old(env)).hello_result(
                    address_bytes(usuario),
                    string_bytes(nombre),
                ) == Err::<(), Error>(e),
            },
    {
        match Self::check_hello(env, &usuario, &nombre) {
            Err(e) => {
                return Err(e);
            },
            Ok(()) => {},
        }
        let contador: u32 = read_contador(env);
        write_contador(env, contador + 1);
        write_saludo(env, &usuario, &nombre, TTL_THRESHOLD, TTL_EXTEND_TO);
        instance_extend_ttl(env, TTL_THRESHOLD, TTL_EXTEND_TO);
        proof {
            reveal_strlit("Hola");
        }
        Ok(new_symbol(env, "Hola"))
    }

    /// `hello` for a caller who does not know the counter: `None`, with
    /// nothing written, where the greeting would be accepted and the counter
    /// has no room for it; else what `hello` does and answers.
    pub fn try_hello(env: &mut Env, usuario: Address, nombre: soroban_sdk::String) -> (r: Option<
        Result<Symbol, Error>,
    >)
        requires
            in_contract(*old(env)),
            owns_address(*old(env), usuario),
            owns_string(*old(env), nombre),
        ensures
            in_contract(*final(env)),
            env_host(*final(env)) == env_host(*old(env)),
            ledger(*final(env)) == ledger(*old(env)).after_hello(
                address_bytes(usuario),
                string_bytes(nombre),
            ),
            match r {
                Some(Ok(s)) => ledger(*old(env)).records_hello(
                    address_bytes(usuario),
                    string_bytes(nombre),
                ) && symbol_chars(s) == "Hola"@ && owns_symbol(*final(env), s),
                Some(Err(e)) => ledger(*old(env)).hello_result(
                    address_bytes(usuario),
                    string_bytes(nombre),
                ) == Err::<(), Error>(e),
                None => ledger(*old(env)).hello_result(
                    address_bytes(usuario),
                    string_bytes(nombre),
                ) is Ok && !ledger(*old(env)).has_room(),
            },
    {
        if Self::check_hello(env, &usuario, &nombre).is_ok() && Self::get_contador(env)
            == u32::MAX {
            return None;
        }
        Some(Self::hello(env, usuario, nombre))
    }

    /// The number of greetings: zero on a ledger that holds no counter.
    pub fn get_contador(env: &Env) -> (n: u32)
        requires
            in_contract(*env),
        ensures
            n == ledger(*env).contador(),
    {
        read_contador(env)
    }

    /// The last greeting of a user: the empty string where there is none.
    pub fn get_ultimo_saludo(env: &Env, usuario: Address) -> (s: soroban_sdk::String)
        requires
            in_contract(*env),
            owns_address(*env, usuario),
        ensures
            owns_string(*env, s),
            string_bytes(s) == ledger(*env).ultimo_saludo(address_bytes(usuario)),
    {
        match read_saludo(env, &usuario) {
            Some(s) => s,
            None => {
                proof {
                    reveal_strlit("");
                }
                new_string(env, "")
            },
        }
    }

    /// Puts the counter back to zero, for the administrator only. The times
    /// to live stay as they are.
    pub fn reset_contador(env: &mut Env, caller: Address) -> (r: Result<(), Error>)
        requires
            in_contract(*old(env)),
        ensures
            in_contract(*final(env)),
            env_host(*final(env)) == env_host(*old(env)),
            r == ledger(*old(env)).reset_result(address_bytes(caller)),
            ledger(*final(env)) == ledger(*old(env)).after_reset(address_bytes(caller)),
    {
        let admin = match read_admin(env) {
            Some(a) => a,
            None => {
                return Err(Error::NoInicializado);
            },
        };
        if !same_address(&caller, &admin) {
            return Err(Error::NoAutorizado);
        }
        write_contador(env, 0);
        Ok(())
    }
}

} // verus!
