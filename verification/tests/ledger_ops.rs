use hello_tiburona::contract::HelloContract;
use hello_tiburona::error::Error;
use soroban_sdk::testutils::{Address as _, ContractFunctionSet, EnvTestConfig};
use soroban_sdk::{Address, Env, String, Symbol, Val};

/// A contract without functions: the ledger runs in its storage.
struct Holder;

impl ContractFunctionSet for Holder {
    fn call(&self, _func: &str, _env: Env, _args: &[Val]) -> Option<Val> {
        None
    }
}

fn setup() -> (Env, Address) {
    let env = Env::new_with_config(EnvTestConfig {
        capture_snapshot_at_drop: false,
    });
    let contract_id = env.register(Holder, ());
    (env, contract_id)
}

fn initialize(env: &Env, id: &Address, admin: &Address) -> Result<(), Error> {
    let mut inner = env.clone();
    env.as_contract(id, || HelloContract::initialize(&mut inner, admin.clone()))
}

fn hello(env: &Env, id: &Address, usuario: &Address, nombre: &str) -> Result<Symbol, Error> {
    let mut inner = env.clone();
    let nombre = String::from_str(env, nombre);
    env.as_contract(id, || HelloContract::hello(&mut inner, usuario.clone(), nombre))
}

fn get_contador(env: &Env, id: &Address) -> u32 {
    env.as_contract(id, || HelloContract::get_contador(env))
}

fn get_ultimo_saludo(env: &Env, id: &Address, usuario: &Address) -> String {
    env.as_contract(id, || HelloContract::get_ultimo_saludo(env, usuario.clone()))
}

fn reset_contador(env: &Env, id: &Address, caller: &Address) -> Result<(), Error> {
    let mut inner = env.clone();
    env.as_contract(id, || HelloContract::reset_contador(&mut inner, caller.clone()))
}

#[test]
fn test_initialize() {
    let (env, contract_id) = setup();
    let admin = Address::generate(&env);

    assert_eq!(initialize(&env, &contract_id, &admin), Ok(()));

    assert_eq!(get_contador(&env, &contract_id), 0);
}

#[test]
fn test_hello_exitoso() {
    let (env, contract_id) = setup();
    let admin = Address::generate(&env);

    assert_eq!(initialize(&env, &contract_id, &admin), Ok(()));

    let result = hello(&env, &contract_id, &admin, "Dev");

    assert_eq!(result, Ok(Symbol::new(&env, "Hola")));
    assert_eq!(get_contador(&env, &contract_id), 1);
    assert_eq!(
        get_ultimo_saludo(&env, &contract_id, &admin),
        String::from_str(&env, "Dev")
    );
}

#[test]
fn test_nombre_vacio() {
    let (env, contract_id) = setup();
    let admin = Address::generate(&env);

    assert_eq!(initialize(&env, &contract_id, &admin), Ok(()));

    assert_eq!(
        hello(&env, &contract_id, &admin, ""),
        Err(Error::NombreVacio)
    );
    assert_eq!(Error::NombreVacio.code(), 1);
}

#[test]
fn test_no_reinicializar() {
    let (env, contract_id) = setup();
    let admin = Address::generate(&env);

    assert_eq!(initialize(&env, &contract_id, &admin), Ok(()));

    assert_eq!(
        initialize(&env, &contract_id, &admin),
        Err(Error::NoInicializado)
    );
    assert_eq!(Error::NoInicializado.code(), 4);
}

#[test]
fn test_reset_solo_admin() {
    let (env, contract_id) = setup();
    let admin = Address::generate(&env);

    assert_eq!(initialize(&env, &contract_id, &admin), Ok(()));

    assert_eq!(
        hello(&env, &contract_id, &admin, "Test"),
        Ok(Symbol::new(&env, "Hola"))
    );
    assert_eq!(get_contador(&env, &contract_id), 1);

    assert_eq!(reset_contador(&env, &contract_id, &admin), Ok(()));

    assert_eq!(get_contador(&env, &contract_id), 0);
}

#[test]
fn test_reset_no_autorizado() {
    let (env, contract_id) = setup();
    let admin = Address::generate(&env);
    let otro_usuario = Address::generate(&env);

    assert_eq!(initialize(&env, &contract_id, &admin), Ok(()));

    assert_eq!(
        reset_contador(&env, &contract_id, &otro_usuario),
        Err(Error::NoAutorizado)
    );
    assert_eq!(Error::NoAutorizado.code(), 3);
}
