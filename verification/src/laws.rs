//! What holds of the operations together, proved over the model.

use vstd::prelude::*;
use crate::error::Error;
use crate::history::Op;
use crate::ledger::{
    extended_ttl, lemma_keys_differ, DataKey, Ledger, MAX_NOMBRE, TTL_EXTEND_TO, TTL_THRESHOLD,
};

verus! {

/// On a ledger without an administrator `initialize` is accepted; it sets
/// the administrator and a counter of zero, and leaves persistent storage
/// alone.
pub proof fn law_initialize_sets_up(l: Ledger, admin: Seq<u8>)
    requires
        !l.initialized(),
    ensures
        l.initialize_result() is Ok,
        l.after_initialize(admin).initialized(),
        l.after_initialize(admin).admin() == Some(admin),
        l.after_initialize(admin).contador() == 0,
        l.after_initialize(admin).persistent == l.persistent,
{
    lemma_keys_differ();
}

/// On a ledger with an administrator `initialize` is refused with
/// `NoInicializado`, whoever is named, and nothing changes.
pub proof fn law_initialize_only_once(l: Ledger, other: Seq<u8>)
    requires
        l.initialized(),
    ensures
        l.initialize_result() == Err::<(), Error>(Error::NoInicializado),
        l.after_initialize(other) == l,
{
}

/// No operation takes the administrator away or replaces it: once a ledger
/// has one, it keeps that one through every sequence of operations, so every
/// later `initialize` is refused.
pub proof fn law_admin_is_fixed(l: Ledger, ops: Seq<Op>)
    requires
        l.initialized(),
    ensures
        l.run(ops).initialized(),
        l.run(ops).instance[DataKey::Admin.key()] == l.instance[DataKey::Admin.key()],
        l.run(ops).admin() == l.admin(),
        forall|other: Seq<u8>| !l.run(ops).accepts(Op::Initialize(other)),
    decreases ops.len(),
{
    lemma_keys_differ();
    if ops.len() > 0 {
        law_admin_is_fixed(l, ops.drop_last());
    }
}

/// A greeting of the administrator with a name of 1 to `MAX_NOMBRE` bytes is
/// accepted. While the counter has room, it raises the counter by exactly
/// one and becomes the administrator's last greeting; at a full counter
/// nothing changes.
pub proof fn law_hello_counts(l: Ledger, admin: Seq<u8>, nombre: Seq<u8>)
    requires
        l.admin() == Some(admin),
        1 <= nombre.len() <= MAX_NOMBRE,
    ensures
        l.hello_result(admin, nombre) is Ok,
        l.has_room() ==> l.after_hello(admin, nombre).contador() == l.contador() + 1,
        l.has_room() ==> l.after_hello(admin, nombre).ultimo_saludo(admin) == nombre,
        !l.has_room() ==> l.after_hello(admin, nombre) == l,
        l.after_hello(admin, nombre).admin() == l.admin(),
{
    lemma_keys_differ();
}

/// A greeting with an empty name is refused with `NombreVacio`, whoever
/// calls, and nothing changes.
pub proof fn law_empty_name_refused(l: Ledger, usuario: Seq<u8>, nombre: Seq<u8>)
    requires
        nombre.len() == 0,
    ensures
        l.hello_result(usuario, nombre) == Err::<(), Error>(Error::NombreVacio),
        l.after_hello(usuario, nombre) == l,
{
}

/// A greeting with a name of more than `MAX_NOMBRE` bytes is refused with
/// `NombreMuyLargo`, whoever calls, and nothing changes.
pub proof fn law_long_name_refused(l: Ledger, usuario: Seq<u8>, nombre: Seq<u8>)
    requires
        nombre.len() > MAX_NOMBRE,
    ensures
        l.hello_result(usuario, nombre) == Err::<(), Error>(Error::NombreMuyLargo),
        l.after_hello(usuario, nombre) == l,
{
}

/// A greeting of anyone but the administrator, with a name that would pass,
/// is refused with `NoAutorizado`, and nothing changes.
pub proof fn law_hello_admin_only(l: Ledger, admin: Seq<u8>, usuario: Seq<u8>, nombre: Seq<u8>)
    requires
        l.admin() == Some(admin),
        usuario != admin,
        1 <= nombre.len() <= MAX_NOMBRE,
    ensures
        l.hello_result(usuario, nombre) == Err::<(), Error>(Error::NoAutorizado),
        l.after_hello(usuario, nombre) == l,
{
}

/// Before there is an administrator, a greeting with a name that would pass
/// and a reset are refused with `NoInicializado`, and nothing changes.
pub proof fn law_nothing_before_initialize(l: Ledger, usuario: Seq<u8>, nombre: Seq<u8>)
    requires
        l.admin() is None,
        1 <= nombre.len() <= MAX_NOMBRE,
    ensures
        l.hello_result(usuario, nombre) == Err::<(), Error>(Error::NoInicializado),
        l.after_hello(usuario, nombre) == l,
        l.reset_result(usuario) == Err::<(), Error>(Error::NoInicializado),
        l.after_reset(usuario) == l,
{
}

/// A reset by the administrator is accepted and puts the counter at zero,
/// whatever it was; the greetings and the times to live stay as they are.
pub proof fn law_reset_by_admin(l: Ledger, admin: Seq<u8>)
    requires
        l.admin() == Some(admin),
    ensures
        l.reset_result(admin) is Ok,
        l.after_reset(admin).contador() == 0,
        l.after_reset(admin).persistent == l.persistent,
        l.after_reset(admin).instance_ttl == l.instance_ttl,
        l.after_reset(admin).persistent_ttl == l.persistent_ttl,
        l.after_reset(admin).admin() == l.admin(),
{
    lemma_keys_differ();
}

/// A reset by anyone but the administrator is refused with `NoAutorizado`,
/// and nothing changes.
pub proof fn law_reset_admin_only(l: Ledger, admin: Seq<u8>, caller: Seq<u8>)
    requires
        l.admin() == Some(admin),
        caller != admin,
    ensures
        l.reset_result(caller) == Err::<(), Error>(Error::NoAutorizado),
        l.after_reset(caller) == l,
{
}

/// An operation that is refused changes nothing.
pub proof fn law_refused_changes_nothing(l: Ledger, op: Op)
    requires
        !l.accepts(op),
    ensures
        l.step(op) == l,
{
}

/// The counter goes down only to zero, and only by an accepted reset or
/// `initialize`; a greeting that is recorded raises it by one, and it never
/// wraps.
pub proof fn law_counter_moves(l: Ledger, op: Op)
    ensures
        match op {
            Op::Hello(_, _) => l.step(op).contador() == l.contador() + if l.accepts(op) {
                1int
            } else {
                0int
            },
            _ => l.step(op).contador() == if l.accepts(op) {
                0
            } else {
                l.contador()
            },
        },
{
}

/// A user's last greeting is the name of the latest greeting of that user
/// that was recorded.
pub proof fn law_last_greeting_is_latest(l: Ledger, ops: Seq<Op>, i: int, usuario: Seq<u8>)
    requires
        l.greets_at(ops, i, usuario),
        forall|j: int| i < j < ops.len() ==> !l.greets_at(ops, j, usuario),
    ensures
        ops[i] matches Op::Hello(_, nombre) && l.run(ops).ultimo_saludo(usuario) == nombre,
    decreases ops.len(),
{
    let before = ops.drop_last();
    let last = ops.len() - 1;
    if i == last {
        assert(ops.take(i) == before);
    } else {
        assert forall|j: int| i < j < before.len() implies !l.greets_at(before, j, usuario) by {
            assert(before.take(j) == ops.take(j));
            assert(!l.greets_at(ops, j, usuario));
        }
        assert(before.take(i) == ops.take(i));
        law_last_greeting_is_latest(l, before, i, usuario);
        assert(ops.take(last) == before);
        assert(!l.greets_at(ops, last, usuario));
    }
}

/// While no greeting of a user is recorded, the user's last greeting stays
/// what it was: empty, on a ledger that holds none for that user.
pub proof fn law_last_greeting_without_greeting(l: Ledger, ops: Seq<Op>, usuario: Seq<u8>)
    requires
        forall|j: int| 0 <= j < ops.len() ==> !l.greets_at(ops, j, usuario),
    ensures
        l.run(ops).ultimo_saludo(usuario) == l.ultimo_saludo(usuario),
        !l.persistent.contains_key(DataKey::UltimoSaludo(usuario).key()) ==> l.run(ops).ultimo_saludo(
            usuario,
        ) == Seq::<u8>::empty(),
    decreases ops.len(),
{
    if ops.len() > 0 {
        let before = ops.drop_last();
        let last = ops.len() - 1;
        assert forall|j: int| 0 <= j < before.len() implies !l.greets_at(before, j, usuario) by {
            assert(before.take(j) == ops.take(j));
            assert(!l.greets_at(ops, j, usuario));
        }
        law_last_greeting_without_greeting(l, before, usuario);
        assert(ops.take(last) == before);
        assert(!l.greets_at(ops, last, usuario));
    }
}

/// An extension as the ledger asks for it never shortens a time to live;
/// where the network grants `TTL_EXTEND_TO` ledgers, it leaves no entry
/// below that, and puts an entry that was below at exactly that.
pub proof fn law_extension_floor(ttl: nat, max_ttl: nat)
    ensures
        extended_ttl(ttl, TTL_THRESHOLD as nat, TTL_EXTEND_TO as nat, max_ttl) >= ttl,
        max_ttl >= TTL_EXTEND_TO ==> extended_ttl(
            ttl,
            TTL_THRESHOLD as nat,
            TTL_EXTEND_TO as nat,
            max_ttl,
        ) >= TTL_EXTEND_TO,
        ttl < TTL_EXTEND_TO <= max_ttl ==> extended_ttl(
            ttl,
            TTL_THRESHOLD as nat,
            TTL_EXTEND_TO as nat,
            max_ttl,
        ) == TTL_EXTEND_TO,
{
}

/// After an `initialize` that is accepted and after a greeting that is
/// recorded, what was written lives for `TTL_EXTEND_TO` ledgers or more, where the network
/// grants that much: the instance in both cases, and the greeting.
pub proof fn law_writes_are_kept_alive(l: Ledger, usuario: Seq<u8>, nombre: Seq<u8>)
    requires
        l.max_ttl >= TTL_EXTEND_TO,
    ensures
        l.initialize_result() is Ok ==> l.after_initialize(usuario).instance_ttl >= TTL_EXTEND_TO,
        l.records_hello(usuario, nombre) ==> {
            &&& l.after_hello(usuario, nombre).instance_ttl >= TTL_EXTEND_TO
            &&& l.after_hello(usuario, nombre).greeting_ttl(usuario) >= TTL_EXTEND_TO
        },
{
}

/// Every operation keeps a consistent ledger consistent.
pub proof fn law_consistent_step(l: Ledger, op: Op)
    requires
        l.consistent(),
    ensures
        l.step(op).consistent(),
{
    lemma_keys_differ();
}

/// An empty ledger is consistent, and so is every state that the ledger
/// reaches from a consistent one.
pub proof fn law_consistent_always(l: Ledger, ops: Seq<Op>)
    requires
        l.consistent() || l.is_empty(),
    ensures
        l.run(ops).consistent(),
    decreases ops.len(),
{
    if ops.len() > 0 {
        law_consistent_always(l, ops.drop_last());
        law_consistent_step(l.run(ops.drop_last()), ops.last());
    }
}

} // verus!
