//! Sequences of operations on the model, for what holds of every state that
//! the ledger can reach.

use vstd::prelude::*;
use crate::ledger::{DataKey, Ledger, StoreKey, Stored, MAX_NOMBRE};

verus! {

/// One call of an operation that writes, with its arguments in plain values.
pub enum Op {
    /// `initialize` with this administrator.
    Initialize(Seq<u8>),
    /// `hello` by this caller with this name.
    Hello(Seq<u8>, Seq<u8>),
    /// `reset_contador` by this caller.
    Reset(Seq<u8>),
}

impl Ledger {
    /// Whether the operation is accepted and takes effect: for a greeting,
    /// the counter must have room for it.
    pub open spec fn accepts(self, op: Op) -> bool {
        match op {
            Op::Initialize(_) => self.initialize_result() is Ok,
            Op::Hello(usuario, nombre) => self.records_hello(usuario, nombre),
            Op::Reset(caller) => self.reset_result(caller) is Ok,
        }
    }

    /// The ledger after the operation.
    pub open spec fn step(self, op: Op) -> Ledger {
        match op {
            Op::Initialize(admin) => self.after_initialize(admin),
            Op::Hello(usuario, nombre) => self.after_hello(usuario, nombre),
            Op::Reset(caller) => self.after_reset(caller),
        }
    }

    /// The ledger after the operations, made in their order.
    pub open spec fn run(self, ops: Seq<Op>) -> Ledger
        decreases ops.len(),
    {
        if ops.len() == 0 {
            self
        } else {
            self.run(ops.drop_last()).step(ops.last())
        }
    }

    /// Whether the operation at place `i` of `ops`, made on this ledger, is a
    /// greeting of `usuario` that is recorded.
    pub open spec fn greets_at(self, ops: Seq<Op>, i: int, usuario: Seq<u8>) -> bool {
        &&& 0 <= i < ops.len()
        &&& ops[i] matches Op::Hello(who, nombre)
        &&& who == usuario
        &&& self.run(ops.take(i)).records_hello(who, nombre)
    }

    /// No entry is stored.
    pub open spec fn is_empty(self) -> bool {
        self.instance == Map::<StoreKey, Stored>::empty() && self.persistent == Map::<
            StoreKey,
            Stored,
        >::empty()
    }

    /// What holds of the entries in every state that the ledger reaches from
    /// an empty one: they are of the right kinds; the counter is stored
    /// exactly where the administrator is; and a greeting is stored only for
    /// the administrator, with a name of 1 to `MAX_NOMBRE` bytes.
    pub open spec fn consistent(self) -> bool {
        &&& self.well_typed()
        &&& self.instance.contains_key(DataKey::Admin.key()) <==> self.instance.contains_key(
            DataKey::ContadorSaludos.key(),
        )
        &&& forall|u: Seq<u8>| #[trigger]
            self.persistent.contains_key(DataKey::UltimoSaludo(u).key()) ==> {
                &&& self.admin() == Some(u)
                &&& 1 <= self.ultimo_saludo(u).len() <= MAX_NOMBRE
            }
    }
}

} // verus!
