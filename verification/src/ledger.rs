//! The mathematical model of the ledger and of its operations.
//!
//! Nothing here runs: these are the values and functions in which the
//! contracts of the executable code are stated.

use vstd::prelude::*;
use crate::error::Error;

verus! {

/// The longest name that a greeting accepts, in bytes.
pub const MAX_NOMBRE: u32 = 32;

/// An entry whose time to live is at most this many ledgers gets extended.
pub const TTL_THRESHOLD: u32 = 100;

/// The time to live, in ledgers, that an extended entry gets.
pub const TTL_EXTEND_TO: u32 = 100;

/// How the storage addresses an entry: by a name, or by a name and a user,
/// who stands here as the bytes of the address.
pub struct StoreKey {
    pub name: Seq<char>,
    pub usuario: Option<Seq<u8>>,
}

impl StoreKey {
    /// The key made of a name alone.
    pub open spec fn plain(name: Seq<char>) -> StoreKey {
        StoreKey { name, usuario: None }
    }

    /// The key made of a name and a user.
    pub open spec fn of_user(name: Seq<char>, usuario: Seq<u8>) -> StoreKey {
        StoreKey { name, usuario: Some(usuario) }
    }
}

/// The keys of the ledger.
pub enum DataKey {
    /// The administrator, in instance storage.
    Admin,
    /// The number of greetings, in instance storage.
    ContadorSaludos,
    /// The last greeting of one user, in persistent storage.
    UltimoSaludo(Seq<u8>),
}

impl DataKey {
    /// The key as the storage holds it: the name of the variant, with the
    /// user where there is one.
    pub open spec fn key(self) -> StoreKey {
        match self {
            DataKey::Admin => StoreKey::plain("Admin"@),
            DataKey::ContadorSaludos => StoreKey::plain("ContadorSaludos"@),
            DataKey::UltimoSaludo(usuario) => StoreKey::of_user("UltimoSaludo"@, usuario),
        }
    }
}

/// No two keys of the ledger are held by the storage as one.
pub proof fn lemma_keys_differ()
    ensures
        forall|a: DataKey, b: DataKey| #[trigger] a.key() == #[trigger] b.key() ==> a == b,
{
    reveal_strlit("Admin");
    reveal_strlit("ContadorSaludos");
    assert forall|a: DataKey, b: DataKey| #[trigger] a.key() == #[trigger] b.key() implies a
        == b by {
        assert(a.key().name.len() == b.key().name.len());
    }
}

/// What an entry holds.
pub enum Stored {
    /// An unsigned 32-bit number.
    Number(u32),
    /// An address, as its bytes.
    Identity(Seq<u8>),
    /// A string, as its bytes.
    Text(Seq<u8>),
    /// A value of any other kind.
    Other,
}

/// The storage of one contract, as far as keys of this shape reach, with the
/// times to live that the host keeps for it. A time to live counts the ledgers
/// for which an entry stays alive after the current one.
#[verifier::ext_equal]
pub struct Ledger {
    /// The entries of instance storage.
    pub instance: Map<StoreKey, Stored>,
    /// The entries of persistent storage.
    pub persistent: Map<StoreKey, Stored>,
    /// The time to live of the contract instance, which all of instance
    /// storage shares.
    pub instance_ttl: nat,
    /// The time to live of each entry of persistent storage.
    pub persistent_ttl: Map<StoreKey, nat>,
    /// The longest time to live that the network grants.
    pub max_ttl: nat,
    /// The time to live with which a new persistent entry starts.
    pub fresh_ttl: nat,
}

/// The time to live of an entry after an extension was asked for: an entry at
/// or below the threshold is raised to `extend_to`, capped by what the network
/// grants; no entry is ever shortened.
pub open spec fn extended_ttl(ttl: nat, threshold: nat, extend_to: nat, max_ttl: nat) -> nat {
    let target = if extend_to <= max_ttl { extend_to } else { max_ttl };
    if ttl <= threshold && target > ttl {
        target
    } else {
        ttl
    }
}

impl Ledger {
    /// Every entry under one of the ledger's keys holds a value of the kind
    /// that belongs there.
    pub open spec fn well_typed(self) -> bool {
        &&& self.instance.contains_key(DataKey::Admin.key())
            ==> self.instance[DataKey::Admin.key()] is Identity
        &&& self.instance.contains_key(DataKey::ContadorSaludos.key())
            ==> self.instance[DataKey::ContadorSaludos.key()] is Number
        &&& forall|u: Seq<u8>| #[trigger]
            self.persistent.contains_key(DataKey::UltimoSaludo(u).key())
                ==> self.persistent[DataKey::UltimoSaludo(u).key()] is Text
    }

    /// An entry stands under the administrator's key.
    pub open spec fn initialized(self) -> bool {
        self.instance.contains_key(DataKey::Admin.key())
    }

    /// The administrator, if one is stored. An entry that is no address
    /// counts as none.
    pub open spec fn admin(self) -> Option<Seq<u8>> {
        if self.instance.contains_key(DataKey::Admin.key()) {
            match self.instance[DataKey::Admin.key()] {
                Stored::Identity(a) => Some(a),
                _ => None,
            }
        } else {
            None
        }
    }

    /// The number of greetings: zero while none is stored. An entry that is
    /// no number counts as none.
    pub open spec fn contador(self) -> u32 {
        if self.instance.contains_key(DataKey::ContadorSaludos.key()) {
            match self.instance[DataKey::ContadorSaludos.key()] {
                Stored::Number(n) => n,
                _ => 0,
            }
        } else {
            0
        }
    }

    /// The last greeting of a user: empty while none is stored. An entry
    /// that is no string counts as none.
    pub open spec fn ultimo_saludo(self, usuario: Seq<u8>) -> Seq<u8> {
        if self.persistent.contains_key(DataKey::UltimoSaludo(usuario).key()) {
            match self.persistent[DataKey::UltimoSaludo(usuario).key()] {
                Stored::Text(t) => t,
                _ => Seq::empty(),
            }
        } else {
            Seq::empty()
        }
    }

    /// Whether `initialize` is accepted: only while nothing stands under the
    /// administrator's key.
    pub open spec fn initialize_result(self) -> Result<(), Error> {
        if self.initialized() {
            Err(Error::NoInicializado)
        } else {
            Ok(())
        }
    }

    /// The ledger after `initialize` was called with `admin`.
    pub open spec fn after_initialize(self, admin: Seq<u8>) -> Ledger {
        if self.initialize_result() is Ok {
            Ledger {
                instance: self.instance.insert(
                    DataKey::Admin.key(),
                    Stored::Identity(admin),
                ).insert(DataKey::ContadorSaludos.key(), Stored::Number(0)),
                instance_ttl: extended_ttl(
                    self.instance_ttl,
                    TTL_THRESHOLD as nat,
                    TTL_EXTEND_TO as nat,
                    self.max_ttl,
                ),
                ..self
            }
        } else {
            self
        }
    }

    /// Whether `hello` is accepted. The checks stand in the order in which
    /// they are made: the first that fails names the error.
    pub open spec fn hello_result(self, usuario: Seq<u8>, nombre: Seq<u8>) -> Result<(), Error> {
        if nombre.len() == 0 {
            Err(Error::NombreVacio)
        } else if nombre.len() > MAX_NOMBRE {
            Err(Error::NombreMuyLargo)
        } else if self.admin() is None {
            Err(Error::NoInicializado)
        } else if self.admin() != Some(usuario) {
            Err(Error::NoAutorizado)
        } else {
            Ok(())
        }
    }

    /// The counter can take one more greeting.
    pub open spec fn has_room(self) -> bool {
        self.contador() < u32::MAX
    }

    /// Whether `hello` records the greeting: it is accepted, and the counter
    /// has room for it.
    pub open spec fn records_hello(self, usuario: Seq<u8>, nombre: Seq<u8>) -> bool {
        self.hello_result(usuario, nombre) is Ok && self.has_room()
    }

    /// The time to live of a user's greeting: that of the entry, or, where
    /// there is none, the one with which a new entry starts.
    pub open spec fn greeting_ttl(self, usuario: Seq<u8>) -> nat {
        let key = DataKey::UltimoSaludo(usuario).key();
        if self.persistent.contains_key(key) {
            self.persistent_ttl[key]
        } else {
            self.fresh_ttl
        }
    }

    /// The ledger after `hello` was called by `usuario` with `nombre`:
    /// changed only where the greeting is recorded.
    pub open spec fn after_hello(self, usuario: Seq<u8>, nombre: Seq<u8>) -> Ledger {
        if self.records_hello(usuario, nombre) {
            let key = DataKey::UltimoSaludo(usuario).key();
            Ledger {
                instance: self.instance.insert(
                    DataKey::ContadorSaludos.key(),
                    Stored::Number((self.contador() + 1) as u32),
                ),
                persistent: self.persistent.insert(key, Stored::Text(nombre)),
                instance_ttl: extended_ttl(
                    self.instance_ttl,
                    TTL_THRESHOLD as nat,
                    TTL_EXTEND_TO as nat,
                    self.max_ttl,
                ),
                persistent_ttl: self.persistent_ttl.insert(
                    key,
                    extended_ttl(
                        self.greeting_ttl(usuario),
                        TTL_THRESHOLD as nat,
                        TTL_EXTEND_TO as nat,
                        self.max_ttl,
                    ),
                ),
                ..self
            }
        } else {
            self
        }
    }

    /// Whether `reset_contador` is accepted.
    pub open spec fn reset_result(self, caller: Seq<u8>) -> Result<(), Error> {
        if self.admin() is None {
            Err(Error::NoInicializado)
        } else if self.admin() != Some(caller) {
            Err(Error::NoAutorizado)
        } else {
            Ok(())
        }
    }

    /// The ledger after `reset_contador` was called by `caller`.
    pub open spec fn after_reset(self, caller: Seq<u8>) -> Ledger {
        if self.reset_result(caller) is Ok {
            Ledger {
                instance: self.instance.insert(
                    DataKey::ContadorSaludos.key(),
                    Stored::Number(0),
                ),
                ..self
            }
        } else {
            self
        }
    }
}

} // verus!
