use vstd::prelude::*;

verus! {

/// The reasons for which an operation is refused.
#[derive(Copy, Clone, Debug, PartialEq, Eq, Structural)]
pub enum Error {
    /// The name of a greeting is empty.
    NombreVacio,
    /// The name of a greeting is longer than [`crate::ledger::MAX_NOMBRE`] bytes.
    NombreMuyLargo,
    /// The caller is not the administrator.
    NoAutorizado,
    /// The ledger has no administrator yet; also returned when it is
    /// initialized a second time.
    NoInicializado,
}

impl Error {
    /// The number of each error: 1 to 4, in the order of the variants.
    pub open spec fn spec_code(self) -> u32 {
        match self {
            Error::NombreVacio => 1,
            Error::NombreMuyLargo => 2,
            Error::NoAutorizado => 3,
            Error::NoInicializado => 4,
        }
    }

    /// The number under which the host reports the error.
    #[verifier::when_used_as_spec(spec_code)]
    pub fn code(self) -> (c: u32)
        ensures
            c == self.spec_code(),
    {
        match self {
            Error::NombreVacio => 1,
            Error::NombreMuyLargo => 2,
            Error::NoAutorizado => 3,
            Error::NoInicializado => 4,
        }
    }

    /// The error that a code stands for, if it stands for one.
    pub fn from_code(c: u32) -> (r: Option<Error>)
        ensures
            match r {
                Some(e) => e.spec_code() == c,
                None => forall|e: Error| e.spec_code() != c,
            },
    {
        if c == 1 {
            Some(Error::NombreVacio)
        } else if c == 2 {
            Some(Error::NombreMuyLargo)
        } else if c == 3 {
            Some(Error::NoAutorizado)
        } else if c == 4 {
            Some(Error::NoInicializado)
        } else {
            None
        }
    }
}

} // verus!
