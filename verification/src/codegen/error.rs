//! Code-generation errors, disjoint from type errors.
//!
//! `Internal` signals a checker/generator inconsistency (an invariant that
//! holds after successful type checking was violated), `Validation` carries
//! the structural verifier's message, and `Io` a failed output sink; the
//! latter two arise only in the unverified shell around the library.

use vstd::prelude::*;

verus! {

/// A code-generation failure, returned as a value and terminal for the unit.
#[derive(Debug, PartialEq, Eq)]
pub enum Error {
    Internal(String),
    Validation(String),
    Io(String),
}

/// The mathematical value of a code-generation error.
#[verifier::ext_equal]
pub enum CErrV {
    Internal(Seq<char>),
    Validation(Seq<char>),
    Io(Seq<char>),
}

impl View for Error {
    type V = CErrV;

    open spec fn view(&self) -> CErrV {
        match self {
            Error::Internal(m) => CErrV::Internal(m@),
            Error::Validation(m) => CErrV::Validation(m@),
            Error::Io(m) => CErrV::Io(m@),
        }
    }
}

} // verus!
