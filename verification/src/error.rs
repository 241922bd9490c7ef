//! The crate-level error: the two disjoint families (type errors and
//! code-generation errors), never coerced into one another, plus a catch-all
//! for callers' own messages.

use vstd::prelude::*;

verus! {

use crate::typecheck;
use crate::codegen;

/// What a whole compilation can fail with.
#[derive(Debug, PartialEq, Eq)]
pub enum Error {
    Typecheck(typecheck::error::Error),
    Codegen(codegen::error::Error),
    Others(String),
}

/// The mathematical value of a compilation error.
#[verifier::ext_equal]
pub enum TopErrV {
    Typecheck(typecheck::error::ErrV),
    Codegen(codegen::error::CErrV),
    Others(Seq<char>),
}

impl View for Error {
    type V = TopErrV;

    open spec fn view(&self) -> TopErrV {
        match self {
            Error::Typecheck(e) => TopErrV::Typecheck(e@),
            Error::Codegen(e) => TopErrV::Codegen(e@),
            Error::Others(m) => TopErrV::Others(m@),
        }
    }
}

impl From<typecheck::error::Error> for Error {
    fn from(e: typecheck::error::Error) -> (r: Self) {
        Error::Typecheck(e)
    }
}

impl vstd::std_specs::convert::FromSpecImpl<typecheck::error::Error> for Error {
    open spec fn obeys_from_spec() -> bool {
        true
    }

    open spec fn from_spec(e: typecheck::error::Error) -> Self {
        Error::Typecheck(e)
    }
}

impl From<codegen::error::Error> for Error {
    fn from(e: codegen::error::Error) -> (r: Self) {
        Error::Codegen(e)
    }
}

impl vstd::std_specs::convert::FromSpecImpl<codegen::error::Error> for Error {
    open spec fn obeys_from_spec() -> bool {
        true
    }

    open spec fn from_spec(e: codegen::error::Error) -> Self {
        Error::Codegen(e)
    }
}

} // verus!
