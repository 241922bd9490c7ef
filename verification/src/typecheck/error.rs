//! Type errors: one variant per violated typing rule. They are detected
//! before any emission; a unit that fails the checker produces no output.

use vstd::prelude::*;

verus! {

use crate::{Expr, ExprV, Type, TypeV, BinOp, view_expr, view_type, view_types};
use crate::ident::Ident;

/// A violated typing rule, carrying the offending subtree and the types seen.
#[derive(Debug, PartialEq, Eq)]
pub enum Error {
    UnboundVariable(Ident),
    UnmatchLet(Expr, Type),
    UnmatchParamsAndArgs(Expr, Vec<Type>, Vec<Type>),
    ApplyNonFunc(Expr, Type),
    UnmatchIfBranches(Expr, Type, Type),
    UnmatchIfCond(Expr, Type),
    DereferenceNonpointer(Expr),
    AssignToNonpointer(Expr),
    UnmatchAssign(Expr, Type, Type),
    InvalidBinOp(BinOp, Expr, Expr),
    IndexingForNonArray(Expr, Type),
    IndexingWithNonInteger(Expr, Type),
    UnmatchArrayElem(Expr, Type),
    InvalidTupleAccess(Expr, usize),
    IndexingForNonTuple(Expr),
}

/// The mathematical value of a type error.
#[verifier::ext_equal]
pub enum ErrV {
    UnboundVariable(Seq<char>),
    UnmatchLet(ExprV, TypeV),
    UnmatchParamsAndArgs(ExprV, Seq<TypeV>, Seq<TypeV>),
    ApplyNonFunc(ExprV, TypeV),
    UnmatchIfBranches(ExprV, TypeV, TypeV),
    UnmatchIfCond(ExprV, TypeV),
    DereferenceNonpointer(ExprV),
    AssignToNonpointer(ExprV),
    UnmatchAssign(ExprV, TypeV, TypeV),
    InvalidBinOp(BinOp, ExprV, ExprV),
    IndexingForNonArray(ExprV, TypeV),
    IndexingWithNonInteger(ExprV, TypeV),
    UnmatchArrayElem(ExprV, TypeV),
    InvalidTupleAccess(ExprV, usize),
    IndexingForNonTuple(ExprV),
}

impl View for Error {
    type V = ErrV;

    open spec fn view(&self) -> ErrV {
        match self {
            Error::UnboundVariable(n) => ErrV::UnboundVariable(n@),
            Error::UnmatchLet(e, t) => ErrV::UnmatchLet(view_expr(*e), view_type(*t)),
            Error::UnmatchParamsAndArgs(e, ps, ats) => ErrV::UnmatchParamsAndArgs(
                view_expr(*e),
                view_types(ps@),
                view_types(ats@),
            ),
            Error::ApplyNonFunc(e, t) => ErrV::ApplyNonFunc(view_expr(*e), view_type(*t)),
            Error::UnmatchIfBranches(e, t1, t2) => ErrV::UnmatchIfBranches(
                view_expr(*e),
                view_type(*t1),
                view_type(*t2),
            ),
            Error::UnmatchIfCond(e, t) => ErrV::UnmatchIfCond(view_expr(*e), view_type(*t)),
            Error::DereferenceNonpointer(e) => ErrV::DereferenceNonpointer(view_expr(*e)),
            Error::AssignToNonpointer(e) => ErrV::AssignToNonpointer(view_expr(*e)),
            Error::UnmatchAssign(e, t1, t2) => ErrV::UnmatchAssign(
                view_expr(*e),
                view_type(*t1),
                view_type(*t2),
            ),
            Error::InvalidBinOp(op, e1, e2) => ErrV::InvalidBinOp(
                *op,
                view_expr(*e1),
                view_expr(*e2),
            ),
            Error::IndexingForNonArray(e, t) => ErrV::IndexingForNonArray(
                view_expr(*e),
                view_type(*t),
            ),
            Error::IndexingWithNonInteger(e, t) => ErrV::IndexingWithNonInteger(
                view_expr(*e),
                view_type(*t),
            ),
            Error::UnmatchArrayElem(e, t) => ErrV::UnmatchArrayElem(view_expr(*e), view_type(*t)),
            Error::InvalidTupleAccess(e, k) => ErrV::InvalidTupleAccess(view_expr(*e), *k),
            Error::IndexingForNonTuple(e) => ErrV::IndexingForNonTuple(view_expr(*e)),
        }
    }
}

} // verus!
