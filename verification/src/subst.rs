//! Name-for-expression substitution over NF trees, used by auxiliary passes.
//!
//! Substitution stops at a `Let` that rebinds the substituted name: that
//! whole subtree is left untouched, so only free occurrences are replaced.

use vstd::prelude::*;

verus! {

use crate::{Expr, ExprV, Literal, LitV, Func, FuncV, Dup};
use crate::{view_expr, view_exprs};
use crate::ident::Ident;

/// Capture-stopping substitution of `r` for free occurrences of `n` in `x`.
pub open spec fn sp_subst(x: ExprV, n: Seq<char>, r: ExprV) -> ExprV
    decreases x,
{
    match x {
        ExprV::Const(l) => ExprV::Const(sp_subst_lit(l, n, r)),
        ExprV::Let(m, t, e1, e2) => if m == n {
            ExprV::Let(m, t, e1, e2)
        } else {
            ExprV::Let(
                m,
                t,
                Box::new(sp_subst(*e1, n, r)),
                Box::new(sp_subst(*e2, n, r)),
            )
        },
        ExprV::Var(m) => if m == n {
            r
        } else {
            ExprV::Var(m)
        },
        ExprV::Load(e1) => ExprV::Load(Box::new(sp_subst(*e1, n, r))),
        ExprV::Assign(e1, e2) => ExprV::Assign(
            Box::new(sp_subst(*e1, n, r)),
            Box::new(sp_subst(*e2, n, r)),
        ),
        ExprV::Call(f, args) => ExprV::Call(
            Box::new(sp_subst(*f, n, r)),
            sp_subst_list(args, n, r),
        ),
        ExprV::If(c, e1, e2) => ExprV::If(
            Box::new(sp_subst(*c, n, r)),
            Box::new(sp_subst(*e1, n, r)),
            Box::new(sp_subst(*e2, n, r)),
        ),
        ExprV::BinOp(op, e1, e2) => ExprV::BinOp(
            op,
            Box::new(sp_subst(*e1, n, r)),
            Box::new(sp_subst(*e2, n, r)),
        ),
        ExprV::ArrayAt(a, i) => ExprV::ArrayAt(
            Box::new(sp_subst(*a, n, r)),
            Box::new(sp_subst(*i, n, r)),
        ),
        ExprV::TupleAt(e1, k) => ExprV::TupleAt(Box::new(sp_subst(*e1, n, r)), k),
        ExprV::PrintNum(e1) => ExprV::PrintNum(Box::new(sp_subst(*e1, n, r))),
    }
}

/// Substitution inside a literal: scalar and external-function literals are
/// left as they are; composite literals substitute elementwise.
pub open spec fn sp_subst_lit(l: LitV, n: Seq<char>, r: ExprV) -> LitV
    decreases l,
{
    match l {
        LitV::Bool(b) => LitV::Bool(b),
        LitV::Char(c) => LitV::Char(c),
        LitV::Int(i) => LitV::Int(i),
        LitV::Array(es, t) => LitV::Array(sp_subst_list(es, n, r), t),
        LitV::Tuple(es) => LitV::Tuple(sp_subst_list(es, n, r)),
        LitV::ExternalFunc(m, t) => LitV::ExternalFunc(m, t),
    }
}

pub open spec fn sp_subst_list(es: Seq<ExprV>, n: Seq<char>, r: ExprV) -> Seq<ExprV>
    decreases es,
{
    Seq::new(
        es.len(),
        |i: int| if 0 <= i < es.len() {
            sp_subst(es[i], n, r)
        } else {
            ExprV::Var(Seq::empty())
        },
    )
}

/// Substitution over a borrowed tree, producing a fresh one.
fn subst_ref(x: &Expr, name: &Ident, r: &Expr) -> (res: Expr)
    ensures
        res@ == sp_subst(x@, name@, r@),
    decreases x,
{
    match x {
        Expr::Const(l) => Expr::Const(subst_lit_ref(l, name, r)),
        Expr::Let(m, t, e1, e2) => {
            if m == name {
                Expr::Let(
                    m.dup(),
                    t.dup(),
                    Box::new((**e1).dup()),
                    Box::new((**e2).dup()),
                )
            } else {
                Expr::Let(
                    m.dup(),
                    t.dup(),
                    Box::new(subst_ref(e1, name, r)),
                    Box::new(subst_ref(e2, name, r)),
                )
            }
        }
        Expr::Var(m) => {
            if m == name {
                r.dup()
            } else {
                Expr::Var(m.dup())
            }
        }
        Expr::Load(e1) => Expr::Load(Box::new(subst_ref(e1, name, r))),
        Expr::Assign(e1, e2) => Expr::Assign(
            Box::new(subst_ref(e1, name, r)),
            Box::new(subst_ref(e2, name, r)),
        ),
        Expr::Call(f, args) => Expr::Call(
            Box::new(subst_ref(f, name, r)),
            subst_list(args, name, r),
        ),
        Expr::If(c, e1, e2) => Expr::If(
            Box::new(subst_ref(c, name, r)),
            Box::new(subst_ref(e1, name, r)),
            Box::new(subst_ref(e2, name, r)),
        ),
        Expr::BinOp(op, e1, e2) => Expr::BinOp(
            *op,
            Box::new(subst_ref(e1, name, r)),
            Box::new(subst_ref(e2, name, r)),
        ),
        Expr::ArrayAt(a, i) => Expr::ArrayAt(
            Box::new(subst_ref(a, name, r)),
            Box::new(subst_ref(i, name, r)),
        ),
        Expr::TupleAt(e1, k) => Expr::TupleAt(Box::new(subst_ref(e1, name, r)), *k),
        Expr::PrintNum(e1) => Expr::PrintNum(Box::new(subst_ref(e1, name, r))),
    }
}

/// Substitution inside one literal, by reference.
fn subst_lit_ref(l: &Literal, name: &Ident, r: &Expr) -> (res: Literal)
    ensures
        res@ == sp_subst_lit(l@, name@, r@),
    decreases l,
{
    match l {
        Literal::Bool(b) => Literal::Bool(*b),
        Literal::Char(c) => Literal::Char(*c),
        Literal::Int(i) => Literal::Int(*i),
        Literal::Array(es, t) => {
            proof {
                assert(decreases_to!((*l) => (*l)->Array_0));
                assert((*l)->Array_0 == *es);
            }
            Literal::Array(subst_list(es, name, r), t.dup())
        }
        Literal::Tuple(es) => {
            proof {
                assert(decreases_to!((*l) => (*l)->Tuple_0));
                assert((*l)->Tuple_0 == *es);
            }
            Literal::Tuple(subst_list(es, name, r))
        }
        Literal::ExternalFunc(m, t) => Literal::ExternalFunc(m.clone(), t.dup()),
    }
}

/// Elementwise substitution over a list.
#[verifier::loop_isolation(false)]
fn subst_list(es: &Vec<Expr>, name: &Ident, r: &Expr) -> (res: Vec<Expr>)
    ensures
        view_exprs(res@) == sp_subst_list(view_exprs(es@), name@, r@),
    decreases es,
{
    let mut out: Vec<Expr> = Vec::new();
    let mut i: usize = 0;
    while i < es.len()
        invariant
            i <= es.len(),
            out@.len() == i,
            forall|j: int| 0 <= j < i ==> view_expr(out@[j]) == sp_subst(
                view_expr(es@[j]),
                name@,
                r@,
            ),
        decreases es.len() - i,
    {
        proof {
            assert(decreases_to!((*es) => (*es)@));
            assert(decreases_to!((*es)@ => (*es)@[i as int]));
        }
        out.push(subst_ref(&es[i], name, r));
        i = i + 1;
    }
    proof {
        assert(view_exprs(out@) =~= sp_subst_list(view_exprs(es@), name@, r@));
    }
    out
}

impl Expr {
    /// Replaces every free occurrence of `name` in `self` with `e`.
    pub fn subst_expr(self, name: &Ident, e: &Expr) -> (r: Expr)
        ensures
            r@ == sp_subst(self@, name@, e@),
    {
        subst_ref(&self, name, e)
    }
}

impl Func {
    /// Substitutes inside the function's body; everything else is untouched.
    pub fn subst_expr(self, name: &Ident, e: &Expr) -> (r: Func)
        ensures
            r@ == (FuncV { body: sp_subst(self@.body, name@, e@), ..self@ }),
    {
        let ghost sv = self@;
        let Func { name: fname, params, ret_type, body } = self;
        let nb = body.subst_expr(name, e);
        let r = Func { name: fname, params, ret_type, body: nb };
        proof {
            assert(r@ =~~= (FuncV { body: sp_subst(sv.body, name@, e@), ..sv }));
        }
        r
    }
}

} // verus!
