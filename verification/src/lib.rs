//! The back half of a small compiler for a tree-shaped intermediate language
//! ("Normalized Form", NF): a static type checker and a code generator that
//! lowers NF into a basic-block-and-phi SSA module representation, ready to be
//! replayed into a native backend by an unverified shell.
//!
//! The data model lives here; the checker is in [`typecheck`], the code
//! generator in [`codegen`], and the shared scoped environment in [`env`].

use vstd::prelude::*;

pub mod codegen;
pub mod env;
pub mod error;
pub mod ident;
pub mod subst;
pub mod typecheck;

verus! {

use crate::ident::Ident;

/// A whole compilation unit: its functions and the entry-point expression.
///
/// `body` is implicitly the program entry point; the generator wraps it in a
/// synthetic `main` returning `Int`.
#[derive(Debug, PartialEq, Eq)]
pub struct Nf {
    pub funcs: Vec<Func>,
    pub body: Expr,
}

/// A top-level function definition.
#[derive(Debug, PartialEq, Eq)]
pub struct Func {
    pub name: Ident,
    pub params: Vec<(Ident, Type)>,
    pub ret_type: Type,
    pub body: Expr,
}

/// NF expressions.
#[derive(Debug, PartialEq, Eq)]
pub enum Expr {
    Const(Literal),
    Let(Ident, Type, Box<Expr>, Box<Expr>),
    Var(Ident),
    Load(Box<Expr>),
    Assign(Box<Expr>, Box<Expr>),
    Call(Box<Expr>, Vec<Expr>),
    If(Box<Expr>, Box<Expr>, Box<Expr>),
    BinOp(BinOp, Box<Expr>, Box<Expr>),
    ArrayAt(Box<Expr>, Box<Expr>),
    TupleAt(Box<Expr>, usize),
    PrintNum(Box<Expr>),
}

/// NF literals.
#[derive(Debug, PartialEq, Eq)]
pub enum Literal {
    Bool(bool),
    Char(char),
    Int(i32),
    Array(Vec<Expr>, Type),
    Tuple(Vec<Expr>),
    ExternalFunc(String, Type),
}

/// Binary operators; all arithmetic is signed 32-bit.
#[derive(Debug, Clone, Copy, PartialEq, Eq, Structural)]
pub enum BinOp {
    Add,
    Sub,
    Mult,
    Div,
    Eq,
    Neq,
    Lt,
    Gt,
    Leq,
    Geq,
}

/// NF types. `Pointer` is synthesized by the checker, never written by a
/// user-facing literal.
#[derive(Debug, PartialEq, Eq)]
pub enum Type {
    Void,
    Bool,
    Char,
    Int,
    Func(Vec<Type>, Box<Type>),
    Array(Box<Type>, usize),
    Pointer(Box<Type>),
    Tuple(Vec<Type>),
}

/// A whole compilation, mirrored: checking is admission control — a unit it
/// rejects produces nothing — and an admitted unit is lowered to the module
/// `sp_gen` gives, with each failure keeping its own family.
pub open spec fn sp_codegen(nf: NfV, name: Seq<char>) -> Result<
    codegen::base::ModuleV,
    error::TopErrV,
> {
    match typecheck::sp_check(nf) {
        Err(te) => Err(error::TopErrV::Typecheck(te)),
        Ok(_) => match codegen::sp_gen(nf, name) {
            Ok(m) => Ok(m),
            Err(ce) => Err(error::TopErrV::Codegen(ce)),
        },
    }
}

impl Nf {
    /// Checks the unit and, if it is admitted, lowers it to a finished module
    /// named `name`; the unverified shell validates and prints that module.
    pub fn codegen(&self, name: &str) -> (r: Result<codegen::base::Module, error::Error>)
        ensures
            match r {
                Ok(m) => sp_codegen(self@, name@) == Ok::<codegen::base::ModuleV, error::TopErrV>(
                    m@,
                ),
                Err(er) => sp_codegen(self@, name@) == Err::<
                    codegen::base::ModuleV,
                    error::TopErrV,
                >(er@),
            },
    {
        match typecheck::check(self) {
            Err(e) => Err(error::Error::Typecheck(e)),
            Ok(_) => match codegen::gen(self, name) {
                Ok(m) => Ok(m),
                Err(e) => Err(error::Error::Codegen(e)),
            },
        }
    }
}

// ---------------------------------------------------------------------------
// Mathematical views of the data model. Contracts throughout the crate are
// stated over these, so that structurally equal trees are equal values.
// ---------------------------------------------------------------------------

#[verifier::ext_equal]
pub enum TypeV {
    Void,
    Bool,
    Char,
    Int,
    Func(Seq<TypeV>, Box<TypeV>),
    Array(Box<TypeV>, usize),
    Pointer(Box<TypeV>),
    Tuple(Seq<TypeV>),
}

#[verifier::ext_equal]
pub enum LitV {
    Bool(bool),
    Char(char),
    Int(i32),
    Array(Seq<ExprV>, TypeV),
    Tuple(Seq<ExprV>),
    ExternalFunc(Seq<char>, TypeV),
}

#[verifier::ext_equal]
pub enum ExprV {
    Const(LitV),
    Let(Seq<char>, TypeV, Box<ExprV>, Box<ExprV>),
    Var(Seq<char>),
    Load(Box<ExprV>),
    Assign(Box<ExprV>, Box<ExprV>),
    Call(Box<ExprV>, Seq<ExprV>),
    If(Box<ExprV>, Box<ExprV>, Box<ExprV>),
    BinOp(BinOp, Box<ExprV>, Box<ExprV>),
    ArrayAt(Box<ExprV>, Box<ExprV>),
    TupleAt(Box<ExprV>, usize),
    PrintNum(Box<ExprV>),
}

#[verifier::ext_equal]
pub struct FuncV {
    pub name: Seq<char>,
    pub params: Seq<(Seq<char>, TypeV)>,
    pub ret_type: TypeV,
    pub body: ExprV,
}

#[verifier::ext_equal]
pub struct NfV {
    pub funcs: Seq<FuncV>,
    pub body: ExprV,
}

pub open spec fn view_type(t: Type) -> TypeV
    decreases t,
{
    match t {
        Type::Void => TypeV::Void,
        Type::Bool => TypeV::Bool,
        Type::Char => TypeV::Char,
        Type::Int => TypeV::Int,
        Type::Func(ps, r) => TypeV::Func(view_types(ps@), Box::new(view_type(*r))),
        Type::Array(e, n) => TypeV::Array(Box::new(view_type(*e)), n),
        Type::Pointer(p) => TypeV::Pointer(Box::new(view_type(*p))),
        Type::Tuple(es) => TypeV::Tuple(view_types(es@)),
    }
}

pub open spec fn view_types(ts: Seq<Type>) -> Seq<TypeV>
    decreases ts,
{
    Seq::new(
        ts.len(),
        |i: int| if 0 <= i < ts.len() {
            view_type(ts[i])
        } else {
            TypeV::Void
        },
    )
}

impl View for Type {
    type V = TypeV;

    open spec fn view(&self) -> TypeV {
        view_type(*self)
    }
}

pub open spec fn view_expr(e: Expr) -> ExprV
    decreases e,
{
    match e {
        Expr::Const(l) => ExprV::Const(view_lit(l)),
        Expr::Let(n, t, e1, e2) => ExprV::Let(
            n@,
            view_type(t),
            Box::new(view_expr(*e1)),
            Box::new(view_expr(*e2)),
        ),
        Expr::Var(n) => ExprV::Var(n@),
        Expr::Load(e1) => ExprV::Load(Box::new(view_expr(*e1))),
        Expr::Assign(e1, e2) => ExprV::Assign(
            Box::new(view_expr(*e1)),
            Box::new(view_expr(*e2)),
        ),
        Expr::Call(f, args) => ExprV::Call(Box::new(view_expr(*f)), view_exprs(args@)),
        Expr::If(c, e1, e2) => ExprV::If(
            Box::new(view_expr(*c)),
            Box::new(view_expr(*e1)),
            Box::new(view_expr(*e2)),
        ),
        Expr::BinOp(op, e1, e2) => ExprV::BinOp(
            op,
            Box::new(view_expr(*e1)),
            Box::new(view_expr(*e2)),
        ),
        Expr::ArrayAt(a, i) => ExprV::ArrayAt(
            Box::new(view_expr(*a)),
            Box::new(view_expr(*i)),
        ),
        Expr::TupleAt(e1, k) => ExprV::TupleAt(Box::new(view_expr(*e1)), k),
        Expr::PrintNum(e1) => ExprV::PrintNum(Box::new(view_expr(*e1))),
    }
}

pub open spec fn view_exprs(es: Seq<Expr>) -> Seq<ExprV>
    decreases es,
{
    Seq::new(
        es.len(),
        |i: int| if 0 <= i < es.len() {
            view_expr(es[i])
        } else {
            ExprV::Var(Seq::empty())
        },
    )
}

pub open spec fn view_lit(l: Literal) -> LitV
    decreases l,
{
    match l {
        Literal::Bool(b) => LitV::Bool(b),
        Literal::Char(c) => LitV::Char(c),
        Literal::Int(n) => LitV::Int(n),
        Literal::Array(es, t) => LitV::Array(view_exprs(es@), view_type(t)),
        Literal::Tuple(es) => LitV::Tuple(view_exprs(es@)),
        Literal::ExternalFunc(n, t) => LitV::ExternalFunc(n@, view_type(t)),
    }
}

impl View for Expr {
    type V = ExprV;

    open spec fn view(&self) -> ExprV {
        view_expr(*self)
    }
}

impl View for Literal {
    type V = LitV;

    open spec fn view(&self) -> LitV {
        view_lit(*self)
    }
}

pub open spec fn view_params(ps: Seq<(Ident, Type)>) -> Seq<(Seq<char>, TypeV)> {
    Seq::new(ps.len(), |i: int| (ps[i].0@, view_type(ps[i].1)))
}

impl View for Func {
    type V = FuncV;

    open spec fn view(&self) -> FuncV {
        FuncV {
            name: self.name@,
            params: view_params(self.params@),
            ret_type: view_type(self.ret_type),
            body: view_expr(self.body),
        }
    }
}

pub open spec fn view_funcs(fs: Seq<Func>) -> Seq<FuncV> {
    Seq::new(fs.len(), |i: int| fs[i]@)
}

impl View for Nf {
    type V = NfV;

    open spec fn view(&self) -> NfV {
        NfV { funcs: view_funcs(self.funcs@), body: view_expr(self.body) }
    }
}

// ---------------------------------------------------------------------------
// Value-preserving duplication, used wherever the original structure must be
// kept alive (persistent environments, error payloads).
// ---------------------------------------------------------------------------

/// A type whose values can be duplicated without changing their view.
pub trait Dup: View + Sized {
    fn dup(&self) -> (r: Self)
        ensures
            r@ == self@,
    ;
}

impl Dup for Type {
    fn dup(&self) -> (r: Self)
        ensures
            r@ == self@,
        decreases self,
    {
        match self {
            Type::Void => Type::Void,
            Type::Bool => Type::Bool,
            Type::Char => Type::Char,
            Type::Int => Type::Int,
            Type::Func(ps, r) => {
                let ps2 = dup_types(ps);
                Type::Func(ps2, Box::new((**r).dup()))
            }
            Type::Array(e, n) => Type::Array(Box::new((**e).dup()), *n),
            Type::Pointer(p) => Type::Pointer(Box::new((**p).dup())),
            Type::Tuple(es) => Type::Tuple(dup_types(es)),
        }
    }
}

/// Duplicates a list of types, preserving the view of every element.
pub fn dup_types(ts: &Vec<Type>) -> (r: Vec<Type>)
    ensures
        view_types(r@) == view_types(ts@),
    decreases ts,
{
    let mut out: Vec<Type> = Vec::new();
    let mut i: usize = 0;
    while i < ts.len()
        invariant
            i <= ts.len(),
            out@.len() == i,
            forall|j: int| 0 <= j < i ==> view_type(out@[j]) == view_type(ts@[j]),
        decreases ts.len() - i,
    {
        out.push(ts[i].dup());
        i = i + 1;
    }
    proof {
        assert(view_types(out@) =~= view_types(ts@));
    }
    out
}

impl Dup for Expr {
    fn dup(&self) -> (r: Self)
        ensures
            r@ == self@,
        decreases self,
    {
        match self {
            Expr::Const(l) => Expr::Const(l.dup()),
            Expr::Let(n, t, e1, e2) => Expr::Let(
                n.dup(),
                t.dup(),
                Box::new((**e1).dup()),
                Box::new((**e2).dup()),
            ),
            Expr::Var(n) => Expr::Var(n.dup()),
            Expr::Load(e1) => Expr::Load(Box::new((**e1).dup())),
            Expr::Assign(e1, e2) => Expr::Assign(
                Box::new((**e1).dup()),
                Box::new((**e2).dup()),
            ),
            Expr::Call(f, args) => Expr::Call(Box::new((**f).dup()), dup_exprs(args)),
            Expr::If(c, e1, e2) => Expr::If(
                Box::new((**c).dup()),
                Box::new((**e1).dup()),
                Box::new((**e2).dup()),
            ),
            Expr::BinOp(op, e1, e2) => Expr::BinOp(
                *op,
                Box::new((**e1).dup()),
                Box::new((**e2).dup()),
            ),
            Expr::ArrayAt(a, i) => Expr::ArrayAt(
                Box::new((**a).dup()),
                Box::new((**i).dup()),
            ),
            Expr::TupleAt(e1, k) => Expr::TupleAt(Box::new((**e1).dup()), *k),
            Expr::PrintNum(e1) => Expr::PrintNum(Box::new((**e1).dup())),
        }
    }
}

impl Dup for Literal {
    fn dup(&self) -> (r: Self)
        ensures
            r@ == self@,
        decreases self,
    {
        match self {
            Literal::Bool(b) => Literal::Bool(*b),
            Literal::Char(c) => Literal::Char(*c),
            Literal::Int(n) => Literal::Int(*n),
            Literal::Array(es, t) => Literal::Array(dup_exprs(es), t.dup()),
            Literal::Tuple(es) => Literal::Tuple(dup_exprs(es)),
            Literal::ExternalFunc(n, t) => Literal::ExternalFunc(n.clone(), t.dup()),
        }
    }
}

/// Duplicates a list of expressions, preserving the view of every element.
pub fn dup_exprs(es: &Vec<Expr>) -> (r: Vec<Expr>)
    ensures
        view_exprs(r@) == view_exprs(es@),
    decreases es,
{
    let mut out: Vec<Expr> = Vec::new();
    let mut i: usize = 0;
    while i < es.len()
        invariant
            i <= es.len(),
            out@.len() == i,
            forall|j: int| 0 <= j < i ==> view_expr(out@[j]) == view_expr(es@[j]),
        decreases es.len() - i,
    {
        out.push(es[i].dup());
        i = i + 1;
    }
    proof {
        assert(view_exprs(out@) =~= view_exprs(es@));
    }
    out
}

/// Structural equality of types, decided executably: true exactly when the
/// two views are the same mathematical value.
pub fn type_eq(a: &Type, b: &Type) -> (r: bool)
    ensures
        r == (a@ == b@),
    decreases a,
{
    match (a, b) {
        (Type::Void, Type::Void) => true,
        (Type::Bool, Type::Bool) => true,
        (Type::Char, Type::Char) => true,
        (Type::Int, Type::Int) => true,
        (Type::Func(ps1, r1), Type::Func(ps2, r2)) => types_eq(ps1, ps2) && type_eq(r1, r2),
        (Type::Array(e1, n1), Type::Array(e2, n2)) => *n1 == *n2 && type_eq(e1, e2),
        (Type::Pointer(p1), Type::Pointer(p2)) => type_eq(p1, p2),
        (Type::Tuple(t1), Type::Tuple(t2)) => types_eq(t1, t2),
        _ => false,
    }
}

/// Pointwise structural equality of two type lists.
pub fn types_eq(xs: &Vec<Type>, ys: &Vec<Type>) -> (r: bool)
    ensures
        r == (view_types(xs@) == view_types(ys@)),
    decreases xs,
{
    if xs.len() != ys.len() {
        proof {
            assert(view_types(xs@).len() != view_types(ys@).len());
        }
        return false;
    }
    let mut i: usize = 0;
    while i < xs.len()
        invariant
            i <= xs.len(),
            xs@.len() == ys@.len(),
            forall|j: int| 0 <= j < i ==> view_type(xs@[j]) == view_type(ys@[j]),
        decreases xs.len() - i,
    {
        if !type_eq(&xs[i], &ys[i]) {
            proof {
                assert(view_types(xs@)[i as int] != view_types(ys@)[i as int]);
            }
            return false;
        }
        i = i + 1;
    }
    proof {
        assert(view_types(xs@) =~= view_types(ys@));
    }
    true
}

} // verus!
