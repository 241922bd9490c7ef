//! The static type checker: admission control for a compilation unit.
//!
//! `check` is two-pass: it first binds every function name to its function
//! type in a module-level environment (so functions may refer to one another
//! in any order), then checks each function body under its parameters, and
//! finally checks the top-level body in the fully populated environment; the
//! overall result is the inferred type of that body.
//!
//! Every rule is mirrored by a spec function (`sp_check`, `sp_check_expr`,
//! `sp_check_lit`), and the executable checker is proved to return exactly
//! the mirrored result: the well-typed units are admitted with the body's
//! type, and each violation yields its own error value.

pub mod error;

use vstd::prelude::*;

verus! {

use crate::{Expr, ExprV, Literal, LitV, Type, TypeV, BinOp, Func, FuncV, Nf, Dup};
use crate::{view_expr, view_exprs, view_type, view_types, view_params, view_funcs, type_eq, types_eq};
use crate::env::{Env, env_lookup};
use crate::ident::Ident;
use error::{Error, ErrV};

/// A type environment: names bound to types, most recent last.
pub type TEnv = Seq<(Seq<char>, TypeV)>;

/// What a `Var` lookup yields: an aggregate is its address already, anything
/// else is wrapped as the address of the binding's slot.
pub open spec fn sp_wrap_var(t: TypeV) -> TypeV {
    match t {
        TypeV::Array(_, _) => t,
        TypeV::Tuple(_) => t,
        _ => TypeV::Pointer(Box::new(t)),
    }
}

/// The fixed operator table: arithmetic needs `(Int, Int)` and yields `Int`;
/// comparisons need `(Int, Int)` and yield `Bool`; `Eq`/`Neq` also accept
/// `(Bool, Bool)`.
pub open spec fn sp_binop_type(op: BinOp, t1: TypeV, t2: TypeV) -> Option<TypeV> {
    if t1 == TypeV::Int && t2 == TypeV::Int {
        match op {
            BinOp::Add => Some(TypeV::Int),
            BinOp::Sub => Some(TypeV::Int),
            BinOp::Mult => Some(TypeV::Int),
            BinOp::Div => Some(TypeV::Int),
            _ => Some(TypeV::Bool),
        }
    } else if t1 == TypeV::Bool && t2 == TypeV::Bool {
        match op {
            BinOp::Eq => Some(TypeV::Bool),
            BinOp::Neq => Some(TypeV::Bool),
            _ => None,
        }
    } else {
        None
    }
}

/// The typing rules, one arm per expression form.
///
/// The `Assign` rule is settled here once: the target must be an address
/// (`Pointer(T)`), the stored value must have `T`, and the whole expression
/// has the target's own type `Pointer(T)` — exactly the value the generator
/// produces for it, which is the target address.
pub open spec fn sp_check_expr(e: ExprV, env: TEnv) -> Result<TypeV, ErrV>
    decreases e,
{
    match e {
        ExprV::Const(l) => sp_check_lit(l, env),
        ExprV::Let(n, t, e1, e2) => match sp_check_expr(*e1, env) {
            Ok(t1) => if t1 == t {
                sp_check_expr(*e2, env.push((n, t1)))
            } else {
                Err(ErrV::UnmatchLet(*e1, t1))
            },
            Err(er) => Err(er),
        },
        ExprV::Var(n) => match env_lookup(env, n) {
            Some(t) => Ok(sp_wrap_var(t)),
            None => Err(ErrV::UnboundVariable(n)),
        },
        ExprV::Load(e1) => match sp_check_expr(*e1, env) {
            Ok(t) => match t {
                TypeV::Pointer(inner) => Ok(*inner),
                _ => Err(ErrV::DereferenceNonpointer(*e1)),
            },
            Err(er) => Err(er),
        },
        ExprV::Assign(e1, e2) => match sp_check_expr(*e1, env) {
            Ok(lt) => match lt {
                TypeV::Pointer(inner) => match sp_check_expr(*e2, env) {
                    Ok(rt) => if rt == *inner {
                        Ok(TypeV::Pointer(inner))
                    } else {
                        Err(ErrV::UnmatchAssign(*e2, *inner, rt))
                    },
                    Err(er) => Err(er),
                },
                _ => Err(ErrV::AssignToNonpointer(*e1)),
            },
            Err(er) => Err(er),
        },
        ExprV::Call(f, args) => match sp_check_expr(*f, env) {
            Ok(ft) => match ft {
                TypeV::Pointer(inner) => match *inner {
                    TypeV::Func(ps, r) => match sp_check_args(args, env) {
                        Ok(ats) => if ps == ats {
                            Ok(*r)
                        } else {
                            Err(ErrV::UnmatchParamsAndArgs(*f, ps, ats))
                        },
                        Err(er) => Err(er),
                    },
                    _ => Err(ErrV::ApplyNonFunc(*f, ft)),
                },
                _ => Err(ErrV::ApplyNonFunc(*f, ft)),
            },
            Err(er) => Err(er),
        },
        ExprV::If(c, e1, e2) => match sp_check_expr(*c, env) {
            Ok(ct) => if ct != TypeV::Bool {
                Err(ErrV::UnmatchIfCond(*c, ct))
            } else {
                match sp_check_expr(*e1, env) {
                    Ok(t1) => match sp_check_expr(*e2, env) {
                        Ok(t2) => if t1 == t2 {
                            Ok(t1)
                        } else {
                            Err(ErrV::UnmatchIfBranches(ExprV::If(c, e1, e2), t1, t2))
                        },
                        Err(er) => Err(er),
                    },
                    Err(er) => Err(er),
                }
            },
            Err(er) => Err(er),
        },
        ExprV::BinOp(op, e1, e2) => match sp_check_expr(*e1, env) {
            Ok(t1) => match sp_check_expr(*e2, env) {
                Ok(t2) => match sp_binop_type(op, t1, t2) {
                    Some(t) => Ok(t),
                    None => Err(ErrV::InvalidBinOp(op, *e1, *e2)),
                },
                Err(er) => Err(er),
            },
            Err(er) => Err(er),
        },
        ExprV::ArrayAt(a, i) => match sp_check_expr(*a, env) {
            Ok(at) => match sp_check_expr(*i, env) {
                Ok(it) => if it == TypeV::Int {
                    match at {
                        TypeV::Array(elem, _) => Ok(TypeV::Pointer(elem)),
                        _ => Err(ErrV::IndexingForNonArray(*a, at)),
                    }
                } else {
                    Err(ErrV::IndexingWithNonInteger(*i, it))
                },
                Err(er) => Err(er),
            },
            Err(er) => Err(er),
        },
        ExprV::TupleAt(e1, k) => match sp_check_expr(*e1, env) {
            Ok(t) => match t {
                TypeV::Tuple(es) => if k < es.len() {
                    Ok(TypeV::Pointer(Box::new(es[k as int])))
                } else {
                    Err(ErrV::InvalidTupleAccess(*e1, k))
                },
                _ => Err(ErrV::IndexingForNonTuple(*e1)),
            },
            Err(er) => Err(er),
        },
        ExprV::PrintNum(e1) => match sp_check_expr(*e1, env) {
            Ok(_) => Ok(TypeV::Void),
            Err(er) => Err(er),
        },
    }
}

/// Left-to-right checking of an argument (or tuple element) list.
pub open spec fn sp_check_args(args: Seq<ExprV>, env: TEnv) -> Result<Seq<TypeV>, ErrV>
    decreases args,
{
    if args.len() == 0 {
        Ok(Seq::empty())
    } else {
        match sp_check_expr(args[0], env) {
            Ok(t) => match sp_check_args(args.drop_first(), env) {
                Ok(ts) => Ok(seq![t] + ts),
                Err(er) => Err(er),
            },
            Err(er) => Err(er),
        }
    }
}

/// Checks every array element against the declared element type.
pub open spec fn sp_check_elems(es: Seq<ExprV>, t: TypeV, env: TEnv) -> Option<ErrV>
    decreases es,
{
    if es.len() == 0 {
        None
    } else {
        match sp_check_expr(es[0], env) {
            Ok(t1) => if t1 == t {
                sp_check_elems(es.drop_first(), t, env)
            } else {
                Some(ErrV::UnmatchArrayElem(es[0], t))
            },
            Err(er) => Some(er),
        }
    }
}

/// The literal rules: scalars map to their type; an array literal requires
/// every element to have the declared element type; a tuple literal is typed
/// elementwise; an external function is an address of its declared type.
pub open spec fn sp_check_lit(l: LitV, env: TEnv) -> Result<TypeV, ErrV>
    decreases l,
{
    match l {
        LitV::Bool(_) => Ok(TypeV::Bool),
        LitV::Char(_) => Ok(TypeV::Char),
        LitV::Int(_) => Ok(TypeV::Int),
        LitV::Array(es, t) => match sp_check_elems(es, t, env) {
            None => Ok(TypeV::Array(Box::new(t), es.len() as usize)),
            Some(er) => Err(er),
        },
        LitV::Tuple(es) => match sp_check_args(es, env) {
            Ok(ts) => Ok(TypeV::Tuple(ts)),
            Err(er) => Err(er),
        },
        LitV::ExternalFunc(_, t) => Ok(TypeV::Pointer(Box::new(t))),
    }
}

/// The module-level type of a function: its parameter types and return type.
pub open spec fn sp_func_type(f: FuncV) -> TypeV {
    TypeV::Func(param_types_v(f.params), Box::new(f.ret_type))
}

pub open spec fn param_types_v(ps: Seq<(Seq<char>, TypeV)>) -> Seq<TypeV> {
    Seq::new(ps.len(), |i: int| ps[i].1)
}

/// Phase one: bind every function name to its function type. The bare
/// function type is stored; a `Var` lookup then wraps it once as
/// `Pointer(Func(..))`, so there is no double wrap.
pub open spec fn sp_bind_funcs(funcs: Seq<FuncV>, env: TEnv) -> TEnv
    decreases funcs.len(),
{
    if funcs.len() == 0 {
        env
    } else {
        sp_bind_funcs(
            funcs.drop_first(),
            env.push((funcs[0].name, sp_func_type(funcs[0]))),
        )
    }
}

/// Binds a parameter list, each name directly to its declared type.
pub open spec fn sp_bind_params(ps: Seq<(Seq<char>, TypeV)>, env: TEnv) -> TEnv
    decreases ps.len(),
{
    if ps.len() == 0 {
        env
    } else {
        sp_bind_params(ps.drop_first(), env.push(ps[0]))
    }
}

/// Phase two: check every function body under the module environment
/// extended with its own parameters; the first violation wins.
pub open spec fn sp_check_funcs(funcs: Seq<FuncV>, env: TEnv) -> Option<ErrV>
    decreases funcs.len(),
{
    if funcs.len() == 0 {
        None
    } else {
        match sp_check_expr(funcs[0].body, sp_bind_params(funcs[0].params, env)) {
            Ok(_) => sp_check_funcs(funcs.drop_first(), env),
            Err(er) => Some(er),
        }
    }
}

/// The whole admission check of a compilation unit.
pub open spec fn sp_check(nf: crate::NfV) -> Result<TypeV, ErrV> {
    let env = sp_bind_funcs(nf.funcs, Seq::empty());
    match sp_check_funcs(nf.funcs, env) {
        Some(er) => Err(er),
        None => sp_check_expr(nf.body, env),
    }
}

/// A unit is well-typed exactly when the checker admits it.
pub open spec fn well_typed(nf: crate::NfV) -> bool {
    sp_check(nf) is Ok
}

/// The view of a checker result.
pub open spec fn res_view(r: Result<Type, Error>) -> Result<TypeV, ErrV> {
    match r {
        Ok(t) => Ok(t@),
        Err(e) => Err(e@),
    }
}

/// Every well-typed unit is admitted, and what `check` then returns is
/// precisely the type of the top-level body under the module environment of
/// the unit's functions.
pub proof fn lemma_check_returns_body_type(nf: crate::NfV)
    requires
        well_typed(nf),
    ensures
        sp_check(nf) == sp_check_expr(nf.body, sp_bind_funcs(nf.funcs, Seq::empty())),
        sp_check_expr(nf.body, sp_bind_funcs(nf.funcs, Seq::empty())) is Ok,
{
}

/// Checks a whole compilation unit and returns the type of its body.
#[verifier::loop_isolation(false)]
pub fn check(nf: &Nf) -> (r: Result<Type, Error>)
    ensures
        res_view(r) == sp_check(nf@),
{
    let ghost fullv: Seq<FuncV> = nf@.funcs;
    let mut env: Env<Type> = Env::new();
    let mut i: usize = 0;
    proof {
        assert(fullv.skip(0) =~= fullv);
    }
    while i < nf.funcs.len()
        invariant
            i <= nf.funcs.len(),
            fullv == view_funcs(nf.funcs@),
            sp_bind_funcs(fullv, Seq::empty()) == sp_bind_funcs(fullv.skip(i as int), env@),
        decreases nf.funcs.len() - i,
    {
        let f = &nf.funcs[i];
        let ptypes = param_types(&f.params);
        let fty = Type::Func(ptypes, Box::new(f.ret_type.dup()));
        proof {
            assert(fullv.skip(i as int)[0] == fullv[i as int]);
            assert(fullv.skip(i as int).drop_first() =~= fullv.skip(i as int + 1));
            assert(fty@ == sp_func_type(fullv[i as int]));
        }
        env = env.add(f.name.dup(), fty);
        i = i + 1;
    }
    proof {
        assert(fullv.skip(nf.funcs@.len() as int) =~= Seq::<FuncV>::empty());
    }
    let ghost envv: TEnv = env@;
    let mut j: usize = 0;
    proof {
        assert(fullv.skip(0) =~= fullv);
    }
    while j < nf.funcs.len()
        invariant
            j <= nf.funcs.len(),
            fullv == view_funcs(nf.funcs@),
            env@ == envv,
            envv == sp_bind_funcs(fullv, Seq::empty()),
            sp_check_funcs(fullv, envv) == sp_check_funcs(fullv.skip(j as int), envv),
        decreases nf.funcs.len() - j,
    {
        let f = &nf.funcs[j];
        let env2 = bind_params(&env, &f.params);
        proof {
            assert(fullv.skip(j as int)[0] == fullv[j as int]);
            assert(fullv.skip(j as int).drop_first() =~= fullv.skip(j as int + 1));
        }
        match check_expr(&f.body, &env2) {
            Ok(_) => {}
            Err(er) => {
                return Err(er);
            }
        }
        j = j + 1;
    }
    proof {
        assert(fullv.skip(nf.funcs@.len() as int) =~= Seq::<FuncV>::empty());
    }
    check_expr(&nf.body, &env)
}

/// The declared types of a parameter list.
#[verifier::loop_isolation(false)]
pub fn param_types(ps: &Vec<(Ident, Type)>) -> (r: Vec<Type>)
    ensures
        view_types(r@) == param_types_v(view_params(ps@)),
{
    let mut out: Vec<Type> = Vec::new();
    let mut i: usize = 0;
    while i < ps.len()
        invariant
            i <= ps.len(),
            out@.len() == i,
            forall|k: int| 0 <= k < i ==> view_type(out@[k]) == view_type(ps@[k].1),
        decreases ps.len() - i,
    {
        out.push(ps[i].1.dup());
        i = i + 1;
    }
    proof {
        assert(view_types(out@) =~= param_types_v(view_params(ps@)));
    }
    out
}

/// Extends `env` with every parameter, bound directly to its declared type.
#[verifier::loop_isolation(false)]
fn bind_params(env: &Env<Type>, ps: &Vec<(Ident, Type)>) -> (r: Env<Type>)
    ensures
        r@ == sp_bind_params(view_params(ps@), env@),
{
    let ghost psv = view_params(ps@);
    let mut cur = env.dup();
    let mut i: usize = 0;
    proof {
        assert(psv.skip(0) =~= psv);
    }
    while i < ps.len()
        invariant
            i <= ps.len(),
            psv == view_params(ps@),
            sp_bind_params(psv, env@) == sp_bind_params(psv.skip(i as int), cur@),
        decreases ps.len() - i,
    {
        proof {
            assert(psv.skip(i as int)[0] == psv[i as int]);
            assert(psv.skip(i as int).drop_first() =~= psv.skip(i as int + 1));
        }
        let p = &ps[i];
        cur = cur.add(p.0.dup(), p.1.dup());
        i = i + 1;
    }
    proof {
        assert(psv.skip(ps@.len() as int) =~= Seq::<(Seq<char>, TypeV)>::empty());
    }
    cur
}

/// Checks one expression under an environment; returns exactly the mirrored
/// result of the typing rules.
#[verifier::rlimit(100)]
pub fn check_expr(e: &Expr, env: &Env<Type>) -> (r: Result<Type, Error>)
    ensures
        res_view(r) == sp_check_expr(e@, env@),
    decreases e,
{
    match e {
        Expr::Const(lit) => {
            let r2 = check_literal(lit, env);
            proof {
                assert(res_view(r2) == sp_check_expr(e@, env@));
            }
            r2
        }
        Expr::Let(name, typ, e1, e2) => {
            let typ1 = match check_expr(e1, env) {
                Ok(t) => t,
                Err(er) => return Err(er),
            };
            if !type_eq(typ, &typ1) {
                return Err(Error::UnmatchLet((**e1).dup(), typ1));
            }
            let env2 = env.add(name.dup(), typ1);
            let r2 = check_expr(e2, &env2);
            proof {
                assert(res_view(r2) == sp_check_expr(e@, env@));
            }
            r2
        }
        Expr::Var(name) => match env.lookup(name) {
            Some(ty) => match ty {
                Type::Array(a, n) => {
                    let r2 = Type::Array(a, n);
                    proof {
                        assert(Ok::<TypeV, ErrV>(r2@) == sp_check_expr(e@, env@));
                    }
                    Ok(r2)
                }
                Type::Tuple(ts) => {
                    let r2 = Type::Tuple(ts);
                    proof {
                        assert(Ok::<TypeV, ErrV>(r2@) == sp_check_expr(e@, env@));
                    }
                    Ok(r2)
                }
                other => {
                    let r2 = Type::Pointer(Box::new(other));
                    proof {
                        assert(Ok::<TypeV, ErrV>(r2@) == sp_check_expr(e@, env@));
                    }
                    Ok(r2)
                }
            },
            None => {
                let r2: Result<Type, Error> = Err(Error::UnboundVariable(name.dup()));
                proof {
                    assert(res_view(r2) == sp_check_expr(e@, env@));
                }
                r2
            }
        },
        Expr::Load(e1) => match check_expr(e1, env) {
            Ok(t) => match t {
                Type::Pointer(inner) => {
                    let r2 = *inner;
                    proof {
                        assert(Ok::<TypeV, ErrV>(r2@) == sp_check_expr(e@, env@));
                    }
                    Ok(r2)
                }
                _ => {
                    let r2: Result<Type, Error> = Err(Error::DereferenceNonpointer((**e1).dup()));
                    proof {
                        assert(res_view(r2) == sp_check_expr(e@, env@));
                    }
                    r2
                }
            },
            Err(er) => {
                let r2: Result<Type, Error> = Err(er);
                proof {
                    assert(res_view(r2) == sp_check_expr(e@, env@));
                }
                r2
            }
        },
        Expr::Assign(e1, e2) => {
            let lt = match check_expr(e1, env) {
                Ok(t) => t,
                Err(er) => return Err(er),
            };
            match lt {
                Type::Pointer(inner) => {
                    let rt = match check_expr(e2, env) {
                        Ok(t) => t,
                        Err(er) => return Err(er),
                    };
                    if type_eq(&rt, &inner) {
                        let r2 = Type::Pointer(inner);
                        proof {
                            assert(Ok::<TypeV, ErrV>(r2@) == sp_check_expr(e@, env@));
                        }
                        Ok(r2)
                    } else {
                        let r2: Result<Type, Error> = Err(Error::UnmatchAssign((**e2).dup(), *inner, rt));
                        proof {
                            assert(res_view(r2) == sp_check_expr(e@, env@));
                        }
                        r2
                    }
                }
                _ => {
                    let r2: Result<Type, Error> = Err(Error::AssignToNonpointer((**e1).dup()));
                    proof {
                        assert(res_view(r2) == sp_check_expr(e@, env@));
                    }
                    r2
                }
            }
        }
        Expr::Call(f, args) => {
            let ft = match check_expr(f, env) {
                Ok(t) => t,
                Err(er) => return Err(er),
            };
            let ghost ftv = ft@;
            match ft {
                Type::Pointer(inner) => {
                    proof {
                        assert(ftv == TypeV::Pointer(Box::new(view_type(*inner))));
                    }
                    match *inner {
                    Type::Func(ps, r) => {
                        let ats = match check_args(args, env) {
                            Ok(ts) => ts,
                            Err(er) => return Err(er),
                        };
                        if types_eq(&ps, &ats) {
                            let r2 = *r;
                            proof {
                                assert(Ok::<TypeV, ErrV>(r2@) == sp_check_expr(e@, env@));
                            }
                            Ok(r2)
                        } else {
                            let r2: Result<Type, Error> = Err(Error::UnmatchParamsAndArgs((**f).dup(), ps, ats));
                            proof {
                                assert(res_view(r2) == sp_check_expr(e@, env@));
                            }
                            r2
                        }
                    }
                    other => {
                        let r2: Result<Type, Error> = Err(Error::ApplyNonFunc(
                            (**f).dup(),
                            Type::Pointer(Box::new(other)),
                        ));
                        proof {
                            assert(res_view(r2) == sp_check_expr(e@, env@));
                        }
                        r2
                    }
                    }
                }
                other => {
                    let r2: Result<Type, Error> = Err(Error::ApplyNonFunc((**f).dup(), other));
                    proof {
                        assert(res_view(r2) == sp_check_expr(e@, env@));
                    }
                    r2
                }
            }
        }
        Expr::If(c, e1, e2) => {
            let ct = match check_expr(c, env) {
                Ok(t) => t,
                Err(er) => return Err(er),
            };
            if !type_eq(&ct, &Type::Bool) {
                return Err(Error::UnmatchIfCond((**c).dup(), ct));
            }
            let t1 = match check_expr(e1, env) {
                Ok(t) => t,
                Err(er) => return Err(er),
            };
            let t2 = match check_expr(e2, env) {
                Ok(t) => t,
                Err(er) => return Err(er),
            };
            if type_eq(&t1, &t2) {
                let r2: Result<Type, Error> = Ok(t1);
                proof {
                    assert(res_view(r2) == sp_check_expr(e@, env@));
                }
                return r2;
            } else {
                let r2: Result<Type, Error> = Err(Error::UnmatchIfBranches(
                    Expr::If(
                        Box::new((**c).dup()),
                        Box::new((**e1).dup()),
                        Box::new((**e2).dup()),
                    ),
                    t1,
                    t2,
                ));
                proof {
                    assert(res_view(r2) == sp_check_expr(e@, env@));
                }
                r2
            }
        }
        Expr::BinOp(op, e1, e2) => {
            let t1 = match check_expr(e1, env) {
                Ok(t) => t,
                Err(er) => return Err(er),
            };
            let t2 = match check_expr(e2, env) {
                Ok(t) => t,
                Err(er) => return Err(er),
            };
            let both_int = type_eq(&t1, &Type::Int) && type_eq(&t2, &Type::Int);
            let both_bool = type_eq(&t1, &Type::Bool) && type_eq(&t2, &Type::Bool);
            let table: Option<Type> = if both_int {
                match op {
                    BinOp::Add => Some(Type::Int),
                    BinOp::Sub => Some(Type::Int),
                    BinOp::Mult => Some(Type::Int),
                    BinOp::Div => Some(Type::Int),
                    _ => Some(Type::Bool),
                }
            } else if both_bool {
                match op {
                    BinOp::Eq => Some(Type::Bool),
                    BinOp::Neq => Some(Type::Bool),
                    _ => None,
                }
            } else {
                None
            };
            let r2: Result<Type, Error> = match table {
                Some(t) => Ok(t),
                None => Err(Error::InvalidBinOp(*op, (**e1).dup(), (**e2).dup())),
            };
            proof {
                assert(res_view(r2) == sp_check_expr(e@, env@));
            }
            r2
        }
        Expr::ArrayAt(a, i) => {
            let at = match check_expr(a, env) {
                Ok(t) => t,
                Err(er) => return Err(er),
            };
            let it = match check_expr(i, env) {
                Ok(t) => t,
                Err(er) => return Err(er),
            };
            if type_eq(&it, &Type::Int) {
                match at {
                    Type::Array(elem, _) => {
                        let r2 = Type::Pointer(elem);
                        proof {
                            assert(Ok::<TypeV, ErrV>(r2@) == sp_check_expr(e@, env@));
                        }
                        Ok(r2)
                    }
                    other => {
                        let r2: Result<Type, Error> = Err(Error::IndexingForNonArray((**a).dup(), other));
                        proof {
                            assert(res_view(r2) == sp_check_expr(e@, env@));
                        }
                        r2
                    }
                }
            } else {
                let r2: Result<Type, Error> = Err(Error::IndexingWithNonInteger((**i).dup(), it));
                proof {
                    assert(res_view(r2) == sp_check_expr(e@, env@));
                }
                r2
            }
        }
        Expr::TupleAt(e1, k) => match check_expr(e1, env) {
            Ok(t) => {
                let ghost tv = t@;
                match t {
                Type::Tuple(es) => if *k < es.len() {
                    proof {
                        assert(tv == TypeV::Tuple(view_types(es@)));
                        assert(view_types(es@)[*k as int] == view_type(es@[*k as int]));
                    }
                    let r2 = Type::Pointer(Box::new(es[*k].dup()));
                    proof {
                        assert(Ok::<TypeV, ErrV>(r2@) == sp_check_expr(e@, env@));
                    }
                    Ok(r2)
                } else {
                    let r2: Result<Type, Error> = Err(Error::InvalidTupleAccess((**e1).dup(), *k));
                    proof {
                        assert(res_view(r2) == sp_check_expr(e@, env@));
                    }
                    r2
                },
                _ => {
                    let r2: Result<Type, Error> = Err(Error::IndexingForNonTuple((**e1).dup()));
                    proof {
                        assert(res_view(r2) == sp_check_expr(e@, env@));
                    }
                    r2
                }
                }
            }
            Err(er) => Err(er),
        },
        Expr::PrintNum(e1) => {
            let r2: Result<Type, Error> = match check_expr(e1, env) {
                Ok(_) => Ok(Type::Void),
                Err(er) => Err(er),
            };
            proof {
                assert(res_view(r2) == sp_check_expr(e@, env@));
            }
            r2
        }
    }
}

/// Checks an argument (or tuple element) list left to right.
#[verifier::loop_isolation(false)]
pub fn check_args(args: &Vec<Expr>, env: &Env<Type>) -> (r: Result<Vec<Type>, Error>)
    ensures
        match r {
            Ok(ts) => sp_check_args(view_exprs(args@), env@)
                == Ok::<Seq<TypeV>, ErrV>(view_types(ts@)),
            Err(er) => sp_check_args(view_exprs(args@), env@)
                == Err::<Seq<TypeV>, ErrV>(er@),
        },
    decreases args,
{
    let ghost argsv = view_exprs(args@);
    let mut out: Vec<Type> = Vec::new();
    let mut i: usize = 0;
    proof {
        assert(argsv.skip(0) =~= argsv);
    }
    while i < args.len()
        invariant
            i <= args.len(),
            argsv == view_exprs(args@),
            out@.len() == i,
            sp_check_args(argsv, env@) == (match sp_check_args(argsv.skip(i as int), env@) {
                Ok(ts) => Ok::<Seq<TypeV>, ErrV>(view_types(out@) + ts),
                Err(er) => Err::<Seq<TypeV>, ErrV>(er),
            }),
        decreases args.len() - i,
    {
        proof {
            assert(argsv.skip(i as int)[0] == argsv[i as int]);
            assert(argsv.skip(i as int).drop_first() =~= argsv.skip(i as int + 1));
            assert(argsv[i as int] == view_expr(args@[i as int]));
            assert(decreases_to!((*args) => (*args)[i as int]));
        }
        match check_expr(&args[i], env) {
            Ok(t) => {
                let ghost old_out = out@;
                out.push(t);
                proof {
                    match sp_check_args(argsv.skip(i as int + 1), env@) {
                        Ok(ts) => {
                            assert(view_types(out@) + ts
                                =~= view_types(old_out) + (seq![t@] + ts));
                        }
                        Err(_) => {}
                    }
                }
            }
            Err(er) => {
                return Err(er);
            }
        }
        i = i + 1;
    }
    proof {
        assert(argsv.skip(args@.len() as int) =~= Seq::<ExprV>::empty());
        assert(view_types(out@) + Seq::<TypeV>::empty() =~= view_types(out@));
    }
    Ok(out)
}

/// Checks one literal under an environment.
#[verifier::loop_isolation(false)]
pub fn check_literal(lit: &Literal, env: &Env<Type>) -> (r: Result<Type, Error>)
    ensures
        res_view(r) == sp_check_lit(lit@, env@),
    decreases lit,
{
    match lit {
        Literal::Bool(_) => Ok(Type::Bool),
        Literal::Char(_) => Ok(Type::Char),
        Literal::Int(_) => Ok(Type::Int),
        Literal::Array(elems, ty) => {
            let ghost esv = view_exprs(elems@);
            let mut i: usize = 0;
            proof {
                assert(esv.skip(0) =~= esv);
            }
            while i < elems.len()
                invariant
                    i <= elems.len(),
                    esv == view_exprs(elems@),
                    sp_check_elems(esv, ty@, env@)
                        == sp_check_elems(esv.skip(i as int), ty@, env@),
                decreases elems.len() - i,
            {
                proof {
                    assert(esv.skip(i as int)[0] == esv[i as int]);
                    assert(esv.skip(i as int).drop_first() =~= esv.skip(i as int + 1));
                    assert(esv[i as int] == view_expr(elems@[i as int]));
                    assert(decreases_to!((*lit) => (*lit)->Array_0));
                    assert((*lit)->Array_0 == *elems);
                    assert(decreases_to!((*elems) => (*elems)@));
                    assert(decreases_to!((*elems)@ => (*elems)@[i as int]));
                }
                let et = match check_expr(&elems[i], env) {
                    Ok(t) => t,
                    Err(er) => return Err(er),
                };
                if !type_eq(&et, ty) {
                    return Err(Error::UnmatchArrayElem(elems[i].dup(), ty.dup()));
                }
                i = i + 1;
            }
            proof {
                assert(esv.skip(elems@.len() as int) =~= Seq::<ExprV>::empty());
            }
            Ok(Type::Array(Box::new(ty.dup()), elems.len()))
        }
        Literal::Tuple(elems) => match check_args(elems, env) {
            Ok(ts) => Ok(Type::Tuple(ts)),
            Err(er) => Err(er),
        },
        Literal::ExternalFunc(_, t) => Ok(Type::Pointer(Box::new(t.dup()))),
    }
}

} // verus!
