//! The code generator: lowers a compilation unit into the module
//! representation of [`base`].
//!
//! Like the checker it is two-pass: pass one declares every user function's
//! signature and binds the handle in a value environment, so later bodies can
//! reference any function regardless of order; pass two emits each body into
//! a fresh block sequence, storing every incoming parameter into a freshly
//! allocated slot so that all reads and writes go through the uniform
//! every-binding-is-an-address model shared with the checker. A synthetic
//! `main` wrapping the top-level body with return type `Int` comes last,
//! lowered through the identical path.
//!
//! Every step is mirrored by a spec function over the context view, and
//! `gen` is proved to return exactly `sp_gen` of its input — compiling the
//! same unit twice therefore yields the same module, value for value.

pub mod base;
pub mod builder;
pub mod error;
pub mod lit;
pub mod typ;
pub mod util;

use vstd::prelude::*;

verus! {

use crate::{Expr, ExprV, Literal, LitV, Type, TypeV, BinOp, Func, FuncV, Nf, NfV, Dup};
use crate::{view_expr, view_exprs, view_type, view_params, view_funcs};
use crate::env::{Env, env_lookup};
use crate::ident::Ident;
use crate::typecheck::param_types_v;
use base::{ArithOp, Base, BaseV, CmpPred, LTy, LTyV, LVal, LValV, Module, ModuleV, view_lvals};
use builder::{
    sp_branch, sp_cond_branch, sp_declare, sp_declare_array, sp_declare_tuple, sp_gep, sp_load,
    sp_phi, sp_print_num, sp_ret, sp_store, sp_call, sp_bin, sp_icmp,
};
use util::sp_position_at_end;
use error::{Error, CErrV};
use typ::{sp_apply_type, sp_apply_types, sp_type_of, apply_type, apply_types};
use vstd::string::StringExecFns;

/// A value environment: names bound to generated values, most recent last.
pub type VEnv = Seq<(Seq<char>, LValV)>;

/// The operator dispatch: arithmetic becomes a signed arithmetic instruction,
/// a comparison a signed comparison instruction.
pub open spec fn sp_binop_gen(s: BaseV, op: BinOp, lhs: LValV, rhs: LValV) -> (BaseV, LValV) {
    match op {
        BinOp::Add => sp_bin(s, ArithOp::Add, lhs, rhs),
        BinOp::Sub => sp_bin(s, ArithOp::Sub, lhs, rhs),
        BinOp::Mult => sp_bin(s, ArithOp::Mul, lhs, rhs),
        BinOp::Div => sp_bin(s, ArithOp::Div, lhs, rhs),
        BinOp::Eq => sp_icmp(s, CmpPred::Eq, lhs, rhs),
        BinOp::Neq => sp_icmp(s, CmpPred::Ne, lhs, rhs),
        BinOp::Lt => sp_icmp(s, CmpPred::Slt, lhs, rhs),
        BinOp::Gt => sp_icmp(s, CmpPred::Sgt, lhs, rhs),
        BinOp::Leq => sp_icmp(s, CmpPred::Sle, lhs, rhs),
        BinOp::Geq => sp_icmp(s, CmpPred::Sge, lhs, rhs),
    }
}

/// Expression lowering: pure structural recursion, one case per form, at the
/// builder's current insertion point.
///
/// The `If` case is the central control-flow construct: lower the condition;
/// append then, else and merge blocks consecutively after the current block;
/// branch two ways; lower each branch and re-read the current block after it
/// (the branch may itself have opened blocks), and merge with a phi node
/// typed by the then-branch's value.
pub open spec fn sp_apply_expr(e: ExprV, env: VEnv, s: BaseV) -> Result<(BaseV, LValV), CErrV>
    decreases e,
{
    match e {
        ExprV::Const(l) => sp_apply_lit(l, env, s),
        ExprV::Let(n, t, e1, e2) => if t == TypeV::Void {
            match sp_apply_expr(*e1, env, s) {
                Ok((s1, _)) => sp_apply_expr(*e2, env, s1),
                Err(er) => Err(er),
            }
        } else {
            let t2 = if t matches TypeV::Func(_, _) {
                TypeV::Pointer(Box::new(t))
            } else {
                t
            };
            let lt = sp_apply_type(t2);
            match sp_apply_expr(*e1, env, s) {
                Ok((s1, v1)) => {
                    let dres = match t {
                        TypeV::Array(_, _) => sp_declare_array(s1, n, lt, v1),
                        TypeV::Tuple(_) => sp_declare_tuple(s1, n, lt, v1),
                        _ => Ok(sp_declare(s1, n, lt, v1)),
                    };
                    match dres {
                        Ok((s2, var)) => sp_apply_expr(*e2, env.push((n, var)), s2),
                        Err(er) => Err(er),
                    }
                },
                Err(er) => Err(er),
            }
        },
        ExprV::Var(n) => match env_lookup(env, n) {
            Some(v) => Ok((s, v)),
            None => Err(CErrV::Internal("unbound variable: "@ + n)),
        },
        ExprV::Load(e1) => match sp_apply_expr(*e1, env, s) {
            Ok((s1, v)) => sp_load(s1, v),
            Err(er) => Err(er),
        },
        ExprV::Assign(e1, e2) => match sp_apply_expr(*e1, env, s) {
            Ok((s1, lhs)) => match sp_apply_expr(*e2, env, s1) {
                Ok((s2, rhs)) => Ok((sp_store(s2, lhs, rhs), lhs)),
                Err(er) => Err(er),
            },
            Err(er) => Err(er),
        },
        ExprV::Call(f, args) => match sp_apply_expr(*f, env, s) {
            Ok((s1, fv)) => match sp_apply_args(args, env, s1) {
                Ok((s2, avs)) => sp_call(s2, fv, avs),
                Err(er) => Err(er),
            },
            Err(er) => Err(er),
        },
        ExprV::If(c, e1, e2) => match sp_apply_expr(*c, env, s) {
            Ok((s1, cv)) => match util::sp_append_block(s1, s1.cur_block) {
                Ok((s2, then_b)) => match util::sp_append_block(s2, then_b) {
                    Ok((s3, else_b)) => match util::sp_append_block(s3, else_b) {
                        Ok((s4, merge_b)) => {
                            let s5 = sp_cond_branch(s4, cv, then_b, else_b);
                            let s6 = sp_position_at_end(s5, then_b);
                            match sp_apply_expr(*e1, env, s6) {
                                Ok((s7, v1)) => {
                                    let s8 = sp_branch(s7, merge_b);
                                    let then_end = s8.cur_block;
                                    let s9 = sp_position_at_end(s8, else_b);
                                    match sp_apply_expr(*e2, env, s9) {
                                        Ok((s10, v2)) => {
                                            let s11 = sp_branch(s10, merge_b);
                                            let else_end = s11.cur_block;
                                            let s12 = sp_position_at_end(s11, merge_b);
                                            match sp_type_of(s12, v1) {
                                                Some(pty) => Ok(sp_phi(
                                                    s12,
                                                    pty,
                                                    seq![(v1, then_end), (v2, else_end)],
                                                )),
                                                None => Err(CErrV::Internal(
                                                    "value has no type"@,
                                                )),
                                            }
                                        },
                                        Err(er) => Err(er),
                                    }
                                },
                                Err(er) => Err(er),
                            }
                        },
                        Err(er) => Err(er),
                    },
                    Err(er) => Err(er),
                },
                Err(er) => Err(er),
            },
            Err(er) => Err(er),
        },
        ExprV::BinOp(op, e1, e2) => match sp_apply_expr(*e1, env, s) {
            Ok((s1, v1)) => match sp_apply_expr(*e2, env, s1) {
                Ok((s2, v2)) => Ok(sp_binop_gen(s2, op, v1, v2)),
                Err(er) => Err(er),
            },
            Err(er) => Err(er),
        },
        ExprV::ArrayAt(a, i) => match sp_apply_expr(*a, env, s) {
            Ok((s1, va)) => match sp_apply_expr(*i, env, s1) {
                Ok((s2, vi)) => sp_gep(s2, va, vi),
                Err(er) => Err(er),
            },
            Err(er) => Err(er),
        },
        ExprV::TupleAt(e1, k) => match sp_apply_expr(*e1, env, s) {
            Ok((s1, v)) => if k > 0x7fff_ffff {
                Err(CErrV::Internal("tuple index too large"@))
            } else {
                sp_gep(s1, v, LValV::CInt(k as i32))
            },
            Err(er) => Err(er),
        },
        ExprV::PrintNum(e1) => match sp_apply_expr(*e1, env, s) {
            Ok((s1, v)) => sp_print_num(s1, v),
            Err(er) => Err(er),
        },
    }
}

/// Left-to-right lowering of an argument (or element) list.
pub open spec fn sp_apply_args(args: Seq<ExprV>, env: VEnv, s: BaseV) -> Result<
    (BaseV, Seq<LValV>),
    CErrV,
>
    decreases args,
{
    if args.len() == 0 {
        Ok((s, Seq::empty()))
    } else {
        match sp_apply_expr(args[0], env, s) {
            Ok((s1, v)) => match sp_apply_args(args.drop_first(), env, s1) {
                Ok((s2, vs)) => Ok((s2, seq![v] + vs)),
                Err(er) => Err(er),
            },
            Err(er) => Err(er),
        }
    }
}

/// Literal lowering: scalars become immediate constants; composites lower
/// their elements first and then split on constancy; an external function
/// registers or reuses its forward declaration.
pub open spec fn sp_apply_lit(l: LitV, env: VEnv, s: BaseV) -> Result<(BaseV, LValV), CErrV>
    decreases l,
{
    match l {
        LitV::Bool(b) => Ok((s, LValV::CBool(b))),
        LitV::Char(c) => Ok((s, LValV::CChar(c))),
        LitV::Int(n) => Ok((s, LValV::CInt(n))),
        LitV::Array(es, t) => match sp_apply_args(es, env, s) {
            Ok((s1, vs)) => lit::sp_lit_array(s1, vs, sp_apply_type(t)),
            Err(er) => Err(er),
        },
        LitV::Tuple(es) => match sp_apply_args(es, env, s) {
            Ok((s1, vs)) => lit::sp_lit_tuple(s1, vs),
            Err(er) => Err(er),
        },
        LitV::ExternalFunc(n, t) => Ok(lit::sp_external_func(s, n, sp_apply_type(t))),
    }
}

/// Declares one user function: parameter and return types lowered
/// structurally, the handle bound to the function's name by the caller.
pub open spec fn sp_add_function(f: FuncV, s: BaseV) -> (BaseV, LValV) {
    let fty = LTyV::Fn(
        sp_apply_types(param_types_v(f.params)),
        Box::new(sp_apply_type(f.ret_type)),
        false,
    );
    util::sp_add_function(s, f.name, fty)
}

/// Binds the parameters of a function being defined: each one gets a slot of
/// its lowered type, immediately filled from the incoming argument, and the
/// slot's address is bound to the parameter's name. `k` is the index of the
/// first parameter in the list.
pub open spec fn sp_bind_args(ps: Seq<(Seq<char>, TypeV)>, k: int, env: VEnv, s: BaseV) -> (
    BaseV,
    VEnv,
)
    decreases ps.len(),
{
    if ps.len() == 0 {
        (s, env)
    } else {
        let lt = sp_apply_type(ps[0].1);
        let (s1, var) = sp_declare(s, ps[0].0, lt, LValV::Arg(k as usize));
        sp_bind_args(ps.drop_first(), k + 1, env.push((ps[0].0, var)), s1)
    }
}

/// Defines one function's body: a fresh entry block, parameter slots, the
/// lowered body, and a return of its value.
pub open spec fn sp_add_function_body(f: FuncV, fval: LValV, env: VEnv, s: BaseV) -> Result<
    BaseV,
    CErrV,
> {
    match util::sp_add_entry_block(s, fval) {
        Ok((s1, _)) => {
            let (s2, env2) = sp_bind_args(f.params, 0, env, s1);
            match sp_apply_expr(f.body, env2, s2) {
                Ok((s3, v)) => Ok(sp_ret(s3, v)),
                Err(er) => Err(er),
            }
        },
        Err(er) => Err(er),
    }
}

/// Pass one over the unit's functions: declare each and bind its handle.
pub open spec fn sp_declare_funcs(funcs: Seq<FuncV>, env: VEnv, s: BaseV) -> (BaseV, VEnv)
    decreases funcs.len(),
{
    if funcs.len() == 0 {
        (s, env)
    } else {
        let (s1, fv) = sp_add_function(funcs[0], s);
        sp_declare_funcs(funcs.drop_first(), env.push((funcs[0].name, fv)), s1)
    }
}

/// Pass two: define every body under the full handle environment.
pub open spec fn sp_define_funcs(funcs: Seq<FuncV>, env: VEnv, s: BaseV) -> Result<BaseV, CErrV>
    decreases funcs.len(),
{
    if funcs.len() == 0 {
        Ok(s)
    } else {
        match env_lookup(env, funcs[0].name) {
            Some(fv) => match sp_add_function_body(funcs[0], fv, env, s) {
                Ok(s1) => sp_define_funcs(funcs.drop_first(), env, s1),
                Err(er) => Err(er),
            },
            None => Err(CErrV::Internal("unbound function: "@ + funcs[0].name)),
        }
    }
}

/// The synthetic entry point: `main`, no parameters, returning `Int`,
/// wrapping the unit's top-level body.
pub open spec fn sp_main_func(nf: NfV) -> FuncV {
    FuncV { name: "main"@, params: Seq::empty(), ret_type: TypeV::Int, body: nf.body }
}

/// Lowers a whole unit into a fresh context.
pub open spec fn sp_apply_nf(nf: NfV, s: BaseV) -> Result<BaseV, CErrV> {
    let (s1, env) = sp_declare_funcs(nf.funcs, Seq::empty(), s);
    match sp_define_funcs(nf.funcs, env, s1) {
        Ok(s2) => {
            let mainf = sp_main_func(nf);
            let (s3, mv) = sp_add_function(mainf, s2);
            sp_add_function_body(mainf, mv, env, s3)
        },
        Err(er) => Err(er),
    }
}

/// The whole generation: a fresh seeded context, the lowered unit, and the
/// finished module. A total function of the unit and the module name — which
/// is the determinism guarantee `gen` is proved to meet.
pub open spec fn sp_gen(nf: NfV, name: Seq<char>) -> Result<ModuleV, CErrV> {
    match sp_apply_nf(nf, base::sp_base_new(name)) {
        Ok(s) => Ok(s.m),
        Err(er) => Err(er),
    }
}

/// Compiling equal units under equal names yields equal modules: the result
/// of `gen` is pinned to `sp_gen`, a function of the unit and name alone, so
/// two successful runs on one input are value-for-value identical.
pub proof fn lemma_gen_deterministic(
    nf: NfV,
    name: Seq<char>,
    m1: ModuleV,
    m2: ModuleV,
)
    requires
        sp_gen(nf, name) == Ok::<ModuleV, CErrV>(m1),
        sp_gen(nf, name) == Ok::<ModuleV, CErrV>(m2),
    ensures
        m1 == m2,
{
}

/// Lowers a unit into a finished module named `name`. The module is handed
/// to the caller unvalidated: structural verification and printing are the
/// external collaborator's job.
pub fn gen(nf: &Nf, name: &str) -> (r: Result<Module, Error>)
    ensures
        match r {
            Ok(m) => sp_gen(nf@, name@) == Ok::<ModuleV, CErrV>(m@),
            Err(er) => sp_gen(nf@, name@) == Err::<ModuleV, CErrV>(er@),
        },
{
    let mut b = Base::new(name);
    match apply_nf(&mut b, nf) {
        Ok(_) => Ok(b.module),
        Err(er) => Err(er),
    }
}

/// Both passes over the unit, then the synthetic `main`.
#[verifier::loop_isolation(false)]
pub fn apply_nf(base: &mut Base, nf: &Nf) -> (r: Result<(), Error>)
    ensures
        match r {
            Ok(_) => sp_apply_nf(nf@, old(base)@) == Ok::<BaseV, CErrV>(final(base)@),
            Err(er) => sp_apply_nf(nf@, old(base)@) == Err::<BaseV, CErrV>(er@),
        },
{
    let ghost fullv: Seq<FuncV> = nf@.funcs;
    let ghost s0 = base@;
    let mut env: Env<LVal> = Env::new();
    let mut i: usize = 0;
    proof {
        assert(fullv.skip(0) =~= fullv);
    }
    while i < nf.funcs.len()
        invariant
            i <= nf.funcs.len(),
            fullv == view_funcs(nf.funcs@),
            sp_declare_funcs(fullv, Seq::empty(), s0) == sp_declare_funcs(
                fullv.skip(i as int),
                env@,
                base@,
            ),
        decreases nf.funcs.len() - i,
    {
        proof {
            assert(fullv.skip(i as int)[0] == fullv[i as int]);
            assert(fullv.skip(i as int).drop_first() =~= fullv.skip(i as int + 1));
        }
        let f = &nf.funcs[i];
        let fv = add_function(base, f);
        env = env.add(f.name.dup(), fv);
        i = i + 1;
    }
    proof {
        assert(fullv.skip(nf.funcs@.len() as int) =~= Seq::<FuncV>::empty());
    }
    let ghost envv = env@;
    let ghost s1 = base@;
    let mut j: usize = 0;
    proof {
        assert(fullv.skip(0) =~= fullv);
    }
    while j < nf.funcs.len()
        invariant
            j <= nf.funcs.len(),
            fullv == view_funcs(nf.funcs@),
            env@ == envv,
            sp_define_funcs(fullv, envv, s1) == sp_define_funcs(
                fullv.skip(j as int),
                envv,
                base@,
            ),
        decreases nf.funcs.len() - j,
    {
        proof {
            assert(fullv.skip(j as int)[0] == fullv[j as int]);
            assert(fullv.skip(j as int).drop_first() =~= fullv.skip(j as int + 1));
        }
        let f = &nf.funcs[j];
        let fv = match env.lookup(&f.name) {
            Some(v) => v,
            None => {
                let mut msg = String::from_str("unbound function: ");
                msg.append(f.name.0.as_str());
                return Err(Error::Internal(msg));
            }
        };
        match add_function_body(base, fv, f, &env) {
            Ok(_) => {}
            Err(er) => {
                return Err(er);
            }
        }
        j = j + 1;
    }
    proof {
        assert(fullv.skip(nf.funcs@.len() as int) =~= Seq::<FuncV>::empty());
    }
    let main_func = Func {
        name: Ident::new("main"),
        params: Vec::new(),
        ret_type: Type::Int,
        body: nf.body.dup(),
    };
    proof {
        assert(view_params(main_func.params@) =~= Seq::<(Seq<char>, TypeV)>::empty());
        assert(main_func@ == sp_main_func(nf@));
    }
    let gm = add_function(base, &main_func);
    match add_function_body(base, gm, &main_func, &env) {
        Ok(_) => Ok(()),
        Err(er) => Err(er),
    }
}

/// Declares one user function's signature in the module.
pub fn add_function(base: &mut Base, func: &Func) -> (r: LVal)
    ensures
        (final(base)@, r@) == sp_add_function(func@, old(base)@),
{
    let pts = crate::typecheck::param_types(&func.params);
    let lps = apply_types(&pts);
    let ret = apply_type(&func.ret_type);
    let fty = typ::func(lps, ret);
    util::add_function(base, func.name.0.as_str(), fty)
}

/// Defines one function's body.
#[verifier::loop_isolation(false)]
pub fn add_function_body(base: &mut Base, gen_func: LVal, func: &Func, env: &Env<LVal>) -> (r:
    Result<(), Error>)
    ensures
        match r {
            Ok(_) => sp_add_function_body(func@, gen_func@, env@, old(base)@)
                == Ok::<BaseV, CErrV>(final(base)@),
            Err(er) => sp_add_function_body(func@, gen_func@, env@, old(base)@)
                == Err::<BaseV, CErrV>(er@),
        },
{
    let ghost psv = view_params(func.params@);
    match util::add_entry_block(&gen_func, base) {
        Ok(_) => {}
        Err(er) => {
            return Err(er);
        }
    }
    let ghost s1 = base@;
    let ghost env0 = env@;
    let mut env2 = env.dup();
    let mut i: usize = 0;
    proof {
        assert(psv.skip(0) =~= psv);
    }
    while i < func.params.len()
        invariant
            i <= func.params.len(),
            psv == view_params(func.params@),
            sp_bind_args(psv, 0, env0, s1) == sp_bind_args(
                psv.skip(i as int),
                i as int,
                env2@,
                base@,
            ),
        decreases func.params.len() - i,
    {
        proof {
            assert(psv.skip(i as int)[0] == psv[i as int]);
            assert(psv.skip(i as int).drop_first() =~= psv.skip(i as int + 1));
        }
        let p = &func.params[i];
        let lt = apply_type(&p.1);
        let var = builder::declare(p.0.0.as_str(), lt, util::get_func_param(i), base);
        env2 = env2.add(p.0.dup(), var);
        i = i + 1;
    }
    proof {
        assert(psv.skip(func.params@.len() as int) =~= Seq::<(Seq<char>, TypeV)>::empty());
    }
    let v = match apply_expr(&func.body, &env2, base) {
        Ok(v) => v,
        Err(er) => {
            return Err(er);
        }
    };
    builder::ret(v, base);
    Ok(())
}

/// Lowers one expression at the current insertion point.
#[verifier::rlimit(100)]
#[verifier::loop_isolation(false)]
pub fn apply_expr(e: &Expr, env: &Env<LVal>, base: &mut Base) -> (r: Result<LVal, Error>)
    ensures
        match r {
            Ok(v) => sp_apply_expr(e@, env@, old(base)@)
                == Ok::<(BaseV, LValV), CErrV>((final(base)@, v@)),
            Err(er) => sp_apply_expr(e@, env@, old(base)@)
                == Err::<(BaseV, LValV), CErrV>(er@),
        },
    decreases e,
{
    match e {
        Expr::Const(lit_) => {
            let r2 = apply_literal(lit_, env, base);
            proof {
                match &r2 {
                    Ok(v) => {
                        assert(sp_apply_expr(e@, env@, old(base)@)
                            == Ok::<(BaseV, LValV), CErrV>((base@, v@)));
                    }
                    Err(er) => {
                        assert(sp_apply_expr(e@, env@, old(base)@)
                            == Err::<(BaseV, LValV), CErrV>(er@));
                    }
                }
            }
            r2
        }
        Expr::Let(name, typ, e1, e2) => {
            if matches!(typ, Type::Void) {
                match apply_expr(e1, env, base) {
                    Ok(_) => {}
                    Err(er) => {
                        return Err(er);
                    }
                }
                let r2 = apply_expr(e2, env, base);
                proof {
                    match &r2 {
                        Ok(v) => {
                            assert(sp_apply_expr(e@, env@, old(base)@)
                                == Ok::<(BaseV, LValV), CErrV>((base@, v@)));
                        }
                        Err(er) => {
                            assert(sp_apply_expr(e@, env@, old(base)@)
                                == Err::<(BaseV, LValV), CErrV>(er@));
                        }
                    }
                }
                r2
            } else {
                let typ2 = match typ {
                    Type::Func(a, b) => {
                        let inner = Type::Func(crate::dup_types(a), Box::new((**b).dup()));
                        proof {
                            assert(inner@ == typ@);
                        }
                        let t2 = Type::Pointer(Box::new(inner));
                        proof {
                            assert(t2@ == TypeV::Pointer(Box::new(typ@)));
                        }
                        t2
                    }
                    other => other.dup(),
                };
                proof {
                    assert(typ2@ == (if typ@ matches TypeV::Func(_, _) {
                        TypeV::Pointer(Box::new(typ@))
                    } else {
                        typ@
                    }));
                }
                let lty = apply_type(&typ2);
                let v1 = match apply_expr(e1, env, base) {
                    Ok(v) => v,
                    Err(er) => {
                        return Err(er);
                    }
                };
                let var = match typ {
                    Type::Array(_, _) => {
                        match builder::declare_array(name.0.as_str(), lty, v1, base) {
                            Ok(v) => v,
                            Err(er) => {
                                return Err(er);
                            }
                        }
                    }
                    Type::Tuple(_) => {
                        match builder::declare_tuple(name.0.as_str(), lty, v1, base) {
                            Ok(v) => v,
                            Err(er) => {
                                return Err(er);
                            }
                        }
                    }
                    _ => builder::declare(name.0.as_str(), lty, v1, base),
                };
                let env2 = env.add(name.dup(), var);
                let r2 = apply_expr(e2, &env2, base);
                proof {
                    match &r2 {
                        Ok(v) => {
                            assert(sp_apply_expr(e@, env@, old(base)@)
                                == Ok::<(BaseV, LValV), CErrV>((base@, v@)));
                        }
                        Err(er) => {
                            assert(sp_apply_expr(e@, env@, old(base)@)
                                == Err::<(BaseV, LValV), CErrV>(er@));
                        }
                    }
                }
                r2
            }
        }
        Expr::Var(name) => match env.lookup(name) {
            Some(v) => {
                proof {
                    assert(sp_apply_expr(e@, env@, old(base)@)
                        == Ok::<(BaseV, LValV), CErrV>((base@, v@)));
                }
                Ok(v)
            }
            None => {
                let mut msg = String::from_str("unbound variable: ");
                msg.append(name.0.as_str());
                Err(Error::Internal(msg))
            }
        },
        Expr::Load(e1) => {
            let v = match apply_expr(e1, env, base) {
                Ok(v) => v,
                Err(er) => {
                    return Err(er);
                }
            };
            builder::load(v, base)
        }
        Expr::Assign(e1, e2) => {
            let lhs = match apply_expr(e1, env, base) {
                Ok(v) => v,
                Err(er) => {
                    return Err(er);
                }
            };
            let rhs = match apply_expr(e2, env, base) {
                Ok(v) => v,
                Err(er) => {
                    return Err(er);
                }
            };
            let r2 = builder::store(lhs, rhs, base);
            proof {
                assert(sp_apply_expr(e@, env@, old(base)@)
                    == Ok::<(BaseV, LValV), CErrV>((base@, r2@)));
            }
            Ok(r2)
        }
        Expr::Call(f, args) => {
            let fv = match apply_expr(f, env, base) {
                Ok(v) => v,
                Err(er) => {
                    return Err(er);
                }
            };
            let avs = match apply_args(args, env, base) {
                Ok(vs) => vs,
                Err(er) => {
                    return Err(er);
                }
            };
            builder::call(fv, avs, base)
        }
        Expr::If(c, e1, e2) => {
            let cv = match apply_expr(c, env, base) {
                Ok(v) => v,
                Err(er) => {
                    return Err(er);
                }
            };
            let ib = util::insertion_block(base);
            let then_b = match util::append_block(ib, base) {
                Ok(b) => b,
                Err(er) => {
                    return Err(er);
                }
            };
            let else_b = match util::append_block(then_b, base) {
                Ok(b) => b,
                Err(er) => {
                    return Err(er);
                }
            };
            let merge_b = match util::append_block(else_b, base) {
                Ok(b) => b,
                Err(er) => {
                    return Err(er);
                }
            };
            builder::cond_branch(cv.dup(), then_b, else_b, base);
            util::position_at_end(then_b, base);
            let v1 = match apply_expr(e1, env, base) {
                Ok(v) => v,
                Err(er) => {
                    return Err(er);
                }
            };
            builder::branch(merge_b, base);
            let then_end = util::insertion_block(base);
            util::position_at_end(else_b, base);
            let v2 = match apply_expr(e2, env, base) {
                Ok(v) => v,
                Err(er) => {
                    return Err(er);
                }
            };
            builder::branch(merge_b, base);
            let else_end = util::insertion_block(base);
            util::position_at_end(merge_b, base);
            let pty = match typ::type_of(&v1, base) {
                Ok(t) => t,
                Err(er) => {
                    return Err(er);
                }
            };
            let mut incoming: Vec<(LVal, usize)> = Vec::new();
            let ghost v1v = v1@;
            let ghost v2v = v2@;
            incoming.push((v1, then_end));
            incoming.push((v2, else_end));
            proof {
                assert(base::view_incoming(incoming@)
                    =~= seq![(v1v, then_end), (v2v, else_end)]);
            }
            let r2 = builder::phi(pty, incoming, base);
            proof {
                assert(sp_apply_expr(e@, env@, old(base)@)
                    == Ok::<(BaseV, LValV), CErrV>((base@, r2@)));
            }
            Ok(r2)
        }
        Expr::BinOp(op, e1, e2) => {
            let v1 = match apply_expr(e1, env, base) {
                Ok(v) => v,
                Err(er) => {
                    return Err(er);
                }
            };
            let v2 = match apply_expr(e2, env, base) {
                Ok(v) => v,
                Err(er) => {
                    return Err(er);
                }
            };
            let r2 = match op {
                BinOp::Add => builder::bin(ArithOp::Add, v1, v2, base),
                BinOp::Sub => builder::bin(ArithOp::Sub, v1, v2, base),
                BinOp::Mult => builder::bin(ArithOp::Mul, v1, v2, base),
                BinOp::Div => builder::bin(ArithOp::Div, v1, v2, base),
                BinOp::Eq => builder::icmp(CmpPred::Eq, v1, v2, base),
                BinOp::Neq => builder::icmp(CmpPred::Ne, v1, v2, base),
                BinOp::Lt => builder::icmp(CmpPred::Slt, v1, v2, base),
                BinOp::Gt => builder::icmp(CmpPred::Sgt, v1, v2, base),
                BinOp::Leq => builder::icmp(CmpPred::Sle, v1, v2, base),
                BinOp::Geq => builder::icmp(CmpPred::Sge, v1, v2, base),
            };
            proof {
                assert(sp_apply_expr(e@, env@, old(base)@)
                    == Ok::<(BaseV, LValV), CErrV>((base@, r2@)));
            }
            Ok(r2)
        }
        Expr::ArrayAt(a, i) => {
            let va = match apply_expr(a, env, base) {
                Ok(v) => v,
                Err(er) => {
                    return Err(er);
                }
            };
            let vi = match apply_expr(i, env, base) {
                Ok(v) => v,
                Err(er) => {
                    return Err(er);
                }
            };
            builder::gep(va, vi, base)
        }
        Expr::TupleAt(e1, k) => {
            let v = match apply_expr(e1, env, base) {
                Ok(v) => v,
                Err(er) => {
                    return Err(er);
                }
            };
            if *k > 0x7fff_ffff {
                Err(Error::Internal(String::from_str("tuple index too large")))
            } else {
                builder::gep(v, LVal::CInt(*k as i32), base)
            }
        }
        Expr::PrintNum(e1) => {
            let v = match apply_expr(e1, env, base) {
                Ok(v) => v,
                Err(er) => {
                    return Err(er);
                }
            };
            builder::print_num(v, base)
        }
    }
}

/// Lowers an argument (or element) list left to right.
#[verifier::loop_isolation(false)]
pub fn apply_args(args: &Vec<Expr>, env: &Env<LVal>, base: &mut Base) -> (r: Result<
    Vec<LVal>,
    Error,
>)
    ensures
        match r {
            Ok(vs) => sp_apply_args(view_exprs(args@), env@, old(base)@)
                == Ok::<(BaseV, Seq<LValV>), CErrV>((final(base)@, view_lvals(vs@))),
            Err(er) => sp_apply_args(view_exprs(args@), env@, old(base)@)
                == Err::<(BaseV, Seq<LValV>), CErrV>(er@),
        },
    decreases args,
{
    let ghost argsv = view_exprs(args@);
    let ghost s0 = base@;
    let mut out: Vec<LVal> = Vec::new();
    let mut i: usize = 0;
    proof {
        assert(argsv.skip(0) =~= argsv);
    }
    while i < args.len()
        invariant
            i <= args.len(),
            argsv == view_exprs(args@),
            out@.len() == i,
            sp_apply_args(argsv, env@, s0) == (match sp_apply_args(
                argsv.skip(i as int),
                env@,
                base@,
            ) {
                Ok((sf, vs)) => Ok::<(BaseV, Seq<LValV>), CErrV>((sf, view_lvals(out@) + vs)),
                Err(er) => Err::<(BaseV, Seq<LValV>), CErrV>(er),
            }),
        decreases args.len() - i,
    {
        proof {
            assert(argsv.skip(i as int)[0] == argsv[i as int]);
            assert(argsv.skip(i as int).drop_first() =~= argsv.skip(i as int + 1));
            assert(argsv[i as int] == view_expr(args@[i as int]));
            assert(decreases_to!((*args) => (*args)@));
            assert(decreases_to!((*args)@ => (*args)@[i as int]));
        }
        match apply_expr(&args[i], env, base) {
            Ok(v) => {
                let ghost old_out = out@;
                out.push(v);
                proof {
                    match sp_apply_args(argsv.skip(i as int + 1), env@, base@) {
                        Ok((sf, vs)) => {
                            assert(view_lvals(out@) + vs
                                =~= view_lvals(old_out) + (seq![v@] + vs));
                        }
                        Err(_) => {}
                    }
                }
            }
            Err(er) => {
                return Err(er);
            }
        }
        i = i + 1;
    }
    proof {
        assert(argsv.skip(args@.len() as int) =~= Seq::<ExprV>::empty());
        assert(view_lvals(out@) + Seq::<LValV>::empty() =~= view_lvals(out@));
    }
    Ok(out)
}

/// Lowers one literal at the current insertion point.
#[verifier::rlimit(100)]
pub fn apply_literal(l: &Literal, env: &Env<LVal>, base: &mut Base) -> (r: Result<LVal, Error>)
    ensures
        match r {
            Ok(v) => sp_apply_lit(l@, env@, old(base)@)
                == Ok::<(BaseV, LValV), CErrV>((final(base)@, v@)),
            Err(er) => sp_apply_lit(l@, env@, old(base)@)
                == Err::<(BaseV, LValV), CErrV>(er@),
        },
    decreases l,
{
    match l {
        Literal::Bool(b) => Ok(lit::bool_lit(*b)),
        Literal::Char(c) => Ok(lit::char_lit(*c)),
        Literal::Int(n) => Ok(lit::int32(*n)),
        Literal::Array(es, t) => {
            proof {
                assert(decreases_to!((*l) => (*l)->Array_0));
                assert((*l)->Array_0 == *es);
            }
            let vs = match apply_args(es, env, base) {
                Ok(vs) => vs,
                Err(er) => {
                    return Err(er);
                }
            };
            let lt = apply_type(t);
            lit::array(vs, lt, base)
        }
        Literal::Tuple(es) => {
            proof {
                assert(decreases_to!((*l) => (*l)->Tuple_0));
                assert((*l)->Tuple_0 == *es);
            }
            let vs = match apply_args(es, env, base) {
                Ok(vs) => vs,
                Err(er) => {
                    return Err(er);
                }
            };
            lit::tuple(vs, base)
        }
        Literal::ExternalFunc(n, t) => {
            let lt = apply_type(t);
            let r2 = lit::external_func(n.clone(), lt, base);
            proof {
                assert(sp_apply_lit(l@, env@, old(base)@)
                    == Ok::<(BaseV, LValV), CErrV>((base@, r2@)));
            }
            Ok(r2)
        }
    }
}

} // verus!
