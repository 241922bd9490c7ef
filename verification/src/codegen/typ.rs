//! Structural lowering of NF types to target types, sizes of target types,
//! and the type of an already-generated value.

use vstd::prelude::*;

verus! {

use crate::{Type, TypeV, Dup};
use crate::codegen::base::{
    Base, BaseV, LTy, LTyV, LVal, LValV, view_lty, view_ltys, dup_ltys,
};
use crate::codegen::error::{Error, CErrV};
use vstd::string::StringExecFns;

/// The mirrored 1:1 type mapping: `Void`, `Bool`, `Char`, `Int` map to their
/// scalar targets, and `Func`/`Array`/`Pointer`/`Tuple` map structurally.
pub open spec fn sp_apply_type(t: TypeV) -> LTyV
    decreases t,
{
    match t {
        TypeV::Void => LTyV::Void,
        TypeV::Bool => LTyV::I1,
        TypeV::Char => LTyV::I8,
        TypeV::Int => LTyV::I32,
        TypeV::Func(ps, r) => LTyV::Fn(
            sp_apply_types(ps),
            Box::new(sp_apply_type(*r)),
            false,
        ),
        TypeV::Array(e, n) => LTyV::Arr(Box::new(sp_apply_type(*e)), n),
        TypeV::Pointer(p) => LTyV::Ptr(Box::new(sp_apply_type(*p))),
        TypeV::Tuple(es) => LTyV::Struct(sp_apply_types(es)),
    }
}

pub open spec fn sp_apply_types(ts: Seq<TypeV>) -> Seq<LTyV>
    decreases ts,
{
    Seq::new(
        ts.len(),
        |i: int| if 0 <= i < ts.len() {
            sp_apply_type(ts[i])
        } else {
            LTyV::Void
        },
    )
}

/// Lowers one NF type to its target type.
#[verifier::loop_isolation(false)]
pub fn apply_type(t: &Type) -> (r: LTy)
    ensures
        r@ == sp_apply_type(t@),
    decreases t,
{
    match t {
        Type::Void => LTy::Void,
        Type::Bool => LTy::I1,
        Type::Char => LTy::I8,
        Type::Int => LTy::I32,
        Type::Func(ps, ret) => {
            let lps = apply_types(ps);
            LTy::Fn(lps, Box::new(apply_type(ret)), false)
        }
        Type::Array(e, n) => LTy::Arr(Box::new(apply_type(e)), *n),
        Type::Pointer(p) => LTy::Ptr(Box::new(apply_type(p))),
        Type::Tuple(es) => LTy::Struct(apply_types(es)),
    }
}

/// Lowers a list of NF types.
#[verifier::loop_isolation(false)]
pub fn apply_types(ts: &Vec<Type>) -> (r: Vec<LTy>)
    ensures
        view_ltys(r@) == sp_apply_types(crate::view_types(ts@)),
    decreases ts,
{
    let mut out: Vec<LTy> = Vec::new();
    let mut i: usize = 0;
    while i < ts.len()
        invariant
            i <= ts.len(),
            out@.len() == i,
            forall|j: int| 0 <= j < i ==> view_lty(out@[j]) == sp_apply_type(crate::view_type(ts@[j])),
        decreases ts.len() - i,
    {
        proof {
            assert(decreases_to!((*ts) => (*ts)@));
            assert(decreases_to!((*ts)@ => (*ts)@[i as int]));
        }
        out.push(apply_type(&ts[i]));
        i = i + 1;
    }
    proof {
        assert(view_ltys(out@) =~= sp_apply_types(crate::view_types(ts@)));
    }
    out
}

/// The target constructors, kept as small named builders.
pub fn void() -> (r: LTy)
    ensures
        r@ == LTyV::Void,
{
    LTy::Void
}

pub fn bool_ty() -> (r: LTy)
    ensures
        r@ == LTyV::I1,
{
    LTy::I1
}

pub fn int8() -> (r: LTy)
    ensures
        r@ == LTyV::I8,
{
    LTy::I8
}

pub fn char_ty() -> (r: LTy)
    ensures
        r@ == LTyV::I8,
{
    int8()
}

pub fn int32() -> (r: LTy)
    ensures
        r@ == LTyV::I32,
{
    LTy::I32
}

pub fn char_ptr() -> (r: LTy)
    ensures
        r@ == LTyV::Ptr(Box::new(LTyV::I8)),
{
    proof {
        assert(view_lty(LTy::I8) == LTyV::I8);
    }
    LTy::Ptr(Box::new(LTy::I8))
}

pub fn func(from: Vec<LTy>, to: LTy) -> (r: LTy)
    ensures
        r@ == LTyV::Fn(view_ltys(from@), Box::new(to@), false),
{
    LTy::Fn(from, Box::new(to), false)
}

pub fn variadic_func(from: Vec<LTy>, to: LTy) -> (r: LTy)
    ensures
        r@ == LTyV::Fn(view_ltys(from@), Box::new(to@), true),
{
    LTy::Fn(from, Box::new(to), true)
}

pub fn ptr(t: LTy) -> (r: LTy)
    ensures
        r@ == LTyV::Ptr(Box::new(t@)),
{
    LTy::Ptr(Box::new(t))
}

pub fn array(t: LTy, len: usize) -> (r: LTy)
    ensures
        r@ == LTyV::Arr(Box::new(t@), len),
{
    LTy::Arr(Box::new(t), len)
}

pub fn tuple(elems: Vec<LTy>) -> (r: LTy)
    ensures
        r@ == LTyV::Struct(view_ltys(elems@)),
{
    LTy::Struct(elems)
}

/// The byte size of a target type, as the block-copy builtin is handed it:
/// scalars by width, a pointer eight bytes, an array its element count times
/// the element size, a record the plain sum of its fields.
pub open spec fn sp_size_of(t: LTyV) -> nat
    decreases t,
{
    match t {
        LTyV::Void => 0,
        LTyV::I1 => 1,
        LTyV::I8 => 1,
        LTyV::I32 => 4,
        LTyV::I64 => 8,
        LTyV::Ptr(_) => 8,
        LTyV::Fn(_, _, _) => 8,
        LTyV::Arr(e, n) => (n * sp_size_of(*e)) as nat,
        LTyV::Struct(es) => sp_size_sum(es),
    }
}

pub open spec fn sp_size_sum(ts: Seq<LTyV>) -> nat
    decreases ts,
{
    if ts.len() == 0 {
        0
    } else {
        sp_size_of(ts[0]) + sp_size_sum(ts.drop_first())
    }
}

/// Computes the byte size of a target type, or fails when it does not fit the
/// machine word.
#[verifier::loop_isolation(false)]
pub fn size_of(t: &LTy) -> (r: Result<usize, Error>)
    ensures
        match r {
            Ok(s) => s == sp_size_of(t@),
            Err(er) => sp_size_of(t@) > usize::MAX
                && er@ == CErrV::Internal("aggregate too large"@),
        },
    decreases t,
{
    match t {
        LTy::Void => Ok(0),
        LTy::I1 => Ok(1),
        LTy::I8 => Ok(1),
        LTy::I32 => Ok(4),
        LTy::I64 => Ok(8),
        LTy::Ptr(_) => Ok(8),
        LTy::Fn(_, _, _) => Ok(8),
        LTy::Arr(e, n) => {
            if *n == 0 {
                return Ok(0);
            }
            let es = match size_of(e) {
                Ok(s) => s,
                Err(er) => {
                    proof {
                        assert((*n) * sp_size_of((**e)@) >= sp_size_of((**e)@))
                            by (nonlinear_arith)
                            requires *n >= 1, sp_size_of((**e)@) >= 0;
                    }
                    return Err(er);
                }
            };
            match n.checked_mul(es) {
                Some(s) => Ok(s),
                None => Err(Error::Internal(String::from_str("aggregate too large"))),
            }
        }
        LTy::Struct(es) => {
            let ghost tsv = view_ltys(es@);
            let mut total: usize = 0;
            let mut i: usize = 0;
            proof {
                assert(tsv.skip(0) =~= tsv);
            }
            while i < es.len()
                invariant
                    i <= es.len(),
                    sp_size_sum(tsv) == total + sp_size_sum(tsv.skip(i as int)),
                decreases es.len() - i,
            {
                proof {
                    assert(tsv.skip(i as int)[0] == tsv[i as int]);
                    assert(tsv.skip(i as int).drop_first() =~= tsv.skip(i as int + 1));
                    assert(decreases_to!((*es) => (*es)@));
                    assert(decreases_to!((*es)@ => (*es)@[i as int]));
                }
                let s = size_of(&es[i])?;
                match total.checked_add(s) {
                    Some(tt) => {
                        total = tt;
                    }
                    None => {
                        proof {
                            assert(sp_size_sum(tsv.skip(i as int)) >= sp_size_of(tsv[i as int]));
                        }
                        return Err(Error::Internal(String::from_str("aggregate too large")));
                    }
                }
                i = i + 1;
            }
            proof {
                assert(tsv.skip(es@.len() as int) =~= Seq::<LTyV>::empty());
            }
            Ok(total)
        }
    }
}

/// The type of an already-generated value under a context: constants are
/// typed structurally, a global or function reference is the address of its
/// declared type, a register has the type recorded when it was defined, and
/// an argument the matching parameter type of the current function.
pub open spec fn sp_type_of(s: BaseV, v: LValV) -> Option<LTyV>
    decreases v,
{
    match v {
        LValV::CBool(_) => Some(LTyV::I1),
        LValV::CChar(_) => Some(LTyV::I8),
        LValV::CInt(_) => Some(LTyV::I32),
        LValV::CSize(_) => Some(LTyV::I64),
        LValV::CArr(es, t) => Some(LTyV::Arr(Box::new(t), es.len() as usize)),
        LValV::CStruct(es) => match sp_types_of(s, es) {
            Some(ts) => Some(LTyV::Struct(ts)),
            None => None,
        },
        LValV::GlobalRef(g) => if g < s.m.globals.len() {
            Some(LTyV::Ptr(Box::new(s.m.globals[g as int].ty)))
        } else {
            None
        },
        LValV::FuncRef(f) => if f < s.m.funcs.len() {
            Some(LTyV::Ptr(Box::new(s.m.funcs[f as int].ty)))
        } else {
            None
        },
        LValV::Reg(r) => if r < s.reg_tys.len() {
            Some(s.reg_tys[r as int])
        } else {
            None
        },
        LValV::Arg(i) => if s.cur_func < s.m.funcs.len() {
            match s.m.funcs[s.cur_func as int].ty {
                LTyV::Fn(ps, _, _) => if i < ps.len() {
                    Some(ps[i as int])
                } else {
                    None
                },
                _ => None,
            }
        } else {
            None
        },
    }
}

/// Executable typing of a value list, mirroring `sp_types_of`.
#[verifier::loop_isolation(false)]
pub fn types_of(vs: &Vec<LVal>, base: &Base) -> (r: Result<Vec<LTy>, Error>)
    ensures
        match r {
            Ok(ts) => sp_types_of(base@, crate::codegen::base::view_lvals(vs@))
                == Some(view_ltys(ts@)),
            Err(er) => sp_types_of(base@, crate::codegen::base::view_lvals(vs@)) is None
                && er@ == CErrV::Internal("value has no type"@),
        },
    decreases vs,
{
    let ghost vsv = crate::codegen::base::view_lvals(vs@);
    let mut tys: Vec<LTy> = Vec::new();
    let mut i: usize = 0;
    proof {
        assert(vsv.skip(0) =~= vsv);
    }
    while i < vs.len()
        invariant
            i <= vs.len(),
            tys@.len() == i,
            vsv == crate::codegen::base::view_lvals(vs@),
            sp_types_of(base@, vsv) == (match sp_types_of(base@, vsv.skip(i as int)) {
                Some(ts) => Some(view_ltys(tys@) + ts),
                None => None::<Seq<LTyV>>,
            }),
        decreases vs.len() - i,
    {
        proof {
            assert(vsv.skip(i as int)[0] == vsv[i as int]);
            assert(vsv.skip(i as int).drop_first() =~= vsv.skip(i as int + 1));
            assert(decreases_to!((*vs) => (*vs)@));
            assert(decreases_to!((*vs)@ => (*vs)@[i as int]));
        }
        match type_of(&vs[i], base) {
            Ok(t) => {
                let ghost old_tys = tys@;
                tys.push(t);
                proof {
                    match sp_types_of(base@, vsv.skip(i as int + 1)) {
                        Some(ts) => {
                            assert(view_ltys(tys@) + ts =~= view_ltys(old_tys) + (seq![t@] + ts));
                        }
                        None => {}
                    }
                }
            }
            Err(er) => {
                return Err(er);
            }
        }
        i = i + 1;
    }
    proof {
        assert(vsv.skip(vs@.len() as int) =~= Seq::<LValV>::empty());
        assert(view_ltys(tys@) + Seq::<LTyV>::empty() =~= view_ltys(tys@));
    }
    Ok(tys)
}

pub open spec fn sp_types_of(s: BaseV, vs: Seq<LValV>) -> Option<Seq<LTyV>>
    decreases vs,
{
    if vs.len() == 0 {
        Some(Seq::empty())
    } else {
        match sp_type_of(s, vs[0]) {
            Some(t) => match sp_types_of(s, vs.drop_first()) {
                Some(ts) => Some(seq![t] + ts),
                None => None,
            },
            None => None,
        }
    }
}

/// Executable value typing; an untypable value is a checker/generator
/// inconsistency.
#[verifier::loop_isolation(false)]
pub fn type_of(v: &LVal, base: &Base) -> (r: Result<LTy, Error>)
    ensures
        match r {
            Ok(t) => sp_type_of(base@, v@) == Some(t@),
            Err(er) => sp_type_of(base@, v@) is None
                && er@ == CErrV::Internal("value has no type"@),
        },
    decreases v,
{
    match v {
        LVal::CBool(_) => {
            proof {
                assert(sp_type_of(base@, v@) == Some(view_lty(LTy::I1)));
            }
            Ok(LTy::I1)
        }
        LVal::CChar(_) => {
            proof {
                assert(sp_type_of(base@, v@) == Some(view_lty(LTy::I8)));
            }
            Ok(LTy::I8)
        }
        LVal::CInt(_) => {
            proof {
                assert(sp_type_of(base@, v@) == Some(view_lty(LTy::I32)));
            }
            Ok(LTy::I32)
        }
        LVal::CSize(_) => {
            proof {
                assert(sp_type_of(base@, v@) == Some(view_lty(LTy::I64)));
            }
            Ok(LTy::I64)
        }
        LVal::CArr(es, t) => {
            let r2 = LTy::Arr(Box::new(t.dup()), es.len());
            proof {
                assert(sp_type_of(base@, v@) == Some(r2@));
            }
            Ok(r2)
        }
        LVal::CStruct(es) => {
            proof {
                assert(decreases_to!((*v) => (*v)->CStruct_0));
                assert((*v)->CStruct_0 == *es);
            }
            match types_of(es, base) {
                Ok(tys) => {
                    let r2 = LTy::Struct(tys);
                    proof {
                        assert(sp_type_of(base@, v@) == Some(r2@));
                    }
                    Ok(r2)
                }
                Err(er) => Err(er),
            }
        }
        LVal::GlobalRef(g) => {
            if *g < base.module.globals.len() {
                let r2 = LTy::Ptr(Box::new(base.module.globals[*g].ty.dup()));
                proof {
                    assert(sp_type_of(base@, v@) == Some(r2@));
                }
                Ok(r2)
            } else {
                proof {
                    assert(sp_type_of(base@, v@) is None);
                }
                Err(Error::Internal(String::from_str("value has no type")))
            }
        }
        LVal::FuncRef(f) => {
            if *f < base.module.funcs.len() {
                let r2 = LTy::Ptr(Box::new(base.module.funcs[*f].ty.dup()));
                proof {
                    assert(sp_type_of(base@, v@) == Some(r2@));
                }
                Ok(r2)
            } else {
                proof {
                    assert(sp_type_of(base@, v@) is None);
                }
                Err(Error::Internal(String::from_str("value has no type")))
            }
        }
        LVal::Reg(r) => {
            if *r < base.reg_tys.len() {
                let r2 = base.reg_tys[*r].dup();
                proof {
                    assert(view_ltys(base.reg_tys@)[*r as int] == view_lty(base.reg_tys@[*r as int]));
                    assert(sp_type_of(base@, v@) == Some(r2@));
                }
                Ok(r2)
            } else {
                proof {
                    assert(sp_type_of(base@, v@) is None);
                }
                Err(Error::Internal(String::from_str("value has no type")))
            }
        }
        LVal::Arg(i) => {
            if base.cur_func < base.module.funcs.len() {
                proof {
                    assert(base@.m.funcs[base.cur_func as int].ty
                        == view_lty(base.module.funcs@[base.cur_func as int].ty));
                }
                match &base.module.funcs[base.cur_func].ty {
                    LTy::Fn(ps, _, _) => {
                        if *i < ps.len() {
                            let r2 = ps[*i].dup();
                            proof {
                                assert(view_ltys(ps@)[*i as int] == view_lty(ps@[*i as int]));
                                assert(sp_type_of(base@, v@) == Some(r2@));
                            }
                            Ok(r2)
                        } else {
                            proof {
                                assert(view_ltys(ps@).len() == ps@.len());
                                assert(sp_type_of(base@, v@) is None);
                            }
                            Err(Error::Internal(String::from_str("value has no type")))
                        }
                    }
                    _ => {
                        proof {
                            assert(sp_type_of(base@, v@) is None);
                        }
                        Err(Error::Internal(String::from_str("value has no type")))
                    }
                }
            } else {
                proof {
                    assert(sp_type_of(base@, v@) is None);
                }
                Err(Error::Internal(String::from_str("value has no type")))
            }
        }
    }
}

} // verus!
