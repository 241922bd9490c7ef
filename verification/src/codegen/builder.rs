//! Instruction emission at the builder's current insertion point.
//!
//! Every builder appends to the block the cursor points at and, where it
//! defines a value, records the new register's type. Each is mirrored by a
//! spec function over [`BaseV`], and the executable builder returns exactly
//! the mirrored state and value.

use vstd::prelude::*;

verus! {

use crate::Dup;
use crate::codegen::base::{
    ArithOp, Base, BaseV, CmpPred, GlobalDef, GlobalV, Inst, InstV, LTy, LTyV, LVal, LValV,
    ModuleV, is_const_v, is_constant, view_lty, view_lvals, view_incoming,
};
use crate::codegen::error::{Error, CErrV};
use crate::codegen::typ::{sp_size_of, size_of, sp_type_of, type_of};
use vstd::string::StringExecFns;

/// Appends one instruction to the current block.
pub open spec fn sp_emit(s: BaseV, i: InstV) -> BaseV {
    BaseV { m: ModuleV { insts: s.m.insts.push((s.cur_block, i)), ..s.m }, ..s }
}

fn emit(base: &mut Base, inst: Inst)
    ensures
        final(base)@ == sp_emit(old(base)@, inst@),
{
    let ghost iv = inst@;
    let cb = base.cur_block;
    base.module.insts.push((cb, inst));
    proof {
        assert(base@ =~~= sp_emit(old(base)@, iv));
    }
}

/// Defines a fresh register of the given type; its id is the next free one.
pub open spec fn sp_fresh_reg(s: BaseV, t: LTyV) -> BaseV {
    BaseV { reg_tys: s.reg_tys.push(t), ..s }
}

fn fresh_reg(base: &mut Base, ty: LTy) -> (r: usize)
    ensures
        final(base)@ == sp_fresh_reg(old(base)@, ty@),
        r == old(base)@.reg_tys.len(),
{
    let ghost tv = ty@;
    let r = base.reg_tys.len();
    base.reg_tys.push(ty);
    proof {
        assert(crate::codegen::base::view_ltys(base.reg_tys@)
            =~= old(base)@.reg_tys.push(tv));
        assert(base@ =~~= sp_fresh_reg(old(base)@, tv));
    }
    r
}

/// A stack slot of the given type in the current block.
pub open spec fn sp_alloca(s: BaseV, name: Seq<char>, t: LTyV) -> (BaseV, LValV) {
    let r = s.reg_tys.len();
    let s1 = sp_fresh_reg(s, LTyV::Ptr(Box::new(t)));
    let s2 = sp_emit(s1, InstV::Alloca { dst: r as usize, name: name, ty: t });
    (s2, LValV::Reg(r as usize))
}

pub fn alloca(name: &str, ty: LTy, base: &mut Base) -> (r: LVal)
    ensures
        (final(base)@, r@) == sp_alloca(old(base)@, name@, ty@),
{
    let ghost tv = ty@;
    let ty2 = ty.dup();
    let reg = fresh_reg(base, LTy::Ptr(Box::new(ty2)));
    emit(base, Inst::Alloca { dst: reg, name: name.to_owned(), ty });
    LVal::Reg(reg)
}

/// A store through an address; the builder hands the address back, so an
/// assignment's value is the target address itself.
pub open spec fn sp_store(s: BaseV, ptr: LValV, val: LValV) -> BaseV {
    sp_emit(s, InstV::Store { ptr: ptr, val: val })
}

pub fn store(var: LVal, val: LVal, base: &mut Base) -> (r: LVal)
    ensures
        final(base)@ == sp_store(old(base)@, var@, val@),
        r@ == var@,
{
    let p = var.dup();
    emit(base, Inst::Store { ptr: p, val });
    var
}

/// Allocates a named slot and stores the initial value into it; the slot's
/// address is the bound variable's value.
pub open spec fn sp_declare(s: BaseV, name: Seq<char>, t: LTyV, init: LValV) -> (BaseV, LValV) {
    let (s1, var) = sp_alloca(s, name, t);
    (sp_store(s1, var, init), var)
}

pub fn declare(name: &str, ty: LTy, init: LVal, base: &mut Base) -> (r: LVal)
    ensures
        (final(base)@, r@) == sp_declare(old(base)@, name@, ty@, init@),
{
    let var = alloca(name, ty, base);
    store(var, init, base)
}

/// A load through an address; the result register has the pointee type. A
/// non-address operand is a checker/generator inconsistency.
pub open spec fn sp_load(s: BaseV, ptr: LValV) -> Result<(BaseV, LValV), CErrV> {
    match sp_type_of(s, ptr) {
        Some(t) => match t {
            LTyV::Ptr(inner) => {
                let r = s.reg_tys.len();
                let s1 = sp_fresh_reg(s, *inner);
                let s2 = sp_emit(s1, InstV::Load { dst: r as usize, ptr: ptr });
                Ok((s2, LValV::Reg(r as usize)))
            },
            _ => Err(CErrV::Internal("load from a non-address value"@)),
        },
        None => Err(CErrV::Internal("value has no type"@)),
    }
}

pub fn load(ptr: LVal, base: &mut Base) -> (r: Result<LVal, Error>)
    ensures
        match r {
            Ok(v) => sp_load(old(base)@, ptr@) == Ok::<_, CErrV>((final(base)@, v@)),
            Err(er) => sp_load(old(base)@, ptr@) == Err::<(BaseV, LValV), _>(er@)
                && final(base)@ == old(base)@,
        },
{
    let t = match type_of(&ptr, base) {
        Ok(t) => t,
        Err(er) => return Err(er),
    };
    match t {
        LTy::Ptr(inner) => {
            let reg = fresh_reg(base, *inner);
            emit(base, Inst::Load { dst: reg, ptr });
            Ok(LVal::Reg(reg))
        }
        _ => Err(Error::Internal(String::from_str("load from a non-address value"))),
    }
}

/// An unconditional return.
pub open spec fn sp_ret(s: BaseV, v: LValV) -> BaseV {
    sp_emit(s, InstV::Ret { val: v })
}

pub fn ret(val: LVal, base: &mut Base)
    ensures
        final(base)@ == sp_ret(old(base)@, val@),
{
    emit(base, Inst::Ret { val });
}

/// A signed arithmetic instruction; the result register is a 32-bit integer,
/// the only arithmetic type of the language.
pub open spec fn sp_bin(s: BaseV, op: ArithOp, lhs: LValV, rhs: LValV) -> (BaseV, LValV) {
    let r = s.reg_tys.len();
    let s1 = sp_fresh_reg(s, LTyV::I32);
    let s2 = sp_emit(s1, InstV::Bin { dst: r as usize, op: op, lhs: lhs, rhs: rhs });
    (s2, LValV::Reg(r as usize))
}

pub fn bin(op: ArithOp, lhs: LVal, rhs: LVal, base: &mut Base) -> (r: LVal)
    ensures
        (final(base)@, r@) == sp_bin(old(base)@, op, lhs@, rhs@),
{
    let reg = fresh_reg(base, LTy::I32);
    emit(base, Inst::Bin { dst: reg, op, lhs, rhs });
    LVal::Reg(reg)
}

/// A signed comparison; the result register is a one-bit boolean.
pub open spec fn sp_icmp(s: BaseV, pred: CmpPred, lhs: LValV, rhs: LValV) -> (BaseV, LValV) {
    let r = s.reg_tys.len();
    let s1 = sp_fresh_reg(s, LTyV::I1);
    let s2 = sp_emit(s1, InstV::Icmp { dst: r as usize, pred: pred, lhs: lhs, rhs: rhs });
    (s2, LValV::Reg(r as usize))
}

pub fn icmp(pred: CmpPred, lhs: LVal, rhs: LVal, base: &mut Base) -> (r: LVal)
    ensures
        (final(base)@, r@) == sp_icmp(old(base)@, pred, lhs@, rhs@),
{
    let reg = fresh_reg(base, LTy::I1);
    emit(base, Inst::Icmp { dst: reg, pred, lhs, rhs });
    LVal::Reg(reg)
}

/// An unconditional branch.
pub open spec fn sp_branch(s: BaseV, dest: usize) -> BaseV {
    sp_emit(s, InstV::Br { dest: dest })
}

pub fn branch(dest: usize, base: &mut Base)
    ensures
        final(base)@ == sp_branch(old(base)@, dest),
{
    emit(base, Inst::Br { dest });
}

/// A two-way conditional branch.
pub open spec fn sp_cond_branch(s: BaseV, cond: LValV, then_dest: usize, else_dest: usize) -> BaseV {
    sp_emit(s, InstV::CondBr { cond: cond, then_dest: then_dest, else_dest: else_dest })
}

pub fn cond_branch(cond: LVal, then_dest: usize, else_dest: usize, base: &mut Base)
    ensures
        final(base)@ == sp_cond_branch(old(base)@, cond@, then_dest, else_dest),
{
    emit(base, Inst::CondBr { cond, then_dest, else_dest });
}

/// A phi node of the given type with the given (value, predecessor) pairs.
pub open spec fn sp_phi(s: BaseV, t: LTyV, incoming: Seq<(LValV, usize)>) -> (BaseV, LValV) {
    let r = s.reg_tys.len();
    let s1 = sp_fresh_reg(s, t);
    let s2 = sp_emit(s1, InstV::Phi { dst: r as usize, ty: t, incoming: incoming });
    (s2, LValV::Reg(r as usize))
}

pub fn phi(ty: LTy, incoming: Vec<(LVal, usize)>, base: &mut Base) -> (r: LVal)
    ensures
        (final(base)@, r@) == sp_phi(old(base)@, ty@, view_incoming(incoming@)),
{
    let ty2 = ty.dup();
    let reg = fresh_reg(base, ty2);
    emit(base, Inst::Phi { dst: reg, ty, incoming });
    LVal::Reg(reg)
}

/// A call through a function address; the result register has the callee's
/// return type. A callee without a function-address type is a
/// checker/generator inconsistency.
pub open spec fn sp_call(s: BaseV, callee: LValV, args: Seq<LValV>) -> Result<(BaseV, LValV), CErrV> {
    match sp_type_of(s, callee) {
        Some(t) => match t {
            LTyV::Ptr(inner) => match *inner {
                LTyV::Fn(_, ret, _) => {
                    let r = s.reg_tys.len();
                    let s1 = sp_fresh_reg(s, *ret);
                    let s2 = sp_emit(
                        s1,
                        InstV::Call { dst: r as usize, callee: callee, args: args },
                    );
                    Ok((s2, LValV::Reg(r as usize)))
                },
                _ => Err(CErrV::Internal("call of a non-function value"@)),
            },
            _ => Err(CErrV::Internal("call of a non-function value"@)),
        },
        None => Err(CErrV::Internal("value has no type"@)),
    }
}

pub fn call(callee: LVal, args: Vec<LVal>, base: &mut Base) -> (r: Result<LVal, Error>)
    ensures
        match r {
            Ok(v) => sp_call(old(base)@, callee@, view_lvals(args@))
                == Ok::<_, CErrV>((final(base)@, v@)),
            Err(er) => sp_call(old(base)@, callee@, view_lvals(args@))
                == Err::<(BaseV, LValV), _>(er@) && final(base)@ == old(base)@,
        },
{
    let t = match type_of(&callee, base) {
        Ok(t) => t,
        Err(er) => return Err(er),
    };
    let ghost tv = t@;
    match t {
        LTy::Ptr(inner) => {
            proof {
                assert(tv == LTyV::Ptr(Box::new(crate::codegen::base::view_lty(*inner))));
            }
            match *inner {
                LTy::Fn(_, ret, _) => {
                    let reg = fresh_reg(base, *ret);
                    emit(base, Inst::Call { dst: reg, callee, args });
                    Ok(LVal::Reg(reg))
                }
                _ => Err(Error::Internal(String::from_str("call of a non-function value"))),
            }
        }
        _ => Err(Error::Internal(String::from_str("call of a non-function value"))),
    }
}

/// An element address: a base address plus one index under an implied zero
/// outer index. The result is an address of the element or field type; it
/// never dereferences.
pub open spec fn sp_gep(s: BaseV, b: LValV, idx: LValV) -> Result<(BaseV, LValV), CErrV> {
    match sp_type_of(s, b) {
        Some(t) => match t {
            LTyV::Ptr(inner) => {
                let elem = match *inner {
                    LTyV::Arr(e, _) => Some(*e),
                    LTyV::Struct(fs) => match idx {
                        LValV::CInt(k) => if 0 <= k < fs.len() {
                            Some(fs[k as int])
                        } else {
                            None
                        },
                        _ => None,
                    },
                    _ => None,
                };
                match elem {
                    Some(e) => {
                        let r = s.reg_tys.len();
                        let s1 = sp_fresh_reg(s, LTyV::Ptr(Box::new(e)));
                        let s2 = sp_emit(s1, InstV::Gep { dst: r as usize, base: b, idx: idx });
                        Ok((s2, LValV::Reg(r as usize)))
                    },
                    None => Err(CErrV::Internal("element address of a non-aggregate"@)),
                }
            },
            _ => Err(CErrV::Internal("element address of a non-aggregate"@)),
        },
        None => Err(CErrV::Internal("value has no type"@)),
    }
}

pub fn gep(b: LVal, idx: LVal, base: &mut Base) -> (r: Result<LVal, Error>)
    ensures
        match r {
            Ok(v) => sp_gep(old(base)@, b@, idx@) == Ok::<_, CErrV>((final(base)@, v@)),
            Err(er) => sp_gep(old(base)@, b@, idx@) == Err::<(BaseV, LValV), _>(er@)
                && final(base)@ == old(base)@,
        },
{
    let ghost bv = b@;
    let ghost iv = idx@;
    let t = match type_of(&b, base) {
        Ok(t) => t,
        Err(er) => return Err(er),
    };
    let ghost tv = t@;
    match t {
        LTy::Ptr(inner) => {
            proof {
                assert(tv == LTyV::Ptr(Box::new(crate::codegen::base::view_lty(*inner))));
            }
            let elem: Option<LTy> = match *inner {
                LTy::Arr(e, _) => Some(*e),
                LTy::Struct(fs) => match &idx {
                    LVal::CInt(k) => {
                        if *k >= 0 && (*k as usize) < fs.len() {
                            proof {
                                assert(crate::codegen::base::view_ltys(fs@)[*k as int]
                                    == crate::codegen::base::view_lty(fs@[*k as int]));
                            }
                            Some(fs[*k as usize].dup())
                        } else {
                            proof {
                                assert(crate::codegen::base::view_ltys(fs@).len() == fs@.len());
                                assert(sp_gep(old(base)@, bv, iv) is Err);
                            }
                            None
                        }
                    }
                    _ => {
                        proof {
                            assert(sp_gep(old(base)@, bv, iv) is Err);
                        }
                        None
                    }
                },
                _ => {
                    proof {
                        assert(sp_gep(old(base)@, bv, iv) is Err);
                    }
                    None
                }
            };
            match elem {
                Some(e) => {
                    let reg = fresh_reg(base, LTy::Ptr(Box::new(e)));
                    emit(base, Inst::Gep { dst: reg, base: b, idx });
                    proof {
                        assert(sp_gep(old(base)@, bv, iv)
                            == Ok::<(BaseV, LValV), CErrV>((base@, LValV::Reg(reg))));
                    }
                    Ok(LVal::Reg(reg))
                }
                None => {
                    proof {
                        assert(sp_gep(old(base)@, bv, iv)
                            == Err::<(BaseV, LValV), CErrV>(
                            CErrV::Internal("element address of a non-aggregate"@),
                        ));
                    }
                    Err(Error::Internal(
                        String::from_str("element address of a non-aggregate"),
                    ))
                }
            }
        }
        _ => Err(Error::Internal(String::from_str("element address of a non-aggregate"))),
    }
}

/// A bit-preserving cast of an address value to another target type.
pub open spec fn sp_bitcast(s: BaseV, v: LValV, t: LTyV) -> (BaseV, LValV) {
    let r = s.reg_tys.len();
    let s1 = sp_fresh_reg(s, t);
    let s2 = sp_emit(s1, InstV::Bitcast { dst: r as usize, val: v, ty: t });
    (s2, LValV::Reg(r as usize))
}

pub fn bitcast(v: LVal, ty: LTy, base: &mut Base) -> (r: LVal)
    ensures
        (final(base)@, r@) == sp_bitcast(old(base)@, v@, ty@),
{
    let ty2 = ty.dup();
    let reg = fresh_reg(base, ty2);
    emit(base, Inst::Bitcast { dst: reg, val: v, ty });
    LVal::Reg(reg)
}

/// A raw block copy: both addresses cast to byte pointers, then one call of
/// the block-copy builtin with the byte count.
pub open spec fn sp_copy_block(s: BaseV, dst: LValV, src: LValV, size: usize) -> Result<
    BaseV,
    CErrV,
> {
    let (s1, d8) = sp_bitcast(s, dst, LTyV::Ptr(Box::new(LTyV::I8)));
    let (s2, s8) = sp_bitcast(s1, src, LTyV::Ptr(Box::new(LTyV::I8)));
    match sp_call(s2, LValV::FuncRef(1), seq![d8, s8, LValV::CSize(size)]) {
        Ok((s3, _)) => Ok(s3),
        Err(er) => Err(er),
    }
}

fn copy_block(dst: LVal, src: LVal, size: usize, base: &mut Base) -> (r: Result<(), Error>)
    ensures
        match r {
            Ok(_) => sp_copy_block(old(base)@, dst@, src@, size) == Ok::<BaseV, CErrV>(
                final(base)@,
            ),
            Err(er) => sp_copy_block(old(base)@, dst@, src@, size) == Err::<BaseV, CErrV>(er@),
        },
{
    proof {
        assert(view_lty(LTy::I8) == LTyV::I8);
    }
    let d8 = bitcast(dst, LTy::Ptr(Box::new(LTy::I8)), base);
    let s8 = bitcast(src, LTy::Ptr(Box::new(LTy::I8)), base);
    let ghost d8v = d8@;
    let ghost s8v = s8@;
    let mut args: Vec<LVal> = Vec::new();
    args.push(d8);
    args.push(s8);
    args.push(LVal::CSize(size));
    proof {
        assert(view_lvals(args@) =~= seq![d8v, s8v, LValV::CSize(size)]);
    }
    match call(LVal::FuncRef(1), args, base) {
        Ok(_) => Ok(()),
        Err(er) => Err(er),
    }
}

/// The address a register's value was read from, when its defining
/// instruction is a load: such a value is already materialized in memory,
/// and a binding can block-copy it from there.
pub open spec fn sp_load_source(s: BaseV, v: LValV) -> Option<LValV> {
    match v {
        LValV::Reg(r) => sp_find_load(s.m.insts, r),
        _ => None,
    }
}

/// The pointer operand of the first load instruction defining register `r`.
pub open spec fn sp_find_load(insts: Seq<(usize, InstV)>, r: usize) -> Option<LValV>
    decreases insts.len(),
{
    if insts.len() == 0 {
        None
    } else {
        match insts[0].1 {
            InstV::Load { dst, ptr } => if dst == r {
                Some(ptr)
            } else {
                sp_find_load(insts.drop_first(), r)
            },
            _ => sp_find_load(insts.drop_first(), r),
        }
    }
}

#[verifier::loop_isolation(false)]
fn load_source(v: &LVal, base: &Base) -> (r: Option<LVal>)
    ensures
        crate::env::opt_view(r) == sp_load_source(base@, v@),
{
    match v {
        LVal::Reg(reg) => {
            let ghost insv = base@.m.insts;
            let mut i: usize = 0;
            proof {
                assert(insv.skip(0) =~= insv);
            }
            while i < base.module.insts.len()
                invariant
                    i <= base.module.insts.len(),
                    insv == base@.m.insts,
                    sp_find_load(insv, *reg) == sp_find_load(insv.skip(i as int), *reg),
                decreases base.module.insts.len() - i,
            {
                proof {
                    assert(insv.skip(i as int)[0] == insv[i as int]);
                    assert(insv.skip(i as int).drop_first() =~= insv.skip(i as int + 1));
                }
                match &base.module.insts[i].1 {
                    Inst::Load { dst, ptr } => {
                        if *dst == *reg {
                            return Some(ptr.dup());
                        }
                    }
                    _ => {}
                }
                i = i + 1;
            }
            proof {
                assert(insv.skip(base.module.insts@.len() as int)
                    =~= Seq::<(usize, InstV)>::empty());
            }
            None
        }
        _ => None,
    }
}

/// Binds an array-typed name: the slot is populated by a raw block copy. A
/// constant initializer is first materialized as a named read-only global and
/// copied from there. A non-constant initializer is a value read back from
/// the literal's temporary slot, so the copy source is that slot, recovered
/// from the value's defining load; a value that was not read from memory (a
/// call result, say) has no backing memory and is stored directly instead.
pub open spec fn sp_declare_array(s: BaseV, name: Seq<char>, t: LTyV, init: LValV) -> Result<
    (BaseV, LValV),
    CErrV,
> {
    if is_const_v(init) {
        if sp_size_of(t) > usize::MAX {
            Err(CErrV::Internal("aggregate too large"@))
        } else {
            let size = sp_size_of(t) as usize;
            let g = s.m.globals.len();
            let s1 = BaseV {
                m: ModuleV {
                    globals: s.m.globals.push(
                        GlobalV { name: ".const."@ + name, ty: t, init: init },
                    ),
                    ..s.m
                },
                ..s
            };
            let (s2, slot) = sp_alloca(s1, name, t);
            match sp_copy_block(s2, slot, LValV::GlobalRef(g as usize), size) {
                Ok(s3) => Ok((s3, slot)),
                Err(er) => Err(er),
            }
        }
    } else {
        match sp_load_source(s, init) {
            Some(src) => if sp_size_of(t) > usize::MAX {
                Err(CErrV::Internal("aggregate too large"@))
            } else {
                let size = sp_size_of(t) as usize;
                let (s1, slot) = sp_alloca(s, name, t);
                match sp_copy_block(s1, slot, src, size) {
                    Ok(s2) => Ok((s2, slot)),
                    Err(er) => Err(er),
                }
            },
            None => Ok(sp_declare(s, name, t, init)),
        }
    }
}

pub fn declare_array(name: &str, ty: LTy, init: LVal, base: &mut Base) -> (r: Result<LVal, Error>)
    ensures
        match r {
            Ok(v) => sp_declare_array(old(base)@, name@, ty@, init@)
                == Ok::<(BaseV, LValV), CErrV>((final(base)@, v@)),
            Err(er) => sp_declare_array(old(base)@, name@, ty@, init@)
                == Err::<(BaseV, LValV), CErrV>(er@),
        },
{
    if is_constant(&init) {
        let size = match size_of(&ty) {
            Ok(s) => s,
            Err(er) => {
                return Err(er);
            }
        };
        let ghost initv = init@;
        let mut gname = String::from_str(".const.");
        gname.append(name);
        let g = base.module.globals.len();
        let gty = ty.dup();
        base.module.globals.push(GlobalDef { name: gname, ty: gty, init });
        proof {
            match sp_declare_array(old(base)@, name@, ty@, initv) {
                Ok(_) => {
                    assert(base@.m.globals =~= old(base)@.m.globals.push(
                        GlobalV { name: ".const."@ + name@, ty: ty@, init: initv },
                    ));
                }
                Err(_) => {}
            }
        }
        let slot = alloca(name, ty, base);
        match copy_block(slot.dup(), LVal::GlobalRef(g), size, base) {
            Ok(_) => Ok(slot),
            Err(er) => Err(er),
        }
    } else {
        match load_source(&init, base) {
            Some(src) => {
                let size = match size_of(&ty) {
                    Ok(s) => s,
                    Err(er) => {
                        return Err(er);
                    }
                };
                let slot = alloca(name, ty, base);
                match copy_block(slot.dup(), src, size, base) {
                    Ok(_) => Ok(slot),
                    Err(er) => Err(er),
                }
            }
            None => Ok(declare(name, ty, init, base)),
        }
    }
}

/// Binds a tuple-typed name. A constant initializer is a first-class record
/// value and is stored into the slot directly; a non-constant one was read
/// back from the literal's temporary slot and is block-copied from that
/// slot, recovered from the value's defining load; a value with no backing
/// memory is stored directly.
pub open spec fn sp_declare_tuple(s: BaseV, name: Seq<char>, t: LTyV, init: LValV) -> Result<
    (BaseV, LValV),
    CErrV,
> {
    if is_const_v(init) {
        Ok(sp_declare(s, name, t, init))
    } else {
        match sp_load_source(s, init) {
            Some(src) => if sp_size_of(t) > usize::MAX {
                Err(CErrV::Internal("aggregate too large"@))
            } else {
                let size = sp_size_of(t) as usize;
                let (s1, slot) = sp_alloca(s, name, t);
                match sp_copy_block(s1, slot, src, size) {
                    Ok(s2) => Ok((s2, slot)),
                    Err(er) => Err(er),
                }
            },
            None => Ok(sp_declare(s, name, t, init)),
        }
    }
}

pub fn declare_tuple(name: &str, ty: LTy, init: LVal, base: &mut Base) -> (r: Result<LVal, Error>)
    ensures
        match r {
            Ok(v) => sp_declare_tuple(old(base)@, name@, ty@, init@)
                == Ok::<(BaseV, LValV), CErrV>((final(base)@, v@)),
            Err(er) => sp_declare_tuple(old(base)@, name@, ty@, init@)
                == Err::<(BaseV, LValV), CErrV>(er@),
        },
{
    if is_constant(&init) {
        Ok(declare(name, ty, init, base))
    } else {
        match load_source(&init, base) {
            Some(src) => {
                let size = match size_of(&ty) {
                    Ok(s) => s,
                    Err(er) => {
                        return Err(er);
                    }
                };
                let slot = alloca(name, ty, base);
                match copy_block(slot.dup(), src, size, base) {
                    Ok(_) => Ok(slot),
                    Err(er) => Err(er),
                }
            }
            None => Ok(declare(name, ty, init, base)),
        }
    }
}

/// The integer-print builtin: the fixed format global cast to a byte pointer,
/// then one call of the print declaration with the value.
pub open spec fn sp_print_num(s: BaseV, v: LValV) -> Result<(BaseV, LValV), CErrV> {
    let (s1, fmt) = sp_bitcast(s, LValV::GlobalRef(0), LTyV::Ptr(Box::new(LTyV::I8)));
    sp_call(s1, LValV::FuncRef(0), seq![fmt, v])
}

pub fn print_num(v: LVal, base: &mut Base) -> (r: Result<LVal, Error>)
    ensures
        match r {
            Ok(rv) => sp_print_num(old(base)@, v@) == Ok::<(BaseV, LValV), CErrV>(
                (final(base)@, rv@),
            ),
            Err(er) => sp_print_num(old(base)@, v@) == Err::<(BaseV, LValV), CErrV>(er@),
        },
{
    proof {
        assert(view_lty(LTy::I8) == LTyV::I8);
    }
    let fmt = bitcast(LVal::GlobalRef(0), LTy::Ptr(Box::new(LTy::I8)), base);
    let ghost fmtv = fmt@;
    let ghost vv = v@;
    let mut args: Vec<LVal> = Vec::new();
    args.push(fmt);
    args.push(v);
    proof {
        assert(view_lvals(args@) =~= seq![fmtv, vv]);
    }
    call(LVal::FuncRef(0), args, base)
}

} // verus!
