//! Lowering of literals to target values.
//!
//! Scalars become immediate constants. A composite literal splits on a
//! constancy check: if every element is a compile-time constant the literal
//! becomes one constant aggregate value; otherwise a temporary slot is
//! allocated, each element is stored at its computed offset, and the slot is
//! read back as a value. The fallback is transparent to callers: both paths
//! yield a first-class value of the aggregate's own type, so the literal can
//! stand in any position. A binding that wants the backing memory for its
//! block copy recovers the temporary slot from the read-back load.

use vstd::prelude::*;

verus! {

use crate::Dup;
use crate::codegen::base::{
    Base, BaseV, GFuncV, LTy, LTyV, LVal, LValV, is_const_v, is_constant, view_lvals,
};
use crate::codegen::builder::{sp_alloca, sp_gep, sp_load, sp_store, alloca, gep, load, store};
use crate::codegen::error::{Error, CErrV};
use crate::codegen::typ::{sp_types_of, types_of};
use crate::codegen::util::sp_add_function;
use vstd::string::StringExecFns;

/// A boolean constant.
pub fn bool_lit(b: bool) -> (r: LVal)
    ensures
        r@ == LValV::CBool(b),
{
    LVal::CBool(b)
}

/// A character constant.
pub fn char_lit(c: char) -> (r: LVal)
    ensures
        r@ == LValV::CChar(c),
{
    LVal::CChar(c)
}

/// A 32-bit integer constant.
pub fn int32(n: i32) -> (r: LVal)
    ensures
        r@ == LValV::CInt(n),
{
    LVal::CInt(n)
}

/// Every element a compile-time constant?
pub open spec fn sp_all_const(vs: Seq<LValV>) -> bool {
    forall|i: int| 0 <= i < vs.len() ==> is_const_v(#[trigger] vs[i])
}

#[verifier::loop_isolation(false)]
fn all_const(vs: &Vec<LVal>) -> (r: bool)
    ensures
        r == sp_all_const(view_lvals(vs@)),
{
    let mut i: usize = 0;
    while i < vs.len()
        invariant
            i <= vs.len(),
            forall|j: int| 0 <= j < i ==> is_const_v(#[trigger] view_lvals(vs@)[j]),
        decreases vs.len() - i,
    {
        if !is_constant(&vs[i]) {
            proof {
                assert(!is_const_v(view_lvals(vs@)[i as int]));
            }
            return false;
        }
        i = i + 1;
    }
    true
}

/// Stores each of `elems` at its offset in the slot `var`, `k` being the
/// absolute index of the first one.
pub open spec fn sp_store_elems(s: BaseV, var: LValV, elems: Seq<LValV>, k: int) -> Result<
    BaseV,
    CErrV,
>
    decreases elems.len(),
{
    if elems.len() == 0 {
        Ok(s)
    } else {
        match sp_gep(s, var, LValV::CInt(k as i32)) {
            Ok((s1, eptr)) => sp_store_elems(
                sp_store(s1, eptr, elems[0]),
                var,
                elems.drop_first(),
                k + 1,
            ),
            Err(er) => Err(er),
        }
    }
}

/// The non-constant composite path: a fresh temporary slot of type `ty`,
/// populated by one store per element, then read back as a value of `ty`.
pub open spec fn sp_temp_aggregate(s: BaseV, ty: LTyV, elems: Seq<LValV>) -> Result<
    (BaseV, LValV),
    CErrV,
> {
    let (s1, var) = sp_alloca(s, ""@, ty);
    match sp_store_elems(s1, var, elems, 0) {
        Ok(s2) => sp_load(s2, var),
        Err(er) => Err(er),
    }
}

#[verifier::loop_isolation(false)]
fn temp_aggregate(ty: LTy, elems: Vec<LVal>, base: &mut Base) -> (r: Result<LVal, Error>)
    requires
        elems@.len() <= 0x7fff_ffff,
    ensures
        match r {
            Ok(v) => sp_temp_aggregate(old(base)@, ty@, view_lvals(elems@))
                == Ok::<_, CErrV>((final(base)@, v@)),
            Err(er) => sp_temp_aggregate(old(base)@, ty@, view_lvals(elems@))
                == Err::<(BaseV, LValV), _>(er@),
        },
{
    let ghost esv = view_lvals(elems@);
    let var = alloca("", ty, base);
    let ghost s1 = base@;
    let ghost varv = var@;
    let mut i: usize = 0;
    proof {
        assert(esv.skip(0) =~= esv);
    }
    while i < elems.len()
        invariant
            i <= elems.len(),
            elems@.len() <= 0x7fff_ffff,
            esv == view_lvals(elems@),
            varv == var@,
            sp_store_elems(s1, varv, esv, 0) == sp_store_elems(
                base@,
                varv,
                esv.skip(i as int),
                i as int,
            ),
        decreases elems.len() - i,
    {
        proof {
            assert(esv.skip(i as int)[0] == esv[i as int]);
            assert(esv.skip(i as int).drop_first() =~= esv.skip(i as int + 1));
        }
        let eptr = match gep(var.dup(), LVal::CInt(i as i32), base) {
            Ok(p) => p,
            Err(er) => {
                return Err(er);
            }
        };
        store(eptr, elems[i].dup(), base);
        i = i + 1;
    }
    proof {
        assert(esv.skip(elems@.len() as int) =~= Seq::<LValV>::empty());
    }
    load(var, base)
}

/// Lowers an array literal: one constant aggregate when every element is
/// constant, else a temporary slot filled by per-element stores and read
/// back — either way a value of the array type.
pub open spec fn sp_lit_array(s: BaseV, elems: Seq<LValV>, elem_ty: LTyV) -> Result<
    (BaseV, LValV),
    CErrV,
> {
    if sp_all_const(elems) {
        Ok((s, LValV::CArr(elems, elem_ty)))
    } else if elems.len() > 0x7fff_ffff {
        Err(CErrV::Internal("aggregate too large"@))
    } else {
        sp_temp_aggregate(s, LTyV::Arr(Box::new(elem_ty), elems.len() as usize), elems)
    }
}

pub fn array(elems: Vec<LVal>, elem_ty: LTy, base: &mut Base) -> (r: Result<LVal, Error>)
    ensures
        match r {
            Ok(v) => sp_lit_array(old(base)@, view_lvals(elems@), elem_ty@)
                == Ok::<_, CErrV>((final(base)@, v@)),
            Err(er) => sp_lit_array(old(base)@, view_lvals(elems@), elem_ty@)
                == Err::<(BaseV, LValV), _>(er@),
        },
{
    if all_const(&elems) {
        Ok(LVal::CArr(elems, elem_ty))
    } else if elems.len() > 0x7fff_ffff {
        Err(Error::Internal(String::from_str("aggregate too large")))
    } else {
        let n = elems.len();
        temp_aggregate(LTy::Arr(Box::new(elem_ty), n), elems, base)
    }
}

/// Lowers a tuple literal: one constant record when every field is constant,
/// else a temporary slot filled by per-field stores and read back — either
/// way a value of the record type, read off the lowered field values.
pub open spec fn sp_lit_tuple(s: BaseV, fields: Seq<LValV>) -> Result<(BaseV, LValV), CErrV> {
    if sp_all_const(fields) {
        Ok((s, LValV::CStruct(fields)))
    } else if fields.len() > 0x7fff_ffff {
        Err(CErrV::Internal("aggregate too large"@))
    } else {
        match sp_types_of(s, fields) {
            Some(ts) => sp_temp_aggregate(s, LTyV::Struct(ts), fields),
            None => Err(CErrV::Internal("value has no type"@)),
        }
    }
}

pub fn tuple(fields: Vec<LVal>, base: &mut Base) -> (r: Result<LVal, Error>)
    ensures
        match r {
            Ok(v) => sp_lit_tuple(old(base)@, view_lvals(fields@))
                == Ok::<_, CErrV>((final(base)@, v@)),
            Err(er) => sp_lit_tuple(old(base)@, view_lvals(fields@))
                == Err::<(BaseV, LValV), _>(er@),
        },
{
    if all_const(&fields) {
        Ok(LVal::CStruct(fields))
    } else if fields.len() > 0x7fff_ffff {
        Err(Error::Internal(String::from_str("aggregate too large")))
    } else {
        let tys = match types_of(&fields, base) {
            Ok(ts) => ts,
            Err(er) => return Err(er),
        };
        temp_aggregate(LTy::Struct(tys), fields, base)
    }
}

/// The layout position of the first function with the given name.
pub open spec fn sp_func_pos(funcs: Seq<GFuncV>, name: Seq<char>) -> Option<int>
    decreases funcs.len(),
{
    if funcs.len() == 0 {
        None
    } else if funcs[0].name == name {
        Some(0)
    } else {
        match sp_func_pos(funcs.drop_first(), name) {
            Some(p) => Some(p + 1),
            None => None,
        }
    }
}

/// Registers — or reuses, by name — a forward declaration with the given
/// signature, so repeated uses of one external function share a single
/// declaration.
pub open spec fn sp_external_func(s: BaseV, name: Seq<char>, t: LTyV) -> (BaseV, LValV) {
    match sp_func_pos(s.m.funcs, name) {
        Some(p) => (s, LValV::FuncRef(p as usize)),
        None => sp_add_function(s, name, t),
    }
}

#[verifier::loop_isolation(false)]
pub fn external_func(name: String, ty: LTy, base: &mut Base) -> (r: LVal)
    ensures
        (final(base)@, r@) == sp_external_func(old(base)@, name@, ty@),
{
    let ghost fs = old(base)@.m.funcs;
    let mut i: usize = 0;
    proof {
        assert(fs.skip(0) =~= fs);
    }
    while i < base.module.funcs.len()
        invariant
            base@ == old(base)@,
            i <= base.module.funcs.len(),
            fs == base@.m.funcs,
            sp_func_pos(fs, name@) == (match sp_func_pos(fs.skip(i as int), name@) {
                Some(p) => Some(p + i),
                None => None::<int>,
            }),
        decreases base.module.funcs.len() - i,
    {
        proof {
            assert(fs.skip(i as int)[0] == fs[i as int]);
            assert(fs.skip(i as int).drop_first() =~= fs.skip(i as int + 1));
        }
        if base.module.funcs[i].name == name {
            return LVal::FuncRef(i);
        }
        i = i + 1;
    }
    proof {
        assert(fs.skip(base.module.funcs@.len() as int) =~= Seq::<GFuncV>::empty());
    }
    crate::codegen::util::add_function(base, name.as_str(), ty)
}

/// Helper for the reuse law: once no function bears the name, pushing one
/// that does puts it at the end of the layout.
proof fn lemma_func_pos_push(funcs: Seq<GFuncV>, name: Seq<char>, g: GFuncV)
    requires
        sp_func_pos(funcs, name) is None,
        g.name == name,
    ensures
        sp_func_pos(funcs.push(g), name) == Some(funcs.len() as int),
    decreases funcs.len(),
{
    if funcs.len() == 0 {
        assert(funcs.push(g)[0] == g);
        assert(funcs.push(g).drop_first() =~= Seq::<GFuncV>::empty());
    } else {
        assert(funcs.push(g)[0] == funcs[0]);
        assert(funcs.push(g).drop_first() =~= funcs.drop_first().push(g));
        lemma_func_pos_push(funcs.drop_first(), name, g);
    }
}

/// Registering an external function is idempotent: a second registration of
/// the same name adds nothing to the module and resolves to the very same
/// function handle, so two call sites of one external name share one forward
/// declaration.
pub proof fn lemma_external_func_reuse(s: BaseV, name: Seq<char>, t: LTyV)
    ensures
        ({
            let (s1, v1) = sp_external_func(s, name, t);
            let (s2, v2) = sp_external_func(s1, name, t);
            s2 == s1 && v2 == v1
        }),
{
    match sp_func_pos(s.m.funcs, name) {
        Some(p) => {},
        None => {
            let (s1, v1) = sp_external_func(s, name, t);
            lemma_func_pos_push(s.m.funcs, name, GFuncV { name: name, ty: t });
            assert(s1.m.funcs == s.m.funcs.push(GFuncV { name: name, ty: t }));
        },
    }
}

} // verus!
