//! Module-level helpers: registering functions and managing basic blocks and
//! the insertion point.

use vstd::prelude::*;

verus! {

use crate::codegen::base::{Base, BaseV, BlockInfo, BlockV, GFunc, GFuncV, LTy, LTyV, LVal, LValV, ModuleV};
use crate::codegen::error::{Error, CErrV};
use vstd::string::StringExecFns;

/// Registers a function of the given type; the handle is its index.
pub open spec fn sp_add_function(s: BaseV, name: Seq<char>, t: LTyV) -> (BaseV, LValV) {
    let idx = s.m.funcs.len();
    let s1 = BaseV {
        m: ModuleV { funcs: s.m.funcs.push(GFuncV { name: name, ty: t }), ..s.m },
        ..s
    };
    (s1, LValV::FuncRef(idx as usize))
}

pub fn add_function(base: &mut Base, name: &str, ty: LTy) -> (r: LVal)
    ensures
        (final(base)@, r@) == sp_add_function(old(base)@, name@, ty@),
{
    let ghost tv = ty@;
    let idx = base.module.funcs.len();
    base.module.funcs.push(GFunc { name: name.to_owned(), ty });
    proof {
        assert(base@ =~~= sp_add_function(old(base)@, name@, tv).0);
    }
    LVal::FuncRef(idx)
}

/// The handle for the parameter `idx` of a generated function.
pub fn get_func_param(idx: usize) -> (r: LVal)
    ensures
        r@ == LValV::Arg(idx),
{
    LVal::Arg(idx)
}

/// Appends a fresh entry block to a generated function and positions the
/// builder at its end. The handle must be a function reference.
pub open spec fn sp_add_entry_block(s: BaseV, f: LValV) -> Result<(BaseV, usize), CErrV> {
    match f {
        LValV::FuncRef(fi) => {
            let id = s.m.blocks.len();
            let s1 = BaseV {
                m: ModuleV {
                    blocks: s.m.blocks.push(
                        BlockV { func: fi, id: id as usize, name: "entry"@ },
                    ),
                    ..s.m
                },
                cur_func: fi,
                cur_block: id as usize,
                ..s
            };
            Ok((s1, id as usize))
        },
        _ => Err(CErrV::Internal("entry block of a non-function handle"@)),
    }
}

pub fn add_entry_block(f: &LVal, base: &mut Base) -> (r: Result<usize, Error>)
    ensures
        match r {
            Ok(id) => sp_add_entry_block(old(base)@, f@) == Ok::<_, CErrV>((final(base)@, id)),
            Err(er) => sp_add_entry_block(old(base)@, f@) == Err::<(BaseV, usize), _>(er@)
                && final(base)@ == old(base)@,
        },
{
    match f {
        LVal::FuncRef(fi) => {
            let id = base.module.blocks.len();
            base.module.blocks.push(BlockInfo {
                func: *fi,
                id,
                name: String::from_str("entry"),
            });
            base.cur_func = *fi;
            base.cur_block = id;
            proof {
                match sp_add_entry_block(old(base)@, f@) {
                    Ok(p) => {
                        assert(base@ =~~= p.0);
                    }
                    Err(_) => {}
                }
            }
            Ok(id)
        }
        _ => Err(Error::Internal(String::from_str("entry block of a non-function handle"))),
    }
}

/// Moves the insertion point to the end of the given block.
pub open spec fn sp_position_at_end(s: BaseV, block: usize) -> BaseV {
    BaseV { cur_block: block, ..s }
}

pub fn position_at_end(block: usize, base: &mut Base)
    ensures
        final(base)@ == sp_position_at_end(old(base)@, block),
{
    base.cur_block = block;
    proof {
        assert(base@ =~~= sp_position_at_end(old(base)@, block));
    }
}

/// The block the builder currently appends to.
pub fn insertion_block(base: &Base) -> (r: usize)
    ensures
        r == base@.cur_block,
{
    base.cur_block
}

/// The position of the block with the given id in the layout.
pub open spec fn sp_block_pos(blocks: Seq<BlockV>, id: usize) -> Option<int>
    decreases blocks.len(),
{
    if blocks.len() == 0 {
        None
    } else if blocks[0].id == id {
        Some(0)
    } else {
        match sp_block_pos(blocks.drop_first(), id) {
            Some(p) => Some(p + 1),
            None => None,
        }
    }
}

/// Appends a fresh anonymous block to the previous block's function and
/// places it directly after it in the layout, leaving the insertion point
/// untouched. The previous block must exist.
pub open spec fn sp_append_block(s: BaseV, prev: usize) -> Result<(BaseV, usize), CErrV> {
    match sp_block_pos(s.m.blocks, prev) {
        Some(p) => {
            let id = s.m.blocks.len();
            let nb = BlockV { func: s.m.blocks[p].func, id: id as usize, name: Seq::empty() };
            let s1 = BaseV {
                m: ModuleV { blocks: s.m.blocks.insert(p + 1, nb), ..s.m },
                ..s
            };
            Ok((s1, id as usize))
        },
        None => Err(CErrV::Internal("block is not in the layout"@)),
    }
}

#[verifier::loop_isolation(false)]
pub fn append_block(prev: usize, base: &mut Base) -> (r: Result<usize, Error>)
    ensures
        match r {
            Ok(id) => sp_append_block(old(base)@, prev) == Ok::<_, CErrV>((final(base)@, id)),
            Err(er) => sp_append_block(old(base)@, prev) == Err::<(BaseV, usize), _>(er@)
                && final(base)@ == old(base)@,
        },
{
    let ghost bs = old(base)@.m.blocks;
    let mut i: usize = 0;
    proof {
        assert(bs.skip(0) =~= bs);
    }
    while i < base.module.blocks.len()
        invariant
            base@ == old(base)@,
            i <= base.module.blocks.len(),
            bs == base@.m.blocks,
            sp_block_pos(bs, prev) == (match sp_block_pos(bs.skip(i as int), prev) {
                Some(p) => Some(p + i),
                None => None::<int>,
            }),
        decreases base.module.blocks.len() - i,
    {
        proof {
            assert(bs.skip(i as int)[0] == bs[i as int]);
            assert(bs.skip(i as int).drop_first() =~= bs.skip(i as int + 1));
        }
        if base.module.blocks[i].id == prev {
            let id = base.module.blocks.len();
            let f = base.module.blocks[i].func;
            base.module.blocks.insert(i + 1, BlockInfo {
                func: f,
                id,
                name: String::new(),
            });
            proof {
                match sp_append_block(old(base)@, prev) {
                    Ok(p) => {
                        assert(base@.m.blocks =~= old(base)@.m.blocks.insert(
                            i + 1,
                            BlockV { func: f, id: id as usize, name: Seq::empty() },
                        ));
                        assert(base@ =~~= p.0);
                    }
                    Err(_) => {}
                }
            }
            return Ok(id);
        }
        i = i + 1;
    }
    proof {
        assert(bs.skip(base.module.blocks@.len() as int) =~= Seq::<BlockV>::empty());
    }
    Err(Error::Internal(String::from_str("block is not in the layout")))
}

} // verus!
