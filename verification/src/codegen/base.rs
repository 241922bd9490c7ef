//! The emission context and the module representation it builds.
//!
//! The generator lowers a compilation unit into this explicit basic-block
//! representation: a module of globals, functions, blocks laid out in order,
//! and instructions appended to a current block through the builder cursor of
//! [`Base`]. An unverified shell replays the finished [`Module`] instruction
//! by instruction into the native backend, validates it there, and prints it.

use vstd::prelude::*;

verus! {

use crate::Dup;
use vstd::string::StringExecFns;

/// Target-level types.
#[derive(Debug, PartialEq, Eq)]
pub enum LTy {
    Void,
    I1,
    I8,
    I32,
    I64,
    Ptr(Box<LTy>),
    Arr(Box<LTy>, usize),
    Struct(Vec<LTy>),
    /// Parameter types, return type, and whether the function is variadic.
    Fn(Vec<LTy>, Box<LTy>, bool),
}

#[verifier::ext_equal]
pub enum LTyV {
    Void,
    I1,
    I8,
    I32,
    I64,
    Ptr(Box<LTyV>),
    Arr(Box<LTyV>, usize),
    Struct(Seq<LTyV>),
    Fn(Seq<LTyV>, Box<LTyV>, bool),
}

pub open spec fn view_lty(t: LTy) -> LTyV
    decreases t,
{
    match t {
        LTy::Void => LTyV::Void,
        LTy::I1 => LTyV::I1,
        LTy::I8 => LTyV::I8,
        LTy::I32 => LTyV::I32,
        LTy::I64 => LTyV::I64,
        LTy::Ptr(p) => LTyV::Ptr(Box::new(view_lty(*p))),
        LTy::Arr(e, n) => LTyV::Arr(Box::new(view_lty(*e)), n),
        LTy::Struct(es) => LTyV::Struct(view_ltys(es@)),
        LTy::Fn(ps, r, v) => LTyV::Fn(view_ltys(ps@), Box::new(view_lty(*r)), v),
    }
}

pub open spec fn view_ltys(ts: Seq<LTy>) -> Seq<LTyV>
    decreases ts,
{
    Seq::new(
        ts.len(),
        |i: int| if 0 <= i < ts.len() {
            view_lty(ts[i])
        } else {
            LTyV::Void
        },
    )
}

impl View for LTy {
    type V = LTyV;

    open spec fn view(&self) -> LTyV {
        view_lty(*self)
    }
}

impl Dup for LTy {
    fn dup(&self) -> (r: Self)
        ensures
            r@ == self@,
        decreases self,
    {
        match self {
            LTy::Void => LTy::Void,
            LTy::I1 => LTy::I1,
            LTy::I8 => LTy::I8,
            LTy::I32 => LTy::I32,
            LTy::I64 => LTy::I64,
            LTy::Ptr(p) => LTy::Ptr(Box::new((**p).dup())),
            LTy::Arr(e, n) => LTy::Arr(Box::new((**e).dup()), *n),
            LTy::Struct(es) => LTy::Struct(dup_ltys(es)),
            LTy::Fn(ps, r, v) => LTy::Fn(dup_ltys(ps), Box::new((**r).dup()), *v),
        }
    }
}

/// Duplicates a list of target types, preserving every view.
pub fn dup_ltys(ts: &Vec<LTy>) -> (r: Vec<LTy>)
    ensures
        view_ltys(r@) == view_ltys(ts@),
    decreases ts,
{
    let mut out: Vec<LTy> = Vec::new();
    let mut i: usize = 0;
    while i < ts.len()
        invariant
            i <= ts.len(),
            out@.len() == i,
            forall|j: int| 0 <= j < i ==> view_lty(out@[j]) == view_lty(ts@[j]),
        decreases ts.len() - i,
    {
        out.push(ts[i].dup());
        i = i + 1;
    }
    proof {
        assert(view_ltys(out@) =~= view_ltys(ts@));
    }
    out
}

/// Target-level values: compile-time constants, or references into the module
/// (a global, a function, an instruction result, an incoming argument).
/// Addresses and plain values share this one representation; misuse is caught
/// by the type checker, never here.
#[derive(Debug, PartialEq, Eq)]
pub enum LVal {
    CBool(bool),
    CChar(char),
    CInt(i32),
    /// A 64-bit size constant, used for block-copy lengths.
    CSize(usize),
    /// A constant array with the given element type.
    CArr(Vec<LVal>, LTy),
    CStruct(Vec<LVal>),
    GlobalRef(usize),
    FuncRef(usize),
    Reg(usize),
    Arg(usize),
}

#[verifier::ext_equal]
pub enum LValV {
    CBool(bool),
    CChar(char),
    CInt(i32),
    CSize(usize),
    CArr(Seq<LValV>, LTyV),
    CStruct(Seq<LValV>),
    GlobalRef(usize),
    FuncRef(usize),
    Reg(usize),
    Arg(usize),
}

pub open spec fn view_lval(v: LVal) -> LValV
    decreases v,
{
    match v {
        LVal::CBool(b) => LValV::CBool(b),
        LVal::CChar(c) => LValV::CChar(c),
        LVal::CInt(n) => LValV::CInt(n),
        LVal::CSize(n) => LValV::CSize(n),
        LVal::CArr(es, t) => LValV::CArr(view_lvals(es@), view_lty(t)),
        LVal::CStruct(es) => LValV::CStruct(view_lvals(es@)),
        LVal::GlobalRef(g) => LValV::GlobalRef(g),
        LVal::FuncRef(f) => LValV::FuncRef(f),
        LVal::Reg(r) => LValV::Reg(r),
        LVal::Arg(a) => LValV::Arg(a),
    }
}

pub open spec fn view_lvals(vs: Seq<LVal>) -> Seq<LValV>
    decreases vs,
{
    Seq::new(
        vs.len(),
        |i: int| if 0 <= i < vs.len() {
            view_lval(vs[i])
        } else {
            LValV::CBool(false)
        },
    )
}

impl View for LVal {
    type V = LValV;

    open spec fn view(&self) -> LValV {
        view_lval(*self)
    }
}

impl Dup for LVal {
    fn dup(&self) -> (r: Self)
        ensures
            r@ == self@,
        decreases self,
    {
        match self {
            LVal::CBool(b) => LVal::CBool(*b),
            LVal::CChar(c) => LVal::CChar(*c),
            LVal::CInt(n) => LVal::CInt(*n),
            LVal::CSize(n) => LVal::CSize(*n),
            LVal::CArr(es, t) => LVal::CArr(dup_lvals(es), t.dup()),
            LVal::CStruct(es) => LVal::CStruct(dup_lvals(es)),
            LVal::GlobalRef(g) => LVal::GlobalRef(*g),
            LVal::FuncRef(f) => LVal::FuncRef(*f),
            LVal::Reg(r) => LVal::Reg(*r),
            LVal::Arg(a) => LVal::Arg(*a),
        }
    }
}

/// Duplicates a list of values, preserving every view.
pub fn dup_lvals(vs: &Vec<LVal>) -> (r: Vec<LVal>)
    ensures
        view_lvals(r@) == view_lvals(vs@),
    decreases vs,
{
    let mut out: Vec<LVal> = Vec::new();
    let mut i: usize = 0;
    while i < vs.len()
        invariant
            i <= vs.len(),
            out@.len() == i,
            forall|j: int| 0 <= j < i ==> view_lval(out@[j]) == view_lval(vs@[j]),
        decreases vs.len() - i,
    {
        out.push(vs[i].dup());
        i = i + 1;
    }
    proof {
        assert(view_lvals(out@) =~= view_lvals(vs@));
    }
    out
}

/// Whether a value is a compile-time constant (a module reference is).
pub open spec fn is_const_v(v: LValV) -> bool {
    match v {
        LValV::Reg(_) => false,
        LValV::Arg(_) => false,
        _ => true,
    }
}

/// Executable constancy test.
pub fn is_constant(v: &LVal) -> (r: bool)
    ensures
        r == is_const_v(v@),
{
    match v {
        LVal::Reg(_) => false,
        LVal::Arg(_) => false,
        _ => true,
    }
}

/// Signed arithmetic operations.
#[derive(Debug, Clone, Copy, PartialEq, Eq, Structural)]
pub enum ArithOp {
    Add,
    Sub,
    Mul,
    Div,
}

/// Signed comparison predicates.
#[derive(Debug, Clone, Copy, PartialEq, Eq, Structural)]
pub enum CmpPred {
    Eq,
    Ne,
    Slt,
    Sgt,
    Sle,
    Sge,
}

/// One instruction. `dst` is the register the instruction defines. `Gep`
/// computes an element address from a base address and one index (a constant
/// zero outer index is implied). Terminators (`Br`, `CondBr`, `Ret`) are
/// appended like any other instruction, as the builder does.
#[derive(Debug, PartialEq, Eq)]
pub enum Inst {
    Alloca { dst: usize, name: String, ty: LTy },
    Store { ptr: LVal, val: LVal },
    Load { dst: usize, ptr: LVal },
    Gep { dst: usize, base: LVal, idx: LVal },
    Bin { dst: usize, op: ArithOp, lhs: LVal, rhs: LVal },
    Icmp { dst: usize, pred: CmpPred, lhs: LVal, rhs: LVal },
    Call { dst: usize, callee: LVal, args: Vec<LVal> },
    Bitcast { dst: usize, val: LVal, ty: LTy },
    Phi { dst: usize, ty: LTy, incoming: Vec<(LVal, usize)> },
    Br { dest: usize },
    CondBr { cond: LVal, then_dest: usize, else_dest: usize },
    Ret { val: LVal },
}

#[verifier::ext_equal]
pub enum InstV {
    Alloca { dst: usize, name: Seq<char>, ty: LTyV },
    Store { ptr: LValV, val: LValV },
    Load { dst: usize, ptr: LValV },
    Gep { dst: usize, base: LValV, idx: LValV },
    Bin { dst: usize, op: ArithOp, lhs: LValV, rhs: LValV },
    Icmp { dst: usize, pred: CmpPred, lhs: LValV, rhs: LValV },
    Call { dst: usize, callee: LValV, args: Seq<LValV> },
    Bitcast { dst: usize, val: LValV, ty: LTyV },
    Phi { dst: usize, ty: LTyV, incoming: Seq<(LValV, usize)> },
    Br { dest: usize },
    CondBr { cond: LValV, then_dest: usize, else_dest: usize },
    Ret { val: LValV },
}

pub open spec fn view_incoming(ps: Seq<(LVal, usize)>) -> Seq<(LValV, usize)> {
    Seq::new(ps.len(), |i: int| (ps[i].0@, ps[i].1))
}

impl View for Inst {
    type V = InstV;

    open spec fn view(&self) -> InstV {
        match self {
            Inst::Alloca { dst, name, ty } => InstV::Alloca { dst: *dst, name: name@, ty: ty@ },
            Inst::Store { ptr, val } => InstV::Store { ptr: ptr@, val: val@ },
            Inst::Load { dst, ptr } => InstV::Load { dst: *dst, ptr: ptr@ },
            Inst::Gep { dst, base, idx } => InstV::Gep { dst: *dst, base: base@, idx: idx@ },
            Inst::Bin { dst, op, lhs, rhs } => InstV::Bin {
                dst: *dst,
                op: *op,
                lhs: lhs@,
                rhs: rhs@,
            },
            Inst::Icmp { dst, pred, lhs, rhs } => InstV::Icmp {
                dst: *dst,
                pred: *pred,
                lhs: lhs@,
                rhs: rhs@,
            },
            Inst::Call { dst, callee, args } => InstV::Call {
                dst: *dst,
                callee: callee@,
                args: view_lvals(args@),
            },
            Inst::Bitcast { dst, val, ty } => InstV::Bitcast { dst: *dst, val: val@, ty: ty@ },
            Inst::Phi { dst, ty, incoming } => InstV::Phi {
                dst: *dst,
                ty: ty@,
                incoming: view_incoming(incoming@),
            },
            Inst::Br { dest } => InstV::Br { dest: *dest },
            Inst::CondBr { cond, then_dest, else_dest } => InstV::CondBr {
                cond: cond@,
                then_dest: *then_dest,
                else_dest: *else_dest,
            },
            Inst::Ret { val } => InstV::Ret { val: val@ },
        }
    }
}

/// A function: a declaration until blocks are appended for it.
#[derive(Debug, PartialEq, Eq)]
pub struct GFunc {
    pub name: String,
    pub ty: LTy,
}

#[verifier::ext_equal]
pub struct GFuncV {
    pub name: Seq<char>,
    pub ty: LTyV,
}

impl View for GFunc {
    type V = GFuncV;

    open spec fn view(&self) -> GFuncV {
        GFuncV { name: self.name@, ty: self.ty@ }
    }
}

/// A read-only global with a constant initializer.
#[derive(Debug, PartialEq, Eq)]
pub struct GlobalDef {
    pub name: String,
    pub ty: LTy,
    pub init: LVal,
}

#[verifier::ext_equal]
pub struct GlobalV {
    pub name: Seq<char>,
    pub ty: LTyV,
    pub init: LValV,
}

impl View for GlobalDef {
    type V = GlobalV;

    open spec fn view(&self) -> GlobalV {
        GlobalV { name: self.name@, ty: self.ty@, init: self.init@ }
    }
}

/// One basic block: which function it belongs to, its stable id, and its
/// name. The order of blocks of one function within [`Module::blocks`] is
/// their layout order; ids stay stable when a block is inserted in between.
#[derive(Debug, PartialEq, Eq)]
pub struct BlockInfo {
    pub func: usize,
    pub id: usize,
    pub name: String,
}

#[verifier::ext_equal]
pub struct BlockV {
    pub func: usize,
    pub id: usize,
    pub name: Seq<char>,
}

impl View for BlockInfo {
    type V = BlockV;

    open spec fn view(&self) -> BlockV {
        BlockV { func: self.func, id: self.id, name: self.name@ }
    }
}

/// The finished module representation: every instruction is tagged with the
/// id of the block it was appended to, in emission order.
#[derive(Debug, PartialEq, Eq)]
pub struct Module {
    pub name: String,
    pub globals: Vec<GlobalDef>,
    pub funcs: Vec<GFunc>,
    pub blocks: Vec<BlockInfo>,
    pub insts: Vec<(usize, Inst)>,
}

#[verifier::ext_equal]
pub struct ModuleV {
    pub name: Seq<char>,
    pub globals: Seq<GlobalV>,
    pub funcs: Seq<GFuncV>,
    pub blocks: Seq<BlockV>,
    pub insts: Seq<(usize, InstV)>,
}

impl View for Module {
    type V = ModuleV;

    open spec fn view(&self) -> ModuleV {
        ModuleV {
            name: self.name@,
            globals: Seq::new(self.globals@.len(), |i: int| self.globals@[i]@),
            funcs: Seq::new(self.funcs@.len(), |i: int| self.funcs@[i]@),
            blocks: Seq::new(self.blocks@.len(), |i: int| self.blocks@[i]@),
            insts: Seq::new(self.insts@.len(), |i: int| (self.insts@[i].0, self.insts@[i].1@)),
        }
    }
}

/// The emission context: the module under construction, the builder cursor
/// (current function and current block id), and the types of the registers
/// defined so far (register `r` has type `reg_tys[r]`).
#[derive(Debug)]
pub struct Base {
    pub module: Module,
    pub cur_func: usize,
    pub cur_block: usize,
    pub reg_tys: Vec<LTy>,
}

#[verifier::ext_equal]
pub struct BaseV {
    pub m: ModuleV,
    pub cur_func: usize,
    pub cur_block: usize,
    pub reg_tys: Seq<LTyV>,
}

impl View for Base {
    type V = BaseV;

    open spec fn view(&self) -> BaseV {
        BaseV {
            m: self.module@,
            cur_func: self.cur_func,
            cur_block: self.cur_block,
            reg_tys: view_ltys(self.reg_tys@),
        }
    }
}

/// The type of the variadic formatted-print builtin: `(i8*, ...) -> i32`.
pub open spec fn sp_printf_ty() -> LTyV {
    LTyV::Fn(seq![LTyV::Ptr(Box::new(LTyV::I8))], Box::new(LTyV::I32), true)
}

/// The type of the raw block-copy builtin: `(i8*, i8*, ...) -> void`.
pub open spec fn sp_memcpy_ty() -> LTyV {
    LTyV::Fn(
        seq![LTyV::Ptr(Box::new(LTyV::I8)), LTyV::Ptr(Box::new(LTyV::I8))],
        Box::new(LTyV::Void),
        true,
    )
}

/// The constant initializer of the numeric format global: the characters of
/// `%d` and a newline, as an `i8` array without terminator.
pub open spec fn sp_format_init() -> LValV {
    LValV::CArr(seq![LValV::CChar('%'), LValV::CChar('d'), LValV::CChar('\n')], LTyV::I8)
}

/// A fresh context: empty module seeded with the two builtin declarations and
/// the format-string global. The print builtin is function 0, the block-copy
/// builtin function 1, and the format string global 0.
pub open spec fn sp_base_new(name: Seq<char>) -> BaseV {
    BaseV {
        m: ModuleV {
            name: name,
            globals: seq![
                GlobalV {
                    name: ".builtin.format.num"@,
                    ty: LTyV::Arr(Box::new(LTyV::I8), 3),
                    init: sp_format_init(),
                },
            ],
            funcs: seq![
                GFuncV { name: "printf"@, ty: sp_printf_ty() },
                GFuncV { name: "memcpy"@, ty: sp_memcpy_ty() },
            ],
            blocks: Seq::empty(),
            insts: Seq::empty(),
        },
        cur_func: 0,
        cur_block: 0,
        reg_tys: Seq::empty(),
    }
}

impl Base {
    /// Creates the context once per compilation, seeded with the fixed
    /// builtins: a variadic print declaration, a variadic block-copy
    /// declaration, and one read-only global holding the numeric format
    /// string.
    pub fn new(name: &str) -> (r: Base)
        ensures
            r@ == sp_base_new(name@),
    {
        let mut globals: Vec<GlobalDef> = Vec::new();
        let mut fmt_chars: Vec<LVal> = Vec::new();
        fmt_chars.push(LVal::CChar('%'));
        fmt_chars.push(LVal::CChar('d'));
        fmt_chars.push(LVal::CChar('\n'));
        proof {
            assert(view_lvals(fmt_chars@) =~= sp_format_init()->CArr_0);
        }
        globals.push(GlobalDef {
            name: String::from_str(".builtin.format.num"),
            ty: LTy::Arr(Box::new(LTy::I8), 3),
            init: LVal::CArr(fmt_chars, LTy::I8),
        });
        let mut printf_params: Vec<LTy> = Vec::new();
        printf_params.push(LTy::Ptr(Box::new(LTy::I8)));
        let mut memcpy_params: Vec<LTy> = Vec::new();
        memcpy_params.push(LTy::Ptr(Box::new(LTy::I8)));
        memcpy_params.push(LTy::Ptr(Box::new(LTy::I8)));
        proof {
            assert(view_lty(LTy::I8) == LTyV::I8);
            assert(view_lty(LTy::I32) == LTyV::I32);
            assert(view_lty(LTy::Void) == LTyV::Void);
            assert(view_lty(LTy::Ptr(Box::new(LTy::I8))) == LTyV::Ptr(Box::new(LTyV::I8)));
            assert(view_ltys(printf_params@) =~= seq![LTyV::Ptr(Box::new(LTyV::I8))]);
            assert(view_ltys(memcpy_params@) =~= seq![
                LTyV::Ptr(Box::new(LTyV::I8)),
                LTyV::Ptr(Box::new(LTyV::I8)),
            ]);
        }
        let mut funcs: Vec<GFunc> = Vec::new();
        funcs.push(GFunc {
            name: String::from_str("printf"),
            ty: LTy::Fn(printf_params, Box::new(LTy::I32), true),
        });
        funcs.push(GFunc {
            name: String::from_str("memcpy"),
            ty: LTy::Fn(memcpy_params, Box::new(LTy::Void), true),
        });
        let r = Base {
            module: Module {
                name: name.to_owned(),
                globals,
                funcs,
                blocks: Vec::new(),
                insts: Vec::new(),
            },
            cur_func: 0,
            cur_block: 0,
            reg_tys: Vec::new(),
        };
        proof {
            assert(r@.m.funcs[0].ty =~~= sp_printf_ty());
            assert(r@.m.funcs[1].ty =~~= sp_memcpy_ty());
            assert(r@ =~~= sp_base_new(name@));
        }
        r
    }
}

} // verus!
