use std::collections::HashMap;

use nfc::codegen::base::{ArithOp, CmpPred, Inst, LTy, LVal, Module};
use nfc::codegen::error::Error as CgError;
use nfc::codegen::gen;
use nfc::ident::Ident;
use nfc::{BinOp, Expr, Func, Literal, Nf, Type};

// ---------------------------------------------------------------------------
// A small reference evaluator for the emitted module representation, standing
// in for executing the printed module: it walks blocks and phi nodes, models
// slots as tree-shaped memory objects, and implements the two builtins plus
// the `abs` external used by the tests.
// ---------------------------------------------------------------------------

#[derive(Debug, Clone, PartialEq)]
enum IVal {
    I(i64),
    Agg(Vec<IVal>),
    Ptr(usize, Vec<usize>),
    Fun(usize),
    Unit,
}

struct Machine<'a> {
    m: &'a Module,
    mem: Vec<IVal>,
    globals: Vec<usize>,
    output: String,
}

fn zero_of(ty: &LTy) -> IVal {
    match ty {
        LTy::Arr(e, n) => IVal::Agg((0..*n).map(|_| zero_of(e)).collect()),
        LTy::Struct(es) => IVal::Agg(es.iter().map(zero_of).collect()),
        _ => IVal::I(0),
    }
}

impl<'a> Machine<'a> {
    fn new(m: &'a Module) -> Machine<'a> {
        let mut mach = Machine {
            m,
            mem: Vec::new(),
            globals: Vec::new(),
            output: String::new(),
        };
        for g in m.globals.iter() {
            let v = mach.const_val(&g.init);
            mach.mem.push(v);
            let idx = mach.mem.len() - 1;
            mach.globals.push(idx);
        }
        mach
    }

    fn const_val(&self, v: &LVal) -> IVal {
        match v {
            LVal::CBool(b) => IVal::I(if *b { 1 } else { 0 }),
            LVal::CChar(c) => IVal::I(*c as i64),
            LVal::CInt(n) => IVal::I(*n as i64),
            LVal::CSize(n) => IVal::I(*n as i64),
            LVal::CArr(es, _) => IVal::Agg(es.iter().map(|e| self.const_val(e)).collect()),
            LVal::CStruct(es) => IVal::Agg(es.iter().map(|e| self.const_val(e)).collect()),
            LVal::GlobalRef(g) => IVal::Ptr(self.globals[*g], vec![]),
            LVal::FuncRef(f) => IVal::Fun(*f),
            _ => panic!("not a constant"),
        }
    }

    fn read(&self, p: &IVal) -> IVal {
        match p {
            IVal::Ptr(obj, path) => {
                let mut cur = &self.mem[*obj];
                for k in path {
                    match cur {
                        IVal::Agg(es) => cur = &es[*k],
                        _ => panic!("bad path"),
                    }
                }
                cur.clone()
            }
            _ => panic!("load through a non-pointer"),
        }
    }

    fn write(&mut self, p: &IVal, v: IVal) {
        match p {
            IVal::Ptr(obj, path) => {
                let mut cur = &mut self.mem[*obj];
                for k in path {
                    match cur {
                        IVal::Agg(es) => cur = &mut es[*k],
                        _ => panic!("bad path"),
                    }
                }
                *cur = v;
            }
            _ => panic!("store through a non-pointer"),
        }
    }

    fn operand(&self, v: &LVal, regs: &HashMap<usize, IVal>, args: &[IVal]) -> IVal {
        match v {
            LVal::Reg(r) => regs.get(r).expect("undefined register").clone(),
            LVal::Arg(i) => args[*i].clone(),
            _ => self.const_val(v),
        }
    }

    fn block_insts(&self, block_id: usize) -> Vec<&'a Inst> {
        self.m
            .insts
            .iter()
            .filter(|(b, _)| *b == block_id)
            .map(|(_, i)| i)
            .collect()
    }

    fn call_fn(&mut self, fidx: usize, args: Vec<IVal>) -> IVal {
        let fname = self.m.funcs[fidx].name.clone();
        let blocks: Vec<&nfc::codegen::base::BlockInfo> =
            self.m.blocks.iter().filter(|b| b.func == fidx).collect();
        if blocks.is_empty() {
            // a declaration: one of the builtins or a test external
            return match fname.as_str() {
                "printf" => {
                    // the fixed numeric format: one integer and a newline
                    match &args[1] {
                        IVal::I(n) => {
                            self.output.push_str(&format!("{}\n", n));
                        }
                        other => panic!("printf of a non-integer {:?}", other),
                    }
                    IVal::I(0)
                }
                "memcpy" => {
                    let v = self.read(&args[1]);
                    let dst = args[0].clone();
                    self.write(&dst, v);
                    IVal::Unit
                }
                "abs" => match &args[0] {
                    IVal::I(n) => IVal::I(n.abs()),
                    _ => panic!("abs of a non-integer"),
                },
                other => panic!("call of an unknown external {}", other),
            };
        }
        let mut regs: HashMap<usize, IVal> = HashMap::new();
        let mut cur = blocks[0].id;
        let mut prev: Option<usize> = None;
        loop {
            let insts = self.block_insts(cur);
            let mut next: Option<usize> = None;
            let mut ret: Option<IVal> = None;
            for inst in insts {
                match inst {
                    Inst::Alloca { dst, ty, .. } => {
                        self.mem.push(zero_of(ty));
                        let idx = self.mem.len() - 1;
                        regs.insert(*dst, IVal::Ptr(idx, vec![]));
                    }
                    Inst::Store { ptr, val } => {
                        let p = self.operand(ptr, &regs, &args);
                        let v = self.operand(val, &regs, &args);
                        self.write(&p, v);
                    }
                    Inst::Load { dst, ptr } => {
                        let p = self.operand(ptr, &regs, &args);
                        let v = self.read(&p);
                        regs.insert(*dst, v);
                    }
                    Inst::Gep { dst, base, idx } => {
                        let b = self.operand(base, &regs, &args);
                        let k = match self.operand(idx, &regs, &args) {
                            IVal::I(n) => n as usize,
                            _ => panic!("non-integer index"),
                        };
                        match b {
                            IVal::Ptr(obj, mut path) => {
                                path.push(k);
                                regs.insert(*dst, IVal::Ptr(obj, path));
                            }
                            _ => panic!("element address of a non-pointer"),
                        }
                    }
                    Inst::Bin { dst, op, lhs, rhs } => {
                        let a = match self.operand(lhs, &regs, &args) {
                            IVal::I(n) => n,
                            _ => panic!("non-integer operand"),
                        };
                        let b = match self.operand(rhs, &regs, &args) {
                            IVal::I(n) => n,
                            _ => panic!("non-integer operand"),
                        };
                        let r = match op {
                            ArithOp::Add => a + b,
                            ArithOp::Sub => a - b,
                            ArithOp::Mul => a * b,
                            ArithOp::Div => a / b,
                        };
                        regs.insert(*dst, IVal::I(r));
                    }
                    Inst::Icmp { dst, pred, lhs, rhs } => {
                        let a = match self.operand(lhs, &regs, &args) {
                            IVal::I(n) => n,
                            _ => panic!("non-integer operand"),
                        };
                        let b = match self.operand(rhs, &regs, &args) {
                            IVal::I(n) => n,
                            _ => panic!("non-integer operand"),
                        };
                        let r = match pred {
                            CmpPred::Eq => a == b,
                            CmpPred::Ne => a != b,
                            CmpPred::Slt => a < b,
                            CmpPred::Sgt => a > b,
                            CmpPred::Sle => a <= b,
                            CmpPred::Sge => a >= b,
                        };
                        regs.insert(*dst, IVal::I(if r { 1 } else { 0 }));
                    }
                    Inst::Call { dst, callee, args: cargs } => {
                        let f = match self.operand(callee, &regs, &args) {
                            IVal::Fun(f) => f,
                            other => panic!("call of a non-function {:?}", other),
                        };
                        let vs: Vec<IVal> =
                            cargs.iter().map(|a| self.operand(a, &regs, &args)).collect();
                        let r = self.call_fn(f, vs);
                        regs.insert(*dst, r);
                    }
                    Inst::Bitcast { dst, val, .. } => {
                        let v = self.operand(val, &regs, &args);
                        regs.insert(*dst, v);
                    }
                    Inst::Phi { dst, incoming, .. } => {
                        let p = prev.expect("phi in an entry block");
                        let mut chosen: Option<IVal> = None;
                        for (v, b) in incoming.iter() {
                            if *b == p {
                                chosen = Some(self.operand(v, &regs, &args));
                            }
                        }
                        regs.insert(*dst, chosen.expect("no incoming edge matched"));
                    }
                    Inst::Br { dest } => {
                        next = Some(*dest);
                        break;
                    }
                    Inst::CondBr { cond, then_dest, else_dest } => {
                        let c = match self.operand(cond, &regs, &args) {
                            IVal::I(n) => n,
                            _ => panic!("non-integer condition"),
                        };
                        next = Some(if c != 0 { *then_dest } else { *else_dest });
                        break;
                    }
                    Inst::Ret { val } => {
                        ret = Some(self.operand(val, &regs, &args));
                        break;
                    }
                }
            }
            if let Some(v) = ret {
                return v;
            }
            let n = next.expect("block without a terminator");
            prev = Some(cur);
            cur = n;
        }
    }
}

/// Runs the module's `main` and returns what it printed and its exit status.
fn run_module(m: &Module) -> (String, i32) {
    let main_idx = m
        .funcs
        .iter()
        .rposition(|f| f.name.as_str() == "main")
        .expect("no main");
    let mut mach = Machine::new(m);
    let r = mach.call_fn(main_idx, vec![]);
    let status = match r {
        IVal::I(n) => (n & 255) as i32,
        _ => panic!("main returned a non-integer"),
    };
    (mach.output, status)
}

/// Lowers the unit and checks, on the reference evaluator, what the emitted
/// module prints and returns.
fn codegen_check(nf: &Nf, name: &str, expected_output: &str, expected_status: i32) {
    let m = gen(nf, name).unwrap();
    let (output, status) = run_module(&m);
    assert_eq!(output.as_str(), expected_output);
    assert_eq!(status, expected_status);
}

#[test]
fn test_primitive_test() {
    let nf = Nf {
        funcs: vec![],
        body: Expr::Const(Literal::Int(42)),
    };
    codegen_check(&nf, "primitive", "", 42);
}

#[test]
fn test_func_test() {
    // int add(int a, int b) { return (load a) + (load b); }
    // let (): Void = printnum (add (114, 514));
    // return 0;
    let nf = Nf {
        funcs: vec![Func {
            name: Ident::new("add"),
            params: vec![(Ident::new("a"), Type::Int), (Ident::new("b"), Type::Int)],
            ret_type: Type::Int,
            body: Expr::BinOp(
                BinOp::Add,
                Box::new(Expr::Load(Box::new(Expr::Var(Ident::new("a"))))),
                Box::new(Expr::Load(Box::new(Expr::Var(Ident::new("b"))))),
            ),
        }],
        body: Expr::Let(
            Ident::new("dummy"),
            Type::Void,
            Box::new(Expr::PrintNum(Box::new(Expr::Call(
                Box::new(Expr::Var(Ident::new("add"))),
                vec![
                    Expr::Const(Literal::Int(114)),
                    Expr::Const(Literal::Int(514)),
                ],
            )))),
            Box::new(Expr::Const(Literal::Int(0))),
        ),
    };
    codegen_check(&nf, "func", "628\n", 0);
}

#[test]
fn if_test() {
    let nf = Nf {
        funcs: vec![],
        body: Expr::If(
            Box::new(Expr::Const(Literal::Bool(true))),
            Box::new(Expr::Const(Literal::Int(42))),
            Box::new(Expr::Const(Literal::Int(32))),
        ),
    };
    codegen_check(&nf, "if", "", 42);
}

#[test]
fn let_test() {
    let nf = Nf {
        funcs: vec![],
        body: Expr::Let(
            Ident::new("a"),
            Type::Int,
            Box::new(Expr::Const(Literal::Int(42))),
            Box::new(Expr::Const(Literal::Int(2))),
        ),
    };
    codegen_check(&nf, "let", "", 2);
}

#[test]
fn assign_test() {
    // int a = 42;
    // int* dummy = (a <- 4);
    // return (load a);
    let nf = Nf {
        funcs: vec![],
        body: Expr::Let(
            Ident::new("a"),
            Type::Int,
            Box::new(Expr::Const(Literal::Int(42))),
            Box::new(Expr::Let(
                Ident::new("dummy"),
                Type::Pointer(Box::new(Type::Int)),
                Box::new(Expr::Assign(
                    Box::new(Expr::Var(Ident::new("a"))),
                    Box::new(Expr::Const(Literal::Int(4))),
                )),
                Box::new(Expr::Load(Box::new(Expr::Var(Ident::new("a"))))),
            )),
        ),
    };
    codegen_check(&nf, "assign", "", 4);
}

fn const_array_nf() -> Nf {
    // int[2] arr = {114, 514};
    // return (load arr[0]);
    Nf {
        funcs: vec![],
        body: Expr::Let(
            Ident::new("arr"),
            Type::Array(Box::new(Type::Int), 2),
            Box::new(Expr::Const(Literal::Array(
                vec![
                    Expr::Const(Literal::Int(114)),
                    Expr::Const(Literal::Int(514)),
                ],
                Type::Int,
            ))),
            Box::new(Expr::Load(Box::new(Expr::ArrayAt(
                Box::new(Expr::Var(Ident::new("arr"))),
                Box::new(Expr::Const(Literal::Int(0))),
            )))),
        ),
    }
}

#[test]
fn const_array_test() {
    let nf = const_array_nf();
    assert_eq!(nfc::typecheck::check(&nf), Ok(Type::Int));
    codegen_check(&nf, "const_array", "", 114);
}

fn runtime_array_nf() -> Nf {
    // int a = 114;
    // int[2] arr = {a, 514};
    // return arr[0];
    Nf {
        funcs: vec![],
        body: Expr::Let(
            Ident::new("a"),
            Type::Int,
            Box::new(Expr::Const(Literal::Int(114))),
            Box::new(Expr::Let(
                Ident::new("arr"),
                Type::Array(Box::new(Type::Int), 2),
                Box::new(Expr::Const(Literal::Array(
                    vec![
                        Expr::Load(Box::new(Expr::Var(Ident::new("a")))),
                        Expr::Const(Literal::Int(514)),
                    ],
                    Type::Int,
                ))),
                Box::new(Expr::Load(Box::new(Expr::ArrayAt(
                    Box::new(Expr::Var(Ident::new("arr"))),
                    Box::new(Expr::Const(Literal::Int(0))),
                )))),
            )),
        ),
    }
}

#[test]
fn test_array_test() {
    let nf = runtime_array_nf();
    assert_eq!(nfc::typecheck::check(&nf), Ok(Type::Int));
    codegen_check(&nf, "array", "", 114);
}

#[test]
fn const_tuple_test() {
    // let a = (114, 514);
    // printnum a.1;
    let nf = Nf {
        funcs: vec![],
        body: Expr::Let(
            Ident::new("a"),
            Type::Tuple(vec![Type::Int, Type::Int]),
            Box::new(Expr::Const(Literal::Tuple(vec![
                Expr::Const(Literal::Int(114)),
                Expr::Const(Literal::Int(514)),
            ]))),
            Box::new(Expr::Let(
                Ident::new("dummy"),
                Type::Void,
                Box::new(Expr::PrintNum(Box::new(Expr::Load(Box::new(
                    Expr::TupleAt(Box::new(Expr::Var(Ident::new("a"))), 1),
                ))))),
                Box::new(Expr::Const(Literal::Int(0))),
            )),
        ),
    };
    assert_eq!(nfc::typecheck::check(&nf), Ok(Type::Int));
    codegen_check(&nf, "const_tuple", "514\n", 0);
}

#[test]
fn tuple_test() {
    // let a = 1;
    // let tuple = (a, 2);
    // tuple.1
    let nf = Nf {
        funcs: vec![],
        body: Expr::Let(
            Ident::new("a"),
            Type::Int,
            Box::new(Expr::Const(Literal::Int(1))),
            Box::new(Expr::Let(
                Ident::new("tuple"),
                Type::Tuple(vec![Type::Int, Type::Int]),
                Box::new(Expr::Const(Literal::Tuple(vec![
                    Expr::Load(Box::new(Expr::Var(Ident::new("a")))),
                    Expr::Const(Literal::Int(2)),
                ]))),
                Box::new(Expr::Load(Box::new(Expr::TupleAt(
                    Box::new(Expr::Var(Ident::new("tuple"))),
                    1,
                )))),
            )),
        ),
    };
    assert_eq!(nfc::typecheck::check(&nf), Ok(Type::Int));
    codegen_check(&nf, "tuple", "", 2);
}

#[test]
fn tuple_arg_test() {
    // func foo x:{int, int}: int { return 42; }
    // foo({30, 12})
    let nf = Nf {
        funcs: vec![Func {
            name: Ident::new("foo"),
            params: vec![(
                Ident::new("x"),
                Type::Tuple(vec![Type::Int, Type::Int]),
            )],
            ret_type: Type::Int,
            body: Expr::Const(Literal::Int(42)),
        }],
        body: Expr::Call(
            Box::new(Expr::Var(Ident::new("foo"))),
            vec![Expr::Const(Literal::Tuple(vec![
                Expr::Const(Literal::Int(30)),
                Expr::Const(Literal::Int(12)),
            ]))],
        ),
    };
    assert_eq!(nfc::typecheck::check(&nf), Ok(Type::Int));
    codegen_check(&nf, "tuple-arg", "", 42);
}

fn external_abs_nf() -> Nf {
    Nf {
        funcs: vec![],
        body: Expr::Call(
            Box::new(Expr::Const(Literal::ExternalFunc(
                "abs".to_string(),
                Type::Func(vec![Type::Int], Box::new(Type::Int)),
            ))),
            vec![Expr::Const(Literal::Int(-3))],
        ),
    }
}

#[test]
fn external_func_test() {
    let nf = external_abs_nf();
    assert_eq!(nfc::typecheck::check(&nf), Ok(Type::Int));
    codegen_check(&nf, "rand", "", 3);
}

// ---------------------------------------------------------------------------
// Structural checks of the emitted representation.
// ---------------------------------------------------------------------------

#[test]
fn trivial_main_returns_the_constant() {
    // A unit with no functions and body 42 lowers to a module whose main
    // returns the constant 42.
    let nf = Nf {
        funcs: vec![],
        body: Expr::Const(Literal::Int(42)),
    };
    let m = gen(&nf, "trivial").unwrap();
    let main_idx = m
        .funcs
        .iter()
        .rposition(|f| f.name.as_str() == "main")
        .unwrap();
    let main_blocks: Vec<_> = m.blocks.iter().filter(|b| b.func == main_idx).collect();
    assert_eq!(main_blocks.len(), 1);
    assert_eq!(main_blocks[0].name.as_str(), "entry");
    let insts: Vec<_> = m
        .insts
        .iter()
        .filter(|(b, _)| *b == main_blocks[0].id)
        .collect();
    assert_eq!(insts.len(), 1);
    assert!(matches!(insts[0].1, Inst::Ret { val: LVal::CInt(42) }));
    let (out, status) = run_module(&m);
    assert_eq!(out.as_str(), "");
    assert_eq!(status, 42);
}

#[test]
fn if_makes_three_blocks_and_one_phi() {
    // One conditional adds exactly three blocks beyond entry and merges with
    // a single two-incoming phi node.
    let nf = Nf {
        funcs: vec![],
        body: Expr::If(
            Box::new(Expr::Const(Literal::Bool(true))),
            Box::new(Expr::Const(Literal::Int(42))),
            Box::new(Expr::Const(Literal::Int(32))),
        ),
    };
    let m = gen(&nf, "branches").unwrap();
    let main_idx = m
        .funcs
        .iter()
        .rposition(|f| f.name.as_str() == "main")
        .unwrap();
    let main_blocks: Vec<_> = m.blocks.iter().filter(|b| b.func == main_idx).collect();
    assert_eq!(main_blocks.len(), 4);
    let phis: Vec<_> = m
        .insts
        .iter()
        .filter_map(|(_, i)| match i {
            Inst::Phi { incoming, .. } => Some(incoming),
            _ => None,
        })
        .collect();
    assert_eq!(phis.len(), 1);
    assert_eq!(phis[0].len(), 2);
    let (_, status) = run_module(&m);
    assert_eq!(status, 42);
}

fn count_memcpy_calls(m: &Module) -> usize {
    let memcpy_idx = m
        .funcs
        .iter()
        .position(|f| f.name.as_str() == "memcpy")
        .unwrap();
    m.insts
        .iter()
        .filter(|(_, i)| match i {
            Inst::Call { callee: LVal::FuncRef(f), .. } => *f == memcpy_idx,
            _ => false,
        })
        .count()
}

#[test]
fn constant_array_uses_one_global_and_one_block_copy() {
    let m = gen(&const_array_nf(), "const_array_shape").unwrap();
    // the fixed format global plus one named constant for the literal
    assert_eq!(m.globals.len(), 2);
    assert_eq!(m.globals[1].name.as_str(), ".const.arr");
    assert_eq!(count_memcpy_calls(&m), 1);
    let (_, status) = run_module(&m);
    assert_eq!(status, 114);
}

#[test]
fn runtime_array_uses_one_temp_slot_and_one_block_copy() {
    let m = gen(&runtime_array_nf(), "array_shape").unwrap();
    // no constant global beyond the format string
    assert_eq!(m.globals.len(), 1);
    assert_eq!(count_memcpy_calls(&m), 1);
    // two slots: the literal's temporary and the binding's, beyond `a`'s
    let allocas = m
        .insts
        .iter()
        .filter(|(_, i)| matches!(i, Inst::Alloca { .. }))
        .count();
    assert_eq!(allocas, 3);
    // three loads: the element read of `a`, the literal's read-back (the
    // fallback yields the aggregate value, not the slot's address), and the
    // final indexed read
    let loads = m
        .insts
        .iter()
        .filter(|(_, i)| matches!(i, Inst::Load { .. }))
        .count();
    assert_eq!(loads, 3);
    let (_, status) = run_module(&m);
    assert_eq!(status, 114);
}

#[test]
fn runtime_tuple_is_a_first_class_call_argument() {
    // The non-constant fallback is transparent: the tuple literal yields a
    // value of the tuple's own type and can stand as a call argument.
    // int f(x: {int, int}) { return (load x.0) + (load x.1); }
    // let a = 5; f({load a, 2})  ==> 7
    let nf = Nf {
        funcs: vec![Func {
            name: Ident::new("f"),
            params: vec![(
                Ident::new("x"),
                Type::Tuple(vec![Type::Int, Type::Int]),
            )],
            ret_type: Type::Int,
            body: Expr::BinOp(
                BinOp::Add,
                Box::new(Expr::Load(Box::new(Expr::TupleAt(
                    Box::new(Expr::Var(Ident::new("x"))),
                    0,
                )))),
                Box::new(Expr::Load(Box::new(Expr::TupleAt(
                    Box::new(Expr::Var(Ident::new("x"))),
                    1,
                )))),
            ),
        }],
        body: Expr::Let(
            Ident::new("a"),
            Type::Int,
            Box::new(Expr::Const(Literal::Int(5))),
            Box::new(Expr::Call(
                Box::new(Expr::Var(Ident::new("f"))),
                vec![Expr::Const(Literal::Tuple(vec![
                    Expr::Load(Box::new(Expr::Var(Ident::new("a")))),
                    Expr::Const(Literal::Int(2)),
                ]))],
            )),
        ),
    };
    assert_eq!(nfc::typecheck::check(&nf), Ok(Type::Int));
    codegen_check(&nf, "tuple-value-arg", "", 7);
}

#[test]
fn runtime_array_is_a_first_class_branch_value() {
    // Both branches of a conditional may be aggregate values; the phi merges
    // the constant path's value with the fallback's read-back value.
    // let a = 9; let r: int[2] = if true then {load a, 2} else {3, 4};
    // load r[0]  ==> 9
    let nf = Nf {
        funcs: vec![],
        body: Expr::Let(
            Ident::new("a"),
            Type::Int,
            Box::new(Expr::Const(Literal::Int(9))),
            Box::new(Expr::Let(
                Ident::new("r"),
                Type::Array(Box::new(Type::Int), 2),
                Box::new(Expr::If(
                    Box::new(Expr::Const(Literal::Bool(true))),
                    Box::new(Expr::Const(Literal::Array(
                        vec![
                            Expr::Load(Box::new(Expr::Var(Ident::new("a")))),
                            Expr::Const(Literal::Int(2)),
                        ],
                        Type::Int,
                    ))),
                    Box::new(Expr::Const(Literal::Array(
                        vec![
                            Expr::Const(Literal::Int(3)),
                            Expr::Const(Literal::Int(4)),
                        ],
                        Type::Int,
                    ))),
                )),
                Box::new(Expr::Load(Box::new(Expr::ArrayAt(
                    Box::new(Expr::Var(Ident::new("r"))),
                    Box::new(Expr::Const(Literal::Int(0))),
                )))),
            )),
        ),
    };
    assert_eq!(nfc::typecheck::check(&nf), Ok(Type::Int));
    codegen_check(&nf, "array-branch-value", "", 9);
}

#[test]
fn generator_reports_the_unbound_name() {
    // The generator's checker-inconsistency error names the variable.
    let nf = Nf {
        funcs: vec![],
        body: Expr::Var(Ident::new("ghostly")),
    };
    assert_eq!(
        gen(&nf, "oops"),
        Err(CgError::Internal("unbound variable: ghostly".to_string()))
    );
}

#[test]
fn external_called_twice_is_declared_once() {
    // Two calls of an external function declared only through its literal
    // share one forward declaration, and both call sites resolve to it.
    let call_abs = |n: i32| {
        Expr::Call(
            Box::new(Expr::Const(Literal::ExternalFunc(
                "abs".to_string(),
                Type::Func(vec![Type::Int], Box::new(Type::Int)),
            ))),
            vec![Expr::Const(Literal::Int(n))],
        )
    };
    let nf = Nf {
        funcs: vec![],
        body: Expr::BinOp(
            BinOp::Add,
            Box::new(call_abs(-3)),
            Box::new(call_abs(-4)),
        ),
    };
    let m = gen(&nf, "externals").unwrap();
    let abs_decls: Vec<usize> = m
        .funcs
        .iter()
        .enumerate()
        .filter(|(_, f)| f.name.as_str() == "abs")
        .map(|(i, _)| i)
        .collect();
    assert_eq!(abs_decls.len(), 1);
    let abs_idx = abs_decls[0];
    let abs_calls = m
        .insts
        .iter()
        .filter(|(_, i)| match i {
            Inst::Call { callee: LVal::FuncRef(f), .. } => *f == abs_idx,
            _ => false,
        })
        .count();
    assert_eq!(abs_calls, 2);
    let (_, status) = run_module(&m);
    assert_eq!(status, 7);
}

#[test]
fn nested_if_inserts_blocks_in_the_middle() {
    // A conditional inside the then-branch opens blocks between then and
    // else; the re-read of the current block keeps the phi edges right.
    let nf = Nf {
        funcs: vec![],
        body: Expr::If(
            Box::new(Expr::Const(Literal::Bool(true))),
            Box::new(Expr::If(
                Box::new(Expr::Const(Literal::Bool(false))),
                Box::new(Expr::Const(Literal::Int(1))),
                Box::new(Expr::Const(Literal::Int(2))),
            )),
            Box::new(Expr::Const(Literal::Int(3))),
        ),
    };
    assert_eq!(nfc::typecheck::check(&nf), Ok(Type::Int));
    codegen_check(&nf, "nested", "", 2);
}

#[test]
fn comparison_drives_the_branch() {
    // if 2 < 1 then 10 else 20
    let nf = Nf {
        funcs: vec![],
        body: Expr::If(
            Box::new(Expr::BinOp(
                BinOp::Lt,
                Box::new(Expr::Const(Literal::Int(2))),
                Box::new(Expr::Const(Literal::Int(1))),
            )),
            Box::new(Expr::Const(Literal::Int(10))),
            Box::new(Expr::Const(Literal::Int(20))),
        ),
    };
    codegen_check(&nf, "compare", "", 20);
}

#[test]
fn compilation_is_deterministic() {
    // Lowering the same unit twice yields the same module, value for value.
    let m1 = gen(&runtime_array_nf(), "twice").unwrap();
    let m2 = gen(&runtime_array_nf(), "twice").unwrap();
    assert_eq!(m1, m2);
    let m3 = external_abs_nf().codegen("twice").unwrap();
    let m4 = external_abs_nf().codegen("twice").unwrap();
    assert_eq!(m3, m4);
}

#[test]
fn shadowed_binding_wins_and_outer_scope_returns() {
    // let x: int = 1; let x: int = 2; load x  ==> 2: the inner binding
    // shadows; and after the inner scope, the outer binding is intact.
    let inner_shadow = Nf {
        funcs: vec![],
        body: Expr::Let(
            Ident::new("x"),
            Type::Int,
            Box::new(Expr::Const(Literal::Int(1))),
            Box::new(Expr::Let(
                Ident::new("x"),
                Type::Int,
                Box::new(Expr::Const(Literal::Int(2))),
                Box::new(Expr::Load(Box::new(Expr::Var(Ident::new("x"))))),
            )),
        ),
    };
    codegen_check(&inner_shadow, "shadow", "", 2);

    // let x = 1; let d: void = (let x = 2; printnum (load x)); load x ==> 1
    let outer_after = Nf {
        funcs: vec![],
        body: Expr::Let(
            Ident::new("x"),
            Type::Int,
            Box::new(Expr::Const(Literal::Int(1))),
            Box::new(Expr::Let(
                Ident::new("d"),
                Type::Void,
                Box::new(Expr::Let(
                    Ident::new("x"),
                    Type::Int,
                    Box::new(Expr::Const(Literal::Int(2))),
                    Box::new(Expr::PrintNum(Box::new(Expr::Load(Box::new(Expr::Var(
                        Ident::new("x"),
                    )))))),
                )),
                Box::new(Expr::Load(Box::new(Expr::Var(Ident::new("x"))))),
            )),
        ),
    };
    codegen_check(&outer_after, "unshadow", "2\n", 1);
}
