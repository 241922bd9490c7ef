use nfc::env::Env;
use nfc::ident::Ident;
use nfc::typecheck::check;
use nfc::typecheck::error::Error;
use nfc::{BinOp, Expr, Func, Literal, Nf, Type};

fn unit(body: Expr) -> Nf {
    Nf { funcs: vec![], body }
}

#[test]
fn unbound_variable_is_reported() {
    let nf = unit(Expr::Var(Ident::new("x")));
    assert_eq!(check(&nf), Err(Error::UnboundVariable(Ident::new("x"))));
}

#[test]
fn let_type_mismatch_is_reported() {
    let nf = unit(Expr::Let(
        Ident::new("x"),
        Type::Int,
        Box::new(Expr::Const(Literal::Bool(true))),
        Box::new(Expr::Const(Literal::Int(1))),
    ));
    assert_eq!(
        check(&nf),
        Err(Error::UnmatchLet(
            Expr::Const(Literal::Bool(true)),
            Type::Bool
        ))
    );
}

#[test]
fn wrong_argument_types_are_reported() {
    let nf = Nf {
        funcs: vec![Func {
            name: Ident::new("f"),
            params: vec![(Ident::new("a"), Type::Int)],
            ret_type: Type::Int,
            body: Expr::Const(Literal::Int(0)),
        }],
        body: Expr::Call(
            Box::new(Expr::Var(Ident::new("f"))),
            vec![Expr::Const(Literal::Bool(true))],
        ),
    };
    assert_eq!(
        check(&nf),
        Err(Error::UnmatchParamsAndArgs(
            Expr::Var(Ident::new("f")),
            vec![Type::Int],
            vec![Type::Bool]
        ))
    );
}

#[test]
fn applying_a_non_function_is_reported() {
    let nf = unit(Expr::Call(
        Box::new(Expr::Const(Literal::Int(1))),
        vec![],
    ));
    assert_eq!(
        check(&nf),
        Err(Error::ApplyNonFunc(Expr::Const(Literal::Int(1)), Type::Int))
    );
}

#[test]
fn unequal_branches_are_reported() {
    let nf = unit(Expr::If(
        Box::new(Expr::Const(Literal::Bool(true))),
        Box::new(Expr::Const(Literal::Int(1))),
        Box::new(Expr::Const(Literal::Bool(false))),
    ));
    assert_eq!(
        check(&nf),
        Err(Error::UnmatchIfBranches(
            Expr::If(
                Box::new(Expr::Const(Literal::Bool(true))),
                Box::new(Expr::Const(Literal::Int(1))),
                Box::new(Expr::Const(Literal::Bool(false))),
            ),
            Type::Int,
            Type::Bool
        ))
    );
}

#[test]
fn non_boolean_condition_is_reported() {
    let nf = unit(Expr::If(
        Box::new(Expr::Const(Literal::Int(1))),
        Box::new(Expr::Const(Literal::Int(1))),
        Box::new(Expr::Const(Literal::Int(2))),
    ));
    assert_eq!(
        check(&nf),
        Err(Error::UnmatchIfCond(Expr::Const(Literal::Int(1)), Type::Int))
    );
}

#[test]
fn dereferencing_a_non_pointer_is_reported() {
    let nf = unit(Expr::Load(Box::new(Expr::Const(Literal::Int(1)))));
    assert_eq!(
        check(&nf),
        Err(Error::DereferenceNonpointer(Expr::Const(Literal::Int(1))))
    );
}

#[test]
fn assigning_to_a_non_pointer_is_reported() {
    let nf = unit(Expr::Assign(
        Box::new(Expr::Const(Literal::Int(1))),
        Box::new(Expr::Const(Literal::Int(2))),
    ));
    assert_eq!(
        check(&nf),
        Err(Error::AssignToNonpointer(Expr::Const(Literal::Int(1))))
    );
}

#[test]
fn assigning_the_wrong_type_is_reported() {
    let nf = unit(Expr::Let(
        Ident::new("a"),
        Type::Int,
        Box::new(Expr::Const(Literal::Int(1))),
        Box::new(Expr::Assign(
            Box::new(Expr::Var(Ident::new("a"))),
            Box::new(Expr::Const(Literal::Bool(true))),
        )),
    ));
    assert_eq!(
        check(&nf),
        Err(Error::UnmatchAssign(
            Expr::Const(Literal::Bool(true)),
            Type::Int,
            Type::Bool
        ))
    );
}

#[test]
fn assignment_has_the_address_type() {
    // The settled rule: an assignment's type is the target's address type.
    let nf = unit(Expr::Let(
        Ident::new("a"),
        Type::Int,
        Box::new(Expr::Const(Literal::Int(1))),
        Box::new(Expr::Assign(
            Box::new(Expr::Var(Ident::new("a"))),
            Box::new(Expr::Const(Literal::Int(2))),
        )),
    ));
    assert_eq!(check(&nf), Ok(Type::Pointer(Box::new(Type::Int))));
}

#[test]
fn invalid_operator_operands_are_reported() {
    let nf = unit(Expr::BinOp(
        BinOp::Add,
        Box::new(Expr::Const(Literal::Bool(true))),
        Box::new(Expr::Const(Literal::Bool(false))),
    ));
    assert_eq!(
        check(&nf),
        Err(Error::InvalidBinOp(
            BinOp::Add,
            Expr::Const(Literal::Bool(true)),
            Expr::Const(Literal::Bool(false))
        ))
    );
}

#[test]
fn boolean_equality_is_accepted() {
    let nf = unit(Expr::BinOp(
        BinOp::Eq,
        Box::new(Expr::Const(Literal::Bool(true))),
        Box::new(Expr::Const(Literal::Bool(false))),
    ));
    assert_eq!(check(&nf), Ok(Type::Bool));
    let nf = unit(Expr::BinOp(
        BinOp::Lt,
        Box::new(Expr::Const(Literal::Int(1))),
        Box::new(Expr::Const(Literal::Int(2))),
    ));
    assert_eq!(check(&nf), Ok(Type::Bool));
}

#[test]
fn indexing_a_non_array_is_reported() {
    let nf = unit(Expr::ArrayAt(
        Box::new(Expr::Const(Literal::Int(1))),
        Box::new(Expr::Const(Literal::Int(0))),
    ));
    assert_eq!(
        check(&nf),
        Err(Error::IndexingForNonArray(
            Expr::Const(Literal::Int(1)),
            Type::Int
        ))
    );
}

#[test]
fn indexing_with_a_non_integer_is_reported() {
    let nf = unit(Expr::ArrayAt(
        Box::new(Expr::Const(Literal::Int(1))),
        Box::new(Expr::Const(Literal::Bool(true))),
    ));
    assert_eq!(
        check(&nf),
        Err(Error::IndexingWithNonInteger(
            Expr::Const(Literal::Bool(true)),
            Type::Bool
        ))
    );
}

#[test]
fn wrong_array_element_is_reported() {
    let nf = unit(Expr::Const(Literal::Array(
        vec![Expr::Const(Literal::Bool(true))],
        Type::Int,
    )));
    assert_eq!(
        check(&nf),
        Err(Error::UnmatchArrayElem(
            Expr::Const(Literal::Bool(true)),
            Type::Int
        ))
    );
}

#[test]
fn out_of_range_tuple_access_is_reported() {
    let pair = Expr::Const(Literal::Tuple(vec![
        Expr::Const(Literal::Int(1)),
        Expr::Const(Literal::Int(2)),
    ]));
    let nf = unit(Expr::TupleAt(Box::new(self_copy(&pair)), 5));
    assert_eq!(check(&nf), Err(Error::InvalidTupleAccess(pair, 5)));
}

#[test]
fn tuple_access_of_a_non_tuple_is_reported() {
    let nf = unit(Expr::TupleAt(Box::new(Expr::Const(Literal::Int(1))), 0));
    assert_eq!(
        check(&nf),
        Err(Error::IndexingForNonTuple(Expr::Const(Literal::Int(1))))
    );
}

#[test]
fn printnum_has_type_void() {
    let nf = unit(Expr::PrintNum(Box::new(Expr::Const(Literal::Int(1)))));
    assert_eq!(check(&nf), Ok(Type::Void));
}

#[test]
fn environment_shadows_and_keeps_the_parent() {
    let e0: Env<Type> = Env::new();
    let e1 = e0.add(Ident::new("x"), Type::Int);
    let e2 = e1.add(Ident::new("x"), Type::Bool);
    let e3 = e1.add(Ident::new("y"), Type::Char);
    // the most recent binding wins
    assert_eq!(e2.lookup(&Ident::new("x")), Some(Type::Bool));
    // the parent is untouched by either extension
    assert_eq!(e1.lookup(&Ident::new("x")), Some(Type::Int));
    assert_eq!(e3.lookup(&Ident::new("x")), Some(Type::Int));
    assert_eq!(e3.lookup(&Ident::new("y")), Some(Type::Char));
    assert_eq!(e0.lookup(&Ident::new("x")), None);
}

#[test]
fn fresh_tuple_names_follow_the_counter() {
    assert_eq!(Ident::fresh_tuple_name(0), Ident::new("tuple0"));
    assert_eq!(Ident::fresh_tuple_name(7), Ident::new("tuple7"));
    assert_eq!(Ident::fresh_tuple_name(507), Ident::new("tuple507"));
    assert_eq!(
        Ident::fresh_tuple_name(18446744073709551615),
        Ident::new("tuple18446744073709551615")
    );
}

#[test]
fn substitution_replaces_free_occurrences_only() {
    let x = Ident::new("x");
    let replacement = Expr::Const(Literal::Int(7));
    // a free occurrence is replaced
    let e = Expr::BinOp(
        BinOp::Add,
        Box::new(Expr::Var(Ident::new("x"))),
        Box::new(Expr::Var(Ident::new("y"))),
    );
    assert_eq!(
        e.subst_expr(&x, &replacement),
        Expr::BinOp(
            BinOp::Add,
            Box::new(Expr::Const(Literal::Int(7))),
            Box::new(Expr::Var(Ident::new("y"))),
        )
    );
    // a rebinding of the name stops the substitution
    let shadowed = Expr::Let(
        Ident::new("x"),
        Type::Int,
        Box::new(Expr::Const(Literal::Int(1))),
        Box::new(Expr::Var(Ident::new("x"))),
    );
    let kept = Expr::Let(
        Ident::new("x"),
        Type::Int,
        Box::new(Expr::Const(Literal::Int(1))),
        Box::new(Expr::Var(Ident::new("x"))),
    );
    assert_eq!(shadowed.subst_expr(&x, &replacement), kept);
    // a function substitutes in its body
    let f = Func {
        name: Ident::new("f"),
        params: vec![],
        ret_type: Type::Int,
        body: Expr::Var(Ident::new("x")),
    };
    let g = f.subst_expr(&x, &replacement);
    assert_eq!(g.body, Expr::Const(Literal::Int(7)));
}

fn self_copy(e: &Expr) -> Expr {
    match e {
        Expr::Const(l) => Expr::Const(lit_copy(l)),
        Expr::Let(n, t, a, b) => Expr::Let(
            Ident::new(&n.0),
            ty_copy(t),
            Box::new(self_copy(a)),
            Box::new(self_copy(b)),
        ),
        Expr::Var(n) => Expr::Var(Ident::new(&n.0)),
        Expr::Load(a) => Expr::Load(Box::new(self_copy(a))),
        Expr::Assign(a, b) => Expr::Assign(Box::new(self_copy(a)), Box::new(self_copy(b))),
        Expr::Call(f, args) => Expr::Call(
            Box::new(self_copy(f)),
            args.iter().map(self_copy).collect(),
        ),
        Expr::If(c, a, b) => Expr::If(
            Box::new(self_copy(c)),
            Box::new(self_copy(a)),
            Box::new(self_copy(b)),
        ),
        Expr::BinOp(op, a, b) => {
            Expr::BinOp(*op, Box::new(self_copy(a)), Box::new(self_copy(b)))
        }
        Expr::ArrayAt(a, i) => Expr::ArrayAt(Box::new(self_copy(a)), Box::new(self_copy(i))),
        Expr::TupleAt(a, k) => Expr::TupleAt(Box::new(self_copy(a)), *k),
        Expr::PrintNum(a) => Expr::PrintNum(Box::new(self_copy(a))),
    }
}

fn lit_copy(l: &Literal) -> Literal {
    match l {
        Literal::Bool(b) => Literal::Bool(*b),
        Literal::Char(c) => Literal::Char(*c),
        Literal::Int(n) => Literal::Int(*n),
        Literal::Array(es, t) => {
            Literal::Array(es.iter().map(self_copy).collect(), ty_copy(t))
        }
        Literal::Tuple(es) => Literal::Tuple(es.iter().map(self_copy).collect()),
        Literal::ExternalFunc(n, t) => Literal::ExternalFunc(n.clone(), ty_copy(t)),
    }
}

fn ty_copy(t: &Type) -> Type {
    match t {
        Type::Void => Type::Void,
        Type::Bool => Type::Bool,
        Type::Char => Type::Char,
        Type::Int => Type::Int,
        Type::Func(ps, r) => Type::Func(ps.iter().map(ty_copy).collect(), Box::new(ty_copy(r))),
        Type::Array(e, n) => Type::Array(Box::new(ty_copy(e)), *n),
        Type::Pointer(p) => Type::Pointer(Box::new(ty_copy(p))),
        Type::Tuple(es) => Type::Tuple(es.iter().map(ty_copy).collect()),
    }
}
