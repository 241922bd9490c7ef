use nfc::ident::Ident;
use nfc::typecheck::check;
use nfc::{Expr, Func, Literal, Nf, Type};

#[test]
fn primitive_test() {
    let nf = Nf {
        funcs: vec![],
        body: Expr::Const(Literal::Int(42)),
    };
    assert_eq!(check(&nf), Ok(Type::Int));

    let nf = Nf {
        funcs: vec![],
        body: Expr::Const(Literal::Bool(true)),
    };
    assert_eq!(check(&nf), Ok(Type::Bool));

    let nf = Nf {
        funcs: vec![],
        body: Expr::Const(Literal::Char('c')),
    };
    assert_eq!(check(&nf), Ok(Type::Char));
}

#[test]
fn func_test() {
    let nf = Nf {
        funcs: vec![Func {
            name: Ident::new("a"),
            params: vec![],
            ret_type: Type::Int,
            body: Expr::Const(Literal::Int(42)),
        }],
        body: Expr::Var(Ident::new("a")),
    };
    assert_eq!(
        check(&nf),
        Ok(Type::Pointer(Box::new(Type::Func(
            vec![],
            Box::new(Type::Int)
        ))))
    );
}

#[test]
fn apply_test() {
    let nf = Nf {
        funcs: vec![Func {
            name: Ident::new("a"),
            params: vec![],
            ret_type: Type::Int,
            body: Expr::Const(Literal::Int(42)),
        }],
        body: Expr::Call(Box::new(Expr::Var(Ident::new("a"))), vec![]),
    };
    assert_eq!(check(&nf), Ok(Type::Int));
}

#[test]
fn array_test() {
    // int[2] arr = {114, 514};
    // return (load arr[0]);
    let nf = Nf {
        funcs: vec![],
        body: Expr::Let(
            Ident::new("arr"),
            Type::Array(Box::new(Type::Int), 2),
            Box::new(Expr::Const(Literal::Array(
                vec![
                    Expr::Const(Literal::Int(114)),
                    Expr::Const(Literal::Int(514)),
                ],
                Type::Int,
            ))),
            Box::new(Expr::Load(Box::new(Expr::ArrayAt(
                Box::new(Expr::Var(Ident::new("arr"))),
                Box::new(Expr::Const(Literal::Int(0))),
            )))),
        ),
    };
    assert_eq!(check(&nf), Ok(Type::Int));
}
