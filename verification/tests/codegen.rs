use solang_parser::codegen::{
    annon_parameter, annon_parameter_list, block_stmt, call_expr, emit_stmt, event_def,
    event_parameter, function_def, id, param_to_arg, param_to_event_param, parameter,
    parameter_list, params_to_args, params_to_event_params, type_expr, var_expr,
};
use solang_parser::loc::Loc;
use solang_parser::pt::{
    Expression, FunctionAttribute, FunctionTy, Parameter, Statement, Type, Visibility,
};

#[test]
fn id_and_var_expr_carry_codegen_loc() {
    let i = id("x".to_string());
    assert!(matches!(i.loc, Loc::Codegen));
    assert_eq!(i.name, "x");

    match var_expr("x".to_string()) {
        Expression::Variable(inner) => {
            assert!(matches!(inner.loc, Loc::Codegen));
            assert_eq!(inner.name, "x");
        },
        _ => unreachable!(),
    }
}

#[test]
fn type_expr_wraps_type() {
    match type_expr(Type::Uint(256)) {
        Expression::Type(loc, ty) => {
            assert!(matches!(loc, Loc::Codegen));
            assert_eq!(ty, Type::Uint(256));
        },
        _ => unreachable!(),
    }
}

#[test]
fn call_expr_builds_named_call() {
    match call_expr("f".to_string(), vec![var_expr("a".to_string())]) {
        Expression::FunctionCall(loc, target, args) => {
            assert!(matches!(loc, Loc::Codegen));
            match *target {
                Expression::Variable(inner) => {
                    assert!(matches!(inner.loc, Loc::Codegen));
                    assert_eq!(inner.name, "f");
                },
                _ => unreachable!(),
            }
            assert_eq!(args.len(), 1);
            match &args[0] {
                Expression::Variable(inner) => assert_eq!(inner.name, "a"),
                _ => unreachable!(),
            }
        },
        _ => unreachable!(),
    }
}

#[test]
fn emit_stmt_is_codegen_throughout() {
    // `emit Hit(x);`, every location `Codegen`.
    let s = emit_stmt("Hit".to_string(), vec![var_expr("x".to_string())]);
    match s {
        Statement::Emit(loc, call) => {
            assert!(matches!(loc, Loc::Codegen));
            match call {
                Expression::FunctionCall(call_loc, target, args) => {
                    assert!(matches!(call_loc, Loc::Codegen));
                    match *target {
                        Expression::Variable(inner) => {
                            assert!(matches!(inner.loc, Loc::Codegen));
                            assert_eq!(inner.name, "Hit");
                        },
                        _ => unreachable!(),
                    }
                    assert_eq!(args.len(), 1);
                    match &args[0] {
                        Expression::Variable(inner) => {
                            assert!(matches!(inner.loc, Loc::Codegen));
                            assert_eq!(inner.name, "x");
                        },
                        _ => unreachable!(),
                    }
                },
                _ => unreachable!(),
            }
        },
        _ => unreachable!(),
    }
}

#[test]
fn block_stmt_is_unchecked() {
    let inner = emit_stmt("Hit".to_string(), vec![]);
    match block_stmt(vec![inner]) {
        Statement::Block { loc, unchecked, statements } => {
            assert!(matches!(loc, Loc::Codegen));
            assert!(unchecked);
            assert_eq!(statements.len(), 1);
        },
        _ => unreachable!(),
    }
}

#[test]
fn event_def_shape() {
    let d = event_def(
        "Transfer".to_string(),
        vec![event_parameter("amount".to_string(), Type::Uint(256))],
    );
    assert!(matches!(d.loc, Loc::Codegen));
    assert_eq!(d.name.name, "Transfer");
    assert!(!d.anonymous);
    assert_eq!(d.fields.len(), 1);
    assert!(!d.fields[0].indexed);
    assert_eq!(d.fields[0].name.as_ref().unwrap().name, "amount");
    assert_eq!(d.fields[0].ty, Expression::Type(Loc::Codegen, Type::Uint(256)));
}

#[test]
fn function_def_shape() {
    let body = block_stmt(vec![]);
    let params = parameter_list(vec![("a".to_string(), Type::Uint(256))]);
    let d = function_def("f".to_string(), params, Some(Type::Bool), body);
    assert!(matches!(d.loc, Loc::Codegen));
    assert!(matches!(d.ty, FunctionTy::Function));
    assert_eq!(d.name.as_ref().unwrap().name, "f");
    assert!(matches!(d.name_loc, Loc::Codegen));
    assert_eq!(d.params.len(), 1);
    assert_eq!(
        d.attributes,
        vec![FunctionAttribute::Visibility(Visibility::Public(None))],
    );
    assert!(d.return_not_returns.is_none());
    assert_eq!(d.returns.len(), 1);
    let ret = d.returns[0].1.as_ref().unwrap();
    assert_eq!(ret.ty, Expression::Type(Loc::Codegen, Type::Bool));
    assert!(ret.name.is_none());
    assert!(d.body.is_some());
}

#[test]
fn function_def_without_return_type() {
    let d = function_def("g".to_string(), vec![], None, block_stmt(vec![]));
    assert_eq!(d.returns.len(), 0);
}

#[test]
fn parameter_builders() {
    let p = parameter("a".to_string(), Type::Bool);
    assert!(matches!(p.loc, Loc::Codegen));
    assert_eq!(p.name.as_ref().unwrap().name, "a");
    assert!(p.storage.is_none());
    assert_eq!(p.ty, Expression::Type(Loc::Codegen, Type::Bool));

    let anon = annon_parameter(Type::Address);
    assert!(anon.name.is_none());
    assert_eq!(anon.ty, Expression::Type(Loc::Codegen, Type::Address));

    let list = annon_parameter_list(vec![Type::Bool, Type::Address]);
    assert_eq!(list.len(), 2);
    assert!(matches!(list[0].0, Loc::Codegen));
    assert!(list[0].1.as_ref().unwrap().name.is_none());

    let named = parameter_list(vec![
        ("a".to_string(), Type::Bool),
        ("b".to_string(), Type::Uint(8)),
    ]);
    assert_eq!(named.len(), 2);
    assert_eq!(named[1].1.as_ref().unwrap().name.as_ref().unwrap().name, "b");
}

#[test]
fn params_convert_to_event_params() {
    let params = parameter_list(vec![
        ("available".to_string(), Type::Uint(256)),
        ("required".to_string(), Type::Uint(256)),
    ]);
    let fields = params_to_event_params(params);
    assert_eq!(fields.len(), 2);
    assert!(!fields[0].indexed);
    assert!(matches!(fields[0].loc, Loc::Codegen));
    assert_eq!(fields[0].name.as_ref().unwrap().name, "available");
    assert_eq!(fields[1].name.as_ref().unwrap().name, "required");
    assert_eq!(fields[0].ty, Expression::Type(Loc::Codegen, Type::Uint(256)));
}

#[test]
fn param_converts_to_event_param() {
    let p = Parameter {
        loc: Loc::File(0, 1, 9),
        ty: Expression::Type(Loc::File(0, 1, 5), Type::Uint(256)),
        storage: None,
        name: Some(solang_parser::pt::Identifier {
            loc: Loc::File(0, 6, 9),
            name: "amt".to_string(),
        }),
    };
    let field = param_to_event_param(p);
    assert!(matches!(field.loc, Loc::Codegen));
    assert!(!field.indexed);
    assert_eq!(field.name.as_ref().unwrap().name, "amt");
}

#[test]
fn params_convert_to_args() {
    let params = parameter_list(vec![
        ("a".to_string(), Type::Bool),
        ("b".to_string(), Type::Bool),
    ]);
    let args = params_to_args(&params);
    assert_eq!(args.len(), 2);
    match &args[0] {
        Expression::Variable(inner) => {
            assert!(matches!(inner.loc, Loc::Codegen));
            assert_eq!(inner.name, "a");
        },
        _ => unreachable!(),
    }
    match &args[1] {
        Expression::Variable(inner) => assert_eq!(inner.name, "b"),
        _ => unreachable!(),
    }

    let lone = parameter("x".to_string(), Type::Bool);
    match param_to_arg(&lone) {
        Expression::Variable(inner) => assert_eq!(inner.name, "x"),
        _ => unreachable!(),
    }
}
