use solang_parser::loc::{CodeLocation, Loc};
use solang_parser::pt::{
    Comment, ErrorDefinition, ErrorParameter, Expression, Identifier, IdentifierPath,
    SourceUnit, SourceUnitPart, Statement, Type, TypeDefinition, YulBlock, YulExpression,
    YulFor, YulFunctionCall, YulStatement, YulTypedIdentifier,
};

fn ident(loc: Loc, name: &str) -> Identifier {
    Identifier { loc, name: name.to_string() }
}

fn uint256(loc: Loc) -> Expression {
    Expression::Type(loc, Type::Uint(256))
}

#[test]
fn loc_equality_is_trivial() {
    assert_eq!(Loc::File(0, 1, 2), Loc::File(7, 8, 9));
    assert_eq!(Loc::Builtin, Loc::Codegen);
    assert_eq!(Loc::CommandLine, Loc::Implicit);
    assert_eq!(Loc::File(3, 4, 5), Loc::Builtin);
    assert!(Loc::File(0, 0, 0) == Loc::File(0, 0, 1));
}

#[test]
fn structural_equality_ignores_locs() {
    let a = ErrorDefinition {
        loc: Loc::File(0, 10, 58),
        name: ident(Loc::File(0, 16, 21), "Outer"),
        fields: vec![ErrorParameter {
            ty: uint256(Loc::File(0, 22, 29)),
            loc: Loc::File(0, 22, 39),
            name: Some(ident(Loc::File(0, 30, 39), "available")),
        }],
    };
    let b = ErrorDefinition {
        loc: Loc::File(9, 0, 0),
        name: ident(Loc::Builtin, "Outer"),
        fields: vec![ErrorParameter {
            ty: uint256(Loc::Codegen),
            loc: Loc::Implicit,
            name: Some(ident(Loc::File(4, 4, 4), "available")),
        }],
    };
    assert_eq!(a, b);

    let c = ErrorDefinition {
        loc: Loc::File(9, 0, 0),
        name: ident(Loc::Builtin, "Inner"),
        fields: vec![],
    };
    assert_ne!(a, c);
}

#[test]
fn loc_ranges_and_accessors() {
    let l = Loc::File(1, 20, 30);
    assert!(matches!(l.begin_range(), Loc::File(1, 20, 20)));
    assert!(matches!(l.end_range(), Loc::File(1, 30, 30)));
    assert!(matches!(Loc::Codegen.begin_range(), Loc::Codegen));
    assert!(matches!(Loc::Builtin.end_range(), Loc::Builtin));
    assert_eq!(l.file_no(), 1);
    assert_eq!(l.start(), 20);
    assert_eq!(l.end(), 30);
    assert_eq!(l.try_file_no(), Some(1));
    assert_eq!(Loc::Implicit.try_file_no(), None);
}

#[test]
fn loc_splicing() {
    let mut l = Loc::File(0, 5, 10);
    l.use_end_from(&Loc::File(0, 40, 50));
    assert!(matches!(l, Loc::File(0, 5, 50)));
    l.use_start_from(&Loc::File(0, 2, 3));
    assert!(matches!(l, Loc::File(0, 2, 50)));
}

#[test]
fn expression_locations() {
    let e = Expression::Add(
        Loc::File(0, 3, 8),
        Box::new(Expression::NumberLiteral(Loc::File(0, 3, 4), "1".to_string(), String::new())),
        Box::new(Expression::NumberLiteral(Loc::File(0, 7, 8), "2".to_string(), String::new())),
    );
    assert!(matches!(e.loc(), Loc::File(0, 3, 8)));

    let v = Expression::Variable(ident(Loc::File(2, 0, 3), "foo"));
    assert!(matches!(v.loc(), Loc::File(2, 0, 3)));

    let s = Expression::StringLiteral(vec![solang_parser::pt::StringLiteral {
        loc: Loc::File(0, 1, 6),
        unicode: false,
        string: "abc".to_string(),
    }]);
    assert!(matches!(s.loc(), Loc::File(0, 1, 6)));
}

#[test]
fn statement_locations() {
    let s = Statement::Return(Loc::File(0, 4, 14), None);
    assert!(matches!(s.loc(), Loc::File(0, 4, 14)));
    let b = Statement::Block { loc: Loc::File(1, 0, 9), unchecked: false, statements: vec![] };
    assert!(matches!(b.loc(), Loc::File(1, 0, 9)));
}

#[test]
fn remove_parenthesis_peels_one_layer() {
    let x = || Expression::Variable(ident(Loc::File(0, 1, 2), "x"));
    let wrapped = Expression::Parenthesis(Loc::File(0, 0, 3), Box::new(x()));
    assert_eq!(wrapped.remove_parenthesis(), &x());
    // Beyond the first call, peeling is idempotent.
    assert_eq!(wrapped.remove_parenthesis().remove_parenthesis(), &x());
    // A non-parenthesised expression is returned as it is.
    assert_eq!(x().remove_parenthesis(), &x());
}

#[test]
fn identifier_path_display() {
    let empty = IdentifierPath { loc: Loc::Builtin, identifiers: vec![] };
    assert_eq!(empty.display(), "");

    let path = IdentifierPath {
        loc: Loc::Builtin,
        identifiers: vec![
            ident(Loc::Builtin, "foo"),
            ident(Loc::Builtin, "bar"),
            ident(Loc::Builtin, "baz"),
        ],
    };
    assert_eq!(path.display(), "foo.bar.baz");

    let single = IdentifierPath {
        loc: Loc::Builtin,
        identifiers: vec![ident(Loc::Builtin, "lone")],
    };
    assert_eq!(single.display(), "lone");
}

#[test]
fn comment_contents() {
    let c = Comment::DocLine(Loc::File(0, 0, 14), "/// @title Foo".to_string());
    assert_eq!(c.get_contents(), "/// @title Foo");
    let b = Comment::Block(Loc::File(0, 222, 231), "/* meh */".to_string());
    assert_eq!(b.get_contents(), "/* meh */");
}

#[test]
fn user_defined_value_type_tree() {
    // `type Uint256 is uint256;` parses to this tree.
    let unit = SourceUnit(vec![SourceUnitPart::TypeDefinition(Box::new(TypeDefinition {
        loc: Loc::File(0, 9, 32),
        name: ident(Loc::File(0, 14, 21), "Uint256"),
        ty: Expression::Type(Loc::File(0, 25, 32), Type::Uint(256)),
    }))]);
    assert_eq!(unit.0.len(), 1);
    assert!(matches!(unit.0[0].loc(), Loc::File(0, 9, 32)));

    // The same tree built with other locations is structurally equal.
    let again = SourceUnit(vec![SourceUnitPart::TypeDefinition(Box::new(TypeDefinition {
        loc: Loc::Codegen,
        name: ident(Loc::Codegen, "Uint256"),
        ty: Expression::Type(Loc::Codegen, Type::Uint(256)),
    }))]);
    assert_eq!(unit, again);
}

#[test]
fn inline_assembly_tree() {
    // The Yul sub-tree of `assembly "evmasm" { let x := 0 for ... }`.
    let var_decl = YulStatement::VariableDeclaration(
        Loc::File(0, 98, 108),
        vec![YulTypedIdentifier {
            loc: Loc::File(0, 102, 103),
            id: ident(Loc::File(0, 102, 103), "x"),
            ty: None,
        }],
        Some(YulExpression::NumberLiteral(
            Loc::File(0, 107, 108),
            "0".to_string(),
            String::new(),
            None,
        )),
    );
    assert!(matches!(var_decl.loc(), Loc::File(0, 98, 108)));

    let cond = YulExpression::FunctionCall(Box::new(YulFunctionCall {
        loc: Loc::File(0, 152, 164),
        id: ident(Loc::File(0, 152, 154), "lt"),
        arguments: vec![
            YulExpression::Variable(ident(Loc::File(0, 155, 156), "i")),
            YulExpression::HexNumberLiteral(Loc::File(0, 158, 163), "0x100".to_string(), None),
        ],
    }));
    let body = YulBlock {
        loc: Loc::File(0, 187, 388),
        statements: vec![YulStatement::Break(Loc::File(0, 327, 332))],
    };
    let for_stmt = YulStatement::For(YulFor {
        loc: Loc::File(0, 133, 388),
        init_block: YulBlock { loc: Loc::File(0, 137, 151), statements: vec![] },
        condition: cond,
        post_block: YulBlock { loc: Loc::File(0, 165, 186), statements: vec![] },
        execution_block: body,
    });
    assert!(matches!(for_stmt.loc(), Loc::File(0, 133, 388)));

    let assembly_stmt = Statement::Assembly {
        loc: Loc::File(0, 54, 736),
        dialect: Some(solang_parser::pt::StringLiteral {
            loc: Loc::File(0, 63, 71),
            unicode: false,
            string: "evmasm".to_string(),
        }),
        flags: None,
        block: YulBlock { loc: Loc::File(0, 72, 736), statements: vec![var_decl, for_stmt] },
    };
    assert!(matches!(assembly_stmt.loc(), Loc::File(0, 54, 736)));
    match &assembly_stmt {
        Statement::Assembly { dialect, block, .. } => {
            assert_eq!(dialect.as_ref().unwrap().string, "evmasm");
            assert_eq!(block.statements.len(), 2);
            assert!(matches!(block.statements[0].loc(), Loc::File(0, 98, 108)));
        },
        _ => unreachable!(),
    }
}

#[test]
fn whole_tree_equality_ignores_locs() {
    // The same contract, once with parse-like file locations and once with
    // sentinel locations everywhere, compares equal as a whole tree.
    let build = |loc: Loc| {
        SourceUnit(vec![SourceUnitPart::ContractDefinition(Box::new(
            solang_parser::pt::ContractDefinition {
                loc,
                ty: solang_parser::pt::ContractTy::Contract(loc),
                name: ident(loc, "C"),
                base: vec![],
                parts: vec![solang_parser::pt::ContractPart::FunctionDefinition(Box::new(
                    solang_parser::pt::FunctionDefinition {
                        loc,
                        ty: solang_parser::pt::FunctionTy::Function,
                        name: Some(ident(loc, "f")),
                        name_loc: loc,
                        params: vec![],
                        attributes: vec![],
                        return_not_returns: None,
                        returns: vec![],
                        body: Some(Statement::Return(
                            loc,
                            Some(Expression::Add(
                                loc,
                                Box::new(Expression::NumberLiteral(
                                    loc,
                                    "1".to_string(),
                                    String::new(),
                                )),
                                Box::new(Expression::NumberLiteral(
                                    loc,
                                    "2".to_string(),
                                    String::new(),
                                )),
                            )),
                        )),
                    },
                ))],
            },
        ))])
    };
    assert_eq!(build(Loc::File(0, 10, 90)), build(Loc::Codegen));
    assert_eq!(build(Loc::Builtin), build(Loc::File(7, 1, 2)));
}
