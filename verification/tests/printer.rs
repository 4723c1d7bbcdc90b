use solang_parser::doc::{render_doc, u16_string};
use solang_parser::loc::Loc;
use solang_parser::pt::{
    Base, ContractDefinition, ContractPart, ContractTy, EnumDefinition, ErrorDefinition,
    ErrorParameter, EventDefinition, EventParameter, Expression, FunctionAttribute,
    FunctionDefinition, FunctionTy, Identifier, IdentifierPath, Import, Mutability, Parameter,
    SourceUnit, SourceUnitPart, Statement, StringLiteral, StructDefinition, Type,
    TypeDefinition, VariableAttribute, VariableDeclaration, VariableDefinition, Visibility,
};

fn ident(name: &str) -> Identifier {
    Identifier { loc: Loc::Builtin, name: name.to_string() }
}

fn path(names: &[&str]) -> IdentifierPath {
    IdentifierPath {
        loc: Loc::Builtin,
        identifiers: names.iter().map(|n| ident(n)).collect(),
    }
}

fn ty_expr(ty: Type) -> Expression {
    Expression::Type(Loc::Builtin, ty)
}

fn uint256_param(name: &str) -> ErrorParameter {
    ErrorParameter {
        ty: ty_expr(Type::Uint(256)),
        loc: Loc::Builtin,
        name: Some(ident(name)),
    }
}

#[test]
fn print_test() {
    let unit = SourceUnit(vec![
        SourceUnitPart::PragmaDirective(
            Loc::Builtin,
            ident("solidity"),
            StringLiteral { loc: Loc::Builtin, unicode: false, string: "^0.8.7".to_string() },
        ),
        SourceUnitPart::ErrorDefinition(Box::new(ErrorDefinition {
            loc: Loc::Builtin,
            name: ident("CharityRaffle__NotJackpotValue"),
            fields: vec![],
        })),
        SourceUnitPart::ErrorDefinition(Box::new(ErrorDefinition {
            loc: Loc::Builtin,
            name: ident("CharityRaffle__UpkeepNotNeeded"),
            fields: vec![
                uint256_param("currentBalance"),
                uint256_param("numPlayers"),
                uint256_param("raffleState"),
            ],
        })),
        SourceUnitPart::ContractDefinition(Box::new(ContractDefinition {
            loc: Loc::Builtin,
            ty: ContractTy::Contract(Loc::Builtin),
            name: ident("CharityRaffle"),
            base: vec![
                Base { loc: Loc::Builtin, name: path(&["VRFConsumerBaseV2"]), args: None },
                Base {
                    loc: Loc::Builtin,
                    name: path(&["KeeperCompatibleInterface"]),
                    args: None,
                },
            ],
            parts: vec![
                ContractPart::EnumDefinition(Box::new(EnumDefinition {
                    loc: Loc::Builtin,
                    name: ident("RaffleState"),
                    values: vec![ident("OPEN"), ident("CALCULATING"), ident("CLOSED")],
                })),
                ContractPart::VariableDefinition(Box::new(VariableDefinition {
                    loc: Loc::Builtin,
                    ty: ty_expr(Type::Uint(256)),
                    attrs: vec![
                        VariableAttribute::Visibility(Visibility::Private(None)),
                        VariableAttribute::Immutable(Loc::Builtin),
                    ],
                    name: ident("i_duration"),
                    initializer: None,
                })),
                ContractPart::EventDefinition(Box::new(EventDefinition {
                    loc: Loc::Builtin,
                    name: ident("RaffleEnter"),
                    fields: vec![EventParameter {
                        ty: ty_expr(Type::Address),
                        loc: Loc::Builtin,
                        indexed: true,
                        name: Some(ident("player")),
                    }],
                    anonymous: false,
                })),
                ContractPart::FunctionDefinition(Box::new(FunctionDefinition {
                    loc: Loc::Builtin,
                    ty: FunctionTy::Function,
                    name: Some(ident("checkForTie")),
                    name_loc: Loc::Builtin,
                    params: vec![],
                    attributes: vec![
                        FunctionAttribute::Visibility(Visibility::Internal(None)),
                        FunctionAttribute::Mutability(Mutability::View(Loc::Builtin)),
                    ],
                    return_not_returns: None,
                    returns: vec![(
                        Loc::Builtin,
                        Some(Parameter {
                            loc: Loc::Builtin,
                            ty: ty_expr(Type::Bool),
                            storage: None,
                            name: None,
                        }),
                    )],
                    body: Some(Statement::Block {
                        loc: Loc::Builtin,
                        unchecked: false,
                        statements: vec![Statement::Return(
                            Loc::Builtin,
                            Some(Expression::BoolLiteral(Loc::Builtin, true)),
                        )],
                    }),
                })),
            ],
        })),
    ]);

    let expected = "pragma solidity ^0.8.7;\n\nerror CharityRaffle__NotJackpotValue();\nerror CharityRaffle__UpkeepNotNeeded(uint256 currentBalance, uint256 numPlayers, uint256 raffleState);\ncontract CharityRaffle  is VRFConsumerBaseV2, KeeperCompatibleInterface {\n    enum RaffleState {\n        OPEN,\n        CALCULATING,\n        CLOSED\n    }\n\n    uint256 private immutable i_duration;\n\n    event RaffleEnter (address indexed player);\n\n    function checkForTie() internal view returns (bool){\n        return true;\n    }\n}";
    assert_eq!(unit.display(), expected);
}

#[test]
fn expression_display_is_flat() {
    let e = Expression::Add(
        Loc::Builtin,
        Box::new(Expression::NumberLiteral(Loc::Builtin, "1".to_string(), String::new())),
        Box::new(Expression::NumberLiteral(Loc::Builtin, "2".to_string(), String::new())),
    );
    assert_eq!(e.display(), "1 + 2");

    let p = Expression::Parenthesis(Loc::Builtin, Box::new(e));
    assert_eq!(p.display(), "(1 + 2)");

    let call = Expression::FunctionCall(
        Loc::Builtin,
        Box::new(Expression::Variable(ident("assert"))),
        vec![Expression::Equal(
            Loc::Builtin,
            Box::new(Expression::Variable(ident("sum"))),
            Box::new(Expression::NumberLiteral(Loc::Builtin, "2".to_string(), String::new())),
        )],
    );
    assert_eq!(call.display(), "assert(sum == 2)");
}

#[test]
fn statement_block_display_indents() {
    let block = Statement::Block {
        loc: Loc::Builtin,
        unchecked: false,
        statements: vec![
            Statement::Expression(
                Loc::Builtin,
                Expression::Assign(
                    Loc::Builtin,
                    Box::new(Expression::Variable(ident("x"))),
                    Box::new(Expression::NumberLiteral(
                        Loc::Builtin,
                        "1".to_string(),
                        String::new(),
                    )),
                ),
            ),
            Statement::Break(Loc::Builtin),
        ],
    };
    assert_eq!(block.display(), "{\n    x = 1;\n    break;\n}");
}

#[test]
fn if_else_display() {
    let s = Statement::If(
        Loc::Builtin,
        Expression::Variable(ident("cond")),
        Box::new(Statement::Block {
            loc: Loc::Builtin,
            unchecked: false,
            statements: vec![Statement::Break(Loc::Builtin)],
        }),
        Some(Box::new(Statement::Block {
            loc: Loc::Builtin,
            unchecked: false,
            statements: vec![Statement::Continue(Loc::Builtin)],
        })),
    );
    assert_eq!(s.display(), "if (cond) {\n    break;\n} else {\n    continue;\n}");
}

#[test]
fn revert_display() {
    // `revert BAR_ERROR();`
    let s = Statement::Revert(Loc::Builtin, Some(path(&["BAR_ERROR"])), vec![]);
    assert_eq!(s.display(), "revert BAR_ERROR();");
}

#[test]
fn while_and_emit_display() {
    let w = Statement::While(
        Loc::Builtin,
        Expression::Less(
            Loc::Builtin,
            Box::new(Expression::Variable(ident("i"))),
            Box::new(Expression::NumberLiteral(Loc::Builtin, "10".to_string(), String::new())),
        ),
        Box::new(Statement::Block {
            loc: Loc::Builtin,
            unchecked: false,
            statements: vec![Statement::Expression(
                Loc::Builtin,
                Expression::PostIncrement(
                    Loc::Builtin,
                    Box::new(Expression::Variable(ident("i"))),
                ),
            )],
        }),
    );
    assert_eq!(w.display(), "while (i < 10) {\n    i++;\n}");

    let e = Statement::Emit(
        Loc::Builtin,
        Expression::FunctionCall(
            Loc::Builtin,
            Box::new(Expression::Variable(ident("Hit"))),
            vec![Expression::Variable(ident("x"))],
        ),
    );
    assert_eq!(e.display(), "emit Hit(x);");
}

#[test]
fn type_definition_display() {
    // `type Uint256 is uint256`
    let td = TypeDefinition {
        loc: Loc::Builtin,
        name: ident("Uint256"),
        ty: ty_expr(Type::Uint(256)),
    };
    assert_eq!(render_doc(&td.to_doc()), "type Uint256 is uint256");
}

#[test]
fn error_definition_display() {
    let ed = ErrorDefinition {
        loc: Loc::Builtin,
        name: ident("Outer"),
        fields: vec![uint256_param("available"), uint256_param("required")],
    };
    assert_eq!(ed.display(), "error Outer(uint256 available, uint256 required)");
}

#[test]
fn struct_definition_display() {
    let sd = StructDefinition {
        loc: Loc::Builtin,
        name: ident("Jurisdiction"),
        fields: vec![
            VariableDeclaration {
                loc: Loc::Builtin,
                ty: ty_expr(Type::Bool),
                storage: None,
                name: ident("exists"),
            },
            VariableDeclaration {
                loc: Loc::Builtin,
                ty: ty_expr(Type::Bytes(32)),
                storage: None,
                name: ident("region"),
            },
        ],
    };
    assert_eq!(
        render_doc(&sd.to_doc()),
        "struct Jurisdiction {\n    bool exists;\n    bytes32 region;\n}",
    );
}

#[test]
fn mapping_type_display() {
    let m = ty_expr(Type::Mapping(
        Loc::Builtin,
        Box::new(ty_expr(Type::Address)),
        Box::new(ty_expr(Type::Uint(256))),
    ));
    assert_eq!(m.display(), "mapping(address => uint256)");
}

#[test]
fn import_display() {
    let plain = SourceUnitPart::ImportDirective(Import::Plain(
        StringLiteral { loc: Loc::Builtin, unicode: false, string: "lib.sol".to_string() },
        Loc::Builtin,
    ));
    assert_eq!(plain.display(), "import \"lib.sol\";");

    let rename = SourceUnitPart::ImportDirective(Import::Rename(
        StringLiteral { loc: Loc::Builtin, unicode: false, string: "lib.sol".to_string() },
        vec![(ident("a"), Some(ident("b"))), (ident("c"), None)],
        Loc::Builtin,
    ));
    assert_eq!(rename.display(), "import { a as b, c } from \"lib.sol\";");
}

#[test]
fn size_suffixes_display() {
    assert_eq!(u16_string(0), "0");
    assert_eq!(u16_string(8), "8");
    assert_eq!(u16_string(256), "256");
    assert_eq!(u16_string(65535), "65535");
    assert_eq!(ty_expr(Type::Int(64)).display(), "int64");
    assert_eq!(ty_expr(Type::Bytes(2)).display(), "bytes2");
    assert_eq!(ty_expr(Type::DynamicBytes).display(), "bytes");
}

#[test]
fn contract_function_display() {
    // `contract C { function f() public view returns (uint) { return 1 + 2; } }`
    let contract = ContractDefinition {
        loc: Loc::Builtin,
        ty: ContractTy::Contract(Loc::Builtin),
        name: ident("C"),
        base: vec![],
        parts: vec![ContractPart::FunctionDefinition(Box::new(FunctionDefinition {
            loc: Loc::Builtin,
            ty: FunctionTy::Function,
            name: Some(ident("f")),
            name_loc: Loc::Builtin,
            params: vec![],
            attributes: vec![
                FunctionAttribute::Visibility(Visibility::Public(None)),
                FunctionAttribute::Mutability(Mutability::View(Loc::Builtin)),
            ],
            return_not_returns: None,
            returns: vec![(
                Loc::Builtin,
                Some(Parameter {
                    loc: Loc::Builtin,
                    ty: ty_expr(Type::Uint(256)),
                    storage: None,
                    name: None,
                }),
            )],
            body: Some(Statement::Block {
                loc: Loc::Builtin,
                unchecked: false,
                statements: vec![Statement::Return(
                    Loc::Builtin,
                    Some(Expression::Add(
                        Loc::Builtin,
                        Box::new(Expression::NumberLiteral(
                            Loc::Builtin,
                            "1".to_string(),
                            String::new(),
                        )),
                        Box::new(Expression::NumberLiteral(
                            Loc::Builtin,
                            "2".to_string(),
                            String::new(),
                        )),
                    )),
                )],
            }),
        }))],
    };
    assert_eq!(
        contract.display(),
        "contract C {\n    function f() public view returns (uint256){\n        return 1 + 2;\n    }\n}",
    );
}

#[test]
fn nested_blocks_display() {
    let inner = Statement::Block { loc: Loc::Builtin, unchecked: false, statements: vec![] };
    let outer = Statement::Block {
        loc: Loc::Builtin,
        unchecked: false,
        statements: vec![inner],
    };
    assert_eq!(outer.display(), "{\n    {\n    }\n}");

    let empty = Statement::Block { loc: Loc::Builtin, unchecked: false, statements: vec![] };
    assert_eq!(empty.display(), "{\n}");
}

#[test]
fn contract_kind_keyword_display() {
    let kinds = vec![
        (ContractTy::Contract(Loc::Builtin), "contract C {\n}"),
        (ContractTy::Interface(Loc::Builtin), "interface C {\n}"),
        (ContractTy::Library(Loc::Builtin), "library C {\n}"),
        (ContractTy::Abstract(Loc::Builtin), "abstract contract C {\n}"),
    ];
    for (ty, expected) in kinds {
        let def = ContractDefinition {
            loc: Loc::Builtin,
            ty,
            name: ident("C"),
            base: vec![],
            parts: vec![],
        };
        assert_eq!(def.display(), expected);
    }
}
