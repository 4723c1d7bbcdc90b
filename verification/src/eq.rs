//! Structural equality of whole parse trees, with its specification.
//!
//! Equality of nodes compares variants and content recursively, and no
//! source location ever enters the comparison: two trees that differ only
//! in where their pieces were parsed from compare equal. The `*_eq` spec
//! functions here say exactly what each comparison means, and every
//! hand-written `PartialEq` below is proved to return precisely that. The
//! one place a location leaves a trace is an optional location, where only
//! its presence is compared.

use vstd::prelude::*;
use crate::loc::Loc;
use crate::pt::{
    Base, CatchClause, ContractDefinition, ContractPart, ContractTy, EnumDefinition,
    ErrorDefinition, ErrorParameter, EventDefinition, EventParameter, Expression,
    FunctionAttribute, FunctionDefinition, FunctionTy, Identifier, IdentifierPath, Import,
    Mutability, NamedArgument, Parameter, ParameterList, SourceUnit, SourceUnitPart, Statement,
    StorageLocation, StringLiteral, HexLiteral, StructDefinition, Type, TypeDefinition, Unit,
    Using, UsingList, VariableAttribute, VariableDeclaration, VariableDefinition, Visibility,
    YulBlock, YulExpression, YulFor, YulFunctionCall, YulFunctionDefinition, YulStatement,
    YulSwitch, YulSwitchOptions, YulTypedIdentifier,
};

verus! {

// ---------------------------------------------------------------------------
// Leaves
// ---------------------------------------------------------------------------

/// Identifiers are equal when their names are.
pub open spec fn ident_eq(a: Identifier, b: Identifier) -> bool {
    a.name@ == b.name@
}

/// Optional identifiers are equal when both are absent or both present
/// and equal.
pub open spec fn opt_ident_eq(a: Option<Identifier>, b: Option<Identifier>) -> bool {
    match (a, b) {
        (Some(x), Some(y)) => ident_eq(x, y),
        (None, None) => true,
        _ => false,
    }
}

/// Identifier sequences are equal elementwise.
pub open spec fn idents_eq(a: Seq<Identifier>, b: Seq<Identifier>) -> bool {
    a.len() == b.len() && (forall|i: int| 0 <= i < a.len() ==> ident_eq(#[trigger] a[i], b[i]))
}

/// Paths are equal when their identifiers are, in order.
pub open spec fn path_eq(a: IdentifierPath, b: IdentifierPath) -> bool {
    idents_eq(a.identifiers@, b.identifiers@)
}

/// Path sequences are equal elementwise.
pub open spec fn paths_eq(a: Seq<IdentifierPath>, b: Seq<IdentifierPath>) -> bool {
    a.len() == b.len() && (forall|i: int| 0 <= i < a.len() ==> path_eq(#[trigger] a[i], b[i]))
}

/// Optional paths are equal when both are absent or both present and equal.
pub open spec fn opt_path_eq(a: Option<IdentifierPath>, b: Option<IdentifierPath>) -> bool {
    match (a, b) {
        (Some(x), Some(y)) => path_eq(x, y),
        (None, None) => true,
        _ => false,
    }
}

/// String literals are equal when flag and text are.
pub open spec fn strlit_eq(a: StringLiteral, b: StringLiteral) -> bool {
    a.unicode == b.unicode && a.string@ == b.string@
}

/// String-literal sequences are equal elementwise.
pub open spec fn strlits_eq(a: Seq<StringLiteral>, b: Seq<StringLiteral>) -> bool {
    a.len() == b.len() && (forall|i: int| 0 <= i < a.len() ==> strlit_eq(#[trigger] a[i], b[i]))
}

/// Optional string literals are equal when both are absent or both
/// present and equal.
pub open spec fn opt_strlit_eq(a: Option<StringLiteral>, b: Option<StringLiteral>) -> bool {
    match (a, b) {
        (Some(x), Some(y)) => strlit_eq(x, y),
        (None, None) => true,
        _ => false,
    }
}

/// Optional string-literal lists are equal when both are absent or both
/// present and elementwise equal.
pub open spec fn opt_strlits_eq(a: Option<Vec<StringLiteral>>, b: Option<Vec<StringLiteral>>) -> bool {
    match (a, b) {
        (Some(x), Some(y)) => strlits_eq(x@, y@),
        (None, None) => true,
        _ => false,
    }
}

/// Hex literals are equal when their bodies are.
pub open spec fn hexlit_eq(a: HexLiteral, b: HexLiteral) -> bool {
    a.hex@ == b.hex@
}

/// Hex-literal sequences are equal elementwise.
pub open spec fn hexlits_eq(a: Seq<HexLiteral>, b: Seq<HexLiteral>) -> bool {
    a.len() == b.len() && (forall|i: int| 0 <= i < a.len() ==> hexlit_eq(#[trigger] a[i], b[i]))
}

/// Storage locations are equal when they are the same kind.
pub open spec fn storage_eq(a: StorageLocation, b: StorageLocation) -> bool {
    match (a, b) {
        (StorageLocation::Memory(_), StorageLocation::Memory(_)) => true,
        (StorageLocation::Storage(_), StorageLocation::Storage(_)) => true,
        (StorageLocation::Calldata(_), StorageLocation::Calldata(_)) => true,
        _ => false,
    }
}

/// Optional storage locations are equal when both are absent or the same
/// kind.
pub open spec fn opt_storage_eq(a: Option<StorageLocation>, b: Option<StorageLocation>) -> bool {
    match (a, b) {
        (Some(x), Some(y)) => storage_eq(x, y),
        (None, None) => true,
        _ => false,
    }
}

/// Contract kinds are equal when they are the same kind.
pub open spec fn contract_ty_eq(a: ContractTy, b: ContractTy) -> bool {
    match (a, b) {
        (ContractTy::Abstract(_), ContractTy::Abstract(_)) => true,
        (ContractTy::Contract(_), ContractTy::Contract(_)) => true,
        (ContractTy::Interface(_), ContractTy::Interface(_)) => true,
        (ContractTy::Library(_), ContractTy::Library(_)) => true,
        _ => false,
    }
}

/// Mutability attributes are equal when they are the same kind.
pub open spec fn mutability_eq(a: Mutability, b: Mutability) -> bool {
    match (a, b) {
        (Mutability::Pure(_), Mutability::Pure(_)) => true,
        (Mutability::View(_), Mutability::View(_)) => true,
        (Mutability::Constant(_), Mutability::Constant(_)) => true,
        (Mutability::Payable(_), Mutability::Payable(_)) => true,
        _ => false,
    }
}

/// Visibility attributes are equal when they are the same kind and agree
/// on whether they carry a location of their own.
pub open spec fn visibility_eq(a: Visibility, b: Visibility) -> bool {
    match (a, b) {
        (Visibility::External(l1), Visibility::External(l2)) => l1 is Some == l2 is Some,
        (Visibility::Public(l1), Visibility::Public(l2)) => l1 is Some == l2 is Some,
        (Visibility::Internal(l1), Visibility::Internal(l2)) => l1 is Some == l2 is Some,
        (Visibility::Private(l1), Visibility::Private(l2)) => l1 is Some == l2 is Some,
        _ => false,
    }
}

/// Function kinds are equal when they are the same kind.
pub open spec fn function_ty_eq(a: FunctionTy, b: FunctionTy) -> bool {
    match (a, b) {
        (FunctionTy::Constructor, FunctionTy::Constructor) => true,
        (FunctionTy::Function, FunctionTy::Function) => true,
        (FunctionTy::Fallback, FunctionTy::Fallback) => true,
        (FunctionTy::Receive, FunctionTy::Receive) => true,
        (FunctionTy::Modifier, FunctionTy::Modifier) => true,
        _ => false,
    }
}

/// Unit suffixes are equal when they are the same unit.
pub open spec fn unit_eq(a: Unit, b: Unit) -> bool {
    match (a, b) {
        (Unit::Seconds(_), Unit::Seconds(_)) => true,
        (Unit::Minutes(_), Unit::Minutes(_)) => true,
        (Unit::Hours(_), Unit::Hours(_)) => true,
        (Unit::Days(_), Unit::Days(_)) => true,
        (Unit::Weeks(_), Unit::Weeks(_)) => true,
        (Unit::Wei(_), Unit::Wei(_)) => true,
        (Unit::Gwei(_), Unit::Gwei(_)) => true,
        (Unit::Ether(_), Unit::Ether(_)) => true,
        _ => false,
    }
}

/// Optional locations are equal when they agree on being present; what
/// they hold never matters.
pub open spec fn opt_loc_eq(a: Option<Loc>, b: Option<Loc>) -> bool {
    match (a, b) {
        (Some(_), Some(_)) => true,
        (None, None) => true,
        _ => false,
    }
}

// ---------------------------------------------------------------------------
// Expressions, statements and Yul
// ---------------------------------------------------------------------------

/// Expressions are equal when they are the same variant with equal
/// content.
pub open spec fn expr_eq(a: Expression, b: Expression) -> bool
    decreases a,
{
    match (a, b) {
        (Expression::PostIncrement(_, x1), Expression::PostIncrement(_, x2)) => expr_eq(*x1, *x2),
        (Expression::PostDecrement(_, x1), Expression::PostDecrement(_, x2)) => expr_eq(*x1, *x2),
        (Expression::New(_, x1), Expression::New(_, x2)) => expr_eq(*x1, *x2),
        (Expression::Parenthesis(_, x1), Expression::Parenthesis(_, x2)) => expr_eq(*x1, *x2),
        (Expression::Not(_, x1), Expression::Not(_, x2)) => expr_eq(*x1, *x2),
        (Expression::Complement(_, x1), Expression::Complement(_, x2)) => expr_eq(*x1, *x2),
        (Expression::Delete(_, x1), Expression::Delete(_, x2)) => expr_eq(*x1, *x2),
        (Expression::PreIncrement(_, x1), Expression::PreIncrement(_, x2)) => expr_eq(*x1, *x2),
        (Expression::PreDecrement(_, x1), Expression::PreDecrement(_, x2)) => expr_eq(*x1, *x2),
        (Expression::UnaryPlus(_, x1), Expression::UnaryPlus(_, x2)) => expr_eq(*x1, *x2),
        (Expression::UnaryMinus(_, x1), Expression::UnaryMinus(_, x2)) => expr_eq(*x1, *x2),
        (Expression::Power(_, x1, y1), Expression::Power(_, x2, y2)) => expr_eq(*x1, *x2)
            && expr_eq(*y1, *y2),
        (Expression::Multiply(_, x1, y1), Expression::Multiply(_, x2, y2)) => expr_eq(*x1, *x2)
            && expr_eq(*y1, *y2),
        (Expression::Divide(_, x1, y1), Expression::Divide(_, x2, y2)) => expr_eq(*x1, *x2)
            && expr_eq(*y1, *y2),
        (Expression::Modulo(_, x1, y1), Expression::Modulo(_, x2, y2)) => expr_eq(*x1, *x2)
            && expr_eq(*y1, *y2),
        (Expression::Add(_, x1, y1), Expression::Add(_, x2, y2)) => expr_eq(*x1, *x2)
            && expr_eq(*y1, *y2),
        (Expression::Subtract(_, x1, y1), Expression::Subtract(_, x2, y2)) => expr_eq(*x1, *x2)
            && expr_eq(*y1, *y2),
        (Expression::ShiftLeft(_, x1, y1), Expression::ShiftLeft(_, x2, y2)) => expr_eq(*x1, *x2)
            && expr_eq(*y1, *y2),
        (Expression::ShiftRight(_, x1, y1), Expression::ShiftRight(_, x2, y2)) => expr_eq(*x1, *x2)
            && expr_eq(*y1, *y2),
        (Expression::BitwiseAnd(_, x1, y1), Expression::BitwiseAnd(_, x2, y2)) => expr_eq(*x1, *x2)
            && expr_eq(*y1, *y2),
        (Expression::BitwiseXor(_, x1, y1), Expression::BitwiseXor(_, x2, y2)) => expr_eq(*x1, *x2)
            && expr_eq(*y1, *y2),
        (Expression::BitwiseOr(_, x1, y1), Expression::BitwiseOr(_, x2, y2)) => expr_eq(*x1, *x2)
            && expr_eq(*y1, *y2),
        (Expression::Less(_, x1, y1), Expression::Less(_, x2, y2)) => expr_eq(*x1, *x2)
            && expr_eq(*y1, *y2),
        (Expression::More(_, x1, y1), Expression::More(_, x2, y2)) => expr_eq(*x1, *x2)
            && expr_eq(*y1, *y2),
        (Expression::LessEqual(_, x1, y1), Expression::LessEqual(_, x2, y2)) => expr_eq(*x1, *x2)
            && expr_eq(*y1, *y2),
        (Expression::MoreEqual(_, x1, y1), Expression::MoreEqual(_, x2, y2)) => expr_eq(*x1, *x2)
            && expr_eq(*y1, *y2),
        (Expression::Equal(_, x1, y1), Expression::Equal(_, x2, y2)) => expr_eq(*x1, *x2)
            && expr_eq(*y1, *y2),
        (Expression::NotEqual(_, x1, y1), Expression::NotEqual(_, x2, y2)) => expr_eq(*x1, *x2)
            && expr_eq(*y1, *y2),
        (Expression::And(_, x1, y1), Expression::And(_, x2, y2)) => expr_eq(*x1, *x2)
            && expr_eq(*y1, *y2),
        (Expression::Or(_, x1, y1), Expression::Or(_, x2, y2)) => expr_eq(*x1, *x2)
            && expr_eq(*y1, *y2),
        (Expression::Assign(_, x1, y1), Expression::Assign(_, x2, y2)) => expr_eq(*x1, *x2)
            && expr_eq(*y1, *y2),
        (Expression::AssignOr(_, x1, y1), Expression::AssignOr(_, x2, y2)) => expr_eq(*x1, *x2)
            && expr_eq(*y1, *y2),
        (Expression::AssignAnd(_, x1, y1), Expression::AssignAnd(_, x2, y2)) => expr_eq(*x1, *x2)
            && expr_eq(*y1, *y2),
        (Expression::AssignXor(_, x1, y1), Expression::AssignXor(_, x2, y2)) => expr_eq(*x1, *x2)
            && expr_eq(*y1, *y2),
        (Expression::AssignShiftLeft(_, x1, y1), Expression::AssignShiftLeft(_, x2, y2)) => expr_eq(*x1, *x2)
            && expr_eq(*y1, *y2),
        (Expression::AssignShiftRight(_, x1, y1), Expression::AssignShiftRight(_, x2, y2)) => expr_eq(*x1, *x2)
            && expr_eq(*y1, *y2),
        (Expression::AssignAdd(_, x1, y1), Expression::AssignAdd(_, x2, y2)) => expr_eq(*x1, *x2)
            && expr_eq(*y1, *y2),
        (Expression::AssignSubtract(_, x1, y1), Expression::AssignSubtract(_, x2, y2)) => expr_eq(*x1, *x2)
            && expr_eq(*y1, *y2),
        (Expression::AssignMultiply(_, x1, y1), Expression::AssignMultiply(_, x2, y2)) => expr_eq(*x1, *x2)
            && expr_eq(*y1, *y2),
        (Expression::AssignDivide(_, x1, y1), Expression::AssignDivide(_, x2, y2)) => expr_eq(*x1, *x2)
            && expr_eq(*y1, *y2),
        (Expression::AssignModulo(_, x1, y1), Expression::AssignModulo(_, x2, y2)) => expr_eq(*x1, *x2)
            && expr_eq(*y1, *y2),
        (
            Expression::ArraySubscript(_, x1, y1),
            Expression::ArraySubscript(_, x2, y2),
        ) => expr_eq(*x1, *x2) && opt_box_expr_eq(y1, y2),
        (
            Expression::ArraySlice(_, x1, y1, z1),
            Expression::ArraySlice(_, x2, y2, z2),
        ) => expr_eq(*x1, *x2) && opt_box_expr_eq(y1, y2) && opt_box_expr_eq(z1, z2),
        (
            Expression::MemberAccess(_, x1, f1),
            Expression::MemberAccess(_, x2, f2),
        ) => expr_eq(*x1, *x2) && ident_eq(f1, f2),
        (
            Expression::FunctionCall(_, f1, a1),
            Expression::FunctionCall(_, f2, a2),
        ) => expr_eq(*f1, *f2) && exprs_eq(a1@, a2@),
        (
            Expression::FunctionCallBlock(_, f1, s1),
            Expression::FunctionCallBlock(_, f2, s2),
        ) => expr_eq(*f1, *f2) && stmt_eq(*s1, *s2),
        (
            Expression::NamedFunctionCall(_, f1, a1),
            Expression::NamedFunctionCall(_, f2, a2),
        ) => expr_eq(*f1, *f2) && named_args_eq(a1@, a2@),
        (
            Expression::Ternary(_, x1, y1, z1),
            Expression::Ternary(_, x2, y2, z2),
        ) => expr_eq(*x1, *x2) && expr_eq(*y1, *y2) && expr_eq(*z1, *z2),
        (Expression::BoolLiteral(_, b1), Expression::BoolLiteral(_, b2)) => b1 == b2,
        (
            Expression::NumberLiteral(_, n1, e1),
            Expression::NumberLiteral(_, n2, e2),
        ) => n1@ == n2@ && e1@ == e2@,
        (
            Expression::RationalNumberLiteral(_, w1, f1, e1),
            Expression::RationalNumberLiteral(_, w2, f2, e2),
        ) => w1@ == w2@ && f1@ == f2@ && e1@ == e2@,
        (
            Expression::HexNumberLiteral(_, n1),
            Expression::HexNumberLiteral(_, n2),
        ) => n1@ == n2@,
        (Expression::StringLiteral(v1), Expression::StringLiteral(v2)) => strlits_eq(v1@, v2@),
        (Expression::Type(_, t1), Expression::Type(_, t2)) => type_eq(t1, t2),
        (Expression::HexLiteral(v1), Expression::HexLiteral(v2)) => hexlits_eq(v1@, v2@),
        (
            Expression::AddressLiteral(_, a1),
            Expression::AddressLiteral(_, a2),
        ) => a1@ == a2@,
        (Expression::Variable(i1), Expression::Variable(i2)) => ident_eq(i1, i2),
        (Expression::List(_, p1), Expression::List(_, p2)) => slots_eq(p1@, p2@),
        (Expression::ArrayLiteral(_, v1), Expression::ArrayLiteral(_, v2)) => exprs_eq(v1@, v2@),
        (Expression::Unit(_, x1, u1), Expression::Unit(_, x2, u2)) => expr_eq(*x1, *x2)
            && unit_eq(u1, u2),
        (Expression::This(_), Expression::This(_)) => true,
        _ => false,
    }
}

/// Expression sequences are equal elementwise.
pub open spec fn exprs_eq(a: Seq<Expression>, b: Seq<Expression>) -> bool
    decreases a,
{
    a.len() == b.len() && (forall|i: int| 0 <= i < a.len() ==> expr_eq(#[trigger] a[i], b[i]))
}

/// Optional expressions are equal when both are absent or both present
/// and equal.
pub open spec fn opt_expr_eq(a: Option<Expression>, b: Option<Expression>) -> bool
    decreases a,
{
    match (a, b) {
        (Some(x), Some(y)) => expr_eq(x, y),
        (None, None) => true,
        _ => false,
    }
}

/// Optional boxed expressions are equal when both are absent or both
/// present and equal.
pub open spec fn opt_box_expr_eq(a: Option<Box<Expression>>, b: Option<Box<Expression>>) -> bool
    decreases a,
{
    match (a, b) {
        (Some(x), Some(y)) => expr_eq(*x, *y),
        (None, None) => true,
        _ => false,
    }
}

/// Optional lists of expressions are equal when both are absent or both
/// present and elementwise equal.
pub open spec fn opt_exprs_eq(a: Option<Vec<Expression>>, b: Option<Vec<Expression>>) -> bool
    decreases a,
{
    match (a, b) {
        (Some(x), Some(y)) => exprs_eq(x@, y@),
        (None, None) => true,
        _ => false,
    }
}

/// Types are equal when they are the same variant with equal content.
pub open spec fn type_eq(a: Type, b: Type) -> bool
    decreases a,
{
    match (a, b) {
        (Type::Address, Type::Address) => true,
        (Type::AddressPayable, Type::AddressPayable) => true,
        (Type::Payable, Type::Payable) => true,
        (Type::Bool, Type::Bool) => true,
        (Type::String, Type::String) => true,
        (Type::Int(s1), Type::Int(s2)) => s1 == s2,
        (Type::Uint(s1), Type::Uint(s2)) => s1 == s2,
        (Type::Bytes(s1), Type::Bytes(s2)) => s1 == s2,
        (Type::Rational, Type::Rational) => true,
        (Type::DynamicBytes, Type::DynamicBytes) => true,
        (Type::Mapping(_, k1, v1), Type::Mapping(_, k2, v2)) => expr_eq(*k1, *k2)
            && expr_eq(*v1, *v2),
        (
            Type::Function { params: p1, attributes: a1, returns: r1 },
            Type::Function { params: p2, attributes: a2, returns: r2 },
        ) => slots_eq(p1@, p2@) && fn_attrs_eq(a1@, a2@) && opt_rets_eq(r1, r2),
        _ => false,
    }
}

/// Optional return clauses of a function type are equal when both are
/// absent or componentwise equal.
pub open spec fn opt_rets_eq(
    a: Option<(ParameterList, Vec<FunctionAttribute>)>,
    b: Option<(ParameterList, Vec<FunctionAttribute>)>,
) -> bool
    decreases a,
{
    match (a, b) {
        (Some(x), Some(y)) => slots_eq(x.0@, y.0@) && fn_attrs_eq(x.1@, y.1@),
        (None, None) => true,
        _ => false,
    }
}

/// Parameters are equal when type, storage and name are.
pub open spec fn param_eq(a: Parameter, b: Parameter) -> bool
    decreases a,
{
    expr_eq(a.ty, b.ty) && opt_storage_eq(a.storage, b.storage) && opt_ident_eq(a.name, b.name)
}

/// Optional parameters are equal when both slots are empty or both filled
/// with equal parameters.
pub open spec fn opt_param_eq(a: Option<Parameter>, b: Option<Parameter>) -> bool
    decreases a,
{
    match (a, b) {
        (Some(x), Some(y)) => param_eq(x, y),
        (None, None) => true,
        _ => false,
    }
}

/// Parameter lists are equal slot by slot; a slot's own location never
/// matters.
pub open spec fn slots_eq(
    a: Seq<(Loc, Option<Parameter>)>,
    b: Seq<(Loc, Option<Parameter>)>,
) -> bool
    decreases a,
{
    a.len() == b.len() && (forall|i: int|
        0 <= i < a.len() ==> opt_param_eq((#[trigger] a[i]).1, b[i].1))
}

/// Named arguments are equal when name and expression are.
pub open spec fn named_arg_eq(a: NamedArgument, b: NamedArgument) -> bool
    decreases a,
{
    ident_eq(a.name, b.name) && expr_eq(a.expr, b.expr)
}

/// Named-argument sequences are equal elementwise.
pub open spec fn named_args_eq(a: Seq<NamedArgument>, b: Seq<NamedArgument>) -> bool
    decreases a,
{
    a.len() == b.len() && (forall|i: int|
        0 <= i < a.len() ==> named_arg_eq(#[trigger] a[i], b[i]))
}

/// Variable declarations are equal when type, storage and name are.
pub open spec fn var_decl_eq(a: VariableDeclaration, b: VariableDeclaration) -> bool
    decreases a,
{
    expr_eq(a.ty, b.ty) && opt_storage_eq(a.storage, b.storage) && ident_eq(a.name, b.name)
}

/// Statements are equal when they are the same variant with equal
/// content.
pub open spec fn stmt_eq(a: Statement, b: Statement) -> bool
    decreases a,
{
    match (a, b) {
        (
            Statement::Block { unchecked: u1, statements: s1, .. },
            Statement::Block { unchecked: u2, statements: s2, .. },
        ) => u1 == u2 && stmts_eq(s1@, s2@),
        (
            Statement::Assembly { dialect: d1, flags: f1, block: b1, .. },
            Statement::Assembly { dialect: d2, flags: f2, block: b2, .. },
        ) => opt_strlit_eq(d1, d2) && opt_strlits_eq(f1, f2) && yul_block_eq(b1, b2),
        (Statement::Args(_, a1), Statement::Args(_, a2)) => named_args_eq(a1@, a2@),
        (Statement::If(_, c1, t1, e1), Statement::If(_, c2, t2, e2)) => expr_eq(c1, c2)
            && stmt_eq(*t1, *t2) && opt_box_stmt_eq(e1, e2),
        (Statement::While(_, c1, b1), Statement::While(_, c2, b2)) => expr_eq(c1, c2)
            && stmt_eq(*b1, *b2),
        (Statement::Expression(_, e1), Statement::Expression(_, e2)) => expr_eq(e1, e2),
        (
            Statement::VariableDefinition(_, d1, i1),
            Statement::VariableDefinition(_, d2, i2),
        ) => var_decl_eq(d1, d2) && opt_expr_eq(i1, i2),
        (
            Statement::For(_, i1, c1, p1, b1),
            Statement::For(_, i2, c2, p2, b2),
        ) => opt_box_stmt_eq(i1, i2) && opt_box_expr_eq(c1, c2) && opt_box_stmt_eq(p1, p2)
            && opt_box_stmt_eq(b1, b2),
        (Statement::DoWhile(_, b1, c1), Statement::DoWhile(_, b2, c2)) => stmt_eq(*b1, *b2)
            && expr_eq(c1, c2),
        (Statement::Continue(_), Statement::Continue(_)) => true,
        (Statement::Break(_), Statement::Break(_)) => true,
        (Statement::Return(_, e1), Statement::Return(_, e2)) => opt_expr_eq(e1, e2),
        (Statement::Revert(_, p1, e1), Statement::Revert(_, p2, e2)) => opt_path_eq(p1, p2)
            && exprs_eq(e1@, e2@),
        (
            Statement::RevertNamedArgs(_, p1, a1),
            Statement::RevertNamedArgs(_, p2, a2),
        ) => opt_path_eq(p1, p2) && named_args_eq(a1@, a2@),
        (Statement::Emit(_, e1), Statement::Emit(_, e2)) => expr_eq(e1, e2),
        (Statement::Try(_, e1, r1, c1), Statement::Try(_, e2, r2, c2)) => expr_eq(e1, e2)
            && opt_try_clause_eq(r1, r2) && catches_eq(c1@, c2@),
        _ => false,
    }
}

/// Statement sequences are equal elementwise.
pub open spec fn stmts_eq(a: Seq<Statement>, b: Seq<Statement>) -> bool
    decreases a,
{
    a.len() == b.len() && (forall|i: int| 0 <= i < a.len() ==> stmt_eq(#[trigger] a[i], b[i]))
}

/// Optional boxed statements are equal when both are absent or both
/// present and equal.
pub open spec fn opt_box_stmt_eq(a: Option<Box<Statement>>, b: Option<Box<Statement>>) -> bool
    decreases a,
{
    match (a, b) {
        (Some(x), Some(y)) => stmt_eq(*x, *y),
        (None, None) => true,
        _ => false,
    }
}

/// Optional success clauses of a `try` are equal when both are absent or
/// componentwise equal.
pub open spec fn opt_try_clause_eq(
    a: Option<(ParameterList, Box<Statement>)>,
    b: Option<(ParameterList, Box<Statement>)>,
) -> bool
    decreases a,
{
    match (a, b) {
        (Some(x), Some(y)) => slots_eq(x.0@, y.0@) && stmt_eq(*x.1, *y.1),
        (None, None) => true,
        _ => false,
    }
}

/// Catch clauses are equal when they are the same form with equal content.
pub open spec fn catch_eq(a: CatchClause, b: CatchClause) -> bool
    decreases a,
{
    match (a, b) {
        (CatchClause::Simple(_, p1, s1), CatchClause::Simple(_, p2, s2)) => opt_param_eq(p1, p2)
            && stmt_eq(s1, s2),
        (
            CatchClause::Named(_, i1, p1, s1),
            CatchClause::Named(_, i2, p2, s2),
        ) => ident_eq(i1, i2) && param_eq(p1, p2) && stmt_eq(s1, s2),
        _ => false,
    }
}

/// Catch-clause sequences are equal elementwise.
pub open spec fn catches_eq(a: Seq<CatchClause>, b: Seq<CatchClause>) -> bool
    decreases a,
{
    a.len() == b.len() && (forall|i: int| 0 <= i < a.len() ==> catch_eq(#[trigger] a[i], b[i]))
}

/// Yul expressions are equal when they are the same variant with equal
/// content.
pub open spec fn yul_expr_eq(a: YulExpression, b: YulExpression) -> bool
    decreases a,
{
    match (a, b) {
        (
            YulExpression::BoolLiteral(_, b1, t1),
            YulExpression::BoolLiteral(_, b2, t2),
        ) => b1 == b2 && opt_ident_eq(t1, t2),
        (
            YulExpression::NumberLiteral(_, n1, e1, t1),
            YulExpression::NumberLiteral(_, n2, e2, t2),
        ) => n1@ == n2@ && e1@ == e2@ && opt_ident_eq(t1, t2),
        (
            YulExpression::HexNumberLiteral(_, n1, t1),
            YulExpression::HexNumberLiteral(_, n2, t2),
        ) => n1@ == n2@ && opt_ident_eq(t1, t2),
        (
            YulExpression::HexStringLiteral(h1, t1),
            YulExpression::HexStringLiteral(h2, t2),
        ) => hexlit_eq(h1, h2) && opt_ident_eq(t1, t2),
        (
            YulExpression::StringLiteral(s1, t1),
            YulExpression::StringLiteral(s2, t2),
        ) => strlit_eq(s1, s2) && opt_ident_eq(t1, t2),
        (YulExpression::Variable(i1), YulExpression::Variable(i2)) => ident_eq(i1, i2),
        (YulExpression::FunctionCall(c1), YulExpression::FunctionCall(c2)) => yul_call_eq(
            *c1,
            *c2,
        ),
        (
            YulExpression::SuffixAccess(_, e1, i1),
            YulExpression::SuffixAccess(_, e2, i2),
        ) => yul_expr_eq(*e1, *e2) && ident_eq(i1, i2),
        _ => false,
    }
}

/// Yul-expression sequences are equal elementwise.
pub open spec fn yul_exprs_eq(a: Seq<YulExpression>, b: Seq<YulExpression>) -> bool
    decreases a,
{
    a.len() == b.len() && (forall|i: int|
        0 <= i < a.len() ==> yul_expr_eq(#[trigger] a[i], b[i]))
}

/// Optional Yul expressions are equal when both are absent or both
/// present and equal.
pub open spec fn opt_yul_expr_eq(a: Option<YulExpression>, b: Option<YulExpression>) -> bool
    decreases a,
{
    match (a, b) {
        (Some(x), Some(y)) => yul_expr_eq(x, y),
        (None, None) => true,
        _ => false,
    }
}

/// Yul calls are equal when name and arguments are.
pub open spec fn yul_call_eq(a: YulFunctionCall, b: YulFunctionCall) -> bool
    decreases a,
{
    ident_eq(a.id, b.id) && yul_exprs_eq(a.arguments@, b.arguments@)
}

/// Typed Yul identifiers are equal when name and type suffix are.
pub open spec fn yul_typed_ident_eq(a: YulTypedIdentifier, b: YulTypedIdentifier) -> bool {
    ident_eq(a.id, b.id) && opt_ident_eq(a.ty, b.ty)
}

/// Typed-Yul-identifier sequences are equal elementwise.
pub open spec fn yul_typed_idents_eq(
    a: Seq<YulTypedIdentifier>,
    b: Seq<YulTypedIdentifier>,
) -> bool {
    a.len() == b.len() && (forall|i: int|
        0 <= i < a.len() ==> yul_typed_ident_eq(#[trigger] a[i], b[i]))
}

/// Yul blocks are equal when their statements are, in order.
pub open spec fn yul_block_eq(a: YulBlock, b: YulBlock) -> bool
    decreases a,
{
    yul_stmts_eq(a.statements@, b.statements@)
}

/// Yul-statement sequences are equal elementwise.
pub open spec fn yul_stmts_eq(a: Seq<YulStatement>, b: Seq<YulStatement>) -> bool
    decreases a,
{
    a.len() == b.len() && (forall|i: int|
        0 <= i < a.len() ==> yul_stmt_eq(#[trigger] a[i], b[i]))
}

/// Yul statements are equal when they are the same variant with equal
/// content.
pub open spec fn yul_stmt_eq(a: YulStatement, b: YulStatement) -> bool
    decreases a,
{
    match (a, b) {
        (YulStatement::Assign(_, l1, r1), YulStatement::Assign(_, l2, r2)) => yul_exprs_eq(
            l1@,
            l2@,
        ) && yul_expr_eq(r1, r2),
        (
            YulStatement::VariableDeclaration(_, i1, x1),
            YulStatement::VariableDeclaration(_, i2, x2),
        ) => yul_typed_idents_eq(i1@, i2@) && opt_yul_expr_eq(x1, x2),
        (YulStatement::If(_, c1, b1), YulStatement::If(_, c2, b2)) => yul_expr_eq(c1, c2)
            && yul_block_eq(b1, b2),
        (YulStatement::For(f1), YulStatement::For(f2)) => yul_for_eq(f1, f2),
        (YulStatement::Switch(s1), YulStatement::Switch(s2)) => yul_switch_eq(s1, s2),
        (YulStatement::Leave(_), YulStatement::Leave(_)) => true,
        (YulStatement::Break(_), YulStatement::Break(_)) => true,
        (YulStatement::Continue(_), YulStatement::Continue(_)) => true,
        (YulStatement::Block(b1), YulStatement::Block(b2)) => yul_block_eq(b1, b2),
        (
            YulStatement::FunctionDefinition(d1),
            YulStatement::FunctionDefinition(d2),
        ) => yul_fn_def_eq(*d1, *d2),
        (YulStatement::FunctionCall(c1), YulStatement::FunctionCall(c2)) => yul_call_eq(*c1, *c2),
        _ => false,
    }
}

/// Yul `for` statements are equal blockwise.
pub open spec fn yul_for_eq(a: YulFor, b: YulFor) -> bool
    decreases a,
{
    yul_block_eq(a.init_block, b.init_block) && yul_expr_eq(a.condition, b.condition)
        && yul_block_eq(a.post_block, b.post_block) && yul_block_eq(
        a.execution_block,
        b.execution_block,
    )
}

/// Yul `switch` statements are equal when condition, cases and default
/// are.
pub open spec fn yul_switch_eq(a: YulSwitch, b: YulSwitch) -> bool
    decreases a,
{
    yul_expr_eq(a.condition, b.condition) && yul_switch_opts_eq(a.cases@, b.cases@)
        && opt_yul_switch_opt_eq(a.default, b.default)
}

/// Yul switch arms are equal when they are the same form with equal
/// content.
pub open spec fn yul_switch_opt_eq(a: YulSwitchOptions, b: YulSwitchOptions) -> bool
    decreases a,
{
    match (a, b) {
        (
            YulSwitchOptions::Case(_, e1, b1),
            YulSwitchOptions::Case(_, e2, b2),
        ) => yul_expr_eq(e1, e2) && yul_block_eq(b1, b2),
        (
            YulSwitchOptions::Default(_, b1),
            YulSwitchOptions::Default(_, b2),
        ) => yul_block_eq(b1, b2),
        _ => false,
    }
}

/// Yul-switch-arm sequences are equal elementwise.
pub open spec fn yul_switch_opts_eq(a: Seq<YulSwitchOptions>, b: Seq<YulSwitchOptions>) -> bool
    decreases a,
{
    a.len() == b.len() && (forall|i: int|
        0 <= i < a.len() ==> yul_switch_opt_eq(#[trigger] a[i], b[i]))
}

/// Optional Yul switch arms are equal when both are absent or both
/// present and equal.
pub open spec fn opt_yul_switch_opt_eq(
    a: Option<YulSwitchOptions>,
    b: Option<YulSwitchOptions>,
) -> bool
    decreases a,
{
    match (a, b) {
        (Some(x), Some(y)) => yul_switch_opt_eq(x, y),
        (None, None) => true,
        _ => false,
    }
}

/// Yul function definitions are equal when name, parameters, returns and
/// body are.
pub open spec fn yul_fn_def_eq(a: YulFunctionDefinition, b: YulFunctionDefinition) -> bool
    decreases a,
{
    ident_eq(a.id, b.id) && yul_typed_idents_eq(a.params@, b.params@) && yul_typed_idents_eq(
        a.returns@,
        b.returns@,
    ) && yul_block_eq(a.body, b.body)
}

/// Base-contract references are equal when path and arguments are.
pub open spec fn base_eq(a: Base, b: Base) -> bool
    decreases a,
{
    path_eq(a.name, b.name) && opt_exprs_eq(a.args, b.args)
}

/// Base-reference sequences are equal elementwise.
pub open spec fn bases_eq(a: Seq<Base>, b: Seq<Base>) -> bool
    decreases a,
{
    a.len() == b.len() && (forall|i: int| 0 <= i < a.len() ==> base_eq(#[trigger] a[i], b[i]))
}

/// Function attributes are equal when they are the same kind with equal
/// content.
pub open spec fn fn_attr_eq(a: FunctionAttribute, b: FunctionAttribute) -> bool
    decreases a,
{
    match (a, b) {
        (
            FunctionAttribute::Mutability(m1),
            FunctionAttribute::Mutability(m2),
        ) => mutability_eq(m1, m2),
        (
            FunctionAttribute::Visibility(v1),
            FunctionAttribute::Visibility(v2),
        ) => visibility_eq(v1, v2),
        (FunctionAttribute::Virtual(_), FunctionAttribute::Virtual(_)) => true,
        (FunctionAttribute::Immutable(_), FunctionAttribute::Immutable(_)) => true,
        (
            FunctionAttribute::Override(_, p1),
            FunctionAttribute::Override(_, p2),
        ) => paths_eq(p1@, p2@),
        (
            FunctionAttribute::BaseOrModifier(_, b1),
            FunctionAttribute::BaseOrModifier(_, b2),
        ) => base_eq(b1, b2),
        _ => false,
    }
}

/// Function-attribute sequences are equal elementwise.
pub open spec fn fn_attrs_eq(a: Seq<FunctionAttribute>, b: Seq<FunctionAttribute>) -> bool
    decreases a,
{
    a.len() == b.len() && (forall|i: int| 0 <= i < a.len() ==> fn_attr_eq(#[trigger] a[i], b[i]))
}

// ---------------------------------------------------------------------------
// Definitions and source units
// ---------------------------------------------------------------------------

/// Variable attributes are equal when they are the same kind with equal
/// content.
pub open spec fn var_attr_eq(a: VariableAttribute, b: VariableAttribute) -> bool {
    match (a, b) {
        (
            VariableAttribute::Visibility(v1),
            VariableAttribute::Visibility(v2),
        ) => visibility_eq(v1, v2),
        (VariableAttribute::Constant(_), VariableAttribute::Constant(_)) => true,
        (VariableAttribute::Immutable(_), VariableAttribute::Immutable(_)) => true,
        (
            VariableAttribute::Override(_, p1),
            VariableAttribute::Override(_, p2),
        ) => paths_eq(p1@, p2@),
        _ => false,
    }
}

/// Variable-attribute sequences are equal elementwise.
pub open spec fn var_attrs_eq(a: Seq<VariableAttribute>, b: Seq<VariableAttribute>) -> bool {
    a.len() == b.len() && (forall|i: int| 0 <= i < a.len() ==> var_attr_eq(#[trigger] a[i], b[i]))
}

/// Variable-declaration sequences are equal elementwise.
pub open spec fn var_decls_eq(a: Seq<VariableDeclaration>, b: Seq<VariableDeclaration>) -> bool {
    a.len() == b.len() && (forall|i: int| 0 <= i < a.len() ==> var_decl_eq(#[trigger] a[i], b[i]))
}

/// Event fields are equal when type, indexed flag and name are.
pub open spec fn event_param_eq(a: EventParameter, b: EventParameter) -> bool {
    expr_eq(a.ty, b.ty) && a.indexed == b.indexed && opt_ident_eq(a.name, b.name)
}

/// Event-field sequences are equal elementwise.
pub open spec fn event_params_eq(a: Seq<EventParameter>, b: Seq<EventParameter>) -> bool {
    a.len() == b.len() && (forall|i: int|
        0 <= i < a.len() ==> event_param_eq(#[trigger] a[i], b[i]))
}

/// Event definitions are equal when name, fields and anonymity are.
pub open spec fn event_def_eq(a: EventDefinition, b: EventDefinition) -> bool {
    ident_eq(a.name, b.name) && event_params_eq(a.fields@, b.fields@) && a.anonymous
        == b.anonymous
}

/// Error fields are equal when type and name are.
pub open spec fn error_param_eq(a: ErrorParameter, b: ErrorParameter) -> bool {
    expr_eq(a.ty, b.ty) && opt_ident_eq(a.name, b.name)
}

/// Error-field sequences are equal elementwise.
pub open spec fn error_params_eq(a: Seq<ErrorParameter>, b: Seq<ErrorParameter>) -> bool {
    a.len() == b.len() && (forall|i: int|
        0 <= i < a.len() ==> error_param_eq(#[trigger] a[i], b[i]))
}

/// Error definitions are equal when name and fields are.
pub open spec fn error_def_eq(a: ErrorDefinition, b: ErrorDefinition) -> bool {
    ident_eq(a.name, b.name) && error_params_eq(a.fields@, b.fields@)
}

/// Enum definitions are equal when name and values are.
pub open spec fn enum_def_eq(a: EnumDefinition, b: EnumDefinition) -> bool {
    ident_eq(a.name, b.name) && idents_eq(a.values@, b.values@)
}

/// Struct definitions are equal when name and fields are.
pub open spec fn struct_def_eq(a: StructDefinition, b: StructDefinition) -> bool {
    ident_eq(a.name, b.name) && var_decls_eq(a.fields@, b.fields@)
}

/// State-variable definitions are equal when type, attributes, name and
/// initialiser are.
pub open spec fn var_def_eq(a: VariableDefinition, b: VariableDefinition) -> bool {
    expr_eq(a.ty, b.ty) && var_attrs_eq(a.attrs@, b.attrs@) && ident_eq(a.name, b.name)
        && opt_expr_eq(a.initializer, b.initializer)
}

/// Type definitions are equal when name and underlying type are.
pub open spec fn type_def_eq(a: TypeDefinition, b: TypeDefinition) -> bool {
    ident_eq(a.name, b.name) && expr_eq(a.ty, b.ty)
}

/// Using lists are equal when they are the same form with equal content.
pub open spec fn using_list_eq(a: UsingList, b: UsingList) -> bool {
    match (a, b) {
        (UsingList::Library(p1), UsingList::Library(p2)) => path_eq(p1, p2),
        (UsingList::Functions(v1), UsingList::Functions(v2)) => paths_eq(v1@, v2@),
        _ => false,
    }
}

/// Using directives are equal when list, type and global marker are.
pub open spec fn using_eq(a: Using, b: Using) -> bool {
    using_list_eq(a.list, b.list) && opt_expr_eq(a.ty, b.ty) && opt_ident_eq(a.global, b.global)
}

/// Function definitions are equal when kind, name, parameters,
/// attributes, returns and body are; locations, including the presence
/// shape of `return_not_returns`, are compared by presence only.
pub open spec fn func_def_eq(a: FunctionDefinition, b: FunctionDefinition) -> bool {
    function_ty_eq(a.ty, b.ty) && opt_ident_eq(a.name, b.name) && slots_eq(a.params@, b.params@)
        && fn_attrs_eq(a.attributes@, b.attributes@) && opt_loc_eq(
        a.return_not_returns,
        b.return_not_returns,
    ) && slots_eq(a.returns@, b.returns@) && opt_stmt_eq(a.body, b.body)
}

/// Optional statements are equal when both are absent or both present
/// and equal.
pub open spec fn opt_stmt_eq(a: Option<Statement>, b: Option<Statement>) -> bool {
    match (a, b) {
        (Some(x), Some(y)) => stmt_eq(x, y),
        (None, None) => true,
        _ => false,
    }
}

/// Renamed-import lists are equal pair by pair.
pub open spec fn rename_items_eq(
    a: Seq<(Identifier, Option<Identifier>)>,
    b: Seq<(Identifier, Option<Identifier>)>,
) -> bool {
    a.len() == b.len() && (forall|i: int|
        0 <= i < a.len() ==> ident_eq((#[trigger] a[i]).0, b[i].0) && opt_ident_eq(
            a[i].1,
            b[i].1,
        ))
}

/// Import directives are equal when they are the same form with equal
/// content.
pub open spec fn import_eq(a: Import, b: Import) -> bool {
    match (a, b) {
        (Import::Plain(s1, _), Import::Plain(s2, _)) => strlit_eq(s1, s2),
        (
            Import::GlobalSymbol(s1, i1, _),
            Import::GlobalSymbol(s2, i2, _),
        ) => strlit_eq(s1, s2) && ident_eq(i1, i2),
        (Import::Rename(s1, v1, _), Import::Rename(s2, v2, _)) => strlit_eq(s1, s2)
            && rename_items_eq(v1@, v2@),
        _ => false,
    }
}

/// Contract parts are equal when they are the same kind of item with
/// equal content.
pub open spec fn contract_part_eq(a: ContractPart, b: ContractPart) -> bool {
    match (a, b) {
        (
            ContractPart::StructDefinition(d1),
            ContractPart::StructDefinition(d2),
        ) => struct_def_eq(*d1, *d2),
        (
            ContractPart::EventDefinition(d1),
            ContractPart::EventDefinition(d2),
        ) => event_def_eq(*d1, *d2),
        (
            ContractPart::EnumDefinition(d1),
            ContractPart::EnumDefinition(d2),
        ) => enum_def_eq(*d1, *d2),
        (
            ContractPart::ErrorDefinition(d1),
            ContractPart::ErrorDefinition(d2),
        ) => error_def_eq(*d1, *d2),
        (
            ContractPart::VariableDefinition(d1),
            ContractPart::VariableDefinition(d2),
        ) => var_def_eq(*d1, *d2),
        (
            ContractPart::FunctionDefinition(d1),
            ContractPart::FunctionDefinition(d2),
        ) => func_def_eq(*d1, *d2),
        (
            ContractPart::TypeDefinition(d1),
            ContractPart::TypeDefinition(d2),
        ) => type_def_eq(*d1, *d2),
        (ContractPart::StraySemicolon(_), ContractPart::StraySemicolon(_)) => true,
        (ContractPart::Using(d1), ContractPart::Using(d2)) => using_eq(*d1, *d2),
        _ => false,
    }
}

/// Contract-part sequences are equal elementwise.
pub open spec fn parts_eq(a: Seq<ContractPart>, b: Seq<ContractPart>) -> bool {
    a.len() == b.len() && (forall|i: int|
        0 <= i < a.len() ==> contract_part_eq(#[trigger] a[i], b[i]))
}

/// Contract definitions are equal when kind, name, bases and parts are.
pub open spec fn contract_def_eq(a: ContractDefinition, b: ContractDefinition) -> bool {
    contract_ty_eq(a.ty, b.ty) && ident_eq(a.name, b.name) && bases_eq(a.base@, b.base@)
        && parts_eq(a.parts@, b.parts@)
}

/// Top-level parts are equal when they are the same kind of item with
/// equal content.
pub open spec fn unit_part_eq(a: SourceUnitPart, b: SourceUnitPart) -> bool {
    match (a, b) {
        (
            SourceUnitPart::ContractDefinition(d1),
            SourceUnitPart::ContractDefinition(d2),
        ) => contract_def_eq(*d1, *d2),
        (
            SourceUnitPart::PragmaDirective(_, i1, s1),
            SourceUnitPart::PragmaDirective(_, i2, s2),
        ) => ident_eq(i1, i2) && strlit_eq(s1, s2),
        (
            SourceUnitPart::ImportDirective(d1),
            SourceUnitPart::ImportDirective(d2),
        ) => import_eq(d1, d2),
        (
            SourceUnitPart::EnumDefinition(d1),
            SourceUnitPart::EnumDefinition(d2),
        ) => enum_def_eq(*d1, *d2),
        (
            SourceUnitPart::StructDefinition(d1),
            SourceUnitPart::StructDefinition(d2),
        ) => struct_def_eq(*d1, *d2),
        (
            SourceUnitPart::EventDefinition(d1),
            SourceUnitPart::EventDefinition(d2),
        ) => event_def_eq(*d1, *d2),
        (
            SourceUnitPart::ErrorDefinition(d1),
            SourceUnitPart::ErrorDefinition(d2),
        ) => error_def_eq(*d1, *d2),
        (
            SourceUnitPart::FunctionDefinition(d1),
            SourceUnitPart::FunctionDefinition(d2),
        ) => func_def_eq(*d1, *d2),
        (
            SourceUnitPart::VariableDefinition(d1),
            SourceUnitPart::VariableDefinition(d2),
        ) => var_def_eq(*d1, *d2),
        (
            SourceUnitPart::TypeDefinition(d1),
            SourceUnitPart::TypeDefinition(d2),
        ) => type_def_eq(*d1, *d2),
        (SourceUnitPart::Using(d1), SourceUnitPart::Using(d2)) => using_eq(*d1, *d2),
        (
            SourceUnitPart::StraySemicolon(_),
            SourceUnitPart::StraySemicolon(_),
        ) => true,
        _ => false,
    }
}

/// Top-level part sequences are equal elementwise.
pub open spec fn unit_parts_eq(a: Seq<SourceUnitPart>, b: Seq<SourceUnitPart>) -> bool {
    a.len() == b.len() && (forall|i: int|
        0 <= i < a.len() ==> unit_part_eq(#[trigger] a[i], b[i]))
}

/// Source units are equal when their parts are, in order. Nothing in this
/// definition, nor in anything it unfolds to, reads a location's value:
/// two trees that differ only in source coordinates are equal.
pub open spec fn source_unit_eq(a: SourceUnit, b: SourceUnit) -> bool {
    unit_parts_eq(a.0@, b.0@)
}


// ---------------------------------------------------------------------------
// The equality impls
// ---------------------------------------------------------------------------
// The recursive comparisons live in free functions; each `PartialEq` below
// hands its arguments straight to one of them.

impl PartialEq for Unit {
    /// Equality compares the unit alone; the location never matters.
    fn eq(&self, other: &Self) -> (r: bool)
        ensures
            r == unit_eq(*self, *other),
    {
        match (self, other) {
            (Unit::Seconds(_), Unit::Seconds(_)) => true,
            (Unit::Minutes(_), Unit::Minutes(_)) => true,
            (Unit::Hours(_), Unit::Hours(_)) => true,
            (Unit::Days(_), Unit::Days(_)) => true,
            (Unit::Weeks(_), Unit::Weeks(_)) => true,
            (Unit::Wei(_), Unit::Wei(_)) => true,
            (Unit::Gwei(_), Unit::Gwei(_)) => true,
            (Unit::Ether(_), Unit::Ether(_)) => true,
            _ => false,
        }
    }
}

impl vstd::std_specs::cmp::PartialEqSpecImpl for Unit {
    open spec fn obeys_eq_spec() -> bool {
        true
    }

    open spec fn eq_spec(&self, other: &Unit) -> bool {
        unit_eq(*self, *other)
    }
}

impl PartialEq for ContractTy {
    /// Equality compares the kind alone; the location never matters.
    fn eq(&self, other: &Self) -> (r: bool)
        ensures
            r == contract_ty_eq(*self, *other),
    {
        match (self, other) {
            (ContractTy::Abstract(_), ContractTy::Abstract(_)) => true,
            (ContractTy::Contract(_), ContractTy::Contract(_)) => true,
            (ContractTy::Interface(_), ContractTy::Interface(_)) => true,
            (ContractTy::Library(_), ContractTy::Library(_)) => true,
            _ => false,
        }
    }
}

impl vstd::std_specs::cmp::PartialEqSpecImpl for ContractTy {
    open spec fn obeys_eq_spec() -> bool {
        true
    }

    open spec fn eq_spec(&self, other: &ContractTy) -> bool {
        contract_ty_eq(*self, *other)
    }
}

impl PartialEq for StorageLocation {
    /// Equality compares the kind alone; the location never matters.
    fn eq(&self, other: &Self) -> (r: bool)
        ensures
            r == storage_eq(*self, *other),
    {
        match (self, other) {
            (StorageLocation::Memory(_), StorageLocation::Memory(_)) => true,
            (StorageLocation::Storage(_), StorageLocation::Storage(_)) => true,
            (StorageLocation::Calldata(_), StorageLocation::Calldata(_)) => true,
            _ => false,
        }
    }
}

impl vstd::std_specs::cmp::PartialEqSpecImpl for StorageLocation {
    open spec fn obeys_eq_spec() -> bool {
        true
    }

    open spec fn eq_spec(&self, other: &StorageLocation) -> bool {
        storage_eq(*self, *other)
    }
}

impl PartialEq for Mutability {
    /// Equality compares the kind alone; the location never matters.
    fn eq(&self, other: &Self) -> (r: bool)
        ensures
            r == mutability_eq(*self, *other),
    {
        match (self, other) {
            (Mutability::Pure(_), Mutability::Pure(_)) => true,
            (Mutability::View(_), Mutability::View(_)) => true,
            (Mutability::Constant(_), Mutability::Constant(_)) => true,
            (Mutability::Payable(_), Mutability::Payable(_)) => true,
            _ => false,
        }
    }
}

impl vstd::std_specs::cmp::PartialEqSpecImpl for Mutability {
    open spec fn obeys_eq_spec() -> bool {
        true
    }

    open spec fn eq_spec(&self, other: &Mutability) -> bool {
        mutability_eq(*self, *other)
    }
}

impl PartialEq for Visibility {
    /// Equality compares the kind and whether an own location is present;
    /// the location's value never matters.
    fn eq(&self, other: &Self) -> (r: bool)
        ensures
            r == visibility_eq(*self, *other),
    {
        match (self, other) {
            (Visibility::External(l1), Visibility::External(l2)) => l1.is_some() == l2.is_some(),
            (Visibility::Public(l1), Visibility::Public(l2)) => l1.is_some() == l2.is_some(),
            (Visibility::Internal(l1), Visibility::Internal(l2)) => l1.is_some() == l2.is_some(),
            (Visibility::Private(l1), Visibility::Private(l2)) => l1.is_some() == l2.is_some(),
            _ => false,
        }
    }
}

impl vstd::std_specs::cmp::PartialEqSpecImpl for Visibility {
    open spec fn obeys_eq_spec() -> bool {
        true
    }

    open spec fn eq_spec(&self, other: &Visibility) -> bool {
        visibility_eq(*self, *other)
    }
}

impl PartialEq for FunctionTy {
    /// Equality compares the kind.
    fn eq(&self, other: &Self) -> (r: bool)
        ensures
            r == function_ty_eq(*self, *other),
    {
        match (self, other) {
            (FunctionTy::Constructor, FunctionTy::Constructor) => true,
            (FunctionTy::Function, FunctionTy::Function) => true,
            (FunctionTy::Fallback, FunctionTy::Fallback) => true,
            (FunctionTy::Receive, FunctionTy::Receive) => true,
            (FunctionTy::Modifier, FunctionTy::Modifier) => true,
            _ => false,
        }
    }
}

impl vstd::std_specs::cmp::PartialEqSpecImpl for FunctionTy {
    open spec fn obeys_eq_spec() -> bool {
        true
    }

    open spec fn eq_spec(&self, other: &FunctionTy) -> bool {
        function_ty_eq(*self, *other)
    }
}

impl PartialEq for YulTypedIdentifier {
    /// Equality compares name and type suffix; no location matters.
    fn eq(&self, other: &Self) -> (r: bool)
        ensures
            r == yul_typed_ident_eq(*self, *other),
    {
        self.id == other.id && self.ty == other.ty
    }
}

impl vstd::std_specs::cmp::PartialEqSpecImpl for YulTypedIdentifier {
    open spec fn obeys_eq_spec() -> bool {
        true
    }

    open spec fn eq_spec(&self, other: &YulTypedIdentifier) -> bool {
        yul_typed_ident_eq(*self, *other)
    }
}


fn idents_match(a: &Vec<Identifier>, b: &Vec<Identifier>) -> (r: bool)
    ensures
        r == idents_eq(a@, b@),
{
    if a.len() != b.len() {
        return false;
    }
    let mut i: usize = 0;
    while i < a.len()
        invariant
            a@.len() == b@.len(),
            i <= a@.len(),
            forall|j: int| 0 <= j < i ==> ident_eq(#[trigger] a@[j], b@[j]),
        decreases a@.len() - i,
    {
        if !(a[i] == b[i]) {
            return false;
        }
        i = i + 1;
    }
    true
}

fn path_match(a: &IdentifierPath, b: &IdentifierPath) -> (r: bool)
    ensures
        r == path_eq(*a, *b),
{
    idents_match(&a.identifiers, &b.identifiers)
}

fn paths_match(a: &Vec<IdentifierPath>, b: &Vec<IdentifierPath>) -> (r: bool)
    ensures
        r == paths_eq(a@, b@),
{
    if a.len() != b.len() {
        return false;
    }
    let mut i: usize = 0;
    while i < a.len()
        invariant
            a@.len() == b@.len(),
            i <= a@.len(),
            forall|j: int| 0 <= j < i ==> path_eq(#[trigger] a@[j], b@[j]),
        decreases a@.len() - i,
    {
        if !path_match(&a[i], &b[i]) {
            return false;
        }
        i = i + 1;
    }
    true
}

fn opt_path_match(a: &Option<IdentifierPath>, b: &Option<IdentifierPath>) -> (r: bool)
    ensures
        r == opt_path_eq(*a, *b),
{
    match (a, b) {
        (Some(x), Some(y)) => path_match(x, y),
        (None, None) => true,
        _ => false,
    }
}

fn strlits_match(a: &Vec<StringLiteral>, b: &Vec<StringLiteral>) -> (r: bool)
    ensures
        r == strlits_eq(a@, b@),
{
    if a.len() != b.len() {
        return false;
    }
    let mut i: usize = 0;
    while i < a.len()
        invariant
            a@.len() == b@.len(),
            i <= a@.len(),
            forall|j: int| 0 <= j < i ==> strlit_eq(#[trigger] a@[j], b@[j]),
        decreases a@.len() - i,
    {
        if !(a[i] == b[i]) {
            return false;
        }
        i = i + 1;
    }
    true
}

fn opt_strlits_vec_match(
    a: &Option<Vec<StringLiteral>>,
    b: &Option<Vec<StringLiteral>>,
) -> (r: bool)
    ensures
        r == opt_strlits_eq(*a, *b),
{
    match (a, b) {
        (Some(x), Some(y)) => strlits_match(x, y),
        (None, None) => true,
        _ => false,
    }
}

fn hexlits_match(a: &Vec<HexLiteral>, b: &Vec<HexLiteral>) -> (r: bool)
    ensures
        r == hexlits_eq(a@, b@),
{
    if a.len() != b.len() {
        return false;
    }
    let mut i: usize = 0;
    while i < a.len()
        invariant
            a@.len() == b@.len(),
            i <= a@.len(),
            forall|j: int| 0 <= j < i ==> hexlit_eq(#[trigger] a@[j], b@[j]),
        decreases a@.len() - i,
    {
        if !(a[i] == b[i]) {
            return false;
        }
        i = i + 1;
    }
    true
}

fn yul_typed_idents_match(
    a: &Vec<YulTypedIdentifier>,
    b: &Vec<YulTypedIdentifier>,
) -> (r: bool)
    ensures
        r == yul_typed_idents_eq(a@, b@),
{
    if a.len() != b.len() {
        return false;
    }
    let mut i: usize = 0;
    while i < a.len()
        invariant
            a@.len() == b@.len(),
            i <= a@.len(),
            forall|j: int| 0 <= j < i ==> yul_typed_ident_eq(#[trigger] a@[j], b@[j]),
        decreases a@.len() - i,
    {
        if !(a[i] == b[i]) {
            return false;
        }
        i = i + 1;
    }
    true
}

/// Compare two expressions.
fn expr_match(a: &Expression, b: &Expression) -> (r: bool)
    ensures
        r == expr_eq(*a, *b),
    decreases a,
{
    match (a, b) {
        (Expression::PostIncrement(_, x1), Expression::PostIncrement(_, x2)) => expr_match(x1, x2),
        (Expression::PostDecrement(_, x1), Expression::PostDecrement(_, x2)) => expr_match(x1, x2),
        (Expression::New(_, x1), Expression::New(_, x2)) => expr_match(x1, x2),
        (Expression::Parenthesis(_, x1), Expression::Parenthesis(_, x2)) => expr_match(x1, x2),
        (Expression::Not(_, x1), Expression::Not(_, x2)) => expr_match(x1, x2),
        (Expression::Complement(_, x1), Expression::Complement(_, x2)) => expr_match(x1, x2),
        (Expression::Delete(_, x1), Expression::Delete(_, x2)) => expr_match(x1, x2),
        (Expression::PreIncrement(_, x1), Expression::PreIncrement(_, x2)) => expr_match(x1, x2),
        (Expression::PreDecrement(_, x1), Expression::PreDecrement(_, x2)) => expr_match(x1, x2),
        (Expression::UnaryPlus(_, x1), Expression::UnaryPlus(_, x2)) => expr_match(x1, x2),
        (Expression::UnaryMinus(_, x1), Expression::UnaryMinus(_, x2)) => expr_match(x1, x2),
        (Expression::Power(_, x1, y1), Expression::Power(_, x2, y2)) => expr_match(x1, x2)
            && expr_match(y1, y2),
        (Expression::Multiply(_, x1, y1), Expression::Multiply(_, x2, y2)) => expr_match(x1, x2)
            && expr_match(y1, y2),
        (Expression::Divide(_, x1, y1), Expression::Divide(_, x2, y2)) => expr_match(x1, x2)
            && expr_match(y1, y2),
        (Expression::Modulo(_, x1, y1), Expression::Modulo(_, x2, y2)) => expr_match(x1, x2)
            && expr_match(y1, y2),
        (Expression::Add(_, x1, y1), Expression::Add(_, x2, y2)) => expr_match(x1, x2)
            && expr_match(y1, y2),
        (Expression::Subtract(_, x1, y1), Expression::Subtract(_, x2, y2)) => expr_match(x1, x2)
            && expr_match(y1, y2),
        (Expression::ShiftLeft(_, x1, y1), Expression::ShiftLeft(_, x2, y2)) => expr_match(x1, x2)
            && expr_match(y1, y2),
        (Expression::ShiftRight(_, x1, y1), Expression::ShiftRight(_, x2, y2)) => expr_match(x1, x2)
            && expr_match(y1, y2),
        (Expression::BitwiseAnd(_, x1, y1), Expression::BitwiseAnd(_, x2, y2)) => expr_match(x1, x2)
            && expr_match(y1, y2),
        (Expression::BitwiseXor(_, x1, y1), Expression::BitwiseXor(_, x2, y2)) => expr_match(x1, x2)
            && expr_match(y1, y2),
        (Expression::BitwiseOr(_, x1, y1), Expression::BitwiseOr(_, x2, y2)) => expr_match(x1, x2)
            && expr_match(y1, y2),
        (Expression::Less(_, x1, y1), Expression::Less(_, x2, y2)) => expr_match(x1, x2)
            && expr_match(y1, y2),
        (Expression::More(_, x1, y1), Expression::More(_, x2, y2)) => expr_match(x1, x2)
            && expr_match(y1, y2),
        (Expression::LessEqual(_, x1, y1), Expression::LessEqual(_, x2, y2)) => expr_match(x1, x2)
            && expr_match(y1, y2),
        (Expression::MoreEqual(_, x1, y1), Expression::MoreEqual(_, x2, y2)) => expr_match(x1, x2)
            && expr_match(y1, y2),
        (Expression::Equal(_, x1, y1), Expression::Equal(_, x2, y2)) => expr_match(x1, x2)
            && expr_match(y1, y2),
        (Expression::NotEqual(_, x1, y1), Expression::NotEqual(_, x2, y2)) => expr_match(x1, x2)
            && expr_match(y1, y2),
        (Expression::And(_, x1, y1), Expression::And(_, x2, y2)) => expr_match(x1, x2)
            && expr_match(y1, y2),
        (Expression::Or(_, x1, y1), Expression::Or(_, x2, y2)) => expr_match(x1, x2)
            && expr_match(y1, y2),
        (Expression::Assign(_, x1, y1), Expression::Assign(_, x2, y2)) => expr_match(x1, x2)
            && expr_match(y1, y2),
        (Expression::AssignOr(_, x1, y1), Expression::AssignOr(_, x2, y2)) => expr_match(x1, x2)
            && expr_match(y1, y2),
        (Expression::AssignAnd(_, x1, y1), Expression::AssignAnd(_, x2, y2)) => expr_match(x1, x2)
            && expr_match(y1, y2),
        (Expression::AssignXor(_, x1, y1), Expression::AssignXor(_, x2, y2)) => expr_match(x1, x2)
            && expr_match(y1, y2),
        (Expression::AssignShiftLeft(_, x1, y1), Expression::AssignShiftLeft(_, x2, y2)) => expr_match(x1, x2)
            && expr_match(y1, y2),
        (Expression::AssignShiftRight(_, x1, y1), Expression::AssignShiftRight(_, x2, y2)) => expr_match(x1, x2)
            && expr_match(y1, y2),
        (Expression::AssignAdd(_, x1, y1), Expression::AssignAdd(_, x2, y2)) => expr_match(x1, x2)
            && expr_match(y1, y2),
        (Expression::AssignSubtract(_, x1, y1), Expression::AssignSubtract(_, x2, y2)) => expr_match(x1, x2)
            && expr_match(y1, y2),
        (Expression::AssignMultiply(_, x1, y1), Expression::AssignMultiply(_, x2, y2)) => expr_match(x1, x2)
            && expr_match(y1, y2),
        (Expression::AssignDivide(_, x1, y1), Expression::AssignDivide(_, x2, y2)) => expr_match(x1, x2)
            && expr_match(y1, y2),
        (Expression::AssignModulo(_, x1, y1), Expression::AssignModulo(_, x2, y2)) => expr_match(x1, x2)
            && expr_match(y1, y2),
        (
            Expression::ArraySubscript(_, x1, y1),
            Expression::ArraySubscript(_, x2, y2),
        ) => expr_match(x1, x2) && opt_box_exprs_match(y1, y2),
        (
            Expression::ArraySlice(_, x1, y1, z1),
            Expression::ArraySlice(_, x2, y2, z2),
        ) => expr_match(x1, x2) && opt_box_exprs_match(y1, y2) && opt_box_exprs_match(z1, z2),
        (
            Expression::MemberAccess(_, x1, f1),
            Expression::MemberAccess(_, x2, f2),
        ) => expr_match(x1, x2) && f1 == f2,
        (
            Expression::FunctionCall(_, f1, a1),
            Expression::FunctionCall(_, f2, a2),
        ) => expr_match(f1, f2) && exprs_match(a1, a2),
        (
            Expression::FunctionCallBlock(_, f1, s1),
            Expression::FunctionCallBlock(_, f2, s2),
        ) => expr_match(f1, f2) && stmt_match(s1, s2),
        (
            Expression::NamedFunctionCall(_, f1, a1),
            Expression::NamedFunctionCall(_, f2, a2),
        ) => expr_match(f1, f2) && named_args_match(a1, a2),
        (
            Expression::Ternary(_, x1, y1, z1),
            Expression::Ternary(_, x2, y2, z2),
        ) => expr_match(x1, x2) && expr_match(y1, y2) && expr_match(z1, z2),
        (Expression::BoolLiteral(_, b1), Expression::BoolLiteral(_, b2)) => b1 == b2,
        (
            Expression::NumberLiteral(_, n1, e1),
            Expression::NumberLiteral(_, n2, e2),
        ) => *n1 == *n2 && *e1 == *e2,
        (
            Expression::RationalNumberLiteral(_, w1, f1, e1),
            Expression::RationalNumberLiteral(_, w2, f2, e2),
        ) => *w1 == *w2 && *f1 == *f2 && *e1 == *e2,
        (
            Expression::HexNumberLiteral(_, n1),
            Expression::HexNumberLiteral(_, n2),
        ) => *n1 == *n2,
        (Expression::StringLiteral(v1), Expression::StringLiteral(v2)) => strlits_match(
            v1,
            v2,
        ),
        (Expression::Type(_, t1), Expression::Type(_, t2)) => type_match(t1, t2),
        (Expression::HexLiteral(v1), Expression::HexLiteral(v2)) => hexlits_match(v1, v2),
        (
            Expression::AddressLiteral(_, a1),
            Expression::AddressLiteral(_, a2),
        ) => *a1 == *a2,
        (Expression::Variable(i1), Expression::Variable(i2)) => i1 == i2,
        (Expression::List(_, p1), Expression::List(_, p2)) => slots_match(p1, p2),
        (Expression::ArrayLiteral(_, v1), Expression::ArrayLiteral(_, v2)) => exprs_match(v1, v2),
        (Expression::Unit(_, x1, u1), Expression::Unit(_, x2, u2)) => expr_match(x1, x2)
            && u1 == u2,
        (Expression::This(_), Expression::This(_)) => true,
        _ => false,
    }
}

/// Compare two expression lists elementwise.
fn exprs_match(a: &Vec<Expression>, b: &Vec<Expression>) -> (r: bool)
    ensures
        r == exprs_eq(a@, b@),
    decreases a@,
{
    if a.len() != b.len() {
        return false;
    }
    let mut i: usize = 0;
    while i < a.len()
        invariant
            a@.len() == b@.len(),
            i <= a@.len(),
            forall|j: int| 0 <= j < i ==> expr_eq(#[trigger] a@[j], b@[j]),
        decreases a@.len() - i,
    {
        if !expr_match(&a[i], &b[i]) {
            return false;
        }
        i = i + 1;
    }
    true
}

fn opt_expr_match(a: &Option<Expression>, b: &Option<Expression>) -> (r: bool)
    ensures
        r == opt_expr_eq(*a, *b),
    decreases a,
{
    match (a, b) {
        (Some(x), Some(y)) => expr_match(x, y),
        (None, None) => true,
        _ => false,
    }
}

fn opt_box_exprs_match(a: &Option<Box<Expression>>, b: &Option<Box<Expression>>) -> (r: bool)
    ensures
        r == opt_box_expr_eq(*a, *b),
    decreases a,
{
    match (a, b) {
        (Some(x), Some(y)) => expr_match(x, y),
        (None, None) => true,
        _ => false,
    }
}

fn opt_expr_vec_match(a: &Option<Vec<Expression>>, b: &Option<Vec<Expression>>) -> (r: bool)
    ensures
        r == opt_exprs_eq(*a, *b),
    decreases a,
{
    match (a, b) {
        (Some(x), Some(y)) => exprs_match(x, y),
        (None, None) => true,
        _ => false,
    }
}

/// Compare two types.
fn type_match(a: &Type, b: &Type) -> (r: bool)
    ensures
        r == type_eq(*a, *b),
    decreases a,
{
    match (a, b) {
        (Type::Address, Type::Address) => true,
        (Type::AddressPayable, Type::AddressPayable) => true,
        (Type::Payable, Type::Payable) => true,
        (Type::Bool, Type::Bool) => true,
        (Type::String, Type::String) => true,
        (Type::Int(s1), Type::Int(s2)) => s1 == s2,
        (Type::Uint(s1), Type::Uint(s2)) => s1 == s2,
        (Type::Bytes(s1), Type::Bytes(s2)) => s1 == s2,
        (Type::Rational, Type::Rational) => true,
        (Type::DynamicBytes, Type::DynamicBytes) => true,
        (Type::Mapping(_, k1, v1), Type::Mapping(_, k2, v2)) => expr_match(k1, k2)
            && expr_match(v1, v2),
        (
            Type::Function { params: p1, attributes: a1, returns: r1 },
            Type::Function { params: p2, attributes: a2, returns: r2 },
        ) => {
            let rets = match (r1, r2) {
                (Some(x), Some(y)) => slots_match(&x.0, &y.0) && fn_attrs_match(&x.1, &y.1),
                (None, None) => true,
                _ => false,
            };
            slots_match(p1, p2) && fn_attrs_match(a1, a2) && rets
        },
        _ => false,
    }
}

/// Compare two parameters.
fn param_match(a: &Parameter, b: &Parameter) -> (r: bool)
    ensures
        r == param_eq(*a, *b),
    decreases a,
{
    expr_match(&a.ty, &b.ty) && a.storage == b.storage && a.name == b.name
}

fn opt_param_match(a: &Option<Parameter>, b: &Option<Parameter>) -> (r: bool)
    ensures
        r == opt_param_eq(*a, *b),
    decreases a,
{
    match (a, b) {
        (Some(x), Some(y)) => param_match(x, y),
        (None, None) => true,
        _ => false,
    }
}

/// Compare two parameter lists slot by slot.
fn slots_match(a: &ParameterList, b: &ParameterList) -> (r: bool)
    ensures
        r == slots_eq(a@, b@),
    decreases a@,
{
    if a.len() != b.len() {
        return false;
    }
    let mut i: usize = 0;
    while i < a.len()
        invariant
            a@.len() == b@.len(),
            i <= a@.len(),
            forall|j: int| 0 <= j < i ==> opt_param_eq((#[trigger] a@[j]).1, b@[j].1),
        decreases a@.len() - i,
    {
        if !opt_param_match(&a[i].1, &b[i].1) {
            return false;
        }
        i = i + 1;
    }
    true
}

/// Compare two named arguments.
fn named_arg_match(a: &NamedArgument, b: &NamedArgument) -> (r: bool)
    ensures
        r == named_arg_eq(*a, *b),
    decreases a,
{
    a.name == b.name && expr_match(&a.expr, &b.expr)
}

fn named_args_match(a: &Vec<NamedArgument>, b: &Vec<NamedArgument>) -> (r: bool)
    ensures
        r == named_args_eq(a@, b@),
    decreases a@,
{
    if a.len() != b.len() {
        return false;
    }
    let mut i: usize = 0;
    while i < a.len()
        invariant
            a@.len() == b@.len(),
            i <= a@.len(),
            forall|j: int| 0 <= j < i ==> named_arg_eq(#[trigger] a@[j], b@[j]),
        decreases a@.len() - i,
    {
        if !named_arg_match(&a[i], &b[i]) {
            return false;
        }
        i = i + 1;
    }
    true
}

/// Compare two variable declarations.
fn var_decl_match(a: &VariableDeclaration, b: &VariableDeclaration) -> (r: bool)
    ensures
        r == var_decl_eq(*a, *b),
    decreases a,
{
    expr_match(&a.ty, &b.ty) && a.storage == b.storage && a.name == b.name
}

/// Compare two statements.
fn stmt_match(a: &Statement, b: &Statement) -> (r: bool)
    ensures
        r == stmt_eq(*a, *b),
    decreases a,
{
    match (a, b) {
        (
            Statement::Block { unchecked: u1, statements: s1, .. },
            Statement::Block { unchecked: u2, statements: s2, .. },
        ) => *u1 == *u2 && stmts_match(s1, s2),
        (
            Statement::Assembly { dialect: d1, flags: f1, block: b1, .. },
            Statement::Assembly { dialect: d2, flags: f2, block: b2, .. },
        ) => d1 == d2 && opt_strlits_vec_match(f1, f2) && yul_block_match(b1, b2),
        (Statement::Args(_, a1), Statement::Args(_, a2)) => named_args_match(a1, a2),
        (Statement::If(_, c1, t1, e1), Statement::If(_, c2, t2, e2)) => expr_match(c1, c2)
            && stmt_match(t1, t2) && opt_box_stmts_match(e1, e2),
        (Statement::While(_, c1, b1), Statement::While(_, c2, b2)) => expr_match(c1, c2)
            && stmt_match(b1, b2),
        (Statement::Expression(_, e1), Statement::Expression(_, e2)) => expr_match(e1, e2),
        (
            Statement::VariableDefinition(_, d1, i1),
            Statement::VariableDefinition(_, d2, i2),
        ) => var_decl_match(d1, d2) && opt_expr_match(i1, i2),
        (
            Statement::For(_, i1, c1, p1, b1),
            Statement::For(_, i2, c2, p2, b2),
        ) => opt_box_stmts_match(i1, i2) && opt_box_exprs_match(c1, c2)
            && opt_box_stmts_match(p1, p2) && opt_box_stmts_match(b1, b2),
        (Statement::DoWhile(_, b1, c1), Statement::DoWhile(_, b2, c2)) => stmt_match(b1, b2)
            && expr_match(c1, c2),
        (Statement::Continue(_), Statement::Continue(_)) => true,
        (Statement::Break(_), Statement::Break(_)) => true,
        (Statement::Return(_, e1), Statement::Return(_, e2)) => opt_expr_match(e1, e2),
        (Statement::Revert(_, p1, e1), Statement::Revert(_, p2, e2)) => opt_path_match(p1, p2)
            && exprs_match(e1, e2),
        (
            Statement::RevertNamedArgs(_, p1, a1),
            Statement::RevertNamedArgs(_, p2, a2),
        ) => opt_path_match(p1, p2) && named_args_match(a1, a2),
        (Statement::Emit(_, e1), Statement::Emit(_, e2)) => expr_match(e1, e2),
        (Statement::Try(_, e1, r1, c1), Statement::Try(_, e2, r2, c2)) => {
            let clauses = match (r1, r2) {
                (Some(x), Some(y)) => slots_match(&x.0, &y.0) && stmt_match(&x.1, &y.1),
                (None, None) => true,
                _ => false,
            };
            proof {
                assert(clauses == opt_try_clause_eq(*r1, *r2));
            }
            expr_match(e1, e2) && clauses && catches_match(c1, c2)
        },
        _ => false,
    }
}

fn stmts_match(a: &Vec<Statement>, b: &Vec<Statement>) -> (r: bool)
    ensures
        r == stmts_eq(a@, b@),
    decreases a@,
{
    if a.len() != b.len() {
        return false;
    }
    let mut i: usize = 0;
    while i < a.len()
        invariant
            a@.len() == b@.len(),
            i <= a@.len(),
            forall|j: int| 0 <= j < i ==> stmt_eq(#[trigger] a@[j], b@[j]),
        decreases a@.len() - i,
    {
        if !stmt_match(&a[i], &b[i]) {
            return false;
        }
        i = i + 1;
    }
    true
}

fn opt_box_stmts_match(a: &Option<Box<Statement>>, b: &Option<Box<Statement>>) -> (r: bool)
    ensures
        r == opt_box_stmt_eq(*a, *b),
    decreases a,
{
    match (a, b) {
        (Some(x), Some(y)) => stmt_match(x, y),
        (None, None) => true,
        _ => false,
    }
}

/// Compare two catch clauses.
fn catch_match(a: &CatchClause, b: &CatchClause) -> (r: bool)
    ensures
        r == catch_eq(*a, *b),
    decreases a,
{
    match (a, b) {
        (
            CatchClause::Simple(_, p1, s1),
            CatchClause::Simple(_, p2, s2),
        ) => opt_param_match(p1, p2) && stmt_match(s1, s2),
        (
            CatchClause::Named(_, i1, p1, s1),
            CatchClause::Named(_, i2, p2, s2),
        ) => i1 == i2 && param_match(p1, p2) && stmt_match(s1, s2),
        _ => false,
    }
}

fn catches_match(a: &Vec<CatchClause>, b: &Vec<CatchClause>) -> (r: bool)
    ensures
        r == catches_eq(a@, b@),
    decreases a@,
{
    if a.len() != b.len() {
        return false;
    }
    let mut i: usize = 0;
    while i < a.len()
        invariant
            a@.len() == b@.len(),
            i <= a@.len(),
            forall|j: int| 0 <= j < i ==> catch_eq(#[trigger] a@[j], b@[j]),
        decreases a@.len() - i,
    {
        if !catch_match(&a[i], &b[i]) {
            return false;
        }
        i = i + 1;
    }
    true
}

/// Compare two base-contract references.
fn base_match(a: &Base, b: &Base) -> (r: bool)
    ensures
        r == base_eq(*a, *b),
    decreases a,
{
    path_match(&a.name, &b.name) && opt_expr_vec_match(&a.args, &b.args)
}

/// Compare two function attributes.
fn fn_attr_match(a: &FunctionAttribute, b: &FunctionAttribute) -> (r: bool)
    ensures
        r == fn_attr_eq(*a, *b),
    decreases a,
{
    match (a, b) {
        (
            FunctionAttribute::Mutability(m1),
            FunctionAttribute::Mutability(m2),
        ) => m1 == m2,
        (
            FunctionAttribute::Visibility(v1),
            FunctionAttribute::Visibility(v2),
        ) => v1 == v2,
        (FunctionAttribute::Virtual(_), FunctionAttribute::Virtual(_)) => true,
        (FunctionAttribute::Immutable(_), FunctionAttribute::Immutable(_)) => true,
        (
            FunctionAttribute::Override(_, p1),
            FunctionAttribute::Override(_, p2),
        ) => paths_match(p1, p2),
        (
            FunctionAttribute::BaseOrModifier(_, b1),
            FunctionAttribute::BaseOrModifier(_, b2),
        ) => base_match(b1, b2),
        _ => false,
    }
}

fn fn_attrs_match(a: &Vec<FunctionAttribute>, b: &Vec<FunctionAttribute>) -> (r: bool)
    ensures
        r == fn_attrs_eq(a@, b@),
    decreases a@,
{
    if a.len() != b.len() {
        return false;
    }
    let mut i: usize = 0;
    while i < a.len()
        invariant
            a@.len() == b@.len(),
            i <= a@.len(),
            forall|j: int| 0 <= j < i ==> fn_attr_eq(#[trigger] a@[j], b@[j]),
        decreases a@.len() - i,
    {
        if !fn_attr_match(&a[i], &b[i]) {
            return false;
        }
        i = i + 1;
    }
    true
}

/// Compare two Yul expressions.
fn yul_expr_match(a: &YulExpression, b: &YulExpression) -> (r: bool)
    ensures
        r == yul_expr_eq(*a, *b),
    decreases a,
{
    match (a, b) {
        (
            YulExpression::BoolLiteral(_, b1, t1),
            YulExpression::BoolLiteral(_, b2, t2),
        ) => *b1 == *b2 && t1 == t2,
        (
            YulExpression::NumberLiteral(_, n1, e1, t1),
            YulExpression::NumberLiteral(_, n2, e2, t2),
        ) => *n1 == *n2 && *e1 == *e2 && t1 == t2,
        (
            YulExpression::HexNumberLiteral(_, n1, t1),
            YulExpression::HexNumberLiteral(_, n2, t2),
        ) => *n1 == *n2 && t1 == t2,
        (
            YulExpression::HexStringLiteral(h1, t1),
            YulExpression::HexStringLiteral(h2, t2),
        ) => h1 == h2 && t1 == t2,
        (
            YulExpression::StringLiteral(s1, t1),
            YulExpression::StringLiteral(s2, t2),
        ) => s1 == s2 && t1 == t2,
        (YulExpression::Variable(i1), YulExpression::Variable(i2)) => i1 == i2,
        (
            YulExpression::FunctionCall(c1),
            YulExpression::FunctionCall(c2),
        ) => yul_call_match(c1, c2),
        (
            YulExpression::SuffixAccess(_, e1, i1),
            YulExpression::SuffixAccess(_, e2, i2),
        ) => yul_expr_match(e1, e2) && i1 == i2,
        _ => false,
    }
}

fn yul_exprs_match(a: &Vec<YulExpression>, b: &Vec<YulExpression>) -> (r: bool)
    ensures
        r == yul_exprs_eq(a@, b@),
    decreases a@,
{
    if a.len() != b.len() {
        return false;
    }
    let mut i: usize = 0;
    while i < a.len()
        invariant
            a@.len() == b@.len(),
            i <= a@.len(),
            forall|j: int| 0 <= j < i ==> yul_expr_eq(#[trigger] a@[j], b@[j]),
        decreases a@.len() - i,
    {
        if !yul_expr_match(&a[i], &b[i]) {
            return false;
        }
        i = i + 1;
    }
    true
}

fn opt_yul_expr_match(a: &Option<YulExpression>, b: &Option<YulExpression>) -> (r: bool)
    ensures
        r == opt_yul_expr_eq(*a, *b),
    decreases a,
{
    match (a, b) {
        (Some(x), Some(y)) => yul_expr_match(x, y),
        (None, None) => true,
        _ => false,
    }
}

/// Compare two Yul calls.
fn yul_call_match(a: &YulFunctionCall, b: &YulFunctionCall) -> (r: bool)
    ensures
        r == yul_call_eq(*a, *b),
    decreases a,
{
    a.id == b.id && yul_exprs_match(&a.arguments, &b.arguments)
}

/// Compare two Yul blocks.
fn yul_block_match(a: &YulBlock, b: &YulBlock) -> (r: bool)
    ensures
        r == yul_block_eq(*a, *b),
    decreases a,
{
    yul_stmts_match(&a.statements, &b.statements)
}

fn yul_stmts_match(a: &Vec<YulStatement>, b: &Vec<YulStatement>) -> (r: bool)
    ensures
        r == yul_stmts_eq(a@, b@),
    decreases a@,
{
    if a.len() != b.len() {
        return false;
    }
    let mut i: usize = 0;
    while i < a.len()
        invariant
            a@.len() == b@.len(),
            i <= a@.len(),
            forall|j: int| 0 <= j < i ==> yul_stmt_eq(#[trigger] a@[j], b@[j]),
        decreases a@.len() - i,
    {
        if !yul_stmt_match(&a[i], &b[i]) {
            return false;
        }
        i = i + 1;
    }
    true
}

/// Compare two Yul statements.
fn yul_stmt_match(a: &YulStatement, b: &YulStatement) -> (r: bool)
    ensures
        r == yul_stmt_eq(*a, *b),
    decreases a,
{
    match (a, b) {
        (
            YulStatement::Assign(_, l1, r1),
            YulStatement::Assign(_, l2, r2),
        ) => yul_exprs_match(l1, l2) && yul_expr_match(r1, r2),
        (
            YulStatement::VariableDeclaration(_, i1, x1),
            YulStatement::VariableDeclaration(_, i2, x2),
        ) => yul_typed_idents_match(i1, i2) && opt_yul_expr_match(x1, x2),
        (YulStatement::If(_, c1, b1), YulStatement::If(_, c2, b2)) => yul_expr_match(c1, c2)
            && yul_block_match(b1, b2),
        (YulStatement::For(f1), YulStatement::For(f2)) => yul_for_match(f1, f2),
        (YulStatement::Switch(s1), YulStatement::Switch(s2)) => yul_switch_match(s1, s2),
        (YulStatement::Leave(_), YulStatement::Leave(_)) => true,
        (YulStatement::Break(_), YulStatement::Break(_)) => true,
        (YulStatement::Continue(_), YulStatement::Continue(_)) => true,
        (YulStatement::Block(b1), YulStatement::Block(b2)) => yul_block_match(b1, b2),
        (
            YulStatement::FunctionDefinition(d1),
            YulStatement::FunctionDefinition(d2),
        ) => yul_fn_def_match(d1, d2),
        (
            YulStatement::FunctionCall(c1),
            YulStatement::FunctionCall(c2),
        ) => yul_call_match(c1, c2),
        _ => false,
    }
}

/// Compare two Yul `for` statements.
fn yul_for_match(a: &YulFor, b: &YulFor) -> (r: bool)
    ensures
        r == yul_for_eq(*a, *b),
    decreases a,
{
    yul_block_match(&a.init_block, &b.init_block) && yul_expr_match(&a.condition, &b.condition)
        && yul_block_match(&a.post_block, &b.post_block) && yul_block_match(
        &a.execution_block,
        &b.execution_block,
    )
}

/// Compare two Yul `switch` statements.
fn yul_switch_match(a: &YulSwitch, b: &YulSwitch) -> (r: bool)
    ensures
        r == yul_switch_eq(*a, *b),
    decreases a,
{
    let default = match (&a.default, &b.default) {
        (Some(x), Some(y)) => yul_switch_opt_match(x, y),
        (None, None) => true,
        _ => false,
    };
    yul_expr_match(&a.condition, &b.condition) && yul_switch_opts_match(&a.cases, &b.cases)
        && default
}

/// Compare two Yul switch arms.
fn yul_switch_opt_match(a: &YulSwitchOptions, b: &YulSwitchOptions) -> (r: bool)
    ensures
        r == yul_switch_opt_eq(*a, *b),
    decreases a,
{
    match (a, b) {
        (
            YulSwitchOptions::Case(_, e1, b1),
            YulSwitchOptions::Case(_, e2, b2),
        ) => yul_expr_match(e1, e2) && yul_block_match(b1, b2),
        (
            YulSwitchOptions::Default(_, b1),
            YulSwitchOptions::Default(_, b2),
        ) => yul_block_match(b1, b2),
        _ => false,
    }
}

fn yul_switch_opts_match(a: &Vec<YulSwitchOptions>, b: &Vec<YulSwitchOptions>) -> (r: bool)
    ensures
        r == yul_switch_opts_eq(a@, b@),
    decreases a@,
{
    if a.len() != b.len() {
        return false;
    }
    let mut i: usize = 0;
    while i < a.len()
        invariant
            a@.len() == b@.len(),
            i <= a@.len(),
            forall|j: int| 0 <= j < i ==> yul_switch_opt_eq(#[trigger] a@[j], b@[j]),
        decreases a@.len() - i,
    {
        if !yul_switch_opt_match(&a[i], &b[i]) {
            return false;
        }
        i = i + 1;
    }
    true
}

/// Compare two Yul function definitions.
fn yul_fn_def_match(a: &YulFunctionDefinition, b: &YulFunctionDefinition) -> (r: bool)
    ensures
        r == yul_fn_def_eq(*a, *b),
    decreases a,
{
    a.id == b.id && yul_typed_idents_match(&a.params, &b.params) && yul_typed_idents_match(
        &a.returns,
        &b.returns,
    ) && yul_block_match(&a.body, &b.body)
}

impl PartialEq for Expression {
    /// Equality compares variant and content recursively; no location matters.
    fn eq(&self, other: &Self) -> (r: bool)
        ensures
            r == expr_eq(*self, *other),
    {
        expr_match(self, other)
    }
}

impl vstd::std_specs::cmp::PartialEqSpecImpl for Expression {
    open spec fn obeys_eq_spec() -> bool {
        true
    }

    open spec fn eq_spec(&self, other: &Expression) -> bool {
        expr_eq(*self, *other)
    }
}

impl PartialEq for Type {
    /// Equality compares variant and content recursively; no location matters.
    fn eq(&self, other: &Self) -> (r: bool)
        ensures
            r == type_eq(*self, *other),
    {
        type_match(self, other)
    }
}

impl vstd::std_specs::cmp::PartialEqSpecImpl for Type {
    open spec fn obeys_eq_spec() -> bool {
        true
    }

    open spec fn eq_spec(&self, other: &Type) -> bool {
        type_eq(*self, *other)
    }
}

impl PartialEq for Parameter {
    /// Equality compares type, storage and name; no location matters.
    fn eq(&self, other: &Self) -> (r: bool)
        ensures
            r == param_eq(*self, *other),
    {
        param_match(self, other)
    }
}

impl vstd::std_specs::cmp::PartialEqSpecImpl for Parameter {
    open spec fn obeys_eq_spec() -> bool {
        true
    }

    open spec fn eq_spec(&self, other: &Parameter) -> bool {
        param_eq(*self, *other)
    }
}

impl PartialEq for NamedArgument {
    /// Equality compares name and expression; no location matters.
    fn eq(&self, other: &Self) -> (r: bool)
        ensures
            r == named_arg_eq(*self, *other),
    {
        named_arg_match(self, other)
    }
}

impl vstd::std_specs::cmp::PartialEqSpecImpl for NamedArgument {
    open spec fn obeys_eq_spec() -> bool {
        true
    }

    open spec fn eq_spec(&self, other: &NamedArgument) -> bool {
        named_arg_eq(*self, *other)
    }
}

impl PartialEq for VariableDeclaration {
    /// Equality compares type, storage and name; no location matters.
    fn eq(&self, other: &Self) -> (r: bool)
        ensures
            r == var_decl_eq(*self, *other),
    {
        var_decl_match(self, other)
    }
}

impl vstd::std_specs::cmp::PartialEqSpecImpl for VariableDeclaration {
    open spec fn obeys_eq_spec() -> bool {
        true
    }

    open spec fn eq_spec(&self, other: &VariableDeclaration) -> bool {
        var_decl_eq(*self, *other)
    }
}

impl PartialEq for Statement {
    /// Equality compares variant and content recursively; no location matters.
    fn eq(&self, other: &Self) -> (r: bool)
        ensures
            r == stmt_eq(*self, *other),
    {
        stmt_match(self, other)
    }
}

impl vstd::std_specs::cmp::PartialEqSpecImpl for Statement {
    open spec fn obeys_eq_spec() -> bool {
        true
    }

    open spec fn eq_spec(&self, other: &Statement) -> bool {
        stmt_eq(*self, *other)
    }
}

impl PartialEq for CatchClause {
    /// Equality compares form and content; no location matters.
    fn eq(&self, other: &Self) -> (r: bool)
        ensures
            r == catch_eq(*self, *other),
    {
        catch_match(self, other)
    }
}

impl vstd::std_specs::cmp::PartialEqSpecImpl for CatchClause {
    open spec fn obeys_eq_spec() -> bool {
        true
    }

    open spec fn eq_spec(&self, other: &CatchClause) -> bool {
        catch_eq(*self, *other)
    }
}

impl PartialEq for Base {
    /// Equality compares path and arguments; no location matters.
    fn eq(&self, other: &Self) -> (r: bool)
        ensures
            r == base_eq(*self, *other),
    {
        base_match(self, other)
    }
}

impl vstd::std_specs::cmp::PartialEqSpecImpl for Base {
    open spec fn obeys_eq_spec() -> bool {
        true
    }

    open spec fn eq_spec(&self, other: &Base) -> bool {
        base_eq(*self, *other)
    }
}

impl PartialEq for FunctionAttribute {
    /// Equality compares kind and content; no location matters.
    fn eq(&self, other: &Self) -> (r: bool)
        ensures
            r == fn_attr_eq(*self, *other),
    {
        fn_attr_match(self, other)
    }
}

impl vstd::std_specs::cmp::PartialEqSpecImpl for FunctionAttribute {
    open spec fn obeys_eq_spec() -> bool {
        true
    }

    open spec fn eq_spec(&self, other: &FunctionAttribute) -> bool {
        fn_attr_eq(*self, *other)
    }
}

impl PartialEq for YulExpression {
    /// Equality compares variant and content recursively; no location matters.
    fn eq(&self, other: &Self) -> (r: bool)
        ensures
            r == yul_expr_eq(*self, *other),
    {
        yul_expr_match(self, other)
    }
}

impl vstd::std_specs::cmp::PartialEqSpecImpl for YulExpression {
    open spec fn obeys_eq_spec() -> bool {
        true
    }

    open spec fn eq_spec(&self, other: &YulExpression) -> bool {
        yul_expr_eq(*self, *other)
    }
}

impl PartialEq for YulFunctionCall {
    /// Equality compares name and arguments; no location matters.
    fn eq(&self, other: &Self) -> (r: bool)
        ensures
            r == yul_call_eq(*self, *other),
    {
        yul_call_match(self, other)
    }
}

impl vstd::std_specs::cmp::PartialEqSpecImpl for YulFunctionCall {
    open spec fn obeys_eq_spec() -> bool {
        true
    }

    open spec fn eq_spec(&self, other: &YulFunctionCall) -> bool {
        yul_call_eq(*self, *other)
    }
}

impl PartialEq for YulBlock {
    /// Equality compares the statements in order; no location matters.
    fn eq(&self, other: &Self) -> (r: bool)
        ensures
            r == yul_block_eq(*self, *other),
    {
        yul_block_match(self, other)
    }
}

impl vstd::std_specs::cmp::PartialEqSpecImpl for YulBlock {
    open spec fn obeys_eq_spec() -> bool {
        true
    }

    open spec fn eq_spec(&self, other: &YulBlock) -> bool {
        yul_block_eq(*self, *other)
    }
}

impl PartialEq for YulStatement {
    /// Equality compares variant and content recursively; no location matters.
    fn eq(&self, other: &Self) -> (r: bool)
        ensures
            r == yul_stmt_eq(*self, *other),
    {
        yul_stmt_match(self, other)
    }
}

impl vstd::std_specs::cmp::PartialEqSpecImpl for YulStatement {
    open spec fn obeys_eq_spec() -> bool {
        true
    }

    open spec fn eq_spec(&self, other: &YulStatement) -> bool {
        yul_stmt_eq(*self, *other)
    }
}

impl PartialEq for YulFor {
    /// Equality compares the four blocks and the condition; no location matters.
    fn eq(&self, other: &Self) -> (r: bool)
        ensures
            r == yul_for_eq(*self, *other),
    {
        yul_for_match(self, other)
    }
}

impl vstd::std_specs::cmp::PartialEqSpecImpl for YulFor {
    open spec fn obeys_eq_spec() -> bool {
        true
    }

    open spec fn eq_spec(&self, other: &YulFor) -> bool {
        yul_for_eq(*self, *other)
    }
}

impl PartialEq for YulSwitch {
    /// Equality compares condition, cases and default; no location matters.
    fn eq(&self, other: &Self) -> (r: bool)
        ensures
            r == yul_switch_eq(*self, *other),
    {
        yul_switch_match(self, other)
    }
}

impl vstd::std_specs::cmp::PartialEqSpecImpl for YulSwitch {
    open spec fn obeys_eq_spec() -> bool {
        true
    }

    open spec fn eq_spec(&self, other: &YulSwitch) -> bool {
        yul_switch_eq(*self, *other)
    }
}

impl PartialEq for YulSwitchOptions {
    /// Equality compares form and content; no location matters.
    fn eq(&self, other: &Self) -> (r: bool)
        ensures
            r == yul_switch_opt_eq(*self, *other),
    {
        yul_switch_opt_match(self, other)
    }
}

impl vstd::std_specs::cmp::PartialEqSpecImpl for YulSwitchOptions {
    open spec fn obeys_eq_spec() -> bool {
        true
    }

    open spec fn eq_spec(&self, other: &YulSwitchOptions) -> bool {
        yul_switch_opt_eq(*self, *other)
    }
}

impl PartialEq for YulFunctionDefinition {
    /// Equality compares name, parameters, returns and body; no location matters.
    fn eq(&self, other: &Self) -> (r: bool)
        ensures
            r == yul_fn_def_eq(*self, *other),
    {
        yul_fn_def_match(self, other)
    }
}

impl vstd::std_specs::cmp::PartialEqSpecImpl for YulFunctionDefinition {
    open spec fn obeys_eq_spec() -> bool {
        true
    }

    open spec fn eq_spec(&self, other: &YulFunctionDefinition) -> bool {
        yul_fn_def_eq(*self, *other)
    }
}




impl PartialEq for EventParameter {
    /// Equality compares type, indexed flag and name; no location matters.
    fn eq(&self, other: &Self) -> (r: bool)
        ensures
            r == event_param_eq(*self, *other),
    {
        expr_match(&self.ty, &other.ty) && self.indexed == other.indexed
            && self.name == other.name
    }
}

impl vstd::std_specs::cmp::PartialEqSpecImpl for EventParameter {
    open spec fn obeys_eq_spec() -> bool {
        true
    }

    open spec fn eq_spec(&self, other: &EventParameter) -> bool {
        event_param_eq(*self, *other)
    }
}

fn event_params_match(a: &Vec<EventParameter>, b: &Vec<EventParameter>) -> (r: bool)
    ensures
        r == event_params_eq(a@, b@),
{
    if a.len() != b.len() {
        return false;
    }
    let mut i: usize = 0;
    while i < a.len()
        invariant
            a@.len() == b@.len(),
            i <= a@.len(),
            forall|j: int| 0 <= j < i ==> event_param_eq(#[trigger] a@[j], b@[j]),
        decreases a@.len() - i,
    {
        if !(a[i] == b[i]) {
            return false;
        }
        i = i + 1;
    }
    true
}

impl PartialEq for EventDefinition {
    /// Equality compares name, fields and anonymity; no location matters.
    fn eq(&self, other: &Self) -> (r: bool)
        ensures
            r == event_def_eq(*self, *other),
    {
        self.name == other.name && event_params_match(&self.fields, &other.fields)
            && self.anonymous == other.anonymous
    }
}

impl vstd::std_specs::cmp::PartialEqSpecImpl for EventDefinition {
    open spec fn obeys_eq_spec() -> bool {
        true
    }

    open spec fn eq_spec(&self, other: &EventDefinition) -> bool {
        event_def_eq(*self, *other)
    }
}

impl PartialEq for ErrorParameter {
    /// Equality compares type and name; no location matters.
    fn eq(&self, other: &Self) -> (r: bool)
        ensures
            r == error_param_eq(*self, *other),
    {
        expr_match(&self.ty, &other.ty) && self.name == other.name
    }
}

impl vstd::std_specs::cmp::PartialEqSpecImpl for ErrorParameter {
    open spec fn obeys_eq_spec() -> bool {
        true
    }

    open spec fn eq_spec(&self, other: &ErrorParameter) -> bool {
        error_param_eq(*self, *other)
    }
}

fn error_params_match(a: &Vec<ErrorParameter>, b: &Vec<ErrorParameter>) -> (r: bool)
    ensures
        r == error_params_eq(a@, b@),
{
    if a.len() != b.len() {
        return false;
    }
    let mut i: usize = 0;
    while i < a.len()
        invariant
            a@.len() == b@.len(),
            i <= a@.len(),
            forall|j: int| 0 <= j < i ==> error_param_eq(#[trigger] a@[j], b@[j]),
        decreases a@.len() - i,
    {
        if !(a[i] == b[i]) {
            return false;
        }
        i = i + 1;
    }
    true
}

impl PartialEq for ErrorDefinition {
    /// Equality compares name and fields; no location matters.
    fn eq(&self, other: &Self) -> (r: bool)
        ensures
            r == error_def_eq(*self, *other),
    {
        self.name == other.name && error_params_match(&self.fields, &other.fields)
    }
}

impl vstd::std_specs::cmp::PartialEqSpecImpl for ErrorDefinition {
    open spec fn obeys_eq_spec() -> bool {
        true
    }

    open spec fn eq_spec(&self, other: &ErrorDefinition) -> bool {
        error_def_eq(*self, *other)
    }
}

impl PartialEq for EnumDefinition {
    /// Equality compares name and values; no location matters.
    fn eq(&self, other: &Self) -> (r: bool)
        ensures
            r == enum_def_eq(*self, *other),
    {
        self.name == other.name && idents_match(&self.values, &other.values)
    }
}

impl vstd::std_specs::cmp::PartialEqSpecImpl for EnumDefinition {
    open spec fn obeys_eq_spec() -> bool {
        true
    }

    open spec fn eq_spec(&self, other: &EnumDefinition) -> bool {
        enum_def_eq(*self, *other)
    }
}

fn var_decls_match(a: &Vec<VariableDeclaration>, b: &Vec<VariableDeclaration>) -> (r: bool)
    ensures
        r == var_decls_eq(a@, b@),
{
    if a.len() != b.len() {
        return false;
    }
    let mut i: usize = 0;
    while i < a.len()
        invariant
            a@.len() == b@.len(),
            i <= a@.len(),
            forall|j: int| 0 <= j < i ==> var_decl_eq(#[trigger] a@[j], b@[j]),
        decreases a@.len() - i,
    {
        if !var_decl_match(&a[i], &b[i]) {
            return false;
        }
        i = i + 1;
    }
    true
}

impl PartialEq for StructDefinition {
    /// Equality compares name and fields; no location matters.
    fn eq(&self, other: &Self) -> (r: bool)
        ensures
            r == struct_def_eq(*self, *other),
    {
        self.name == other.name && var_decls_match(&self.fields, &other.fields)
    }
}

impl vstd::std_specs::cmp::PartialEqSpecImpl for StructDefinition {
    open spec fn obeys_eq_spec() -> bool {
        true
    }

    open spec fn eq_spec(&self, other: &StructDefinition) -> bool {
        struct_def_eq(*self, *other)
    }
}

impl PartialEq for VariableAttribute {
    /// Equality compares kind and content; no location matters.
    fn eq(&self, other: &Self) -> (r: bool)
        ensures
            r == var_attr_eq(*self, *other),
    {
        match (self, other) {
            (
                VariableAttribute::Visibility(v1),
                VariableAttribute::Visibility(v2),
            ) => v1 == v2,
            (VariableAttribute::Constant(_), VariableAttribute::Constant(_)) => true,
            (VariableAttribute::Immutable(_), VariableAttribute::Immutable(_)) => true,
            (
                VariableAttribute::Override(_, p1),
                VariableAttribute::Override(_, p2),
            ) => paths_match(p1, p2),
            _ => false,
        }
    }
}

impl vstd::std_specs::cmp::PartialEqSpecImpl for VariableAttribute {
    open spec fn obeys_eq_spec() -> bool {
        true
    }

    open spec fn eq_spec(&self, other: &VariableAttribute) -> bool {
        var_attr_eq(*self, *other)
    }
}

fn var_attrs_match(a: &Vec<VariableAttribute>, b: &Vec<VariableAttribute>) -> (r: bool)
    ensures
        r == var_attrs_eq(a@, b@),
{
    if a.len() != b.len() {
        return false;
    }
    let mut i: usize = 0;
    while i < a.len()
        invariant
            a@.len() == b@.len(),
            i <= a@.len(),
            forall|j: int| 0 <= j < i ==> var_attr_eq(#[trigger] a@[j], b@[j]),
        decreases a@.len() - i,
    {
        if !(a[i] == b[i]) {
            return false;
        }
        i = i + 1;
    }
    true
}

impl PartialEq for VariableDefinition {
    /// Equality compares type, attributes, name and initialiser; no
    /// location matters.
    fn eq(&self, other: &Self) -> (r: bool)
        ensures
            r == var_def_eq(*self, *other),
    {
        expr_match(&self.ty, &other.ty) && var_attrs_match(&self.attrs, &other.attrs)
            && self.name == other.name && opt_expr_match(&self.initializer, &other.initializer)
    }
}

impl vstd::std_specs::cmp::PartialEqSpecImpl for VariableDefinition {
    open spec fn obeys_eq_spec() -> bool {
        true
    }

    open spec fn eq_spec(&self, other: &VariableDefinition) -> bool {
        var_def_eq(*self, *other)
    }
}

impl PartialEq for TypeDefinition {
    /// Equality compares name and underlying type; no location matters.
    fn eq(&self, other: &Self) -> (r: bool)
        ensures
            r == type_def_eq(*self, *other),
    {
        self.name == other.name && expr_match(&self.ty, &other.ty)
    }
}

impl vstd::std_specs::cmp::PartialEqSpecImpl for TypeDefinition {
    open spec fn obeys_eq_spec() -> bool {
        true
    }

    open spec fn eq_spec(&self, other: &TypeDefinition) -> bool {
        type_def_eq(*self, *other)
    }
}

impl PartialEq for UsingList {
    /// Equality compares form and content; no location matters.
    fn eq(&self, other: &Self) -> (r: bool)
        ensures
            r == using_list_eq(*self, *other),
    {
        match (self, other) {
            (UsingList::Library(p1), UsingList::Library(p2)) => path_match(p1, p2),
            (UsingList::Functions(v1), UsingList::Functions(v2)) => paths_match(v1, v2),
            _ => false,
        }
    }
}

impl vstd::std_specs::cmp::PartialEqSpecImpl for UsingList {
    open spec fn obeys_eq_spec() -> bool {
        true
    }

    open spec fn eq_spec(&self, other: &UsingList) -> bool {
        using_list_eq(*self, *other)
    }
}

impl PartialEq for Using {
    /// Equality compares list, type and global marker; no location
    /// matters.
    fn eq(&self, other: &Self) -> (r: bool)
        ensures
            r == using_eq(*self, *other),
    {
        self.list == other.list && opt_expr_match(&self.ty, &other.ty)
            && self.global == other.global
    }
}

impl vstd::std_specs::cmp::PartialEqSpecImpl for Using {
    open spec fn obeys_eq_spec() -> bool {
        true
    }

    open spec fn eq_spec(&self, other: &Using) -> bool {
        using_eq(*self, *other)
    }
}

fn bases_match(a: &Vec<Base>, b: &Vec<Base>) -> (r: bool)
    ensures
        r == bases_eq(a@, b@),
{
    if a.len() != b.len() {
        return false;
    }
    let mut i: usize = 0;
    while i < a.len()
        invariant
            a@.len() == b@.len(),
            i <= a@.len(),
            forall|j: int| 0 <= j < i ==> base_eq(#[trigger] a@[j], b@[j]),
        decreases a@.len() - i,
    {
        if !base_match(&a[i], &b[i]) {
            return false;
        }
        i = i + 1;
    }
    true
}

fn opt_stmt_match(a: &Option<Statement>, b: &Option<Statement>) -> (r: bool)
    ensures
        r == opt_stmt_eq(*a, *b),
{
    match (a, b) {
        (Some(x), Some(y)) => stmt_match(x, y),
        (None, None) => true,
        _ => false,
    }
}

impl PartialEq for FunctionDefinition {
    /// Equality compares kind, name, parameters, attributes, returns and
    /// body; locations are compared by presence only.
    fn eq(&self, other: &Self) -> (r: bool)
        ensures
            r == func_def_eq(*self, *other),
    {
        self.ty == other.ty && self.name == other.name && slots_match(
            &self.params,
            &other.params,
        ) && fn_attrs_match(&self.attributes, &other.attributes)
            && self.return_not_returns.is_some() == other.return_not_returns.is_some()
            && slots_match(&self.returns, &other.returns) && opt_stmt_match(
            &self.body,
            &other.body,
        )
    }
}

impl vstd::std_specs::cmp::PartialEqSpecImpl for FunctionDefinition {
    open spec fn obeys_eq_spec() -> bool {
        true
    }

    open spec fn eq_spec(&self, other: &FunctionDefinition) -> bool {
        func_def_eq(*self, *other)
    }
}

fn rename_items_match(
    a: &Vec<(Identifier, Option<Identifier>)>,
    b: &Vec<(Identifier, Option<Identifier>)>,
) -> (r: bool)
    ensures
        r == rename_items_eq(a@, b@),
{
    if a.len() != b.len() {
        return false;
    }
    let mut i: usize = 0;
    while i < a.len()
        invariant
            a@.len() == b@.len(),
            i <= a@.len(),
            forall|j: int|
                0 <= j < i ==> ident_eq((#[trigger] a@[j]).0, b@[j].0) && opt_ident_eq(
                    a@[j].1,
                    b@[j].1,
                ),
        decreases a@.len() - i,
    {
        if !(a[i].0 == b[i].0 && a[i].1 == b[i].1) {
            return false;
        }
        i = i + 1;
    }
    true
}

impl PartialEq for Import {
    /// Equality compares form and content; no location matters.
    fn eq(&self, other: &Self) -> (r: bool)
        ensures
            r == import_eq(*self, *other),
    {
        match (self, other) {
            (Import::Plain(s1, _), Import::Plain(s2, _)) => s1 == s2,
            (
                Import::GlobalSymbol(s1, i1, _),
                Import::GlobalSymbol(s2, i2, _),
            ) => s1 == s2 && i1 == i2,
            (Import::Rename(s1, v1, _), Import::Rename(s2, v2, _)) => s1 == s2
                && rename_items_match(v1, v2),
            _ => false,
        }
    }
}

impl vstd::std_specs::cmp::PartialEqSpecImpl for Import {
    open spec fn obeys_eq_spec() -> bool {
        true
    }

    open spec fn eq_spec(&self, other: &Import) -> bool {
        import_eq(*self, *other)
    }
}

impl PartialEq for ContractPart {
    /// Equality compares the kind of item and its content; no location
    /// matters.
    fn eq(&self, other: &Self) -> (r: bool)
        ensures
            r == contract_part_eq(*self, *other),
    {
        match (self, other) {
            (
                ContractPart::StructDefinition(d1),
                ContractPart::StructDefinition(d2),
            ) => **d1 == **d2,
            (
                ContractPart::EventDefinition(d1),
                ContractPart::EventDefinition(d2),
            ) => **d1 == **d2,
            (
                ContractPart::EnumDefinition(d1),
                ContractPart::EnumDefinition(d2),
            ) => **d1 == **d2,
            (
                ContractPart::ErrorDefinition(d1),
                ContractPart::ErrorDefinition(d2),
            ) => **d1 == **d2,
            (
                ContractPart::VariableDefinition(d1),
                ContractPart::VariableDefinition(d2),
            ) => **d1 == **d2,
            (
                ContractPart::FunctionDefinition(d1),
                ContractPart::FunctionDefinition(d2),
            ) => **d1 == **d2,
            (
                ContractPart::TypeDefinition(d1),
                ContractPart::TypeDefinition(d2),
            ) => **d1 == **d2,
            (ContractPart::StraySemicolon(_), ContractPart::StraySemicolon(_)) => true,
            (ContractPart::Using(d1), ContractPart::Using(d2)) => **d1 == **d2,
            _ => false,
        }
    }
}

impl vstd::std_specs::cmp::PartialEqSpecImpl for ContractPart {
    open spec fn obeys_eq_spec() -> bool {
        true
    }

    open spec fn eq_spec(&self, other: &ContractPart) -> bool {
        contract_part_eq(*self, *other)
    }
}

fn parts_match(a: &Vec<ContractPart>, b: &Vec<ContractPart>) -> (r: bool)
    ensures
        r == parts_eq(a@, b@),
{
    if a.len() != b.len() {
        return false;
    }
    let mut i: usize = 0;
    while i < a.len()
        invariant
            a@.len() == b@.len(),
            i <= a@.len(),
            forall|j: int| 0 <= j < i ==> contract_part_eq(#[trigger] a@[j], b@[j]),
        decreases a@.len() - i,
    {
        if !(a[i] == b[i]) {
            return false;
        }
        i = i + 1;
    }
    true
}

impl PartialEq for ContractDefinition {
    /// Equality compares kind, name, bases and parts; no location matters.
    fn eq(&self, other: &Self) -> (r: bool)
        ensures
            r == contract_def_eq(*self, *other),
    {
        self.ty == other.ty && self.name == other.name && bases_match(&self.base, &other.base)
            && parts_match(&self.parts, &other.parts)
    }
}

impl vstd::std_specs::cmp::PartialEqSpecImpl for ContractDefinition {
    open spec fn obeys_eq_spec() -> bool {
        true
    }

    open spec fn eq_spec(&self, other: &ContractDefinition) -> bool {
        contract_def_eq(*self, *other)
    }
}

impl PartialEq for SourceUnitPart {
    /// Equality compares the kind of item and its content; no location
    /// matters.
    fn eq(&self, other: &Self) -> (r: bool)
        ensures
            r == unit_part_eq(*self, *other),
    {
        match (self, other) {
            (
                SourceUnitPart::ContractDefinition(d1),
                SourceUnitPart::ContractDefinition(d2),
            ) => **d1 == **d2,
            (
                SourceUnitPart::PragmaDirective(_, i1, s1),
                SourceUnitPart::PragmaDirective(_, i2, s2),
            ) => i1 == i2 && s1 == s2,
            (
                SourceUnitPart::ImportDirective(d1),
                SourceUnitPart::ImportDirective(d2),
            ) => d1 == d2,
            (
                SourceUnitPart::EnumDefinition(d1),
                SourceUnitPart::EnumDefinition(d2),
            ) => **d1 == **d2,
            (
                SourceUnitPart::StructDefinition(d1),
                SourceUnitPart::StructDefinition(d2),
            ) => **d1 == **d2,
            (
                SourceUnitPart::EventDefinition(d1),
                SourceUnitPart::EventDefinition(d2),
            ) => **d1 == **d2,
            (
                SourceUnitPart::ErrorDefinition(d1),
                SourceUnitPart::ErrorDefinition(d2),
            ) => **d1 == **d2,
            (
                SourceUnitPart::FunctionDefinition(d1),
                SourceUnitPart::FunctionDefinition(d2),
            ) => **d1 == **d2,
            (
                SourceUnitPart::VariableDefinition(d1),
                SourceUnitPart::VariableDefinition(d2),
            ) => **d1 == **d2,
            (
                SourceUnitPart::TypeDefinition(d1),
                SourceUnitPart::TypeDefinition(d2),
            ) => **d1 == **d2,
            (SourceUnitPart::Using(d1), SourceUnitPart::Using(d2)) => **d1 == **d2,
            (
                SourceUnitPart::StraySemicolon(_),
                SourceUnitPart::StraySemicolon(_),
            ) => true,
            _ => false,
        }
    }
}

impl vstd::std_specs::cmp::PartialEqSpecImpl for SourceUnitPart {
    open spec fn obeys_eq_spec() -> bool {
        true
    }

    open spec fn eq_spec(&self, other: &SourceUnitPart) -> bool {
        unit_part_eq(*self, *other)
    }
}

fn unit_parts_match(a: &Vec<SourceUnitPart>, b: &Vec<SourceUnitPart>) -> (r: bool)
    ensures
        r == unit_parts_eq(a@, b@),
{
    if a.len() != b.len() {
        return false;
    }
    let mut i: usize = 0;
    while i < a.len()
        invariant
            a@.len() == b@.len(),
            i <= a@.len(),
            forall|j: int| 0 <= j < i ==> unit_part_eq(#[trigger] a@[j], b@[j]),
        decreases a@.len() - i,
    {
        if !(a[i] == b[i]) {
            return false;
        }
        i = i + 1;
    }
    true
}

impl PartialEq for SourceUnit {
    /// Equality compares the parts in order; no location anywhere in
    /// either tree matters.
    fn eq(&self, other: &Self) -> (r: bool)
        ensures
            r == source_unit_eq(*self, *other),
    {
        unit_parts_match(&self.0, &other.0)
    }
}

impl vstd::std_specs::cmp::PartialEqSpecImpl for SourceUnit {
    open spec fn obeys_eq_spec() -> bool {
        true
    }

    open spec fn eq_spec(&self, other: &SourceUnit) -> bool {
        source_unit_eq(*self, *other)
    }
}

} // verus!
