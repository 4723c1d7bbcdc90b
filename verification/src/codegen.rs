//! Builders that synthesise parse-tree fragments.
//!
//! Every node a builder creates carries [`Loc::Codegen`], so that later
//! passes can tell synthetic code from user input; the `*_all_codegen`
//! predicates state that discipline recursively, down to every nesting
//! level. A block built here is `unchecked`, by convention, so that later
//! passes can recognise generated arithmetic.

use vstd::prelude::*;
use crate::loc::{CodeLocation, Loc, OptionalCodeLocation};
use crate::pt;

verus! {

// ---------------------------------------------------------------------------
// Codegen provenance, stated recursively
// ---------------------------------------------------------------------------

/// Every location inside the identifier is `Codegen`.
pub open spec fn ident_all_codegen(id: pt::Identifier) -> bool {
    id.loc is Codegen
}

/// Every location inside the optional identifier is `Codegen`.
pub open spec fn opt_ident_all_codegen(o: Option<pt::Identifier>) -> bool {
    o matches Some(id) ==> ident_all_codegen(id)
}

/// Every location inside the identifier path is `Codegen`.
pub open spec fn path_all_codegen(p: pt::IdentifierPath) -> bool {
    p.loc is Codegen && forall|i: int|
        0 <= i < p.identifiers.len() ==> ident_all_codegen(#[trigger] p.identifiers[i])
}

/// Every location inside each identifier path is `Codegen`.
pub open spec fn paths_all_codegen(ps: Seq<pt::IdentifierPath>) -> bool {
    forall|i: int| 0 <= i < ps.len() ==> path_all_codegen(#[trigger] ps[i])
}

/// Every location inside the string literal is `Codegen`.
pub open spec fn strlit_all_codegen(s: pt::StringLiteral) -> bool {
    s.loc is Codegen
}

/// Every location inside each string literal is `Codegen`.
pub open spec fn strlits_all_codegen(ss: Seq<pt::StringLiteral>) -> bool {
    forall|i: int| 0 <= i < ss.len() ==> strlit_all_codegen(#[trigger] ss[i])
}

/// Every location inside the hex literal is `Codegen`.
pub open spec fn hexlit_all_codegen(h: pt::HexLiteral) -> bool {
    h.loc is Codegen
}

/// Every location inside each hex literal is `Codegen`.
pub open spec fn hexlits_all_codegen(hs: Seq<pt::HexLiteral>) -> bool {
    forall|i: int| 0 <= i < hs.len() ==> hexlit_all_codegen(#[trigger] hs[i])
}

/// Every location inside the optional storage specifier is `Codegen`.
pub open spec fn storage_all_codegen(o: Option<pt::StorageLocation>) -> bool {
    o matches Some(s) ==> s.spec_loc() is Codegen
}

/// Every location inside the mutability attribute is `Codegen`.
pub open spec fn mutability_all_codegen(m: pt::Mutability) -> bool {
    m.spec_loc() is Codegen
}

/// Every location inside the visibility attribute is `Codegen`, where it
/// carries one at all.
pub open spec fn visibility_all_codegen(v: pt::Visibility) -> bool {
    v.spec_loc() matches Some(l) ==> l is Codegen
}

/// Every location inside the expression is `Codegen`.
pub open spec fn expr_all_codegen(e: pt::Expression) -> bool
    decreases e,
{
    match e {
        pt::Expression::PostIncrement(loc, e1) => loc is Codegen && expr_all_codegen(*e1),
        pt::Expression::PostDecrement(loc, e1) => loc is Codegen && expr_all_codegen(*e1),
        pt::Expression::New(loc, e1) => loc is Codegen && expr_all_codegen(*e1),
        pt::Expression::ArraySubscript(loc, e1, e2) => loc is Codegen && expr_all_codegen(*e1)
            && opt_box_expr_all_codegen(e2),
        pt::Expression::ArraySlice(loc, e1, e2, e3) => loc is Codegen && expr_all_codegen(*e1)
            && opt_box_expr_all_codegen(e2) && opt_box_expr_all_codegen(e3),
        pt::Expression::Parenthesis(loc, e1) => loc is Codegen && expr_all_codegen(*e1),
        pt::Expression::MemberAccess(loc, e1, id) => loc is Codegen && expr_all_codegen(*e1)
            && ident_all_codegen(id),
        pt::Expression::FunctionCall(loc, f, args) => loc is Codegen && expr_all_codegen(*f)
            && exprs_all_codegen(args@),
        pt::Expression::FunctionCallBlock(loc, f, s) => loc is Codegen && expr_all_codegen(*f)
            && stmt_all_codegen(*s),
        pt::Expression::NamedFunctionCall(loc, f, args) => loc is Codegen && expr_all_codegen(*f)
            && named_args_all_codegen(args@),
        pt::Expression::Not(loc, e1) => loc is Codegen && expr_all_codegen(*e1),
        pt::Expression::Complement(loc, e1) => loc is Codegen && expr_all_codegen(*e1),
        pt::Expression::Delete(loc, e1) => loc is Codegen && expr_all_codegen(*e1),
        pt::Expression::PreIncrement(loc, e1) => loc is Codegen && expr_all_codegen(*e1),
        pt::Expression::PreDecrement(loc, e1) => loc is Codegen && expr_all_codegen(*e1),
        pt::Expression::UnaryPlus(loc, e1) => loc is Codegen && expr_all_codegen(*e1),
        pt::Expression::UnaryMinus(loc, e1) => loc is Codegen && expr_all_codegen(*e1),
        pt::Expression::Power(loc, a, b) => loc is Codegen && expr_all_codegen(*a)
            && expr_all_codegen(*b),
        pt::Expression::Multiply(loc, a, b) => loc is Codegen && expr_all_codegen(*a)
            && expr_all_codegen(*b),
        pt::Expression::Divide(loc, a, b) => loc is Codegen && expr_all_codegen(*a)
            && expr_all_codegen(*b),
        pt::Expression::Modulo(loc, a, b) => loc is Codegen && expr_all_codegen(*a)
            && expr_all_codegen(*b),
        pt::Expression::Add(loc, a, b) => loc is Codegen && expr_all_codegen(*a)
            && expr_all_codegen(*b),
        pt::Expression::Subtract(loc, a, b) => loc is Codegen && expr_all_codegen(*a)
            && expr_all_codegen(*b),
        pt::Expression::ShiftLeft(loc, a, b) => loc is Codegen && expr_all_codegen(*a)
            && expr_all_codegen(*b),
        pt::Expression::ShiftRight(loc, a, b) => loc is Codegen && expr_all_codegen(*a)
            && expr_all_codegen(*b),
        pt::Expression::BitwiseAnd(loc, a, b) => loc is Codegen && expr_all_codegen(*a)
            && expr_all_codegen(*b),
        pt::Expression::BitwiseXor(loc, a, b) => loc is Codegen && expr_all_codegen(*a)
            && expr_all_codegen(*b),
        pt::Expression::BitwiseOr(loc, a, b) => loc is Codegen && expr_all_codegen(*a)
            && expr_all_codegen(*b),
        pt::Expression::Less(loc, a, b) => loc is Codegen && expr_all_codegen(*a)
            && expr_all_codegen(*b),
        pt::Expression::More(loc, a, b) => loc is Codegen && expr_all_codegen(*a)
            && expr_all_codegen(*b),
        pt::Expression::LessEqual(loc, a, b) => loc is Codegen && expr_all_codegen(*a)
            && expr_all_codegen(*b),
        pt::Expression::MoreEqual(loc, a, b) => loc is Codegen && expr_all_codegen(*a)
            && expr_all_codegen(*b),
        pt::Expression::Equal(loc, a, b) => loc is Codegen && expr_all_codegen(*a)
            && expr_all_codegen(*b),
        pt::Expression::NotEqual(loc, a, b) => loc is Codegen && expr_all_codegen(*a)
            && expr_all_codegen(*b),
        pt::Expression::And(loc, a, b) => loc is Codegen && expr_all_codegen(*a)
            && expr_all_codegen(*b),
        pt::Expression::Or(loc, a, b) => loc is Codegen && expr_all_codegen(*a)
            && expr_all_codegen(*b),
        pt::Expression::Ternary(loc, a, b, c) => loc is Codegen && expr_all_codegen(*a)
            && expr_all_codegen(*b) && expr_all_codegen(*c),
        pt::Expression::Assign(loc, a, b) => loc is Codegen && expr_all_codegen(*a)
            && expr_all_codegen(*b),
        pt::Expression::AssignOr(loc, a, b) => loc is Codegen && expr_all_codegen(*a)
            && expr_all_codegen(*b),
        pt::Expression::AssignAnd(loc, a, b) => loc is Codegen && expr_all_codegen(*a)
            && expr_all_codegen(*b),
        pt::Expression::AssignXor(loc, a, b) => loc is Codegen && expr_all_codegen(*a)
            && expr_all_codegen(*b),
        pt::Expression::AssignShiftLeft(loc, a, b) => loc is Codegen && expr_all_codegen(*a)
            && expr_all_codegen(*b),
        pt::Expression::AssignShiftRight(loc, a, b) => loc is Codegen && expr_all_codegen(*a)
            && expr_all_codegen(*b),
        pt::Expression::AssignAdd(loc, a, b) => loc is Codegen && expr_all_codegen(*a)
            && expr_all_codegen(*b),
        pt::Expression::AssignSubtract(loc, a, b) => loc is Codegen && expr_all_codegen(*a)
            && expr_all_codegen(*b),
        pt::Expression::AssignMultiply(loc, a, b) => loc is Codegen && expr_all_codegen(*a)
            && expr_all_codegen(*b),
        pt::Expression::AssignDivide(loc, a, b) => loc is Codegen && expr_all_codegen(*a)
            && expr_all_codegen(*b),
        pt::Expression::AssignModulo(loc, a, b) => loc is Codegen && expr_all_codegen(*a)
            && expr_all_codegen(*b),
        pt::Expression::BoolLiteral(loc, _) => loc is Codegen,
        pt::Expression::NumberLiteral(loc, _, _) => loc is Codegen,
        pt::Expression::RationalNumberLiteral(loc, _, _, _) => loc is Codegen,
        pt::Expression::HexNumberLiteral(loc, _) => loc is Codegen,
        pt::Expression::StringLiteral(v) => strlits_all_codegen(v@),
        pt::Expression::Type(loc, ty) => loc is Codegen && type_all_codegen(ty),
        pt::Expression::HexLiteral(v) => hexlits_all_codegen(v@),
        pt::Expression::AddressLiteral(loc, _) => loc is Codegen,
        pt::Expression::Variable(id) => ident_all_codegen(id),
        pt::Expression::List(loc, ps) => loc is Codegen && param_list_all_codegen(ps@),
        pt::Expression::ArrayLiteral(loc, es) => loc is Codegen && exprs_all_codegen(es@),
        pt::Expression::Unit(loc, e1, u) => loc is Codegen && expr_all_codegen(*e1)
            && unit_all_codegen(u),
        pt::Expression::This(loc) => loc is Codegen,
    }
}

/// Every location inside each expression is `Codegen`.
pub open spec fn exprs_all_codegen(es: Seq<pt::Expression>) -> bool
    decreases es,
{
    forall|i: int| 0 <= i < es.len() ==> expr_all_codegen(#[trigger] es[i])
}

/// Every location inside the optional boxed expression is `Codegen`.
pub open spec fn opt_box_expr_all_codegen(o: Option<Box<pt::Expression>>) -> bool
    decreases o,
{
    o matches Some(e) ==> expr_all_codegen(*e)
}

/// Every location inside the optional expression is `Codegen`.
pub open spec fn opt_expr_all_codegen(o: Option<pt::Expression>) -> bool
    decreases o,
{
    o matches Some(e) ==> expr_all_codegen(e)
}

/// Every location inside the unit suffix is `Codegen`.
pub open spec fn unit_all_codegen(u: pt::Unit) -> bool {
    match u {
        pt::Unit::Seconds(l) => l is Codegen,
        pt::Unit::Minutes(l) => l is Codegen,
        pt::Unit::Hours(l) => l is Codegen,
        pt::Unit::Days(l) => l is Codegen,
        pt::Unit::Weeks(l) => l is Codegen,
        pt::Unit::Wei(l) => l is Codegen,
        pt::Unit::Gwei(l) => l is Codegen,
        pt::Unit::Ether(l) => l is Codegen,
    }
}

/// Every location inside the type is `Codegen`.
pub open spec fn type_all_codegen(t: pt::Type) -> bool
    decreases t,
{
    match t {
        pt::Type::Mapping(loc, k, v) => loc is Codegen && expr_all_codegen(*k)
            && expr_all_codegen(*v),
        pt::Type::Function { params, attributes, returns } => param_list_all_codegen(params@)
            && fn_attrs_all_codegen(attributes@) && (returns matches Some(r)
            ==> param_list_all_codegen(r.0@) && fn_attrs_all_codegen(r.1@)),
        _ => true,
    }
}

/// Every location inside the named argument is `Codegen`.
pub open spec fn named_arg_all_codegen(a: pt::NamedArgument) -> bool
    decreases a,
{
    a.loc is Codegen && ident_all_codegen(a.name) && expr_all_codegen(a.expr)
}

/// Every location inside each named argument is `Codegen`.
pub open spec fn named_args_all_codegen(args: Seq<pt::NamedArgument>) -> bool
    decreases args,
{
    forall|i: int| 0 <= i < args.len() ==> named_arg_all_codegen(#[trigger] args[i])
}

/// Every location inside the parameter is `Codegen`.
pub open spec fn param_all_codegen(p: pt::Parameter) -> bool
    decreases p,
{
    p.loc is Codegen && expr_all_codegen(p.ty) && storage_all_codegen(p.storage)
        && opt_ident_all_codegen(p.name)
}

/// Every location inside each slot of the parameter list is `Codegen`.
pub open spec fn param_list_all_codegen(ps: Seq<(Loc, Option<pt::Parameter>)>) -> bool
    decreases ps,
{
    forall|i: int|
        0 <= i < ps.len() ==> (#[trigger] ps[i]).0 is Codegen && (ps[i].1 matches Some(p)
            ==> param_all_codegen(p))
}

/// Every location inside the base-contract reference is `Codegen`.
pub open spec fn base_all_codegen(b: pt::Base) -> bool
    decreases b,
{
    b.loc is Codegen && path_all_codegen(b.name) && (b.args matches Some(args)
        ==> exprs_all_codegen(args@))
}

/// Every location inside the function attribute is `Codegen`.
pub open spec fn fn_attr_all_codegen(a: pt::FunctionAttribute) -> bool
    decreases a,
{
    match a {
        pt::FunctionAttribute::Mutability(m) => mutability_all_codegen(m),
        pt::FunctionAttribute::Visibility(v) => visibility_all_codegen(v),
        pt::FunctionAttribute::Virtual(l) => l is Codegen,
        pt::FunctionAttribute::Immutable(l) => l is Codegen,
        pt::FunctionAttribute::Override(l, ps) => l is Codegen && paths_all_codegen(ps@),
        pt::FunctionAttribute::BaseOrModifier(l, b) => l is Codegen && base_all_codegen(b),
    }
}

/// Every location inside each function attribute is `Codegen`.
pub open spec fn fn_attrs_all_codegen(attrs: Seq<pt::FunctionAttribute>) -> bool
    decreases attrs,
{
    forall|i: int| 0 <= i < attrs.len() ==> fn_attr_all_codegen(#[trigger] attrs[i])
}

/// Every location inside the variable declaration is `Codegen`.
pub open spec fn var_decl_all_codegen(d: pt::VariableDeclaration) -> bool
    decreases d,
{
    d.loc is Codegen && expr_all_codegen(d.ty) && storage_all_codegen(d.storage)
        && ident_all_codegen(d.name)
}

/// Every location inside the statement is `Codegen`.
pub open spec fn stmt_all_codegen(s: pt::Statement) -> bool
    decreases s,
{
    match s {
        pt::Statement::Block { loc, statements, .. } => loc is Codegen
            && stmts_all_codegen(statements@),
        pt::Statement::Assembly { loc, dialect, flags, block } => loc is Codegen
            && (dialect matches Some(d) ==> strlit_all_codegen(d)) && (flags matches Some(fs)
            ==> strlits_all_codegen(fs@)) && yul_block_all_codegen(block),
        pt::Statement::Args(loc, args) => loc is Codegen && named_args_all_codegen(args@),
        pt::Statement::If(loc, c, t, e) => loc is Codegen && expr_all_codegen(c)
            && stmt_all_codegen(*t) && (e matches Some(s2) ==> stmt_all_codegen(*s2)),
        pt::Statement::While(loc, c, body) => loc is Codegen && expr_all_codegen(c)
            && stmt_all_codegen(*body),
        pt::Statement::Expression(loc, e) => loc is Codegen && expr_all_codegen(e),
        pt::Statement::VariableDefinition(loc, d, init) => loc is Codegen
            && var_decl_all_codegen(d) && opt_expr_all_codegen(init),
        pt::Statement::For(loc, init, cond, post, body) => loc is Codegen && (init matches Some(s1)
            ==> stmt_all_codegen(*s1)) && opt_box_expr_all_codegen(cond) && (post matches Some(s2)
            ==> stmt_all_codegen(*s2)) && (body matches Some(s3) ==> stmt_all_codegen(*s3)),
        pt::Statement::DoWhile(loc, body, c) => loc is Codegen && stmt_all_codegen(*body)
            && expr_all_codegen(c),
        pt::Statement::Continue(loc) => loc is Codegen,
        pt::Statement::Break(loc) => loc is Codegen,
        pt::Statement::Return(loc, e) => loc is Codegen && opt_expr_all_codegen(e),
        pt::Statement::Revert(loc, p, es) => loc is Codegen && (p matches Some(path)
            ==> path_all_codegen(path)) && exprs_all_codegen(es@),
        pt::Statement::RevertNamedArgs(loc, p, args) => loc is Codegen && (p matches Some(path)
            ==> path_all_codegen(path)) && named_args_all_codegen(args@),
        pt::Statement::Emit(loc, e) => loc is Codegen && expr_all_codegen(e),
        pt::Statement::Try(loc, e, ok, catches) => loc is Codegen && expr_all_codegen(e) && (ok
            matches Some(cl) ==> param_list_all_codegen(cl.0@) && stmt_all_codegen(*cl.1))
            && catches_all_codegen(catches@),
    }
}

/// Every location inside each statement is `Codegen`.
pub open spec fn stmts_all_codegen(ss: Seq<pt::Statement>) -> bool
    decreases ss,
{
    forall|i: int| 0 <= i < ss.len() ==> stmt_all_codegen(#[trigger] ss[i])
}

/// Every location inside the catch clause is `Codegen`.
pub open spec fn catch_all_codegen(c: pt::CatchClause) -> bool
    decreases c,
{
    match c {
        pt::CatchClause::Simple(loc, p, body) => loc is Codegen && (p matches Some(param)
            ==> param_all_codegen(param)) && stmt_all_codegen(body),
        pt::CatchClause::Named(loc, id, param, body) => loc is Codegen && ident_all_codegen(id)
            && param_all_codegen(param) && stmt_all_codegen(body),
    }
}

/// Every location inside each catch clause is `Codegen`.
pub open spec fn catches_all_codegen(cs: Seq<pt::CatchClause>) -> bool
    decreases cs,
{
    forall|i: int| 0 <= i < cs.len() ==> catch_all_codegen(#[trigger] cs[i])
}

/// Every location inside the Yul expression is `Codegen`.
pub open spec fn yul_expr_all_codegen(e: pt::YulExpression) -> bool
    decreases e,
{
    match e {
        pt::YulExpression::BoolLiteral(loc, _, id) => loc is Codegen && opt_ident_all_codegen(id),
        pt::YulExpression::NumberLiteral(loc, _, _, id) => loc is Codegen
            && opt_ident_all_codegen(id),
        pt::YulExpression::HexNumberLiteral(loc, _, id) => loc is Codegen
            && opt_ident_all_codegen(id),
        pt::YulExpression::HexStringLiteral(h, id) => hexlit_all_codegen(h)
            && opt_ident_all_codegen(id),
        pt::YulExpression::StringLiteral(s, id) => strlit_all_codegen(s)
            && opt_ident_all_codegen(id),
        pt::YulExpression::Variable(id) => ident_all_codegen(id),
        pt::YulExpression::FunctionCall(call) => yul_call_all_codegen(*call),
        pt::YulExpression::SuffixAccess(loc, e1, id) => loc is Codegen
            && yul_expr_all_codegen(*e1) && ident_all_codegen(id),
    }
}

/// Every location inside each Yul expression is `Codegen`.
pub open spec fn yul_exprs_all_codegen(es: Seq<pt::YulExpression>) -> bool
    decreases es,
{
    forall|i: int| 0 <= i < es.len() ==> yul_expr_all_codegen(#[trigger] es[i])
}

/// Every location inside the Yul call is `Codegen`.
pub open spec fn yul_call_all_codegen(c: pt::YulFunctionCall) -> bool
    decreases c,
{
    c.loc is Codegen && ident_all_codegen(c.id) && yul_exprs_all_codegen(c.arguments@)
}

/// Every location inside the typed Yul identifier is `Codegen`.
pub open spec fn yul_typed_ident_all_codegen(t: pt::YulTypedIdentifier) -> bool {
    t.loc is Codegen && ident_all_codegen(t.id) && opt_ident_all_codegen(t.ty)
}

/// Every location inside each typed Yul identifier is `Codegen`.
pub open spec fn yul_typed_idents_all_codegen(ts: Seq<pt::YulTypedIdentifier>) -> bool {
    forall|i: int| 0 <= i < ts.len() ==> yul_typed_ident_all_codegen(#[trigger] ts[i])
}

/// Every location inside the Yul block is `Codegen`.
pub open spec fn yul_block_all_codegen(b: pt::YulBlock) -> bool
    decreases b,
{
    b.loc is Codegen && yul_stmts_all_codegen(b.statements@)
}

/// Every location inside each Yul statement is `Codegen`.
pub open spec fn yul_stmts_all_codegen(ss: Seq<pt::YulStatement>) -> bool
    decreases ss,
{
    forall|i: int| 0 <= i < ss.len() ==> yul_stmt_all_codegen(#[trigger] ss[i])
}

/// Every location inside the Yul statement is `Codegen`.
pub open spec fn yul_stmt_all_codegen(s: pt::YulStatement) -> bool
    decreases s,
{
    match s {
        pt::YulStatement::Assign(loc, lhs, rhs) => loc is Codegen && yul_exprs_all_codegen(lhs@)
            && yul_expr_all_codegen(rhs),
        pt::YulStatement::VariableDeclaration(loc, ids, init) => loc is Codegen
            && yul_typed_idents_all_codegen(ids@) && (init matches Some(e)
            ==> yul_expr_all_codegen(e)),
        pt::YulStatement::If(loc, c, b) => loc is Codegen && yul_expr_all_codegen(c)
            && yul_block_all_codegen(b),
        pt::YulStatement::For(f) => f.loc is Codegen && yul_block_all_codegen(f.init_block)
            && yul_expr_all_codegen(f.condition) && yul_block_all_codegen(f.post_block)
            && yul_block_all_codegen(f.execution_block),
        pt::YulStatement::Switch(sw) => sw.loc is Codegen && yul_expr_all_codegen(sw.condition)
            && yul_switch_options_all_codegen(sw.cases@) && (sw.default matches Some(d)
            ==> yul_switch_option_all_codegen(d)),
        pt::YulStatement::Leave(loc) => loc is Codegen,
        pt::YulStatement::Break(loc) => loc is Codegen,
        pt::YulStatement::Continue(loc) => loc is Codegen,
        pt::YulStatement::Block(b) => yul_block_all_codegen(b),
        pt::YulStatement::FunctionDefinition(d) => d.loc is Codegen && ident_all_codegen(d.id)
            && yul_typed_idents_all_codegen(d.params@) && yul_typed_idents_all_codegen(d.returns@)
            && yul_block_all_codegen(d.body),
        pt::YulStatement::FunctionCall(c) => yul_call_all_codegen(*c),
    }
}

/// Every location inside the Yul switch arm is `Codegen`.
pub open spec fn yul_switch_option_all_codegen(o: pt::YulSwitchOptions) -> bool
    decreases o,
{
    match o {
        pt::YulSwitchOptions::Case(loc, e, b) => loc is Codegen && yul_expr_all_codegen(e)
            && yul_block_all_codegen(b),
        pt::YulSwitchOptions::Default(loc, b) => loc is Codegen && yul_block_all_codegen(b),
    }
}

/// Every location inside each Yul switch arm is `Codegen`.
pub open spec fn yul_switch_options_all_codegen(os: Seq<pt::YulSwitchOptions>) -> bool
    decreases os,
{
    forall|i: int| 0 <= i < os.len() ==> yul_switch_option_all_codegen(#[trigger] os[i])
}

/// Every location inside the event parameter is `Codegen`.
pub open spec fn event_param_all_codegen(p: pt::EventParameter) -> bool {
    p.loc is Codegen && expr_all_codegen(p.ty) && opt_ident_all_codegen(p.name)
}

/// Every location inside each event parameter is `Codegen`.
pub open spec fn event_params_all_codegen(ps: Seq<pt::EventParameter>) -> bool {
    forall|i: int| 0 <= i < ps.len() ==> event_param_all_codegen(#[trigger] ps[i])
}

/// Every location inside the event definition is `Codegen`.
pub open spec fn event_def_all_codegen(d: pt::EventDefinition) -> bool {
    d.loc is Codegen && ident_all_codegen(d.name) && event_params_all_codegen(d.fields@)
}

/// Every location inside the function definition is `Codegen`.
pub open spec fn function_def_all_codegen(d: pt::FunctionDefinition) -> bool {
    d.loc is Codegen && opt_ident_all_codegen(d.name) && d.name_loc is Codegen
        && param_list_all_codegen(d.params@) && fn_attrs_all_codegen(d.attributes@)
        && (d.return_not_returns matches Some(l) ==> l is Codegen)
        && param_list_all_codegen(d.returns@) && (d.body matches Some(b) ==> stmt_all_codegen(b))
}


// ---------------------------------------------------------------------------
// Builders
// ---------------------------------------------------------------------------

/// A fresh identifier with `Codegen` provenance.
pub fn id(name: String) -> (r: pt::Identifier)
    ensures
        r == (pt::Identifier { loc: Loc::Codegen, name }),
        ident_all_codegen(r),
{
    pt::Identifier { loc: Loc::Codegen, name }
}

/// A variable reference with `Codegen` provenance.
pub fn var_expr(name: String) -> (r: pt::Expression)
    ensures
        r == pt::Expression::Variable(pt::Identifier { loc: Loc::Codegen, name }),
        expr_all_codegen(r),
{
    pt::Expression::Variable(id(name))
}

/// A type used as an expression, with `Codegen` provenance.
pub fn type_expr(ty: pt::Type) -> (r: pt::Expression)
    ensures
        r == pt::Expression::Type(Loc::Codegen, ty),
        type_all_codegen(ty) ==> expr_all_codegen(r),
{
    pt::Expression::Type(Loc::Codegen, ty)
}

/// A call of the named function on the given arguments, with `Codegen`
/// provenance.
pub fn call_expr(name: String, args: Vec<pt::Expression>) -> (r: pt::Expression)
    ensures
        r == pt::Expression::FunctionCall(
            Loc::Codegen,
            Box::new(pt::Expression::Variable(pt::Identifier { loc: Loc::Codegen, name })),
            args,
        ),
        exprs_all_codegen(args@) ==> expr_all_codegen(r),
{
    pt::Expression::FunctionCall(Loc::Codegen, Box::new(var_expr(name)), args)
}

/// An `emit` of the named event on the given arguments, with `Codegen`
/// provenance.
pub fn emit_stmt(name: String, args: Vec<pt::Expression>) -> (r: pt::Statement)
    ensures
        r == pt::Statement::Emit(
            Loc::Codegen,
            pt::Expression::FunctionCall(
                Loc::Codegen,
                Box::new(pt::Expression::Variable(pt::Identifier { loc: Loc::Codegen, name })),
                args,
            ),
        ),
        exprs_all_codegen(args@) ==> stmt_all_codegen(r),
{
    pt::Statement::Emit(Loc::Codegen, call_expr(name, args))
}

/// A block of the given statements, with `Codegen` provenance; a synthetic
/// block is `unchecked`.
pub fn block_stmt(stmts: Vec<pt::Statement>) -> (r: pt::Statement)
    ensures
        r == (pt::Statement::Block { loc: Loc::Codegen, unchecked: true, statements: stmts }),
        stmts_all_codegen(stmts@) ==> stmt_all_codegen(r),
{
    pt::Statement::Block { loc: Loc::Codegen, unchecked: true, statements: stmts }
}

/// A non-anonymous event definition with the given fields, with `Codegen`
/// provenance.
pub fn event_def(name: String, params: Vec<pt::EventParameter>) -> (r: pt::EventDefinition)
    ensures
        r == (pt::EventDefinition {
            loc: Loc::Codegen,
            name: pt::Identifier { loc: Loc::Codegen, name },
            fields: params,
            anonymous: false,
        }),
        event_params_all_codegen(params@) ==> event_def_all_codegen(r),
{
    pt::EventDefinition { loc: Loc::Codegen, name: id(name), fields: params, anonymous: false }
}

/// The parameter slot a return type is wrapped in.
pub open spec fn spec_annon_parameter(ty: pt::Type) -> pt::Parameter {
    pt::Parameter {
        loc: Loc::Codegen,
        ty: pt::Expression::Type(Loc::Codegen, ty),
        storage: None,
        name: None,
    }
}

/// A public function definition with the given parameters, optional return
/// type and body, with `Codegen` provenance.
pub fn function_def(
    name: String,
    params: pt::ParameterList,
    ret: Option<pt::Type>,
    body: pt::Statement,
) -> (r: pt::FunctionDefinition)
    ensures
        r.loc is Codegen,
        r.ty == pt::FunctionTy::Function,
        r.name == Some(pt::Identifier { loc: Loc::Codegen, name }),
        r.name_loc is Codegen,
        r.params == params,
        r.attributes@ =~= seq![
            pt::FunctionAttribute::Visibility(pt::Visibility::Public(None)),
        ],
        r.return_not_returns is None,
        (match ret {
            None => r.returns@ =~= Seq::<(Loc, Option<pt::Parameter>)>::empty(),
            Some(t) => r.returns@ =~= seq![(Loc::Codegen, Some(spec_annon_parameter(t)))],
        }),
        r.body == Some(body),
        param_list_all_codegen(params@) && stmt_all_codegen(body)
            && (ret matches Some(t) ==> type_all_codegen(t)) ==> function_def_all_codegen(r),
{
    let rets: Vec<pt::Type> = match ret {
        Some(t) => vec![t],
        None => Vec::new(),
    };
    let mut attributes: Vec<pt::FunctionAttribute> = Vec::new();
    attributes.push(pt::FunctionAttribute::Visibility(pt::Visibility::Public(None)));
    pt::FunctionDefinition {
        loc: Loc::Codegen,
        ty: pt::FunctionTy::Function,
        name: Some(id(name)),
        name_loc: Loc::Codegen,
        params,
        attributes,
        return_not_returns: None,
        returns: annon_parameter_list(rets),
        body: Some(body),
    }
}

/// An anonymous parameter slot of the given type, with `Codegen` provenance.
pub fn annon_parameter(ty: pt::Type) -> (r: pt::Parameter)
    ensures
        r == spec_annon_parameter(ty),
        type_all_codegen(ty) ==> param_all_codegen(r),
{
    pt::Parameter { loc: Loc::Codegen, ty: type_expr(ty), storage: None, name: None }
}

/// A non-indexed event field of the given name and type, with `Codegen`
/// provenance.
pub fn event_parameter(name: String, ty: pt::Type) -> (r: pt::EventParameter)
    ensures
        r == (pt::EventParameter {
            ty: pt::Expression::Type(Loc::Codegen, ty),
            loc: Loc::Codegen,
            indexed: false,
            name: Some(pt::Identifier { loc: Loc::Codegen, name }),
        }),
        type_all_codegen(ty) ==> event_param_all_codegen(r),
{
    pt::EventParameter { ty: type_expr(ty), loc: Loc::Codegen, indexed: false, name: Some(id(name)) }
}

/// The parameter slot a named parameter is wrapped in.
pub open spec fn spec_parameter(name: String, ty: pt::Type) -> pt::Parameter {
    pt::Parameter {
        loc: Loc::Codegen,
        ty: pt::Expression::Type(Loc::Codegen, ty),
        storage: None,
        name: Some(pt::Identifier { loc: Loc::Codegen, name: name }),
    }
}

/// A named parameter slot of the given name and type, with `Codegen`
/// provenance.
pub fn parameter(name: String, ty: pt::Type) -> (r: pt::Parameter)
    ensures
        r == (pt::Parameter {
            loc: Loc::Codegen,
            ty: pt::Expression::Type(Loc::Codegen, ty),
            storage: None,
            name: Some(pt::Identifier { loc: Loc::Codegen, name }),
        }),
        type_all_codegen(ty) ==> param_all_codegen(r),
{
    pt::Parameter { loc: Loc::Codegen, ty: type_expr(ty), storage: None, name: Some(id(name)) }
}

/// Wrap each type in an anonymous parameter slot, with `Codegen` provenance.
pub fn annon_parameter_list(params: Vec<pt::Type>) -> (r: pt::ParameterList)
    ensures
        r@.len() == params@.len(),
        forall|i: int|
            0 <= i < params@.len() ==> r@[i] == (
                Loc::Codegen,
                Some(spec_annon_parameter(params@[i])),
            ),
        (forall|i: int| 0 <= i < params@.len() ==> type_all_codegen(#[trigger] params@[i]))
            ==> param_list_all_codegen(r@),
{
    let ghost orig = params@;
    let mut params = params;
    let mut out: pt::ParameterList = Vec::new();
    while params.len() > 0
        invariant
            out@.len() + params@.len() == orig.len(),
            params@ =~= orig.skip(out@.len() as int),
            forall|i: int|
                0 <= i < out@.len() ==> out@[i] == (Loc::Codegen, Some(spec_annon_parameter(
                    orig[i],
                ))),
        decreases params@.len(),
    {
        let t = params.remove(0);
        proof {
            assert(t == orig[out@.len() as int]);
        }
        out.push((Loc::Codegen, Some(annon_parameter(t))));
        proof {
            assert(params@ =~= orig.skip(out@.len() as int));
        }
    }
    out
}

/// Wrap each name-type pair in a named parameter slot, with `Codegen`
/// provenance.
pub fn parameter_list(params: Vec<(String, pt::Type)>) -> (r: pt::ParameterList)
    ensures
        r@.len() == params@.len(),
        forall|i: int|
            0 <= i < params@.len() ==> r@[i] == (
                Loc::Codegen,
                Some(spec_parameter((#[trigger] params@[i]).0, params@[i].1)),
            ),
        (forall|i: int| 0 <= i < params@.len() ==> type_all_codegen((#[trigger] params@[i]).1))
            ==> param_list_all_codegen(r@),
{
    let ghost orig = params@;
    let mut params = params;
    let mut out: pt::ParameterList = Vec::new();
    while params.len() > 0
        invariant
            out@.len() + params@.len() == orig.len(),
            params@ =~= orig.skip(out@.len() as int),
            forall|i: int|
                0 <= i < out@.len() ==> out@[i] == (Loc::Codegen, Some(spec_parameter(
                    (#[trigger] orig[i]).0,
                    orig[i].1,
                ))),
        decreases params@.len(),
    {
        let p = params.remove(0);
        proof {
            assert(p == orig[out@.len() as int]);
        }
        out.push((Loc::Codegen, Some(parameter(p.0, p.1))));
        proof {
            assert(params@ =~= orig.skip(out@.len() as int));
        }
    }
    proof {
        if forall|j: int| 0 <= j < orig.len() ==> type_all_codegen((#[trigger] orig[j]).1) {
            assert forall|i: int| 0 <= i < out@.len() implies ((#[trigger] out@[i]).0 is Codegen
                && (out@[i].1 matches Some(p) ==> param_all_codegen(p))) by {
                assert(type_all_codegen(orig[i].1));
                assert(out@[i] == (Loc::Codegen, Some(spec_parameter(orig[i].0, orig[i].1))));
            }
        }
    }
    out
}

// ---------------------------------------------------------------------------
// Parameter conversion
// ---------------------------------------------------------------------------

/// The event field a parameter converts to.
pub open spec fn spec_param_to_event_param(param: pt::Parameter) -> pt::EventParameter {
    pt::EventParameter { ty: param.ty, loc: Loc::Codegen, indexed: false, name: param.name }
}

/// Take a parameter and convert it to a non-indexed event field with
/// `Codegen` provenance, keeping its type and name.
pub fn param_to_event_param(param: pt::Parameter) -> (r: pt::EventParameter)
    ensures
        r == spec_param_to_event_param(param),
{
    pt::EventParameter { ty: param.ty, loc: Loc::Codegen, indexed: false, name: param.name }
}

/// Take a list of parameters and convert it to a list of event fields;
/// every slot must be filled.
pub fn params_to_event_params(params: pt::ParameterList) -> (r: Vec<pt::EventParameter>)
    requires
        forall|i: int| 0 <= i < params@.len() ==> (#[trigger] params@[i]).1 is Some,
    ensures
        r@.len() == params@.len(),
        forall|i: int|
            0 <= i < params@.len() ==> ((#[trigger] params@[i]).1 matches Some(p) && r@[i]
                == spec_param_to_event_param(p)),
{
    let ghost orig = params@;
    let mut params = params;
    let mut out: Vec<pt::EventParameter> = Vec::new();
    while params.len() > 0
        invariant
            out@.len() + params@.len() == orig.len(),
            params@ =~= orig.skip(out@.len() as int),
            forall|i: int| 0 <= i < orig.len() ==> (#[trigger] orig[i]).1 is Some,
            forall|i: int|
                0 <= i < out@.len() ==> ((#[trigger] orig[i]).1 matches Some(p) && out@[i]
                    == spec_param_to_event_param(p)),
        decreases params@.len(),
    {
        let slot = params.remove(0);
        proof {
            assert(slot == orig[out@.len() as int]);
        }
        let p = match slot.1 {
            Some(p) => p,
            None => vstd::pervasive::unreached(),
        };
        out.push(param_to_event_param(p));
        proof {
            assert(params@ =~= orig.skip(out@.len() as int));
        }
    }
    out
}

/// The by-name argument a parameter converts to.
pub open spec fn spec_param_to_arg(param: pt::Parameter) -> pt::Expression
    recommends
        param.name is Some,
{
    pt::Expression::Variable(
        pt::Identifier {
            loc: Loc::Codegen,
            name: (match param.name {
                Some(n) => n.name,
                None => vstd::pervasive::arbitrary(),
            }),
        },
    )
}

/// Take a parameter and convert it to an expression that can stand as an
/// argument: a by-name variable reference with `Codegen` provenance. The
/// parameter must be named.
pub fn param_to_arg(param: &pt::Parameter) -> (r: pt::Expression)
    requires
        param.name is Some,
    ensures
        r == spec_param_to_arg(*param),
        expr_all_codegen(r),
{
    let name = match &param.name {
        Some(n) => n.name.clone(),
        None => vstd::pervasive::unreached(),
    };
    var_expr(name)
}

/// Take a list of parameters and convert them to expressions that can
/// stand as a matching argument list; every slot must be filled and named.
pub fn params_to_args(params: &pt::ParameterList) -> (r: Vec<pt::Expression>)
    requires
        forall|i: int|
            0 <= i < params@.len() ==> ((#[trigger] params@[i]).1 matches Some(p)
                && p.name is Some),
    ensures
        r@.len() == params@.len(),
        forall|i: int|
            0 <= i < params@.len() ==> ((#[trigger] params@[i]).1 matches Some(p) && r@[i]
                == spec_param_to_arg(p)),
        exprs_all_codegen(r@),
{
    let mut out: Vec<pt::Expression> = Vec::new();
    let mut i: usize = 0;
    while i < params.len()
        invariant
            i <= params@.len(),
            out@.len() == i,
            forall|j: int|
                0 <= j < params@.len() ==> ((#[trigger] params@[j]).1 matches Some(p)
                    && p.name is Some),
            forall|j: int|
                0 <= j < i ==> ((#[trigger] params@[j]).1 matches Some(p) && out@[j]
                    == spec_param_to_arg(p)),
            exprs_all_codegen(out@),
        decreases params@.len() - i,
    {
        let p = match &params[i].1 {
            Some(p) => p,
            None => vstd::pervasive::unreached(),
        };
        out.push(param_to_arg(p));
        i = i + 1;
    }
    out
}

} // verus!
