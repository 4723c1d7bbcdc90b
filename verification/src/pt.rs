//! The parse-tree model: every Solidity surface construct as a tagged,
//! source-located value type.
//!
//! The tree is owned top-down by [`SourceUnit`]; there are no
//! back-references. Each node carries its [`Loc`]; since equality on `Loc`
//! holds between any two values, the derived equality of whole nodes
//! compares shape and content only.

use vstd::prelude::*;
use vstd::std_specs::cmp::PartialEqSpec;
use crate::loc::{CodeLocation, Loc, OptionalCodeLocation};

verus! {

/// A lexical identifier.
#[derive(Debug, Clone)]
pub struct Identifier {
    pub loc: Loc,
    pub name: String,
}

impl PartialEq for Identifier {
    /// Equality compares the name alone; the location never matters.
    fn eq(&self, other: &Self) -> (r: bool)
        ensures
            r == (self.name@ == other.name@),
    {
        self.name == other.name
    }
}

impl vstd::std_specs::cmp::PartialEqSpecImpl for Identifier {
    open spec fn obeys_eq_spec() -> bool {
        true
    }

    open spec fn eq_spec(&self, other: &Identifier) -> bool {
        self.name@ == other.name@
    }
}

/// Structural equality of identifiers ignores locations: two identifiers
/// with the same name compare equal, wherever each was parsed from.
pub proof fn lemma_identifier_eq_ignores_loc(a: Identifier, b: Identifier)
    requires
        a.name@ == b.name@,
    ensures
        a.eq_spec(&b),
{
}

/// A dot-separated path of identifiers.
#[derive(Debug, Clone)]
pub struct IdentifierPath {
    pub loc: Loc,
    pub identifiers: Vec<Identifier>,
}

impl PartialEq for IdentifierPath {
    /// Equality compares the names alone, in order; no location matters.
    fn eq(&self, other: &Self) -> (r: bool)
        ensures
            r == (self.identifiers.len() == other.identifiers.len() && (forall|i: int|
                0 <= i < self.identifiers.len()
                    ==> (#[trigger] self.identifiers[i]).name@ == other.identifiers[i].name@)),
    {
        self.identifiers == other.identifiers
    }
}

impl vstd::std_specs::cmp::PartialEqSpecImpl for IdentifierPath {
    open spec fn obeys_eq_spec() -> bool {
        true
    }

    open spec fn eq_spec(&self, other: &IdentifierPath) -> bool {
        self.identifiers.len() == other.identifiers.len() && (forall|i: int|
            0 <= i < self.identifiers.len()
                ==> (#[trigger] self.identifiers[i]).name@ == other.identifiers[i].name@)
    }
}

/// A comment token, collected out of band; the text keeps its delimiters.
#[derive(Debug, PartialEq, Clone)]
pub enum Comment {
    Line(Loc, String),
    Block(Loc, String),
    DocLine(Loc, String),
    DocBlock(Loc, String),
}

impl Comment {
    /// The comment's raw text.
    pub fn get_contents(&self) -> (s: &String)
        ensures
            s@ == self.spec_contents(),
    {
        match self {
            Comment::Line(_, s) => s,
            Comment::Block(_, s) => s,
            Comment::DocLine(_, s) => s,
            Comment::DocBlock(_, s) => s,
        }
    }

    /// The comment's raw text, at the specification level.
    pub open spec fn spec_contents(self) -> Seq<char> {
        match self {
            Comment::Line(_, s) => s@,
            Comment::Block(_, s) => s@,
            Comment::DocLine(_, s) => s@,
            Comment::DocBlock(_, s) => s@,
        }
    }
}

/// An ordered sequence of top-level parts: one parsed source file.
#[derive(Debug)]
pub struct SourceUnit(pub Vec<SourceUnitPart>);

/// A top-level item of a source unit.
#[derive(Debug)]
pub enum SourceUnitPart {
    ContractDefinition(Box<ContractDefinition>),
    PragmaDirective(Loc, Identifier, StringLiteral),
    ImportDirective(Import),
    EnumDefinition(Box<EnumDefinition>),
    StructDefinition(Box<StructDefinition>),
    EventDefinition(Box<EventDefinition>),
    ErrorDefinition(Box<ErrorDefinition>),
    FunctionDefinition(Box<FunctionDefinition>),
    VariableDefinition(Box<VariableDefinition>),
    TypeDefinition(Box<TypeDefinition>),
    Using(Box<Using>),
    StraySemicolon(Loc),
}

/// An import directive.
#[derive(Debug)]
pub enum Import {
    /// `import "path";`
    Plain(StringLiteral, Loc),
    /// `import "path" as symbol;`
    GlobalSymbol(StringLiteral, Identifier, Loc),
    /// `import { a as b, ... } from "path";`
    Rename(StringLiteral, Vec<(Identifier, Option<Identifier>)>, Loc),
}

/// A parameter list: each slot carries its own location and may be empty,
/// for Solidity's anonymous slots.
pub type ParameterList = Vec<(Loc, Option<Parameter>)>;

/// An elementary or composite Solidity type.
#[derive(Debug)]
pub enum Type {
    Address,
    AddressPayable,
    Payable,
    Bool,
    String,
    /// Signed integer of the given bit width.
    Int(u16),
    /// Unsigned integer of the given bit width.
    Uint(u16),
    /// Fixed byte array of the given byte width.
    Bytes(u8),
    Rational,
    DynamicBytes,
    /// A mapping; the key and value are full expressions so that type
    /// constructors compose.
    Mapping(Loc, Box<Expression>, Box<Expression>),
    /// A function type.
    Function {
        params: Vec<(Loc, Option<Parameter>)>,
        attributes: Vec<FunctionAttribute>,
        returns: Option<(ParameterList, Vec<FunctionAttribute>)>,
    },
}

/// Where a variable lives.
#[derive(Debug, Clone)]
pub enum StorageLocation {
    Memory(Loc),
    Storage(Loc),
    Calldata(Loc),
}

/// A declared variable: type, optional storage, name.
#[derive(Debug)]
pub struct VariableDeclaration {
    pub loc: Loc,
    pub ty: Expression,
    pub storage: Option<StorageLocation>,
    pub name: Identifier,
}

/// A struct definition.
#[derive(Debug)]
pub struct StructDefinition {
    pub loc: Loc,
    pub name: Identifier,
    pub fields: Vec<VariableDeclaration>,
}

/// An item of a contract body.
#[derive(Debug)]
pub enum ContractPart {
    StructDefinition(Box<StructDefinition>),
    EventDefinition(Box<EventDefinition>),
    EnumDefinition(Box<EnumDefinition>),
    ErrorDefinition(Box<ErrorDefinition>),
    VariableDefinition(Box<VariableDefinition>),
    FunctionDefinition(Box<FunctionDefinition>),
    TypeDefinition(Box<TypeDefinition>),
    StraySemicolon(Loc),
    Using(Box<Using>),
}

/// What a `using` directive attaches: a library or a list of functions.
#[derive(Debug)]
pub enum UsingList {
    Library(IdentifierPath),
    Functions(Vec<IdentifierPath>),
}

/// A `using ... for ...` directive.
#[derive(Debug)]
pub struct Using {
    pub loc: Loc,
    pub list: UsingList,
    pub ty: Option<Expression>,
    pub global: Option<Identifier>,
}

/// The kind of a contract definition.
#[derive(Debug, Clone)]
pub enum ContractTy {
    Abstract(Loc),
    Contract(Loc),
    Interface(Loc),
    Library(Loc),
}

/// A base contract named in an inheritance list, with optional arguments.
#[derive(Debug)]
pub struct Base {
    pub loc: Loc,
    pub name: IdentifierPath,
    pub args: Option<Vec<Expression>>,
}

/// A contract, interface or library definition.
#[derive(Debug)]
pub struct ContractDefinition {
    pub loc: Loc,
    pub ty: ContractTy,
    pub name: Identifier,
    pub base: Vec<Base>,
    pub parts: Vec<ContractPart>,
}

/// One field of an event definition.
#[derive(Debug)]
pub struct EventParameter {
    pub ty: Expression,
    pub loc: Loc,
    pub indexed: bool,
    pub name: Option<Identifier>,
}

/// An event definition.
#[derive(Debug)]
pub struct EventDefinition {
    pub loc: Loc,
    pub name: Identifier,
    pub fields: Vec<EventParameter>,
    pub anonymous: bool,
}

/// One field of an error definition.
#[derive(Debug)]
pub struct ErrorParameter {
    pub ty: Expression,
    pub loc: Loc,
    pub name: Option<Identifier>,
}

/// An error definition.
#[derive(Debug)]
pub struct ErrorDefinition {
    pub loc: Loc,
    pub name: Identifier,
    pub fields: Vec<ErrorParameter>,
}

/// An enum definition.
#[derive(Debug)]
pub struct EnumDefinition {
    pub loc: Loc,
    pub name: Identifier,
    pub values: Vec<Identifier>,
}

/// An attribute of a state variable.
#[derive(Debug)]
pub enum VariableAttribute {
    Visibility(Visibility),
    Constant(Loc),
    Immutable(Loc),
    Override(Loc, Vec<IdentifierPath>),
}

/// A state variable definition.
#[derive(Debug)]
pub struct VariableDefinition {
    pub loc: Loc,
    pub ty: Expression,
    pub attrs: Vec<VariableAttribute>,
    pub name: Identifier,
    pub initializer: Option<Expression>,
}

/// A user-defined value type: `type Name is elementary-type;`.
#[derive(Debug)]
pub struct TypeDefinition {
    pub loc: Loc,
    pub name: Identifier,
    pub ty: Expression,
}

/// A string literal, with its unicode flag.
#[derive(Debug, Clone)]
pub struct StringLiteral {
    pub loc: Loc,
    pub unicode: bool,
    pub string: String,
}

impl PartialEq for StringLiteral {
    /// Equality compares the flag and the text alone; the location never
    /// matters.
    fn eq(&self, other: &Self) -> (r: bool)
        ensures
            r == (self.unicode == other.unicode && self.string@ == other.string@),
    {
        self.unicode == other.unicode && self.string == other.string
    }
}

impl vstd::std_specs::cmp::PartialEqSpecImpl for StringLiteral {
    open spec fn obeys_eq_spec() -> bool {
        true
    }

    open spec fn eq_spec(&self, other: &StringLiteral) -> bool {
        self.unicode == other.unicode && self.string@ == other.string@
    }
}

/// A hex string literal.
#[derive(Debug, Clone)]
pub struct HexLiteral {
    pub loc: Loc,
    pub hex: String,
}

impl PartialEq for HexLiteral {
    /// Equality compares the hex body alone; the location never matters.
    fn eq(&self, other: &Self) -> (r: bool)
        ensures
            r == (self.hex@ == other.hex@),
    {
        self.hex == other.hex
    }
}

impl vstd::std_specs::cmp::PartialEqSpecImpl for HexLiteral {
    open spec fn obeys_eq_spec() -> bool {
        true
    }

    open spec fn eq_spec(&self, other: &HexLiteral) -> bool {
        self.hex@ == other.hex@
    }
}

/// A named call argument: `name: expr`.
#[derive(Debug)]
pub struct NamedArgument {
    pub loc: Loc,
    pub name: Identifier,
    pub expr: Expression,
}

/// A unit suffix on a number literal, such as `1 ether`.
#[derive(Debug, Clone)]
pub enum Unit {
    Seconds(Loc),
    Minutes(Loc),
    Hours(Loc),
    Days(Loc),
    Weeks(Loc),
    Wei(Loc),
    Gwei(Loc),
    Ether(Loc),
}

/// The full Solidity expression grammar as a sum type. Each variant
/// carries its location first; `Variable` takes it from its identifier,
/// and the literal-sequence variants from their first element.
#[derive(Debug)]
pub enum Expression {
    PostIncrement(Loc, Box<Expression>),
    PostDecrement(Loc, Box<Expression>),
    New(Loc, Box<Expression>),
    ArraySubscript(Loc, Box<Expression>, Option<Box<Expression>>),
    ArraySlice(Loc, Box<Expression>, Option<Box<Expression>>, Option<Box<Expression>>),
    Parenthesis(Loc, Box<Expression>),
    MemberAccess(Loc, Box<Expression>, Identifier),
    FunctionCall(Loc, Box<Expression>, Vec<Expression>),
    FunctionCallBlock(Loc, Box<Expression>, Box<Statement>),
    NamedFunctionCall(Loc, Box<Expression>, Vec<NamedArgument>),
    Not(Loc, Box<Expression>),
    Complement(Loc, Box<Expression>),
    Delete(Loc, Box<Expression>),
    PreIncrement(Loc, Box<Expression>),
    PreDecrement(Loc, Box<Expression>),
    UnaryPlus(Loc, Box<Expression>),
    UnaryMinus(Loc, Box<Expression>),
    Power(Loc, Box<Expression>, Box<Expression>),
    Multiply(Loc, Box<Expression>, Box<Expression>),
    Divide(Loc, Box<Expression>, Box<Expression>),
    Modulo(Loc, Box<Expression>, Box<Expression>),
    Add(Loc, Box<Expression>, Box<Expression>),
    Subtract(Loc, Box<Expression>, Box<Expression>),
    ShiftLeft(Loc, Box<Expression>, Box<Expression>),
    ShiftRight(Loc, Box<Expression>, Box<Expression>),
    BitwiseAnd(Loc, Box<Expression>, Box<Expression>),
    BitwiseXor(Loc, Box<Expression>, Box<Expression>),
    BitwiseOr(Loc, Box<Expression>, Box<Expression>),
    Less(Loc, Box<Expression>, Box<Expression>),
    More(Loc, Box<Expression>, Box<Expression>),
    LessEqual(Loc, Box<Expression>, Box<Expression>),
    MoreEqual(Loc, Box<Expression>, Box<Expression>),
    Equal(Loc, Box<Expression>, Box<Expression>),
    NotEqual(Loc, Box<Expression>, Box<Expression>),
    And(Loc, Box<Expression>, Box<Expression>),
    Or(Loc, Box<Expression>, Box<Expression>),
    Ternary(Loc, Box<Expression>, Box<Expression>, Box<Expression>),
    Assign(Loc, Box<Expression>, Box<Expression>),
    AssignOr(Loc, Box<Expression>, Box<Expression>),
    AssignAnd(Loc, Box<Expression>, Box<Expression>),
    AssignXor(Loc, Box<Expression>, Box<Expression>),
    AssignShiftLeft(Loc, Box<Expression>, Box<Expression>),
    AssignShiftRight(Loc, Box<Expression>, Box<Expression>),
    AssignAdd(Loc, Box<Expression>, Box<Expression>),
    AssignSubtract(Loc, Box<Expression>, Box<Expression>),
    AssignMultiply(Loc, Box<Expression>, Box<Expression>),
    AssignDivide(Loc, Box<Expression>, Box<Expression>),
    AssignModulo(Loc, Box<Expression>, Box<Expression>),
    BoolLiteral(Loc, bool),
    NumberLiteral(Loc, String, String),
    RationalNumberLiteral(Loc, String, String, String),
    HexNumberLiteral(Loc, String),
    StringLiteral(Vec<StringLiteral>),
    Type(Loc, Type),
    HexLiteral(Vec<HexLiteral>),
    AddressLiteral(Loc, String),
    Variable(Identifier),
    List(Loc, ParameterList),
    ArrayLiteral(Loc, Vec<Expression>),
    Unit(Loc, Box<Expression>, Unit),
    This(Loc),
}

/// One slot of a parameter list.
#[derive(Debug)]
pub struct Parameter {
    pub loc: Loc,
    pub ty: Expression,
    pub storage: Option<StorageLocation>,
    pub name: Option<Identifier>,
}

/// A mutability attribute of a function.
#[derive(Debug, Clone)]
pub enum Mutability {
    Pure(Loc),
    View(Loc),
    Constant(Loc),
    Payable(Loc),
}

/// A visibility attribute; the location is absent when the specifier is
/// attached to the declaration rather than written as its own token.
#[derive(Debug, Clone)]
pub enum Visibility {
    External(Option<Loc>),
    Public(Option<Loc>),
    Internal(Option<Loc>),
    Private(Option<Loc>),
}

/// An attribute of a function definition.
#[derive(Debug)]
pub enum FunctionAttribute {
    Mutability(Mutability),
    Visibility(Visibility),
    Virtual(Loc),
    Immutable(Loc),
    Override(Loc, Vec<IdentifierPath>),
    BaseOrModifier(Loc, Base),
}

/// The kind of a function definition.
#[derive(Debug, Clone, Copy)]
pub enum FunctionTy {
    Constructor,
    Function,
    Fallback,
    Receive,
    Modifier,
}

/// A function, constructor, fallback, receive or modifier definition.
#[derive(Debug)]
pub struct FunctionDefinition {
    pub loc: Loc,
    pub ty: FunctionTy,
    pub name: Option<Identifier>,
    pub name_loc: Loc,
    pub params: ParameterList,
    pub attributes: Vec<FunctionAttribute>,
    pub return_not_returns: Option<Loc>,
    pub returns: ParameterList,
    pub body: Option<Statement>,
}

/// A statement.
#[derive(Debug)]
pub enum Statement {
    Block { loc: Loc, unchecked: bool, statements: Vec<Statement> },
    Assembly {
        loc: Loc,
        dialect: Option<StringLiteral>,
        flags: Option<Vec<StringLiteral>>,
        block: YulBlock,
    },
    Args(Loc, Vec<NamedArgument>),
    If(Loc, Expression, Box<Statement>, Option<Box<Statement>>),
    While(Loc, Expression, Box<Statement>),
    Expression(Loc, Expression),
    VariableDefinition(Loc, VariableDeclaration, Option<Expression>),
    For(
        Loc,
        Option<Box<Statement>>,
        Option<Box<Expression>>,
        Option<Box<Statement>>,
        Option<Box<Statement>>,
    ),
    DoWhile(Loc, Box<Statement>, Expression),
    Continue(Loc),
    Break(Loc),
    Return(Loc, Option<Expression>),
    Revert(Loc, Option<IdentifierPath>, Vec<Expression>),
    RevertNamedArgs(Loc, Option<IdentifierPath>, Vec<NamedArgument>),
    Emit(Loc, Expression),
    Try(Loc, Expression, Option<(ParameterList, Box<Statement>)>, Vec<CatchClause>),
}

/// One catch clause of a `try` statement.
#[derive(Debug)]
pub enum CatchClause {
    Simple(Loc, Option<Parameter>, Statement),
    Named(Loc, Identifier, Parameter, Statement),
}

/// A Yul statement, inside an assembly block.
#[derive(Debug)]
pub enum YulStatement {
    Assign(Loc, Vec<YulExpression>, YulExpression),
    VariableDeclaration(Loc, Vec<YulTypedIdentifier>, Option<YulExpression>),
    If(Loc, YulExpression, YulBlock),
    For(YulFor),
    Switch(YulSwitch),
    Leave(Loc),
    Break(Loc),
    Continue(Loc),
    Block(YulBlock),
    FunctionDefinition(Box<YulFunctionDefinition>),
    FunctionCall(Box<YulFunctionCall>),
}

/// A Yul `switch` statement.
#[derive(Debug)]
pub struct YulSwitch {
    pub loc: Loc,
    pub condition: YulExpression,
    pub cases: Vec<YulSwitchOptions>,
    pub default: Option<YulSwitchOptions>,
}

/// A Yul `for` statement.
#[derive(Debug)]
pub struct YulFor {
    pub loc: Loc,
    pub init_block: YulBlock,
    pub condition: YulExpression,
    pub post_block: YulBlock,
    pub execution_block: YulBlock,
}

/// A braced block of Yul statements.
#[derive(Debug)]
pub struct YulBlock {
    pub loc: Loc,
    pub statements: Vec<YulStatement>,
}

/// A Yul expression.
#[derive(Debug)]
pub enum YulExpression {
    BoolLiteral(Loc, bool, Option<Identifier>),
    NumberLiteral(Loc, String, String, Option<Identifier>),
    HexNumberLiteral(Loc, String, Option<Identifier>),
    HexStringLiteral(HexLiteral, Option<Identifier>),
    StringLiteral(StringLiteral, Option<Identifier>),
    Variable(Identifier),
    FunctionCall(Box<YulFunctionCall>),
    SuffixAccess(Loc, Box<YulExpression>, Identifier),
}

/// A Yul identifier with an optional type suffix.
#[derive(Debug, Clone)]
pub struct YulTypedIdentifier {
    pub loc: Loc,
    pub id: Identifier,
    pub ty: Option<Identifier>,
}

/// A Yul function definition.
#[derive(Debug)]
pub struct YulFunctionDefinition {
    pub loc: Loc,
    pub id: Identifier,
    pub params: Vec<YulTypedIdentifier>,
    pub returns: Vec<YulTypedIdentifier>,
    pub body: YulBlock,
}

/// A Yul function call.
#[derive(Debug)]
pub struct YulFunctionCall {
    pub loc: Loc,
    pub id: Identifier,
    pub arguments: Vec<YulExpression>,
}

/// One arm of a Yul `switch`: a case or the default.
#[derive(Debug)]
pub enum YulSwitchOptions {
    Case(Loc, YulExpression, YulBlock),
    Default(Loc, YulBlock),
}

// ---------------------------------------------------------------------------
// Location accessors
// ---------------------------------------------------------------------------

impl SourceUnitPart {
    /// The part's location, at the specification level.
    pub open spec fn spec_loc(self) -> Loc {
        match self {
            SourceUnitPart::ContractDefinition(def) => def.loc,
            SourceUnitPart::PragmaDirective(loc, _, _) => loc,
            SourceUnitPart::ImportDirective(import) => import.spec_loc(),
            SourceUnitPart::EnumDefinition(def) => def.loc,
            SourceUnitPart::StructDefinition(def) => def.loc,
            SourceUnitPart::EventDefinition(def) => def.loc,
            SourceUnitPart::ErrorDefinition(def) => def.loc,
            SourceUnitPart::FunctionDefinition(def) => def.loc,
            SourceUnitPart::VariableDefinition(def) => def.loc,
            SourceUnitPart::TypeDefinition(def) => def.loc,
            SourceUnitPart::Using(def) => def.loc,
            SourceUnitPart::StraySemicolon(loc) => loc,
        }
    }

    /// The part's location.
    pub fn loc(&self) -> (l: &Loc)
        ensures
            *l == self.spec_loc(),
    {
        match self {
            SourceUnitPart::ContractDefinition(def) => &def.loc,
            SourceUnitPart::PragmaDirective(loc, _, _) => loc,
            SourceUnitPart::ImportDirective(import) => import.loc(),
            SourceUnitPart::EnumDefinition(def) => &def.loc,
            SourceUnitPart::StructDefinition(def) => &def.loc,
            SourceUnitPart::EventDefinition(def) => &def.loc,
            SourceUnitPart::ErrorDefinition(def) => &def.loc,
            SourceUnitPart::FunctionDefinition(def) => &def.loc,
            SourceUnitPart::VariableDefinition(def) => &def.loc,
            SourceUnitPart::TypeDefinition(def) => &def.loc,
            SourceUnitPart::Using(def) => &def.loc,
            SourceUnitPart::StraySemicolon(loc) => loc,
        }
    }
}

impl Import {
    /// The directive's location, at the specification level.
    pub open spec fn spec_loc(self) -> Loc {
        match self {
            Import::Plain(_, loc) => loc,
            Import::GlobalSymbol(_, _, loc) => loc,
            Import::Rename(_, _, loc) => loc,
        }
    }

    /// The directive's location.
    pub fn loc(&self) -> (l: &Loc)
        ensures
            *l == self.spec_loc(),
    {
        match self {
            Import::Plain(_, loc) => loc,
            Import::GlobalSymbol(_, _, loc) => loc,
            Import::Rename(_, _, loc) => loc,
        }
    }
}

impl ContractPart {
    /// The part's location, at the specification level. For a function it
    /// excludes the body.
    pub open spec fn spec_loc(self) -> Loc {
        match self {
            ContractPart::StructDefinition(def) => def.loc,
            ContractPart::EventDefinition(def) => def.loc,
            ContractPart::EnumDefinition(def) => def.loc,
            ContractPart::ErrorDefinition(def) => def.loc,
            ContractPart::VariableDefinition(def) => def.loc,
            ContractPart::FunctionDefinition(def) => def.loc,
            ContractPart::TypeDefinition(def) => def.loc,
            ContractPart::StraySemicolon(loc) => loc,
            ContractPart::Using(def) => def.loc,
        }
    }

    /// The part's location. For a function it excludes the body.
    pub fn loc(&self) -> (l: &Loc)
        ensures
            *l == self.spec_loc(),
    {
        match self {
            ContractPart::StructDefinition(def) => &def.loc,
            ContractPart::EventDefinition(def) => &def.loc,
            ContractPart::EnumDefinition(def) => &def.loc,
            ContractPart::ErrorDefinition(def) => &def.loc,
            ContractPart::VariableDefinition(def) => &def.loc,
            ContractPart::FunctionDefinition(def) => &def.loc,
            ContractPart::TypeDefinition(def) => &def.loc,
            ContractPart::StraySemicolon(loc) => loc,
            ContractPart::Using(def) => &def.loc,
        }
    }
}

impl CodeLocation for StorageLocation {
    open spec fn loc_wf(&self) -> bool {
        true
    }

    open spec fn spec_loc(&self) -> Loc {
        match *self {
            StorageLocation::Memory(l) => l,
            StorageLocation::Storage(l) => l,
            StorageLocation::Calldata(l) => l,
        }
    }

    fn loc(&self) -> (l: Loc) {
        match self {
            StorageLocation::Memory(l) | StorageLocation::Storage(l)
            | StorageLocation::Calldata(l) => *l,
        }
    }
}

impl CodeLocation for Mutability {
    open spec fn loc_wf(&self) -> bool {
        true
    }

    open spec fn spec_loc(&self) -> Loc {
        match *self {
            Mutability::Pure(loc) => loc,
            Mutability::Constant(loc) => loc,
            Mutability::View(loc) => loc,
            Mutability::Payable(loc) => loc,
        }
    }

    fn loc(&self) -> (l: Loc) {
        match self {
            Mutability::Pure(loc) | Mutability::Constant(loc) | Mutability::View(loc)
            | Mutability::Payable(loc) => *loc,
        }
    }
}

impl OptionalCodeLocation for Visibility {
    open spec fn spec_loc(&self) -> Option<Loc> {
        match *self {
            Visibility::Public(loc) => loc,
            Visibility::External(loc) => loc,
            Visibility::Internal(loc) => loc,
            Visibility::Private(loc) => loc,
        }
    }

    fn loc(&self) -> (l: Option<Loc>) {
        match self {
            Visibility::Public(loc) | Visibility::External(loc) | Visibility::Internal(loc)
            | Visibility::Private(loc) => *loc,
        }
    }
}

impl CodeLocation for Expression {
    /// An expression made of a sequence of string or hex literals takes its
    /// location from the first element, so that sequence must not be empty.
    open spec fn loc_wf(&self) -> bool {
        match *self {
            Expression::StringLiteral(v) => v.len() > 0,
            Expression::HexLiteral(v) => v.len() > 0,
            _ => true,
        }
    }

    open spec fn spec_loc(&self) -> Loc {
        match *self {
            Expression::PostIncrement(loc, _) => loc,
            Expression::PostDecrement(loc, _) => loc,
            Expression::New(loc, _) => loc,
            Expression::ArraySubscript(loc, _, _) => loc,
            Expression::ArraySlice(loc, _, _, _) => loc,
            Expression::Parenthesis(loc, _) => loc,
            Expression::MemberAccess(loc, _, _) => loc,
            Expression::FunctionCall(loc, _, _) => loc,
            Expression::FunctionCallBlock(loc, _, _) => loc,
            Expression::NamedFunctionCall(loc, _, _) => loc,
            Expression::Not(loc, _) => loc,
            Expression::Complement(loc, _) => loc,
            Expression::Delete(loc, _) => loc,
            Expression::PreIncrement(loc, _) => loc,
            Expression::PreDecrement(loc, _) => loc,
            Expression::UnaryPlus(loc, _) => loc,
            Expression::UnaryMinus(loc, _) => loc,
            Expression::Power(loc, _, _) => loc,
            Expression::Multiply(loc, _, _) => loc,
            Expression::Divide(loc, _, _) => loc,
            Expression::Modulo(loc, _, _) => loc,
            Expression::Add(loc, _, _) => loc,
            Expression::Subtract(loc, _, _) => loc,
            Expression::ShiftLeft(loc, _, _) => loc,
            Expression::ShiftRight(loc, _, _) => loc,
            Expression::BitwiseAnd(loc, _, _) => loc,
            Expression::BitwiseXor(loc, _, _) => loc,
            Expression::BitwiseOr(loc, _, _) => loc,
            Expression::Less(loc, _, _) => loc,
            Expression::More(loc, _, _) => loc,
            Expression::LessEqual(loc, _, _) => loc,
            Expression::MoreEqual(loc, _, _) => loc,
            Expression::Equal(loc, _, _) => loc,
            Expression::NotEqual(loc, _, _) => loc,
            Expression::And(loc, _, _) => loc,
            Expression::Or(loc, _, _) => loc,
            Expression::Ternary(loc, _, _, _) => loc,
            Expression::Assign(loc, _, _) => loc,
            Expression::AssignOr(loc, _, _) => loc,
            Expression::AssignAnd(loc, _, _) => loc,
            Expression::AssignXor(loc, _, _) => loc,
            Expression::AssignShiftLeft(loc, _, _) => loc,
            Expression::AssignShiftRight(loc, _, _) => loc,
            Expression::AssignAdd(loc, _, _) => loc,
            Expression::AssignSubtract(loc, _, _) => loc,
            Expression::AssignMultiply(loc, _, _) => loc,
            Expression::AssignDivide(loc, _, _) => loc,
            Expression::AssignModulo(loc, _, _) => loc,
            Expression::BoolLiteral(loc, _) => loc,
            Expression::NumberLiteral(loc, _, _) => loc,
            Expression::RationalNumberLiteral(loc, _, _, _) => loc,
            Expression::HexNumberLiteral(loc, _) => loc,
            Expression::StringLiteral(v) => v[0].loc,
            Expression::Type(loc, _) => loc,
            Expression::HexLiteral(v) => v[0].loc,
            Expression::AddressLiteral(loc, _) => loc,
            Expression::Variable(id) => id.loc,
            Expression::List(loc, _) => loc,
            Expression::ArrayLiteral(loc, _) => loc,
            Expression::Unit(loc, _, _) => loc,
            Expression::This(loc) => loc,
        }
    }

    fn loc(&self) -> (l: Loc) {
        match self {
            Expression::PostIncrement(loc, _)
            | Expression::PostDecrement(loc, _)
            | Expression::New(loc, _)
            | Expression::Parenthesis(loc, _)
            | Expression::ArraySubscript(loc, _, _)
            | Expression::ArraySlice(loc, _, _, _)
            | Expression::MemberAccess(loc, _, _)
            | Expression::FunctionCall(loc, _, _)
            | Expression::FunctionCallBlock(loc, _, _)
            | Expression::NamedFunctionCall(loc, _, _)
            | Expression::Not(loc, _)
            | Expression::Complement(loc, _)
            | Expression::Delete(loc, _)
            | Expression::PreIncrement(loc, _)
            | Expression::PreDecrement(loc, _)
            | Expression::UnaryPlus(loc, _)
            | Expression::UnaryMinus(loc, _)
            | Expression::Power(loc, _, _)
            | Expression::Multiply(loc, _, _)
            | Expression::Divide(loc, _, _)
            | Expression::Modulo(loc, _, _)
            | Expression::Add(loc, _, _)
            | Expression::Subtract(loc, _, _)
            | Expression::ShiftLeft(loc, _, _)
            | Expression::ShiftRight(loc, _, _)
            | Expression::BitwiseAnd(loc, _, _)
            | Expression::BitwiseXor(loc, _, _)
            | Expression::BitwiseOr(loc, _, _)
            | Expression::Less(loc, _, _)
            | Expression::More(loc, _, _)
            | Expression::LessEqual(loc, _, _)
            | Expression::MoreEqual(loc, _, _)
            | Expression::Equal(loc, _, _)
            | Expression::NotEqual(loc, _, _)
            | Expression::And(loc, _, _)
            | Expression::Or(loc, _, _)
            | Expression::Ternary(loc, _, _, _)
            | Expression::Assign(loc, _, _)
            | Expression::AssignOr(loc, _, _)
            | Expression::AssignAnd(loc, _, _)
            | Expression::AssignXor(loc, _, _)
            | Expression::AssignShiftLeft(loc, _, _)
            | Expression::AssignShiftRight(loc, _, _)
            | Expression::AssignAdd(loc, _, _)
            | Expression::AssignSubtract(loc, _, _)
            | Expression::AssignMultiply(loc, _, _)
            | Expression::AssignDivide(loc, _, _)
            | Expression::AssignModulo(loc, _, _)
            | Expression::BoolLiteral(loc, _)
            | Expression::NumberLiteral(loc, _, _)
            | Expression::RationalNumberLiteral(loc, _, _, _)
            | Expression::HexNumberLiteral(loc, _)
            | Expression::ArrayLiteral(loc, _)
            | Expression::List(loc, _)
            | Expression::Type(loc, _)
            | Expression::Unit(loc, _, _)
            | Expression::This(loc)
            | Expression::Variable(Identifier { loc, .. })
            | Expression::AddressLiteral(loc, _) => *loc,
            Expression::StringLiteral(v) => v[0].loc,
            Expression::HexLiteral(v) => v[0].loc,
        }
    }
}

impl Expression {
    /// What peeling one layer of grouping leaves: the operand of a
    /// parenthesis node, any other expression itself.
    pub open spec fn spec_remove_parenthesis(self) -> Expression {
        match self {
            Expression::Parenthesis(_, expr) => *expr,
            _ => self,
        }
    }

    /// Peel exactly one layer of grouping if present, else return the
    /// expression itself.
    pub fn remove_parenthesis(&self) -> (r: &Expression)
        ensures
            *r == self.spec_remove_parenthesis(),
    {
        if let Expression::Parenthesis(_, expr) = self {
            expr
        } else {
            self
        }
    }
}

/// Peeling one layer of grouping is idempotent beyond the first call: once
/// the outer parenthesis is gone, peeling again changes nothing. The one
/// shape left out is a directly doubled parenthesis, where the second peel
/// still finds a layer to remove.
pub proof fn lemma_remove_parenthesis_idempotent(e: Expression)
    requires
        !(e matches Expression::Parenthesis(_, inner) && *inner is Parenthesis),
    ensures
        e.spec_remove_parenthesis().spec_remove_parenthesis() == e.spec_remove_parenthesis(),
{
}

impl CodeLocation for Statement {
    open spec fn loc_wf(&self) -> bool {
        true
    }

    open spec fn spec_loc(&self) -> Loc {
        match *self {
            Statement::Block { loc, .. } => loc,
            Statement::Assembly { loc, .. } => loc,
            Statement::Args(loc, _) => loc,
            Statement::If(loc, _, _, _) => loc,
            Statement::While(loc, _, _) => loc,
            Statement::Expression(loc, _) => loc,
            Statement::VariableDefinition(loc, _, _) => loc,
            Statement::For(loc, _, _, _, _) => loc,
            Statement::DoWhile(loc, _, _) => loc,
            Statement::Continue(loc) => loc,
            Statement::Break(loc) => loc,
            Statement::Return(loc, _) => loc,
            Statement::Revert(loc, _, _) => loc,
            Statement::RevertNamedArgs(loc, _, _) => loc,
            Statement::Emit(loc, _) => loc,
            Statement::Try(loc, _, _, _) => loc,
        }
    }

    fn loc(&self) -> (l: Loc) {
        match self {
            Statement::Block { loc, .. }
            | Statement::Assembly { loc, .. }
            | Statement::Args(loc, _)
            | Statement::If(loc, _, _, _)
            | Statement::While(loc, _, _)
            | Statement::Expression(loc, _)
            | Statement::VariableDefinition(loc, _, _)
            | Statement::For(loc, _, _, _, _)
            | Statement::DoWhile(loc, _, _)
            | Statement::Continue(loc)
            | Statement::Break(loc)
            | Statement::Return(loc, _)
            | Statement::Revert(loc, _, _)
            | Statement::RevertNamedArgs(loc, _, _)
            | Statement::Emit(loc, _)
            | Statement::Try(loc, _, _, _) => *loc,
        }
    }
}

impl YulStatement {
    /// The statement's location, at the specification level.
    pub open spec fn spec_loc(self) -> Loc {
        match self {
            YulStatement::Assign(loc, _, _) => loc,
            YulStatement::VariableDeclaration(loc, _, _) => loc,
            YulStatement::If(loc, _, _) => loc,
            YulStatement::Leave(loc) => loc,
            YulStatement::Break(loc) => loc,
            YulStatement::Continue(loc) => loc,
            YulStatement::Block(block) => block.loc,
            YulStatement::FunctionDefinition(func_def) => func_def.loc,
            YulStatement::FunctionCall(func_call) => func_call.loc,
            YulStatement::For(for_struct) => for_struct.loc,
            YulStatement::Switch(switch_struct) => switch_struct.loc,
        }
    }

    /// The statement's location.
    pub fn loc(&self) -> (l: Loc)
        ensures
            l == self.spec_loc(),
    {
        match self {
            YulStatement::Assign(loc, _, _)
            | YulStatement::VariableDeclaration(loc, _, _)
            | YulStatement::If(loc, _, _)
            | YulStatement::Leave(loc)
            | YulStatement::Break(loc)
            | YulStatement::Continue(loc) => *loc,
            YulStatement::Block(block) => block.loc,
            YulStatement::FunctionDefinition(func_def) => func_def.loc,
            YulStatement::FunctionCall(func_call) => func_call.loc,
            YulStatement::For(for_struct) => for_struct.loc,
            YulStatement::Switch(switch_struct) => switch_struct.loc,
        }
    }
}

impl CodeLocation for YulSwitchOptions {
    open spec fn loc_wf(&self) -> bool {
        true
    }

    open spec fn spec_loc(&self) -> Loc {
        match *self {
            YulSwitchOptions::Case(loc, _, _) => loc,
            YulSwitchOptions::Default(loc, _) => loc,
        }
    }

    fn loc(&self) -> (l: Loc) {
        match self {
            YulSwitchOptions::Case(loc, _, _) | YulSwitchOptions::Default(loc, _) => *loc,
        }
    }
}

} // verus!
