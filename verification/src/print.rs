//! The pretty-printer: every printable parse-tree node knows how to lay
//! itself out as a document, and the document's model pins the text down.
//!
//! Each printable type carries three faces: `printable`, the subset of
//! trees the printer supports (printing anything outside that subset is a
//! contract violation, so it stands here as a precondition); `doc_spec`,
//! the exact document the node lays out to; and `to_doc` / `display`, the
//! executable printer, proved to produce that document and its rendering.

use vstd::prelude::*;
use vstd::string::StringExecFns;
use crate::doc::{
    catv, intersperse, intersperse_v, nestv, rendered, render_doc, u16_string, views_of,
    bool_chars, bool_string, dec_chars, Doc, DocV, INDENT,
};
use crate::pt::{
    Base, ContractDefinition, ContractPart, ContractTy, EnumDefinition, ErrorDefinition,
    ErrorParameter, EventDefinition, EventParameter, Expression, FunctionAttribute,
    FunctionDefinition, FunctionTy, Identifier, IdentifierPath, Import, Mutability,
    NamedArgument, Parameter, ParameterList, SourceUnit, SourceUnitPart, Statement,
    StorageLocation, StringLiteral, StructDefinition, Type, TypeDefinition, Using, UsingList,
    VariableAttribute, VariableDeclaration, VariableDefinition, Visibility,
};
use crate::loc::Loc;

verus! {

// ---------------------------------------------------------------------------
// Common combinators over already-built documents
// ---------------------------------------------------------------------------

/// A single space, at the model level.
pub open spec fn sp() -> DocV {
    DocV::Text(" "@)
}

/// The separator of a comma list: a comma and a space.
pub open spec fn comma_sep_v() -> DocV {
    catv(DocV::Text(","@), sp())
}

/// A comma-separated list, at the model level.
pub open spec fn list_v(ds: Seq<DocV>) -> DocV {
    intersperse_v(ds, comma_sep_v())
}

/// A parenthesised comma-separated list, at the model level.
pub open spec fn paren_list_v(ds: Seq<DocV>) -> DocV {
    catv(catv(DocV::Text("("@), list_v(ds)), DocV::Text(")"@))
}

/// A space-separated list, at the model level.
pub open spec fn spaced_list_v(ds: Seq<DocV>) -> DocV {
    intersperse_v(ds, sp())
}

/// One item of an indented list: a line break and the item, one nesting
/// level deeper.
pub open spec fn indent_item_v(d: DocV) -> DocV {
    nestv(INDENT as nat, catv(DocV::Hardline, d))
}

/// Each document on its own indented line.
pub open spec fn indented_docs(ds: Seq<DocV>) -> Seq<DocV>
    decreases ds.len(),
{
    if ds.len() == 0 {
        Seq::<DocV>::empty()
    } else {
        seq![indent_item_v(ds[0])] + indented_docs(ds.drop_first())
    }
}

/// Each document of a sequence stands on its own indented line.
pub proof fn lemma_indented_docs(ds: Seq<DocV>)
    ensures
        indented_docs(ds).len() == ds.len(),
        forall|i: int| 0 <= i < ds.len() ==> indented_docs(ds)[i] == indent_item_v(ds[i]),
    decreases ds.len(),
{
    if ds.len() > 0 {
        lemma_indented_docs(ds.drop_first());
        assert forall|i: int| 0 <= i < ds.len() implies indented_docs(ds)[i] == indent_item_v(
            ds[i],
        ) by {
            if i > 0 {
                assert(indented_docs(ds)[i] == indented_docs(ds.drop_first())[i - 1]);
                assert(ds.drop_first()[i - 1] == ds[i]);
            }
        }
    }
}

/// A comma-separated indented list (one item per line, and a closing line
/// break), at the model level.
pub open spec fn indent_list_v(ds: Seq<DocV>) -> DocV {
    catv(intersperse_v(indented_docs(ds), DocV::Text(","@)), DocV::Hardline)
}

/// A comma-separated list of the given documents.
pub fn list_to_doc(docs: Vec<Doc>) -> (d: Doc)
    ensures
        d@ == list_v(views_of(docs@)),
{
    let sep = Doc::text(",").append(Doc::space());
    intersperse(&docs, &sep)
}

/// A parenthesised comma-separated list of the given documents.
pub fn paren_list_to_doc(docs: Vec<Doc>) -> (d: Doc)
    ensures
        d@ == paren_list_v(views_of(docs@)),
{
    Doc::text("(").append(list_to_doc(docs)).append(Doc::text(")"))
}

/// A space-separated list of the given documents.
pub fn spaced_list_to_doc(docs: Vec<Doc>) -> (d: Doc)
    ensures
        d@ == spaced_list_v(views_of(docs@)),
{
    let sep = Doc::space();
    intersperse(&docs, &sep)
}

/// A comma-separated indented list of the given documents: one per line,
/// one nesting level deeper, with a closing line break.
pub fn indent_list_to_doc(docs: Vec<Doc>) -> (d: Doc)
    ensures
        d@ == indent_list_v(views_of(docs@)),
{
    let wrapped = indent_each(docs);
    let sep = Doc::text(",");
    intersperse(&wrapped, &sep).append(Doc::hardline())
}

/// Put each document on its own line, one nesting level deeper.
fn indent_each(docs: Vec<Doc>) -> (out: Vec<Doc>)
    ensures
        views_of(out@) == indented_docs(views_of(docs@)),
{
    let mut wrapped: Vec<Doc> = Vec::new();
    let ghost orig = docs@;
    let mut docs = docs;
    while docs.len() > 0
        invariant
            wrapped@.len() + docs@.len() == orig.len(),
            docs@ =~= orig.skip(wrapped@.len() as int),
            forall|j: int|
                0 <= j < wrapped@.len() ==> #[trigger] wrapped@[j]@ == indent_item_v(orig[j]@),
        decreases docs@.len(),
    {
        let item = docs.remove(0);
        proof {
            assert(item == orig[wrapped@.len() as int]);
        }
        wrapped.push(Doc::hardline().append(item).nest(INDENT));
        proof {
            assert(docs@ =~= orig.skip(wrapped@.len() as int));
        }
    }
    proof {
        lemma_indented_docs(views_of(orig));
        assert(views_of(wrapped@) =~= indented_docs(views_of(orig)));
    }
    wrapped
}

/// A space when the condition holds, else the empty document.
pub open spec fn space_if_v(cond: bool) -> DocV {
    if cond {
        sp()
    } else {
        DocV::Nil
    }
}

fn space_if(cond: bool) -> (d: Doc)
    ensures
        d@ == space_if_v(cond),
{
    if cond {
        Doc::space()
    } else {
        Doc::nil()
    }
}

/// Two documents side by side with an infix operator between them, spaced.
pub open spec fn infix_v(l: DocV, op: Seq<char>, r: DocV) -> DocV {
    catv(catv(catv(catv(l, sp()), DocV::Text(op)), sp()), r)
}

fn infix(l: Doc, op: &str, r: Doc) -> (d: Doc)
    ensures
        d@ == infix_v(l@, op@, r@),
{
    l.append(Doc::space()).append(Doc::text(op)).append(Doc::space()).append(r)
}

// ---------------------------------------------------------------------------
// Leaf nodes
// ---------------------------------------------------------------------------

impl Identifier {
    /// Whether the printer supports this node; it supports every
    /// identifier.
    pub open spec fn printable(self) -> bool {
        true
    }

    /// The document this node lays out to: its bare name.
    pub open spec fn doc_spec(self) -> DocV {
        DocV::Text(self.name@)
    }

    /// Lay the identifier out as a document.
    pub fn to_doc(&self) -> (d: Doc)
        ensures
            d@ == self.doc_spec(),
    {
        Doc::text_string(self.name.clone())
    }

    /// The identifier's textual form: its bare name.
    pub fn display(&self) -> (s: String)
        ensures
            s@ == rendered(self.doc_spec()),
            s@ == self.name@,
    {
        proof {
            crate::doc::lemma_rendered_text(self.name@);
        }
        render_doc(&self.to_doc())
    }
}

/// The dot-joined names of a path's tail (every identifier from `i` on).
pub open spec fn path_chars_from(ids: Seq<Identifier>, i: int) -> Seq<char>
    decreases ids.len() - i,
{
    if i < 0 || i >= ids.len() {
        Seq::<char>::empty()
    } else if i == ids.len() - 1 {
        ids[i].name@
    } else {
        ids[i].name@ + seq!['.'] + path_chars_from(ids, i + 1)
    }
}

/// The dot-joined names of a path: empty for an empty path, else the
/// names in order with a dot between each pair.
pub open spec fn path_chars(ids: Seq<Identifier>) -> Seq<char> {
    path_chars_from(ids, 0)
}

/// An empty path displays as the empty string.
pub proof fn lemma_empty_path_display(ids: Seq<Identifier>)
    requires
        ids.len() == 0,
    ensures
        path_chars(ids) == Seq::<char>::empty(),
{
}

fn path_string_from(ids: &Vec<Identifier>, i: usize) -> (s: String)
    requires
        i <= ids.len(),
    ensures
        s@ == path_chars_from(ids@, i as int),
    decreases ids@.len() - i,
{
    if i >= ids.len() {
        String::new()
    } else if i == ids.len() - 1 {
        ids[i].name.clone()
    } else {
        let mut s = ids[i].name.clone();
        s.append(".");
        let rest = path_string_from(ids, i + 1);
        s.append(rest.as_str());
        proof {
            reveal_strlit(".");
            assert(s@ =~= path_chars_from(ids@, i as int));
        }
        s
    }
}

impl IdentifierPath {
    /// Whether the printer supports this node; it supports every path.
    pub open spec fn printable(self) -> bool {
        true
    }

    /// The document this node lays out to: its dot-joined names.
    pub open spec fn doc_spec(self) -> DocV {
        DocV::Text(path_chars(self.identifiers@))
    }

    /// Lay the path out as a document.
    pub fn to_doc(&self) -> (d: Doc)
        ensures
            d@ == self.doc_spec(),
    {
        Doc::text_string(self.display())
    }

    /// The path's textual form: empty for an empty path, else the names
    /// in order, dot-joined.
    pub fn display(&self) -> (s: String)
        ensures
            s@ == path_chars(self.identifiers@),
            s@ == rendered(self.doc_spec()),
    {
        proof {
            crate::doc::lemma_rendered_text(path_chars(self.identifiers@));
        }
        path_string_from(&self.identifiers, 0)
    }
}

impl StringLiteral {
    /// Whether the printer supports this node: unicode literals are not in
    /// the supported subset.
    pub open spec fn printable(self) -> bool {
        !self.unicode
    }

    /// The document this node lays out to: its text, double-quoted and not
    /// re-escaped.
    pub open spec fn doc_spec(self) -> DocV {
        catv(catv(DocV::Text("\""@), DocV::Text(self.string@)), DocV::Text("\""@))
    }

    /// Lay the literal out as a document.
    pub fn to_doc(&self) -> (d: Doc)
        requires
            self.printable(),
        ensures
            d@ == self.doc_spec(),
    {
        Doc::text("\"").append(Doc::text_string(self.string.clone())).append(Doc::text("\""))
    }

    /// The literal's textual form.
    pub fn display(&self) -> (s: String)
        requires
            self.printable(),
        ensures
            s@ == rendered(self.doc_spec()),
    {
        render_doc(&self.to_doc())
    }
}

impl StorageLocation {
    /// Whether the printer supports this node; it supports every storage
    /// location.
    pub open spec fn printable(self) -> bool {
        true
    }

    /// The keyword this node writes as.
    pub open spec fn str_spec(self) -> Seq<char> {
        match self {
            StorageLocation::Memory(_) => "memory"@,
            StorageLocation::Storage(_) => "storage"@,
            StorageLocation::Calldata(_) => "calldata"@,
        }
    }

    /// The document this node lays out to: its keyword.
    pub open spec fn doc_spec(self) -> DocV {
        DocV::Text(self.str_spec())
    }

    /// Lay the storage location out as a document.
    pub fn to_doc(&self) -> (d: Doc)
        ensures
            d@ == self.doc_spec(),
    {
        match self {
            StorageLocation::Memory(_) => Doc::text("memory"),
            StorageLocation::Storage(_) => Doc::text("storage"),
            StorageLocation::Calldata(_) => Doc::text("calldata"),
        }
    }

    /// The keyword this node writes as.
    pub fn display(&self) -> (s: String)
        ensures
            s@ == self.str_spec(),
            s@ == rendered(self.doc_spec()),
    {
        proof {
            crate::doc::lemma_rendered_text(self.str_spec());
        }
        match self {
            StorageLocation::Memory(_) => "memory".to_owned(),
            StorageLocation::Storage(_) => "storage".to_owned(),
            StorageLocation::Calldata(_) => "calldata".to_owned(),
        }
    }
}

impl ContractTy {
    /// Whether the printer supports this node; it supports every kind.
    pub open spec fn printable(self) -> bool {
        true
    }

    /// The keywords this node writes as.
    pub open spec fn str_spec(self) -> Seq<char> {
        match self {
            ContractTy::Abstract(_) => "abstract contract"@,
            ContractTy::Contract(_) => "contract"@,
            ContractTy::Interface(_) => "interface"@,
            ContractTy::Library(_) => "library"@,
        }
    }

    /// The document this node lays out to: its keywords.
    pub open spec fn doc_spec(self) -> DocV {
        DocV::Text(self.str_spec())
    }

    /// Lay the contract kind out as a document.
    pub fn to_doc(&self) -> (d: Doc)
        ensures
            d@ == self.doc_spec(),
    {
        match self {
            ContractTy::Abstract(_) => Doc::text("abstract contract"),
            ContractTy::Contract(_) => Doc::text("contract"),
            ContractTy::Interface(_) => Doc::text("interface"),
            ContractTy::Library(_) => Doc::text("library"),
        }
    }

    /// The keywords this node writes as.
    pub fn display(&self) -> (s: String)
        ensures
            s@ == self.str_spec(),
            s@ == rendered(self.doc_spec()),
    {
        proof {
            crate::doc::lemma_rendered_text(self.str_spec());
        }
        match self {
            ContractTy::Abstract(_) => "abstract contract".to_owned(),
            ContractTy::Contract(_) => "contract".to_owned(),
            ContractTy::Interface(_) => "interface".to_owned(),
            ContractTy::Library(_) => "library".to_owned(),
        }
    }
}

impl Mutability {
    /// Whether the printer supports this node; it supports every
    /// mutability.
    pub open spec fn printable(self) -> bool {
        true
    }

    /// The keyword this node writes as; a `constant` writes as `view`.
    pub open spec fn str_spec(self) -> Seq<char> {
        match self {
            Mutability::Pure(_) => "pure"@,
            Mutability::Constant(_) => "view"@,
            Mutability::View(_) => "view"@,
            Mutability::Payable(_) => "payable"@,
        }
    }

    /// The document this node lays out to: its keyword.
    pub open spec fn doc_spec(self) -> DocV {
        DocV::Text(self.str_spec())
    }

    /// Lay the mutability out as a document.
    pub fn to_doc(&self) -> (d: Doc)
        ensures
            d@ == self.doc_spec(),
    {
        match self {
            Mutability::Pure(_) => Doc::text("pure"),
            Mutability::Constant(_) => Doc::text("view"),
            Mutability::View(_) => Doc::text("view"),
            Mutability::Payable(_) => Doc::text("payable"),
        }
    }

    /// The keyword this node writes as.
    pub fn display(&self) -> (s: String)
        ensures
            s@ == self.str_spec(),
            s@ == rendered(self.doc_spec()),
    {
        proof {
            crate::doc::lemma_rendered_text(self.str_spec());
        }
        match self {
            Mutability::Pure(_) => "pure".to_owned(),
            Mutability::Constant(_) => "view".to_owned(),
            Mutability::View(_) => "view".to_owned(),
            Mutability::Payable(_) => "payable".to_owned(),
        }
    }
}

impl Visibility {
    /// Whether the printer supports this node; it supports every
    /// visibility.
    pub open spec fn printable(self) -> bool {
        true
    }

    /// The keyword this node writes as.
    pub open spec fn str_spec(self) -> Seq<char> {
        match self {
            Visibility::Public(_) => "public"@,
            Visibility::External(_) => "external"@,
            Visibility::Internal(_) => "internal"@,
            Visibility::Private(_) => "private"@,
        }
    }

    /// The document this node lays out to: its keyword.
    pub open spec fn doc_spec(self) -> DocV {
        DocV::Text(self.str_spec())
    }

    /// Lay the visibility out as a document.
    pub fn to_doc(&self) -> (d: Doc)
        ensures
            d@ == self.doc_spec(),
    {
        match self {
            Visibility::Public(_) => Doc::text("public"),
            Visibility::External(_) => Doc::text("external"),
            Visibility::Internal(_) => Doc::text("internal"),
            Visibility::Private(_) => Doc::text("private"),
        }
    }

    /// The keyword this node writes as.
    pub fn display(&self) -> (s: String)
        ensures
            s@ == self.str_spec(),
            s@ == rendered(self.doc_spec()),
    {
        proof {
            crate::doc::lemma_rendered_text(self.str_spec());
        }
        match self {
            Visibility::Public(_) => "public".to_owned(),
            Visibility::External(_) => "external".to_owned(),
            Visibility::Internal(_) => "internal".to_owned(),
            Visibility::Private(_) => "private".to_owned(),
        }
    }
}

impl FunctionTy {
    /// Whether the printer supports this node; it supports every kind.
    pub open spec fn printable(self) -> bool {
        true
    }

    /// The keyword this node writes as.
    pub open spec fn str_spec(self) -> Seq<char> {
        match self {
            FunctionTy::Constructor => "constructor"@,
            FunctionTy::Function => "function"@,
            FunctionTy::Fallback => "fallback"@,
            FunctionTy::Receive => "receive"@,
            FunctionTy::Modifier => "modifier"@,
        }
    }

    /// The document this node lays out to: its keyword.
    pub open spec fn doc_spec(self) -> DocV {
        DocV::Text(self.str_spec())
    }

    /// Lay the function kind out as a document.
    pub fn to_doc(&self) -> (d: Doc)
        ensures
            d@ == self.doc_spec(),
    {
        match self {
            FunctionTy::Constructor => Doc::text("constructor"),
            FunctionTy::Function => Doc::text("function"),
            FunctionTy::Fallback => Doc::text("fallback"),
            FunctionTy::Receive => Doc::text("receive"),
            FunctionTy::Modifier => Doc::text("modifier"),
        }
    }

    /// The keyword this node writes as.
    pub fn display(&self) -> (s: String)
        ensures
            s@ == self.str_spec(),
            s@ == rendered(self.doc_spec()),
    {
        proof {
            crate::doc::lemma_rendered_text(self.str_spec());
        }
        match self {
            FunctionTy::Constructor => "constructor".to_owned(),
            FunctionTy::Function => "function".to_owned(),
            FunctionTy::Fallback => "fallback".to_owned(),
            FunctionTy::Receive => "receive".to_owned(),
            FunctionTy::Modifier => "modifier".to_owned(),
        }
    }
}


// ---------------------------------------------------------------------------
// Sequences of printable nodes
// ---------------------------------------------------------------------------

/// Every expression of the sequence is printable.
pub open spec fn exprs_printable(es: Seq<Expression>) -> bool
    decreases es,
{
    forall|i: int| 0 <= i < es.len() ==> (#[trigger] es[i]).printable()
}

/// The documents of a sequence of expressions, in order.
pub open spec fn exprs_docs(es: Seq<Expression>) -> Seq<DocV>
    decreases es,
{
    if es.len() == 0 {
        Seq::<DocV>::empty()
    } else {
        seq![es[0].doc_spec()] + exprs_docs(es.drop_first())
    }
}

/// The documents of a sequence of expressions, element by element.
pub proof fn lemma_exprs_docs(es: Seq<Expression>)
    ensures
        exprs_docs(es).len() == es.len(),
        forall|i: int| 0 <= i < es.len() ==> exprs_docs(es)[i] == (#[trigger] es[i]).doc_spec(),
    decreases es.len(),
{
    if es.len() > 0 {
        lemma_exprs_docs(es.drop_first());
        assert forall|i: int| 0 <= i < es.len() implies exprs_docs(es)[i] == (
        #[trigger] es[i]).doc_spec() by {
            if i > 0 {
                assert(exprs_docs(es)[i] == exprs_docs(es.drop_first())[i - 1]);
                assert(es.drop_first()[i - 1] == es[i]);
            }
        }
    }
}

/// Every string literal of the sequence is printable.
pub open spec fn strlits_printable(ss: Seq<StringLiteral>) -> bool {
    forall|i: int| 0 <= i < ss.len() ==> (#[trigger] ss[i]).printable()
}

/// The documents of a sequence of string literals, in order.
pub open spec fn strlits_docs(ss: Seq<StringLiteral>) -> Seq<DocV>
    decreases ss,
{
    if ss.len() == 0 {
        Seq::<DocV>::empty()
    } else {
        seq![ss[0].doc_spec()] + strlits_docs(ss.drop_first())
    }
}

/// The documents of a sequence of string literals, element by element.
pub proof fn lemma_strlits_docs(ss: Seq<StringLiteral>)
    ensures
        strlits_docs(ss).len() == ss.len(),
        forall|i: int| 0 <= i < ss.len() ==> strlits_docs(ss)[i] == (#[trigger] ss[i]).doc_spec(),
    decreases ss.len(),
{
    if ss.len() > 0 {
        lemma_strlits_docs(ss.drop_first());
        assert forall|i: int| 0 <= i < ss.len() implies strlits_docs(ss)[i] == (
        #[trigger] ss[i]).doc_spec() by {
            if i > 0 {
                assert(strlits_docs(ss)[i] == strlits_docs(ss.drop_first())[i - 1]);
                assert(ss.drop_first()[i - 1] == ss[i]);
            }
        }
    }
}

/// Every filled slot of the parameter list holds a printable parameter.
pub open spec fn slots_printable(ps: Seq<(Loc, Option<Parameter>)>) -> bool
    decreases ps,
{
    forall|i: int|
        0 <= i < ps.len() ==> ((#[trigger] ps[i]).1 matches Some(p) ==> p.printable())
}

/// The document of one parameter slot: the parameter's, or nothing for an
/// empty slot.
pub open spec fn slot_doc(slot: (Loc, Option<Parameter>)) -> DocV
    decreases slot,
{
    match slot.1 {
        Some(p) => p.doc_spec(),
        None => DocV::Nil,
    }
}

/// The documents of the slots of a parameter list, in order.
pub open spec fn slots_docs(ps: Seq<(Loc, Option<Parameter>)>) -> Seq<DocV>
    decreases ps,
{
    if ps.len() == 0 {
        Seq::<DocV>::empty()
    } else {
        seq![slot_doc(ps[0])] + slots_docs(ps.drop_first())
    }
}

/// The documents of the slots of a parameter list, element by element.
pub proof fn lemma_slots_docs(ps: Seq<(Loc, Option<Parameter>)>)
    ensures
        slots_docs(ps).len() == ps.len(),
        forall|i: int| 0 <= i < ps.len() ==> slots_docs(ps)[i] == slot_doc(#[trigger] ps[i]),
    decreases ps.len(),
{
    if ps.len() > 0 {
        lemma_slots_docs(ps.drop_first());
        assert forall|i: int| 0 <= i < ps.len() implies slots_docs(ps)[i] == slot_doc(
            #[trigger] ps[i],
        ) by {
            if i > 0 {
                assert(slots_docs(ps)[i] == slots_docs(ps.drop_first())[i - 1]);
                assert(ps.drop_first()[i - 1] == ps[i]);
            }
        }
    }
}

/// A parenthesised parameter list, at the model level.
pub open spec fn param_list_v(ps: Seq<(Loc, Option<Parameter>)>) -> DocV {
    catv(catv(DocV::Text("("@), list_v(slots_docs(ps))), DocV::Text(")"@))
}

// ---------------------------------------------------------------------------
// Types
// ---------------------------------------------------------------------------

impl Type {
    /// Whether the printer supports this type: rational and function types
    /// are not in the supported subset, and a mapping needs printable key
    /// and value expressions.
    pub open spec fn printable(self) -> bool
        decreases self,
    {
        match self {
            Type::Rational => false,
            Type::Function { .. } => false,
            Type::Mapping(_, k, v) => k.printable() && v.printable(),
            _ => true,
        }
    }

    /// The document this type lays out to.
    pub open spec fn doc_spec(self) -> DocV
        decreases self,
    {
        match self {
            Type::Address => DocV::Text("address"@),
            Type::AddressPayable => DocV::Text("address payable"@),
            Type::Payable => DocV::Text("payable"@),
            Type::Bool => DocV::Text("bool"@),
            Type::String => DocV::Text("string"@),
            Type::Int(size) => catv(DocV::Text("int"@), DocV::Text(dec_chars(size as nat))),
            Type::Uint(size) => catv(DocV::Text("uint"@), DocV::Text(dec_chars(size as nat))),
            Type::Bytes(size) => catv(DocV::Text("bytes"@), DocV::Text(dec_chars(size as nat))),
            Type::DynamicBytes => DocV::Text("bytes"@),
            Type::Mapping(_, k, v) => catv(
                catv(
                    catv(catv(DocV::Text("mapping("@), k.doc_spec()), DocV::Text(" => "@)),
                    v.doc_spec(),
                ),
                DocV::Text(")"@),
            ),
            Type::Rational => DocV::Nil,
            Type::Function { .. } => DocV::Nil,
        }
    }

    /// Lay the type out as a document.
    pub fn to_doc(&self) -> (d: Doc)
        requires
            self.printable(),
        ensures
            d@ == self.doc_spec(),
        decreases self,
    {
        match self {
            Type::Address => Doc::text("address"),
            Type::AddressPayable => Doc::text("address payable"),
            Type::Payable => Doc::text("payable"),
            Type::Bool => Doc::text("bool"),
            Type::String => Doc::text("string"),
            Type::Int(size) => Doc::text("int").append(Doc::text_string(u16_string(*size))),
            Type::Uint(size) => Doc::text("uint").append(Doc::text_string(u16_string(*size))),
            Type::Bytes(size) => Doc::text("bytes").append(
                Doc::text_string(u16_string(*size as u16)),
            ),
            Type::DynamicBytes => Doc::text("bytes"),
            Type::Mapping(_, k, v) => Doc::text("mapping(")
                .append(k.to_doc())
                .append(Doc::text(" => "))
                .append(v.to_doc())
                .append(Doc::text(")")),
            Type::Rational => vstd::pervasive::unreached(),
            Type::Function { .. } => vstd::pervasive::unreached(),
        }
    }
}

// ---------------------------------------------------------------------------
// Expressions
// ---------------------------------------------------------------------------

impl Expression {
    /// Whether the printer supports this expression. Array slices, named
    /// calls, the bitwise and remaining compound-assignment forms,
    /// ternaries, deletes, unary signs, rational, hex and address
    /// literals, hex strings and unit suffixes are not in the supported
    /// subset; everything else is, when its operands are.
    pub open spec fn printable(self) -> bool
        decreases self,
    {
        match self {
            Expression::PostIncrement(_, e1) => e1.printable(),
            Expression::PostDecrement(_, e1) => e1.printable(),
            Expression::New(_, e1) => e1.printable(),
            Expression::ArraySubscript(_, e1, e2) => e1.printable() && (e2 matches Some(e)
                ==> e.printable()),
            Expression::Parenthesis(_, e1) => e1.printable(),
            Expression::MemberAccess(_, e1, _) => e1.printable(),
            Expression::FunctionCall(_, f, args) => f.printable() && exprs_printable(args@),
            Expression::FunctionCallBlock(_, f, s) => f.printable() && (*s).printable(),
            Expression::Not(_, e1) => e1.printable(),
            Expression::PreIncrement(_, e1) => e1.printable(),
            Expression::PreDecrement(_, e1) => e1.printable(),
            Expression::Multiply(_, a, b) => a.printable() && b.printable(),
            Expression::Divide(_, a, b) => a.printable() && b.printable(),
            Expression::Modulo(_, a, b) => a.printable() && b.printable(),
            Expression::Add(_, a, b) => a.printable() && b.printable(),
            Expression::Subtract(_, a, b) => a.printable() && b.printable(),
            Expression::ShiftLeft(_, a, b) => a.printable() && b.printable(),
            Expression::ShiftRight(_, a, b) => a.printable() && b.printable(),
            Expression::Less(_, a, b) => a.printable() && b.printable(),
            Expression::More(_, a, b) => a.printable() && b.printable(),
            Expression::LessEqual(_, a, b) => a.printable() && b.printable(),
            Expression::MoreEqual(_, a, b) => a.printable() && b.printable(),
            Expression::Equal(_, a, b) => a.printable() && b.printable(),
            Expression::NotEqual(_, a, b) => a.printable() && b.printable(),
            Expression::And(_, a, b) => a.printable() && b.printable(),
            Expression::Or(_, a, b) => a.printable() && b.printable(),
            Expression::Assign(_, a, b) => a.printable() && b.printable(),
            Expression::AssignAdd(_, a, b) => a.printable() && b.printable(),
            Expression::AssignSubtract(_, a, b) => a.printable() && b.printable(),
            Expression::AssignMultiply(_, a, b) => a.printable() && b.printable(),
            Expression::AssignDivide(_, a, b) => a.printable() && b.printable(),
            Expression::AssignModulo(_, a, b) => a.printable() && b.printable(),
            Expression::BoolLiteral(_, _) => true,
            Expression::NumberLiteral(_, _, _) => true,
            Expression::StringLiteral(lits) => strlits_printable(lits@),
            Expression::Type(_, ty) => ty.printable(),
            Expression::Variable(_) => true,
            Expression::List(_, ps) => slots_printable(ps@),
            Expression::ArrayLiteral(_, es) => exprs_printable(es@),
            Expression::This(_) => true,
            _ => false,
        }
    }

    /// The document this expression lays out to: flat, with lists inline.
    pub open spec fn doc_spec(self) -> DocV
        decreases self,
    {
        match self {
            Expression::PostIncrement(_, e1) => catv(e1.doc_spec(), DocV::Text("++"@)),
            Expression::PostDecrement(_, e1) => catv(e1.doc_spec(), DocV::Text("--"@)),
            Expression::New(_, e1) => catv(DocV::Text("new "@), e1.doc_spec()),
            Expression::ArraySubscript(_, e1, e2) => catv(
                catv(
                    catv(e1.doc_spec(), DocV::Text("["@)),
                    (match e2 {
                        Some(e) => e.doc_spec(),
                        None => DocV::Nil,
                    }),
                ),
                DocV::Text("]"@),
            ),
            Expression::Parenthesis(_, e1) => catv(
                catv(DocV::Text("("@), e1.doc_spec()),
                DocV::Text(")"@),
            ),
            Expression::MemberAccess(_, e1, field) => catv(
                catv(e1.doc_spec(), DocV::Text("."@)),
                field.doc_spec(),
            ),
            Expression::FunctionCall(_, f, args) => catv(
                f.doc_spec(),
                paren_list_v(exprs_docs(args@)),
            ),
            Expression::FunctionCallBlock(_, f, s) => catv(
                catv(catv(f.doc_spec(), DocV::Text("{"@)), (*s).doc_spec()),
                DocV::Text("}"@),
            ),
            Expression::Not(_, e1) => catv(DocV::Text("!"@), e1.doc_spec()),
            Expression::PreIncrement(_, e1) => catv(DocV::Text("++"@), e1.doc_spec()),
            Expression::PreDecrement(_, e1) => catv(DocV::Text("--"@), e1.doc_spec()),
            Expression::Multiply(_, a, b) => infix_v(a.doc_spec(), "*"@, b.doc_spec()),
            Expression::Divide(_, a, b) => infix_v(a.doc_spec(), "/"@, b.doc_spec()),
            Expression::Modulo(_, a, b) => infix_v(a.doc_spec(), "%"@, b.doc_spec()),
            Expression::Add(_, a, b) => infix_v(a.doc_spec(), "+"@, b.doc_spec()),
            Expression::Subtract(_, a, b) => infix_v(a.doc_spec(), "-"@, b.doc_spec()),
            Expression::ShiftLeft(_, a, b) => infix_v(a.doc_spec(), "<<"@, b.doc_spec()),
            Expression::ShiftRight(_, a, b) => infix_v(a.doc_spec(), ">>"@, b.doc_spec()),
            Expression::Less(_, a, b) => infix_v(a.doc_spec(), "<"@, b.doc_spec()),
            Expression::More(_, a, b) => infix_v(a.doc_spec(), ">"@, b.doc_spec()),
            Expression::LessEqual(_, a, b) => infix_v(a.doc_spec(), "<="@, b.doc_spec()),
            Expression::MoreEqual(_, a, b) => infix_v(a.doc_spec(), ">="@, b.doc_spec()),
            Expression::Equal(_, a, b) => infix_v(a.doc_spec(), "=="@, b.doc_spec()),
            Expression::NotEqual(_, a, b) => infix_v(a.doc_spec(), "!="@, b.doc_spec()),
            Expression::And(_, a, b) => infix_v(a.doc_spec(), "&&"@, b.doc_spec()),
            Expression::Or(_, a, b) => infix_v(a.doc_spec(), "||"@, b.doc_spec()),
            Expression::Assign(_, a, b) => infix_v(a.doc_spec(), "="@, b.doc_spec()),
            Expression::AssignAdd(_, a, b) => infix_v(a.doc_spec(), "+="@, b.doc_spec()),
            Expression::AssignSubtract(_, a, b) => infix_v(a.doc_spec(), "-="@, b.doc_spec()),
            Expression::AssignMultiply(_, a, b) => infix_v(a.doc_spec(), "*="@, b.doc_spec()),
            Expression::AssignDivide(_, a, b) => infix_v(a.doc_spec(), "/="@, b.doc_spec()),
            Expression::AssignModulo(_, a, b) => infix_v(a.doc_spec(), "%="@, b.doc_spec()),
            Expression::BoolLiteral(_, b) => DocV::Text(bool_chars(b)),
            Expression::NumberLiteral(_, num, _) => DocV::Text(num@),
            Expression::StringLiteral(lits) => list_v(strlits_docs(lits@)),
            Expression::Type(_, ty) => ty.doc_spec(),
            Expression::Variable(id) => id.doc_spec(),
            Expression::List(_, ps) => catv(
                catv(DocV::Text("("@), list_v(slots_docs(ps@))),
                DocV::Text(")"@),
            ),
            Expression::ArrayLiteral(_, es) => catv(
                catv(DocV::Text("["@), list_v(exprs_docs(es@))),
                DocV::Text("]"@),
            ),
            Expression::This(_) => DocV::Text("this"@),
            _ => DocV::Nil,
        }
    }

    /// Lay the expression out as a document.
    pub fn to_doc(&self) -> (d: Doc)
        requires
            self.printable(),
        ensures
            d@ == self.doc_spec(),
        decreases self,
    {
        match self {
            Expression::PostIncrement(_, e1) => e1.to_doc().append(Doc::text("++")),
            Expression::PostDecrement(_, e1) => e1.to_doc().append(Doc::text("--")),
            Expression::New(_, e1) => Doc::text("new ").append(e1.to_doc()),
            Expression::ArraySubscript(_, e1, e2) => {
                let inner = match e2 {
                    Some(e) => e.to_doc(),
                    None => Doc::nil(),
                };
                e1.to_doc().append(Doc::text("[")).append(inner).append(Doc::text("]"))
            },
            Expression::Parenthesis(_, e1) => Doc::text("(").append(e1.to_doc()).append(
                Doc::text(")"),
            ),
            Expression::MemberAccess(_, e1, field) => e1.to_doc().append(Doc::text(".")).append(
                field.to_doc(),
            ),
            Expression::FunctionCall(_, f, args) => f.to_doc().append(
                paren_list_to_doc(exprs_to_docs(args)),
            ),
            Expression::FunctionCallBlock(_, f, s) => f.to_doc().append(Doc::text("{")).append(
                s.to_doc(),
            ).append(Doc::text("}")),
            Expression::Not(_, e1) => Doc::text("!").append(e1.to_doc()),
            Expression::PreIncrement(_, e1) => Doc::text("++").append(e1.to_doc()),
            Expression::PreDecrement(_, e1) => Doc::text("--").append(e1.to_doc()),
            Expression::Multiply(_, a, b) => infix(a.to_doc(), "*", b.to_doc()),
            Expression::Divide(_, a, b) => infix(a.to_doc(), "/", b.to_doc()),
            Expression::Modulo(_, a, b) => infix(a.to_doc(), "%", b.to_doc()),
            Expression::Add(_, a, b) => infix(a.to_doc(), "+", b.to_doc()),
            Expression::Subtract(_, a, b) => infix(a.to_doc(), "-", b.to_doc()),
            Expression::ShiftLeft(_, a, b) => infix(a.to_doc(), "<<", b.to_doc()),
            Expression::ShiftRight(_, a, b) => infix(a.to_doc(), ">>", b.to_doc()),
            Expression::Less(_, a, b) => infix(a.to_doc(), "<", b.to_doc()),
            Expression::More(_, a, b) => infix(a.to_doc(), ">", b.to_doc()),
            Expression::LessEqual(_, a, b) => infix(a.to_doc(), "<=", b.to_doc()),
            Expression::MoreEqual(_, a, b) => infix(a.to_doc(), ">=", b.to_doc()),
            Expression::Equal(_, a, b) => infix(a.to_doc(), "==", b.to_doc()),
            Expression::NotEqual(_, a, b) => infix(a.to_doc(), "!=", b.to_doc()),
            Expression::And(_, a, b) => infix(a.to_doc(), "&&", b.to_doc()),
            Expression::Or(_, a, b) => infix(a.to_doc(), "||", b.to_doc()),
            Expression::Assign(_, a, b) => infix(a.to_doc(), "=", b.to_doc()),
            Expression::AssignAdd(_, a, b) => infix(a.to_doc(), "+=", b.to_doc()),
            Expression::AssignSubtract(_, a, b) => infix(a.to_doc(), "-=", b.to_doc()),
            Expression::AssignMultiply(_, a, b) => infix(a.to_doc(), "*=", b.to_doc()),
            Expression::AssignDivide(_, a, b) => infix(a.to_doc(), "/=", b.to_doc()),
            Expression::AssignModulo(_, a, b) => infix(a.to_doc(), "%=", b.to_doc()),
            Expression::BoolLiteral(_, b) => Doc::text_string(bool_string(*b)),
            Expression::NumberLiteral(_, num, _) => Doc::text_string(num.clone()),
            Expression::StringLiteral(lits) => list_to_doc(strlits_to_docs(lits)),
            Expression::Type(_, ty) => ty.to_doc(),
            Expression::Variable(id) => id.to_doc(),
            Expression::List(_, ps) => param_list_to_doc(ps),
            Expression::ArrayLiteral(_, es) => Doc::text("[").append(
                list_to_doc(exprs_to_docs(es)),
            ).append(Doc::text("]")),
            Expression::This(_) => Doc::text("this"),
            _ => vstd::pervasive::unreached(),
        }
    }

    /// The expression's textual form.
    pub fn display(&self) -> (s: String)
        requires
            self.printable(),
        ensures
            s@ == rendered(self.doc_spec()),
    {
        render_doc(&self.to_doc())
    }
}

/// Lay each expression of a list out as a document.
fn exprs_to_docs(es: &Vec<Expression>) -> (docs: Vec<Doc>)
    requires
        exprs_printable(es@),
    ensures
        views_of(docs@) == exprs_docs(es@),
    decreases es@,
{
    let mut docs: Vec<Doc> = Vec::new();
    let mut i: usize = 0;
    while i < es.len()
        invariant
            i <= es@.len(),
            docs@.len() == i,
            exprs_printable(es@),
            forall|j: int| 0 <= j < i ==> #[trigger] docs@[j]@ == es@[j].doc_spec(),
        decreases es@.len() - i,
    {
        docs.push(es[i].to_doc());
        i = i + 1;
    }
    proof {
        lemma_exprs_docs(es@);
        assert(views_of(docs@) =~= exprs_docs(es@));
    }
    docs
}

/// Lay each string literal of a list out as a document.
fn strlits_to_docs(ss: &Vec<StringLiteral>) -> (docs: Vec<Doc>)
    requires
        strlits_printable(ss@),
    ensures
        views_of(docs@) == strlits_docs(ss@),
{
    let mut docs: Vec<Doc> = Vec::new();
    let mut i: usize = 0;
    while i < ss.len()
        invariant
            i <= ss@.len(),
            docs@.len() == i,
            strlits_printable(ss@),
            forall|j: int| 0 <= j < i ==> #[trigger] docs@[j]@ == ss@[j].doc_spec(),
        decreases ss@.len() - i,
    {
        docs.push(ss[i].to_doc());
        i = i + 1;
    }
    proof {
        lemma_strlits_docs(ss@);
        assert(views_of(docs@) =~= strlits_docs(ss@));
    }
    docs
}

/// Lay a parameter list out as a parenthesised comma-separated list, an
/// empty slot contributing nothing between its commas.
pub fn param_list_to_doc(ps: &ParameterList) -> (d: Doc)
    requires
        slots_printable(ps@),
    ensures
        d@ == param_list_v(ps@),
    decreases ps@,
{
    let mut docs: Vec<Doc> = Vec::new();
    let mut i: usize = 0;
    while i < ps.len()
        invariant
            i <= ps@.len(),
            docs@.len() == i,
            slots_printable(ps@),
            forall|j: int| 0 <= j < i ==> #[trigger] docs@[j]@ == slot_doc(ps@[j]),
        decreases ps@.len() - i,
    {
        let d = match &ps[i].1 {
            Some(p) => p.to_doc(),
            None => Doc::nil(),
        };
        docs.push(d);
        i = i + 1;
    }
    proof {
        lemma_slots_docs(ps@);
        assert(views_of(docs@) =~= slots_docs(ps@));
    }
    Doc::text("(").append(list_to_doc(docs)).append(Doc::text(")"))
}

impl Parameter {
    /// Whether the printer supports this parameter: its type expression
    /// must be printable.
    pub open spec fn printable(self) -> bool
        decreases self,
    {
        self.ty.printable()
    }

    /// The document this parameter lays out to: type, then storage and
    /// name where present.
    pub open spec fn doc_spec(self) -> DocV
        decreases self,
    {
        catv(
            catv(
                catv(
                    catv(self.ty.doc_spec(), space_if_v(self.storage is Some)),
                    (match self.storage {
                        Some(st) => st.doc_spec(),
                        None => DocV::Nil,
                    }),
                ),
                space_if_v(self.name is Some),
            ),
            (match self.name {
                Some(n) => n.doc_spec(),
                None => DocV::Nil,
            }),
        )
    }

    /// Lay the parameter out as a document.
    pub fn to_doc(&self) -> (d: Doc)
        requires
            self.printable(),
        ensures
            d@ == self.doc_spec(),
        decreases self,
    {
        let storage_doc = match &self.storage {
            Some(st) => st.to_doc(),
            None => Doc::nil(),
        };
        let name_doc = match &self.name {
            Some(n) => n.to_doc(),
            None => Doc::nil(),
        };
        self.ty
            .to_doc()
            .append(space_if(self.storage.is_some()))
            .append(storage_doc)
            .append(space_if(self.name.is_some()))
            .append(name_doc)
    }
}

impl NamedArgument {
    /// Whether the printer supports this argument: its expression must be
    /// printable.
    pub open spec fn printable(self) -> bool
        decreases self,
    {
        self.expr.printable()
    }

    /// The document this argument lays out to: `name: expression`.
    pub open spec fn doc_spec(self) -> DocV
        decreases self,
    {
        catv(catv(self.name.doc_spec(), DocV::Text(": "@)), self.expr.doc_spec())
    }

    /// Lay the argument out as a document.
    pub fn to_doc(&self) -> (d: Doc)
        requires
            self.printable(),
        ensures
            d@ == self.doc_spec(),
        decreases self,
    {
        self.name.to_doc().append(Doc::text(": ")).append(self.expr.to_doc())
    }
}



// ---------------------------------------------------------------------------
// Statements
// ---------------------------------------------------------------------------

/// Every statement of the sequence is printable.
pub open spec fn stmts_printable(ss: Seq<Statement>) -> bool
    decreases ss,
{
    forall|i: int| 0 <= i < ss.len() ==> (#[trigger] ss[i]).printable()
}

/// The documents of a sequence of statements, in order.
pub open spec fn stmts_docs(ss: Seq<Statement>) -> Seq<DocV>
    decreases ss,
{
    if ss.len() == 0 {
        Seq::<DocV>::empty()
    } else {
        seq![ss[0].doc_spec()] + stmts_docs(ss.drop_first())
    }
}

/// The documents of a sequence of statements, element by element.
pub proof fn lemma_stmts_docs(ss: Seq<Statement>)
    ensures
        stmts_docs(ss).len() == ss.len(),
        forall|i: int| 0 <= i < ss.len() ==> stmts_docs(ss)[i] == (#[trigger] ss[i]).doc_spec(),
    decreases ss.len(),
{
    if ss.len() > 0 {
        lemma_stmts_docs(ss.drop_first());
        assert forall|i: int| 0 <= i < ss.len() implies stmts_docs(ss)[i] == (
        #[trigger] ss[i]).doc_spec() by {
            if i > 0 {
                assert(stmts_docs(ss)[i] == stmts_docs(ss.drop_first())[i - 1]);
                assert(ss.drop_first()[i - 1] == ss[i]);
            }
        }
    }
}

/// Every named argument of the sequence is printable.
pub open spec fn named_args_printable(args: Seq<NamedArgument>) -> bool
    decreases args,
{
    forall|i: int| 0 <= i < args.len() ==> (#[trigger] args[i]).printable()
}

/// The documents of a sequence of named arguments, in order.
pub open spec fn named_args_docs(args: Seq<NamedArgument>) -> Seq<DocV>
    decreases args,
{
    if args.len() == 0 {
        Seq::<DocV>::empty()
    } else {
        seq![args[0].doc_spec()] + named_args_docs(args.drop_first())
    }
}

/// The documents of a sequence of named arguments, element by element.
pub proof fn lemma_named_args_docs(args: Seq<NamedArgument>)
    ensures
        named_args_docs(args).len() == args.len(),
        forall|i: int|
            0 <= i < args.len() ==> named_args_docs(args)[i] == (#[trigger] args[i]).doc_spec(),
    decreases args.len(),
{
    if args.len() > 0 {
        lemma_named_args_docs(args.drop_first());
        assert forall|i: int| 0 <= i < args.len() implies named_args_docs(args)[i] == (
        #[trigger] args[i]).doc_spec() by {
            if i > 0 {
                assert(named_args_docs(args)[i] == named_args_docs(args.drop_first())[i - 1]);
                assert(args.drop_first()[i - 1] == args[i]);
            }
        }
    }
}

/// Lay each statement of a list out as a document.
fn stmts_to_docs(ss: &Vec<Statement>) -> (docs: Vec<Doc>)
    requires
        stmts_printable(ss@),
    ensures
        views_of(docs@) == stmts_docs(ss@),
    decreases ss@,
{
    let mut docs: Vec<Doc> = Vec::new();
    let mut i: usize = 0;
    while i < ss.len()
        invariant
            i <= ss@.len(),
            docs@.len() == i,
            stmts_printable(ss@),
            forall|j: int| 0 <= j < i ==> #[trigger] docs@[j]@ == ss@[j].doc_spec(),
        decreases ss@.len() - i,
    {
        docs.push(ss[i].to_doc());
        i = i + 1;
    }
    proof {
        lemma_stmts_docs(ss@);
        assert(views_of(docs@) =~= stmts_docs(ss@));
    }
    docs
}

/// Lay each named argument of a list out as a document.
fn named_args_to_docs(args: &Vec<NamedArgument>) -> (docs: Vec<Doc>)
    requires
        named_args_printable(args@),
    ensures
        views_of(docs@) == named_args_docs(args@),
    decreases args@,
{
    let mut docs: Vec<Doc> = Vec::new();
    let mut i: usize = 0;
    while i < args.len()
        invariant
            i <= args@.len(),
            docs@.len() == i,
            named_args_printable(args@),
            forall|j: int| 0 <= j < i ==> #[trigger] docs@[j]@ == args@[j].doc_spec(),
        decreases args@.len() - i,
    {
        docs.push(args[i].to_doc());
        i = i + 1;
    }
    proof {
        lemma_named_args_docs(args@);
        assert(views_of(docs@) =~= named_args_docs(args@));
    }
    docs
}

impl VariableDeclaration {
    /// Whether the printer supports this declaration: its type expression
    /// must be printable.
    pub open spec fn printable(self) -> bool
        decreases self,
    {
        self.ty.printable()
    }

    /// The document this declaration lays out to: type, optional storage,
    /// name.
    pub open spec fn doc_spec(self) -> DocV
        decreases self,
    {
        catv(
            catv(
                catv(self.ty.doc_spec(), sp()),
                (match self.storage {
                    Some(st) => catv(st.doc_spec(), sp()),
                    None => DocV::Nil,
                }),
            ),
            self.name.doc_spec(),
        )
    }

    /// Lay the declaration out as a document.
    pub fn to_doc(&self) -> (d: Doc)
        requires
            self.printable(),
        ensures
            d@ == self.doc_spec(),
        decreases self,
    {
        let storage_doc = match &self.storage {
            Some(st) => st.to_doc().append(Doc::space()),
            None => Doc::nil(),
        };
        self.ty.to_doc().append(Doc::space()).append(storage_doc).append(self.name.to_doc())
    }
}

impl Statement {
    /// Whether the printer supports this statement. Assembly blocks,
    /// reverts with named arguments, `try`, `for` and `do-while` are not
    /// in the supported subset; everything else is, when its parts are.
    pub open spec fn printable(self) -> bool
        decreases self,
    {
        match self {
            Statement::Block { statements, .. } => stmts_printable(statements@),
            Statement::Args(_, args) => named_args_printable(args@),
            Statement::If(_, cond, tb, fb) => cond.printable() && tb.printable() && (fb
                matches Some(s) ==> s.printable()),
            Statement::While(_, cond, body) => cond.printable() && body.printable(),
            Statement::Expression(_, e) => e.printable(),
            Statement::VariableDefinition(_, decl, init) => decl.printable() && (init
                matches Some(e) ==> e.printable()),
            Statement::Continue(_) => true,
            Statement::Break(_) => true,
            Statement::Return(_, e) => e matches Some(expr) ==> expr.printable(),
            Statement::Revert(_, _, exprs) => exprs_printable(exprs@),
            Statement::Emit(_, e) => e.printable(),
            _ => false,
        }
    }

    /// The document this statement lays out to. A block opens its brace,
    /// lays each inner statement on its own line one level deeper, and
    /// closes the brace on a fresh line.
    pub open spec fn doc_spec(self) -> DocV
        decreases self,
    {
        match self {
            Statement::Block { statements, .. } => catv(
                catv(
                    catv(
                        DocV::Text("{"@),
                        intersperse_v(indented_docs(stmts_docs(statements@)), DocV::Nil),
                    ),
                    DocV::Hardline,
                ),
                DocV::Text("}"@),
            ),
            Statement::Args(_, args) => spaced_list_v(named_args_docs(args@)),
            Statement::If(_, cond, tb, fb) => catv(
                catv(
                    catv(catv(catv(DocV::Text("if ("@), cond.doc_spec()), DocV::Text(")"@)), sp()),
                    (*tb).doc_spec(),
                ),
                (match fb {
                    Some(s) => catv(DocV::Text(" else "@), (*s).doc_spec()),
                    None => DocV::Nil,
                }),
            ),
            Statement::While(_, cond, body) => catv(
                catv(catv(catv(DocV::Text("while ("@), cond.doc_spec()), DocV::Text(")"@)), sp()),
                (*body).doc_spec(),
            ),
            Statement::Expression(_, e) => catv(e.doc_spec(), DocV::Text(";"@)),
            Statement::VariableDefinition(_, decl, init) => (match init {
                None => catv(decl.doc_spec(), DocV::Text(";"@)),
                Some(e) => catv(
                    catv(catv(decl.doc_spec(), DocV::Text(" = "@)), e.doc_spec()),
                    DocV::Text(";"@),
                ),
            }),
            Statement::Continue(_) => DocV::Text("continue;"@),
            Statement::Break(_) => DocV::Text("break;"@),
            Statement::Return(_, e) => (match e {
                Some(expr) => catv(
                    catv(DocV::Text("return "@), expr.doc_spec()),
                    DocV::Text(";"@),
                ),
                None => DocV::Text("return;"@),
            }),
            Statement::Revert(_, id, exprs) => catv(
                catv(
                    catv(
                        DocV::Text("revert "@),
                        (match id {
                            Some(path) => path.doc_spec(),
                            None => DocV::Nil,
                        }),
                    ),
                    paren_list_v(exprs_docs(exprs@)),
                ),
                DocV::Text(";"@),
            ),
            Statement::Emit(_, e) => catv(catv(DocV::Text("emit "@), e.doc_spec()), DocV::Text(
                ";"@,
            )),
            _ => DocV::Nil,
        }
    }

    /// Lay the statement out as a document.
    pub fn to_doc(&self) -> (d: Doc)
        requires
            self.printable(),
        ensures
            d@ == self.doc_spec(),
        decreases self,
    {
        match self {
            Statement::Block { statements, .. } => {
                let wrapped = indent_each(stmts_to_docs(statements));
                let sep = Doc::nil();
                Doc::text("{")
                    .append(intersperse(&wrapped, &sep))
                    .append(Doc::hardline())
                    .append(Doc::text("}"))
            },
            Statement::Args(_, args) => spaced_list_to_doc(named_args_to_docs(args)),
            Statement::If(_, cond, tb, fb) => {
                let fdoc = match fb {
                    Some(s) => Doc::text(" else ").append(s.to_doc()),
                    None => Doc::nil(),
                };
                Doc::text("if (")
                    .append(cond.to_doc())
                    .append(Doc::text(")"))
                    .append(Doc::space())
                    .append(tb.to_doc())
                    .append(fdoc)
            },
            Statement::While(_, cond, body) => Doc::text("while (")
                .append(cond.to_doc())
                .append(Doc::text(")"))
                .append(Doc::space())
                .append(body.to_doc()),
            Statement::Expression(_, e) => e.to_doc().append(Doc::text(";")),
            Statement::VariableDefinition(_, decl, init) => {
                match init {
                    None => decl.to_doc().append(Doc::text(";")),
                    Some(e) => decl.to_doc().append(Doc::text(" = ")).append(e.to_doc()).append(
                        Doc::text(";"),
                    ),
                }
            },
            Statement::Continue(_) => Doc::text("continue;"),
            Statement::Break(_) => Doc::text("break;"),
            Statement::Return(_, e) => {
                match e {
                    Some(expr) => Doc::text("return ").append(expr.to_doc()).append(
                        Doc::text(";"),
                    ),
                    None => Doc::text("return;"),
                }
            },
            Statement::Revert(_, id, exprs) => {
                let path_doc = match id {
                    Some(path) => path.to_doc(),
                    None => Doc::nil(),
                };
                Doc::text("revert ")
                    .append(path_doc)
                    .append(paren_list_to_doc(exprs_to_docs(exprs)))
                    .append(Doc::text(";"))
            },
            Statement::Emit(_, e) => Doc::text("emit ").append(e.to_doc()).append(Doc::text(";")),
            _ => vstd::pervasive::unreached(),
        }
    }

    /// The statement's textual form.
    pub fn display(&self) -> (s: String)
        requires
            self.printable(),
        ensures
            s@ == rendered(self.doc_spec()),
    {
        render_doc(&self.to_doc())
    }
}



// ---------------------------------------------------------------------------
// Definitions
// ---------------------------------------------------------------------------

/// The documents of a sequence of identifiers.
pub open spec fn idents_docs(ids: Seq<Identifier>) -> Seq<DocV> {
    ids.map_values(|x: Identifier| x.doc_spec())
}

/// The documents of a sequence of identifier paths.
pub open spec fn paths_docs(ps: Seq<IdentifierPath>) -> Seq<DocV> {
    ps.map_values(|x: IdentifierPath| x.doc_spec())
}

/// Every base-contract reference of the sequence is printable.
pub open spec fn bases_printable(bs: Seq<Base>) -> bool {
    forall|i: int| 0 <= i < bs.len() ==> (#[trigger] bs[i]).printable()
}

/// The documents of a sequence of base-contract references.
pub open spec fn bases_docs(bs: Seq<Base>) -> Seq<DocV> {
    bs.map_values(|x: Base| x.doc_spec())
}

/// Every function attribute of the sequence is printable.
pub open spec fn fn_attrs_printable(attrs: Seq<FunctionAttribute>) -> bool {
    forall|i: int| 0 <= i < attrs.len() ==> (#[trigger] attrs[i]).printable()
}

/// The documents of a sequence of function attributes.
pub open spec fn fn_attrs_docs(attrs: Seq<FunctionAttribute>) -> Seq<DocV> {
    attrs.map_values(|x: FunctionAttribute| x.doc_spec())
}

/// Every variable attribute of the sequence is printable.
pub open spec fn var_attrs_printable(attrs: Seq<VariableAttribute>) -> bool {
    forall|i: int| 0 <= i < attrs.len() ==> (#[trigger] attrs[i]).printable()
}

/// The documents of a sequence of variable attributes.
pub open spec fn var_attrs_docs(attrs: Seq<VariableAttribute>) -> Seq<DocV> {
    attrs.map_values(|x: VariableAttribute| x.doc_spec())
}

/// Every struct field of the sequence is printable.
pub open spec fn fields_printable(fs: Seq<VariableDeclaration>) -> bool {
    forall|i: int| 0 <= i < fs.len() ==> (#[trigger] fs[i]).printable()
}

/// The documents of a struct's fields, each closed with a semicolon.
pub open spec fn struct_fields_docs(fs: Seq<VariableDeclaration>) -> Seq<DocV> {
    fs.map_values(|x: VariableDeclaration| catv(x.doc_spec(), DocV::Text(";"@)))
}

/// Every event field of the sequence is printable.
pub open spec fn event_params_printable(ps: Seq<EventParameter>) -> bool {
    forall|i: int| 0 <= i < ps.len() ==> (#[trigger] ps[i]).printable()
}

/// The documents of a sequence of event fields.
pub open spec fn event_params_docs(ps: Seq<EventParameter>) -> Seq<DocV> {
    ps.map_values(|x: EventParameter| x.doc_spec())
}

/// Every error field of the sequence is printable.
pub open spec fn error_params_printable(ps: Seq<ErrorParameter>) -> bool {
    forall|i: int| 0 <= i < ps.len() ==> (#[trigger] ps[i]).printable()
}

/// The documents of a sequence of error fields.
pub open spec fn error_params_docs(ps: Seq<ErrorParameter>) -> Seq<DocV> {
    ps.map_values(|x: ErrorParameter| x.doc_spec())
}

/// Every contract part of the sequence is printable.
pub open spec fn parts_printable(ps: Seq<ContractPart>) -> bool {
    forall|i: int| 0 <= i < ps.len() ==> (#[trigger] ps[i]).printable()
}

/// The documents of a sequence of contract parts.
pub open spec fn parts_docs(ps: Seq<ContractPart>) -> Seq<DocV> {
    ps.map_values(|x: ContractPart| x.doc_spec())
}

/// Every top-level part of the sequence is printable.
pub open spec fn unit_parts_printable(ps: Seq<SourceUnitPart>) -> bool {
    forall|i: int| 0 <= i < ps.len() ==> (#[trigger] ps[i]).printable()
}

/// The documents of a sequence of top-level parts.
pub open spec fn unit_parts_docs(ps: Seq<SourceUnitPart>) -> Seq<DocV> {
    ps.map_values(|x: SourceUnitPart| x.doc_spec())
}

/// The document of one renamed import: the symbol, and its alias when it
/// has one.
pub open spec fn rename_item_doc(item: (Identifier, Option<Identifier>)) -> DocV {
    match item.1 {
        Some(alias) => catv(catv(item.0.doc_spec(), DocV::Text(" as "@)), alias.doc_spec()),
        None => item.0.doc_spec(),
    }
}

/// The documents of a renamed-import list.
pub open spec fn rename_items_docs(items: Seq<(Identifier, Option<Identifier>)>) -> Seq<DocV> {
    items.map_values(|x: (Identifier, Option<Identifier>)| rename_item_doc(x))
}

impl VariableAttribute {
    /// Whether the printer supports this attribute: `override` is not in
    /// the supported subset.
    pub open spec fn printable(self) -> bool {
        !(self is Override)
    }

    /// The document this attribute lays out to.
    pub open spec fn doc_spec(self) -> DocV {
        match self {
            VariableAttribute::Visibility(vis) => vis.doc_spec(),
            VariableAttribute::Constant(_) => DocV::Text("constant"@),
            VariableAttribute::Immutable(_) => DocV::Text("immutable"@),
            VariableAttribute::Override(_, _) => DocV::Nil,
        }
    }

    /// Lay the attribute out as a document.
    pub fn to_doc(&self) -> (d: Doc)
        requires
            self.printable(),
        ensures
            d@ == self.doc_spec(),
    {
        match self {
            VariableAttribute::Visibility(vis) => vis.to_doc(),
            VariableAttribute::Constant(_) => Doc::text("constant"),
            VariableAttribute::Immutable(_) => Doc::text("immutable"),
            VariableAttribute::Override(_, _) => vstd::pervasive::unreached(),
        }
    }
}

fn var_attrs_to_docs(attrs: &Vec<VariableAttribute>) -> (docs: Vec<Doc>)
    requires
        var_attrs_printable(attrs@),
    ensures
        views_of(docs@) == var_attrs_docs(attrs@),
{
    let mut docs: Vec<Doc> = Vec::new();
    let mut i: usize = 0;
    while i < attrs.len()
        invariant
            i <= attrs@.len(),
            docs@.len() == i,
            var_attrs_printable(attrs@),
            forall|j: int| 0 <= j < i ==> #[trigger] docs@[j]@ == attrs@[j].doc_spec(),
        decreases attrs@.len() - i,
    {
        docs.push(attrs[i].to_doc());
        i = i + 1;
    }
    proof {
        assert(views_of(docs@) =~= var_attrs_docs(attrs@));
    }
    docs
}

impl VariableDefinition {
    /// Whether the printer supports this definition: type, attributes and
    /// the initialiser, if any, must be printable.
    pub open spec fn printable(self) -> bool {
        self.ty.printable() && var_attrs_printable(self.attrs@) && (self.initializer
            matches Some(e) ==> e.printable())
    }

    /// The document this definition lays out to: type, attributes, name,
    /// and an initialiser where present.
    pub open spec fn doc_spec(self) -> DocV {
        catv(
            catv(
                catv(
                    catv(
                        catv(
                            self.ty.doc_spec(),
                            (if self.attrs.len() == 0 {
                                DocV::Nil
                            } else {
                                catv(sp(), spaced_list_v(var_attrs_docs(self.attrs@)))
                            }),
                        ),
                        sp(),
                    ),
                    self.name.doc_spec(),
                ),
                (if self.initializer is Some {
                    DocV::Text(" = "@)
                } else {
                    DocV::Nil
                }),
            ),
            (match self.initializer {
                Some(e) => e.doc_spec(),
                None => DocV::Nil,
            }),
        )
    }

    /// Lay the definition out as a document.
    pub fn to_doc(&self) -> (d: Doc)
        requires
            self.printable(),
        ensures
            d@ == self.doc_spec(),
    {
        let attrs = if self.attrs.len() == 0 {
            Doc::nil()
        } else {
            Doc::space().append(spaced_list_to_doc(var_attrs_to_docs(&self.attrs)))
        };
        let equal = if self.initializer.is_some() {
            Doc::text(" = ")
        } else {
            Doc::nil()
        };
        let init = match &self.initializer {
            Some(e) => e.to_doc(),
            None => Doc::nil(),
        };
        self.ty
            .to_doc()
            .append(attrs)
            .append(Doc::space())
            .append(self.name.to_doc())
            .append(equal)
            .append(init)
    }
}

impl StructDefinition {
    /// Whether the printer supports this definition: every field must be
    /// printable.
    pub open spec fn printable(self) -> bool {
        fields_printable(self.fields@)
    }

    /// The document this definition lays out to: header, each field on
    /// its own indented line closed by a semicolon, and the closing brace
    /// on a fresh line.
    pub open spec fn doc_spec(self) -> DocV {
        catv(
            catv(
                catv(
                    catv(catv(DocV::Text("struct "@), self.name.doc_spec()), DocV::Text(" {"@)),
                    intersperse_v(indented_docs(struct_fields_docs(self.fields@)), DocV::Nil),
                ),
                DocV::Hardline,
            ),
            DocV::Text("}"@),
        )
    }

    /// Lay the definition out as a document.
    pub fn to_doc(&self) -> (d: Doc)
        requires
            self.printable(),
        ensures
            d@ == self.doc_spec(),
    {
        let mut docs: Vec<Doc> = Vec::new();
        let mut i: usize = 0;
        while i < self.fields.len()
            invariant
                i <= self.fields@.len(),
                docs@.len() == i,
                fields_printable(self.fields@),
                forall|j: int|
                    0 <= j < i ==> #[trigger] docs@[j]@ == catv(
                        self.fields@[j].doc_spec(),
                        DocV::Text(";"@),
                    ),
            decreases self.fields@.len() - i,
        {
            docs.push(self.fields[i].to_doc().append(Doc::text(";")));
            i = i + 1;
        }
        proof {
            assert(views_of(docs@) =~= struct_fields_docs(self.fields@));
        }
        let wrapped = indent_each(docs);
        let sep = Doc::nil();
        Doc::text("struct ")
            .append(self.name.to_doc())
            .append(Doc::text(" {"))
            .append(intersperse(&wrapped, &sep))
            .append(Doc::hardline())
            .append(Doc::text("}"))
    }
}

impl EventParameter {
    /// Whether the printer supports this field: its type expression must
    /// be printable.
    pub open spec fn printable(self) -> bool {
        self.ty.printable()
    }

    /// The document this field lays out to: type, `indexed` where set,
    /// and the name where present.
    pub open spec fn doc_spec(self) -> DocV {
        catv(
            catv(
                catv(self.ty.doc_spec(), sp()),
                (if self.indexed {
                    DocV::Text("indexed "@)
                } else {
                    DocV::Nil
                }),
            ),
            (match self.name {
                Some(n) => n.doc_spec(),
                None => DocV::Nil,
            }),
        )
    }

    /// Lay the field out as a document.
    pub fn to_doc(&self) -> (d: Doc)
        requires
            self.printable(),
        ensures
            d@ == self.doc_spec(),
    {
        let indexed = if self.indexed {
            Doc::text("indexed ")
        } else {
            Doc::nil()
        };
        let name = match &self.name {
            Some(n) => n.to_doc(),
            None => Doc::nil(),
        };
        self.ty.to_doc().append(Doc::space()).append(indexed).append(name)
    }
}

fn event_params_to_docs(ps: &Vec<EventParameter>) -> (docs: Vec<Doc>)
    requires
        event_params_printable(ps@),
    ensures
        views_of(docs@) == event_params_docs(ps@),
{
    let mut docs: Vec<Doc> = Vec::new();
    let mut i: usize = 0;
    while i < ps.len()
        invariant
            i <= ps@.len(),
            docs@.len() == i,
            event_params_printable(ps@),
            forall|j: int| 0 <= j < i ==> #[trigger] docs@[j]@ == ps@[j].doc_spec(),
        decreases ps@.len() - i,
    {
        docs.push(ps[i].to_doc());
        i = i + 1;
    }
    proof {
        assert(views_of(docs@) =~= event_params_docs(ps@));
    }
    docs
}

impl EventDefinition {
    /// Whether the printer supports this definition: every field must be
    /// printable.
    pub open spec fn printable(self) -> bool {
        event_params_printable(self.fields@)
    }

    /// The document this definition lays out to: `event`, the name, and
    /// the parenthesised fields.
    pub open spec fn doc_spec(self) -> DocV {
        catv(
            catv(catv(catv(DocV::Text("event"@), sp()), self.name.doc_spec()), sp()),
            paren_list_v(event_params_docs(self.fields@)),
        )
    }

    /// Lay the definition out as a document.
    pub fn to_doc(&self) -> (d: Doc)
        requires
            self.printable(),
        ensures
            d@ == self.doc_spec(),
    {
        Doc::text("event")
            .append(Doc::space())
            .append(self.name.to_doc())
            .append(Doc::space())
            .append(paren_list_to_doc(event_params_to_docs(&self.fields)))
    }

    /// The definition's textual form.
    pub fn display(&self) -> (s: String)
        requires
            self.printable(),
        ensures
            s@ == rendered(self.doc_spec()),
    {
        render_doc(&self.to_doc())
    }
}

impl ErrorParameter {
    /// Whether the printer supports this field: its type expression must
    /// be printable.
    pub open spec fn printable(self) -> bool {
        self.ty.printable()
    }

    /// The document this field lays out to: type, and the name where
    /// present.
    pub open spec fn doc_spec(self) -> DocV {
        catv(
            catv(self.ty.doc_spec(), sp()),
            (match self.name {
                Some(n) => n.doc_spec(),
                None => DocV::Nil,
            }),
        )
    }

    /// Lay the field out as a document.
    pub fn to_doc(&self) -> (d: Doc)
        requires
            self.printable(),
        ensures
            d@ == self.doc_spec(),
    {
        let name = match &self.name {
            Some(n) => n.to_doc(),
            None => Doc::nil(),
        };
        self.ty.to_doc().append(Doc::space()).append(name)
    }
}

fn error_params_to_docs(ps: &Vec<ErrorParameter>) -> (docs: Vec<Doc>)
    requires
        error_params_printable(ps@),
    ensures
        views_of(docs@) == error_params_docs(ps@),
{
    let mut docs: Vec<Doc> = Vec::new();
    let mut i: usize = 0;
    while i < ps.len()
        invariant
            i <= ps@.len(),
            docs@.len() == i,
            error_params_printable(ps@),
            forall|j: int| 0 <= j < i ==> #[trigger] docs@[j]@ == ps@[j].doc_spec(),
        decreases ps@.len() - i,
    {
        docs.push(ps[i].to_doc());
        i = i + 1;
    }
    proof {
        assert(views_of(docs@) =~= error_params_docs(ps@));
    }
    docs
}

impl ErrorDefinition {
    /// Whether the printer supports this definition: every field must be
    /// printable.
    pub open spec fn printable(self) -> bool {
        error_params_printable(self.fields@)
    }

    /// The document this definition lays out to: `error`, the name, and
    /// the parenthesised fields.
    pub open spec fn doc_spec(self) -> DocV {
        catv(
            catv(catv(DocV::Text("error"@), sp()), self.name.doc_spec()),
            paren_list_v(error_params_docs(self.fields@)),
        )
    }

    /// Lay the definition out as a document.
    pub fn to_doc(&self) -> (d: Doc)
        requires
            self.printable(),
        ensures
            d@ == self.doc_spec(),
    {
        Doc::text("error")
            .append(Doc::space())
            .append(self.name.to_doc())
            .append(paren_list_to_doc(error_params_to_docs(&self.fields)))
    }

    /// The definition's textual form.
    pub fn display(&self) -> (s: String)
        requires
            self.printable(),
        ensures
            s@ == rendered(self.doc_spec()),
    {
        render_doc(&self.to_doc())
    }
}

impl EnumDefinition {
    /// Whether the printer supports this definition; it supports every
    /// enum.
    pub open spec fn printable(self) -> bool {
        true
    }

    /// The document this definition lays out to: `enum`, the name, and
    /// each value on its own indented line.
    pub open spec fn doc_spec(self) -> DocV {
        catv(
            catv(
                catv(
                    catv(catv(catv(DocV::Text("enum"@), sp()), self.name.doc_spec()), sp()),
                    DocV::Text("{"@),
                ),
                indent_list_v(idents_docs(self.values@)),
            ),
            DocV::Text("}"@),
        )
    }

    /// Lay the definition out as a document.
    pub fn to_doc(&self) -> (d: Doc)
        ensures
            d@ == self.doc_spec(),
    {
        let mut docs: Vec<Doc> = Vec::new();
        let mut i: usize = 0;
        while i < self.values.len()
            invariant
                i <= self.values@.len(),
                docs@.len() == i,
                forall|j: int| 0 <= j < i ==> #[trigger] docs@[j]@ == self.values@[j].doc_spec(),
            decreases self.values@.len() - i,
        {
            docs.push(self.values[i].to_doc());
            i = i + 1;
        }
        proof {
            assert(views_of(docs@) =~= idents_docs(self.values@));
        }
        Doc::text("enum")
            .append(Doc::space())
            .append(self.name.to_doc())
            .append(Doc::space())
            .append(Doc::text("{"))
            .append(indent_list_to_doc(docs))
            .append(Doc::text("}"))
    }

    /// The definition's textual form.
    pub fn display(&self) -> (s: String)
        ensures
            s@ == rendered(self.doc_spec()),
    {
        render_doc(&self.to_doc())
    }
}

impl TypeDefinition {
    /// Whether the printer supports this definition: the underlying type
    /// expression must be printable.
    pub open spec fn printable(self) -> bool {
        self.ty.printable()
    }

    /// The document this definition lays out to: `type Name is ...`.
    pub open spec fn doc_spec(self) -> DocV {
        catv(
            catv(catv(DocV::Text("type "@), self.name.doc_spec()), DocV::Text(" is "@)),
            self.ty.doc_spec(),
        )
    }

    /// Lay the definition out as a document.
    pub fn to_doc(&self) -> (d: Doc)
        requires
            self.printable(),
        ensures
            d@ == self.doc_spec(),
    {
        Doc::text("type ")
            .append(self.name.to_doc())
            .append(Doc::text(" is "))
            .append(self.ty.to_doc())
    }
}

fn paths_to_docs(ps: &Vec<IdentifierPath>) -> (docs: Vec<Doc>)
    ensures
        views_of(docs@) == paths_docs(ps@),
{
    let mut docs: Vec<Doc> = Vec::new();
    let mut i: usize = 0;
    while i < ps.len()
        invariant
            i <= ps@.len(),
            docs@.len() == i,
            forall|j: int| 0 <= j < i ==> #[trigger] docs@[j]@ == ps@[j].doc_spec(),
        decreases ps@.len() - i,
    {
        docs.push(ps[i].to_doc());
        i = i + 1;
    }
    proof {
        assert(views_of(docs@) =~= paths_docs(ps@));
    }
    docs
}

impl UsingList {
    /// Whether the printer supports this list; it supports both forms.
    pub open spec fn printable(self) -> bool {
        true
    }

    /// The document this list lays out to: the library's path, or the
    /// braced list of function paths.
    pub open spec fn doc_spec(self) -> DocV {
        match self {
            UsingList::Library(ip) => ip.doc_spec(),
            UsingList::Functions(ips) => catv(
                catv(DocV::Text("{"@), list_v(paths_docs(ips@))),
                DocV::Text("}"@),
            ),
        }
    }

    /// Lay the list out as a document.
    pub fn to_doc(&self) -> (d: Doc)
        ensures
            d@ == self.doc_spec(),
    {
        match self {
            UsingList::Library(ip) => ip.to_doc(),
            UsingList::Functions(ips) => Doc::text("{").append(
                list_to_doc(paths_to_docs(ips)),
            ).append(Doc::text("}")),
        }
    }
}

impl Using {
    /// Whether the printer supports this directive: it must name a type
    /// (`using ... for <type>`), that type must be printable, and the
    /// `global` form is not in the supported subset.
    pub open spec fn printable(self) -> bool {
        self.global is None && (self.ty matches Some(ty) && ty.printable())
    }

    /// The document this directive lays out to: `using <list> for <type>`.
    pub open spec fn doc_spec(self) -> DocV {
        catv(
            catv(catv(DocV::Text("using "@), self.list.doc_spec()), DocV::Text(" for "@)),
            (match self.ty {
                Some(ty) => ty.doc_spec(),
                None => DocV::Nil,
            }),
        )
    }

    /// Lay the directive out as a document.
    pub fn to_doc(&self) -> (d: Doc)
        requires
            self.printable(),
        ensures
            d@ == self.doc_spec(),
    {
        let ty = match &self.ty {
            Some(ty) => ty.to_doc(),
            None => Doc::nil(),
        };
        Doc::text("using ").append(self.list.to_doc()).append(Doc::text(" for ")).append(ty)
    }
}

impl Base {
    /// Whether the printer supports this reference: its arguments, if
    /// any, must be printable.
    pub open spec fn printable(self) -> bool {
        self.args matches Some(args) ==> exprs_printable(args@)
    }

    /// The document this reference lays out to: the path, and the
    /// parenthesised arguments where present.
    pub open spec fn doc_spec(self) -> DocV {
        catv(
            self.name.doc_spec(),
            (match self.args {
                Some(args) => paren_list_v(exprs_docs(args@)),
                None => DocV::Nil,
            }),
        )
    }

    /// Lay the reference out as a document.
    pub fn to_doc(&self) -> (d: Doc)
        requires
            self.printable(),
        ensures
            d@ == self.doc_spec(),
    {
        let args = match &self.args {
            Some(args) => paren_list_to_doc(exprs_to_docs(args)),
            None => Doc::nil(),
        };
        self.name.to_doc().append(args)
    }
}

fn bases_to_docs(bs: &Vec<Base>) -> (docs: Vec<Doc>)
    requires
        bases_printable(bs@),
    ensures
        views_of(docs@) == bases_docs(bs@),
{
    let mut docs: Vec<Doc> = Vec::new();
    let mut i: usize = 0;
    while i < bs.len()
        invariant
            i <= bs@.len(),
            docs@.len() == i,
            bases_printable(bs@),
            forall|j: int| 0 <= j < i ==> #[trigger] docs@[j]@ == bs@[j].doc_spec(),
        decreases bs@.len() - i,
    {
        docs.push(bs[i].to_doc());
        i = i + 1;
    }
    proof {
        assert(views_of(docs@) =~= bases_docs(bs@));
    }
    docs
}

impl FunctionAttribute {
    /// Whether the printer supports this attribute: a base or modifier
    /// reference must have printable arguments; the rest always print.
    pub open spec fn printable(self) -> bool {
        match self {
            FunctionAttribute::BaseOrModifier(_, base) => base.printable(),
            _ => true,
        }
    }

    /// The document this attribute lays out to.
    pub open spec fn doc_spec(self) -> DocV {
        match self {
            FunctionAttribute::Virtual(_) => DocV::Text("virtual"@),
            FunctionAttribute::Immutable(_) => DocV::Text("immutable"@),
            FunctionAttribute::Mutability(m) => m.doc_spec(),
            FunctionAttribute::Visibility(v) => v.doc_spec(),
            FunctionAttribute::Override(_, ids) => catv(
                catv(
                    catv(
                        DocV::Text("override "@),
                        (if ids.len() > 0 {
                            DocV::Text("("@)
                        } else {
                            DocV::Nil
                        }),
                    ),
                    list_v(paths_docs(ids@)),
                ),
                (if ids.len() > 0 {
                    DocV::Text(")"@)
                } else {
                    DocV::Nil
                }),
            ),
            FunctionAttribute::BaseOrModifier(_, base) => base.doc_spec(),
        }
    }

    /// Lay the attribute out as a document.
    pub fn to_doc(&self) -> (d: Doc)
        requires
            self.printable(),
        ensures
            d@ == self.doc_spec(),
    {
        match self {
            FunctionAttribute::Virtual(_) => Doc::text("virtual"),
            FunctionAttribute::Immutable(_) => Doc::text("immutable"),
            FunctionAttribute::Mutability(m) => m.to_doc(),
            FunctionAttribute::Visibility(v) => v.to_doc(),
            FunctionAttribute::Override(_, ids) => {
                let open = if ids.len() > 0 {
                    Doc::text("(")
                } else {
                    Doc::nil()
                };
                let close = if ids.len() > 0 {
                    Doc::text(")")
                } else {
                    Doc::nil()
                };
                Doc::text("override ")
                    .append(open)
                    .append(list_to_doc(paths_to_docs(ids)))
                    .append(close)
            },
            FunctionAttribute::BaseOrModifier(_, base) => base.to_doc(),
        }
    }
}

fn fn_attrs_to_docs(attrs: &Vec<FunctionAttribute>) -> (docs: Vec<Doc>)
    requires
        fn_attrs_printable(attrs@),
    ensures
        views_of(docs@) == fn_attrs_docs(attrs@),
{
    let mut docs: Vec<Doc> = Vec::new();
    let mut i: usize = 0;
    while i < attrs.len()
        invariant
            i <= attrs@.len(),
            docs@.len() == i,
            fn_attrs_printable(attrs@),
            forall|j: int| 0 <= j < i ==> #[trigger] docs@[j]@ == attrs@[j].doc_spec(),
        decreases attrs@.len() - i,
    {
        docs.push(attrs[i].to_doc());
        i = i + 1;
    }
    proof {
        assert(views_of(docs@) =~= fn_attrs_docs(attrs@));
    }
    docs
}

impl FunctionDefinition {
    /// Whether the printer supports this definition: only a constructor
    /// may be nameless, the body must be present, and parameters,
    /// attributes, returns and body must all be printable.
    pub open spec fn printable(self) -> bool {
        (self.name is Some || self.ty == FunctionTy::Constructor) && slots_printable(self.params@)
            && fn_attrs_printable(self.attributes@) && slots_printable(self.returns@) && (self.body
            matches Some(b) && b.printable())
    }

    /// The document this definition lays out to: kind and name, the
    /// parameters, the attributes, the returns where any, and the body.
    pub open spec fn doc_spec(self) -> DocV {
        catv(
            catv(
                catv(
                    catv(
                        catv(
                            catv(
                                catv(self.ty.doc_spec(), sp()),
                                (match self.name {
                                    Some(n) => n.doc_spec(),
                                    None => DocV::Nil,
                                }),
                            ),
                            param_list_v(self.params@),
                        ),
                        sp(),
                    ),
                    spaced_list_v(fn_attrs_docs(self.attributes@)),
                ),
                catv(
                    sp(),
                    (if self.returns.len() == 0 {
                        DocV::Nil
                    } else {
                        catv(DocV::Text("returns "@), param_list_v(self.returns@))
                    }),
                ),
            ),
            (match self.body {
                Some(b) => b.doc_spec(),
                None => DocV::Nil,
            }),
        )
    }

    /// Lay the definition out as a document.
    pub fn to_doc(&self) -> (d: Doc)
        requires
            self.printable(),
        ensures
            d@ == self.doc_spec(),
    {
        let name = match &self.name {
            Some(n) => n.to_doc(),
            None => Doc::nil(),
        };
        let returns_doc = if self.returns.len() == 0 {
            Doc::nil()
        } else {
            Doc::text("returns ").append(param_list_to_doc(&self.returns))
        };
        let body = match &self.body {
            Some(b) => b.to_doc(),
            None => Doc::nil(),
        };
        self.ty
            .to_doc()
            .append(Doc::space())
            .append(name)
            .append(param_list_to_doc(&self.params))
            .append(Doc::space())
            .append(spaced_list_to_doc(fn_attrs_to_docs(&self.attributes)))
            .append(Doc::space().append(returns_doc))
            .append(body)
    }

    /// The definition's textual form.
    pub fn display(&self) -> (s: String)
        requires
            self.printable(),
        ensures
            s@ == rendered(self.doc_spec()),
    {
        render_doc(&self.to_doc())
    }
}

impl ContractPart {
    /// Whether the printer supports this part.
    pub open spec fn printable(self) -> bool {
        match self {
            ContractPart::EventDefinition(ed) => ed.printable(),
            ContractPart::FunctionDefinition(fd) => fd.printable(),
            ContractPart::VariableDefinition(vd) => vd.printable(),
            ContractPart::EnumDefinition(_) => true,
            ContractPart::StructDefinition(sd) => sd.printable(),
            ContractPart::StraySemicolon(_) => true,
            ContractPart::Using(u) => u.printable(),
            ContractPart::ErrorDefinition(ed) => ed.printable(),
            ContractPart::TypeDefinition(td) => td.printable(),
        }
    }

    /// The document this part lays out to; declarations that end in a
    /// semicolon carry it here.
    pub open spec fn doc_spec(self) -> DocV {
        match self {
            ContractPart::EventDefinition(ed) => catv(ed.doc_spec(), DocV::Text(";"@)),
            ContractPart::FunctionDefinition(fd) => fd.doc_spec(),
            ContractPart::VariableDefinition(vd) => catv(vd.doc_spec(), DocV::Text(";"@)),
            ContractPart::EnumDefinition(ed) => ed.doc_spec(),
            ContractPart::StructDefinition(sd) => sd.doc_spec(),
            ContractPart::StraySemicolon(_) => DocV::Text(";"@),
            ContractPart::Using(u) => catv(u.doc_spec(), DocV::Text(";"@)),
            ContractPart::ErrorDefinition(ed) => catv(ed.doc_spec(), DocV::Text(";"@)),
            ContractPart::TypeDefinition(td) => catv(td.doc_spec(), DocV::Text(";"@)),
        }
    }

    /// Lay the part out as a document.
    pub fn to_doc(&self) -> (d: Doc)
        requires
            self.printable(),
        ensures
            d@ == self.doc_spec(),
    {
        match self {
            ContractPart::EventDefinition(ed) => ed.to_doc().append(Doc::text(";")),
            ContractPart::FunctionDefinition(fd) => fd.to_doc(),
            ContractPart::VariableDefinition(vd) => vd.to_doc().append(Doc::text(";")),
            ContractPart::EnumDefinition(ed) => ed.to_doc(),
            ContractPart::StructDefinition(sd) => sd.to_doc(),
            ContractPart::StraySemicolon(_) => Doc::text(";"),
            ContractPart::Using(u) => u.to_doc().append(Doc::text(";")),
            ContractPart::ErrorDefinition(ed) => ed.to_doc().append(Doc::text(";")),
            ContractPart::TypeDefinition(td) => td.to_doc().append(Doc::text(";")),
        }
    }
}

impl ContractDefinition {
    /// Whether the printer supports this definition: bases and parts must
    /// be printable.
    pub open spec fn printable(self) -> bool {
        bases_printable(self.base@) && parts_printable(self.parts@)
    }

    /// The document this definition lays out to: the kind's keyword, the
    /// name and the base list, then each part on its own indented line
    /// with a blank line between parts, and the closing brace on a fresh
    /// line.
    pub open spec fn doc_spec(self) -> DocV {
        catv(
            catv(
                catv(
                    catv(
                        catv(
                            catv(
                                catv(
                                    catv(self.ty.doc_spec(), sp()),
                                    self.name.doc_spec(),
                                ),
                                sp(),
                            ),
                            (if self.base.len() == 0 {
                                DocV::Nil
                            } else {
                                DocV::Text(" is "@)
                            }),
                        ),
                        list_v(bases_docs(self.base@)),
                    ),
                    space_if_v(self.base.len() > 0),
                ),
                catv(
                    DocV::Text("{"@),
                    intersperse_v(indented_docs(parts_docs(self.parts@)), DocV::Hardline),
                ),
            ),
            catv(DocV::Hardline, DocV::Text("}"@)),
        )
    }

    /// Lay the definition out as a document.
    pub fn to_doc(&self) -> (d: Doc)
        requires
            self.printable(),
        ensures
            d@ == self.doc_spec(),
    {
        let mut docs: Vec<Doc> = Vec::new();
        let mut i: usize = 0;
        while i < self.parts.len()
            invariant
                i <= self.parts@.len(),
                docs@.len() == i,
                parts_printable(self.parts@),
                forall|j: int| 0 <= j < i ==> #[trigger] docs@[j]@ == self.parts@[j].doc_spec(),
            decreases self.parts@.len() - i,
        {
            docs.push(self.parts[i].to_doc());
            i = i + 1;
        }
        proof {
            assert(views_of(docs@) =~= parts_docs(self.parts@));
        }
        let wrapped = indent_each(docs);
        let is_doc = if self.base.len() == 0 {
            Doc::nil()
        } else {
            Doc::text(" is ")
        };
        let sep = Doc::hardline();
        self.ty
            .to_doc()
            .append(Doc::space())
            .append(self.name.to_doc())
            .append(Doc::space())
            .append(is_doc)
            .append(list_to_doc(bases_to_docs(&self.base)))
            .append(space_if(self.base.len() > 0))
            .append(Doc::text("{").append(intersperse(&wrapped, &sep)))
            .append(Doc::hardline().append(Doc::text("}")))
    }

    /// The definition's textual form.
    pub fn display(&self) -> (s: String)
        requires
            self.printable(),
        ensures
            s@ == rendered(self.doc_spec()),
    {
        render_doc(&self.to_doc())
    }
}

impl Import {
    /// Whether the printer supports this directive: its path literal must
    /// be printable.
    pub open spec fn printable(self) -> bool {
        match self {
            Import::Plain(lit, _) => lit.printable(),
            Import::GlobalSymbol(lit, _, _) => lit.printable(),
            Import::Rename(lit, _, _) => lit.printable(),
        }
    }

    /// The document this directive lays out to.
    pub open spec fn doc_spec(self) -> DocV {
        match self {
            Import::Plain(lit, _) => catv(catv(DocV::Text("import"@), sp()), lit.doc_spec()),
            Import::GlobalSymbol(lit, alias, _) => catv(
                catv(
                    catv(catv(catv(DocV::Text("import"@), sp()), lit.doc_spec()), sp()),
                    DocV::Text(" as "@),
                ),
                alias.doc_spec(),
            ),
            Import::Rename(lit, items, _) => catv(
                catv(
                    catv(
                        catv(
                            catv(DocV::Text("import"@), DocV::Text(" { "@)),
                            intersperse_v(rename_items_docs(items@), DocV::Text(", "@)),
                        ),
                        DocV::Text(" }"@),
                    ),
                    DocV::Text(" from "@),
                ),
                lit.doc_spec(),
            ),
        }
    }

    /// Lay the directive out as a document.
    pub fn to_doc(&self) -> (d: Doc)
        requires
            self.printable(),
        ensures
            d@ == self.doc_spec(),
    {
        match self {
            Import::Plain(lit, _) => Doc::text("import").append(Doc::space()).append(
                lit.to_doc(),
            ),
            Import::GlobalSymbol(lit, alias, _) => Doc::text("import")
                .append(Doc::space())
                .append(lit.to_doc())
                .append(Doc::space())
                .append(Doc::text(" as "))
                .append(alias.to_doc()),
            Import::Rename(lit, items, _) => {
                let mut docs: Vec<Doc> = Vec::new();
                let mut i: usize = 0;
                while i < items.len()
                    invariant
                        i <= items@.len(),
                        docs@.len() == i,
                        forall|j: int|
                            0 <= j < i ==> #[trigger] docs@[j]@ == rename_item_doc(items@[j]),
                    decreases items@.len() - i,
                {
                    let d = match &items[i].1 {
                        Some(alias) => items[i].0.to_doc().append(Doc::text(" as ")).append(
                            alias.to_doc(),
                        ),
                        None => items[i].0.to_doc(),
                    };
                    docs.push(d);
                    i = i + 1;
                }
                proof {
                    assert(views_of(docs@) =~= rename_items_docs(items@));
                }
                let sep = Doc::text(", ");
                Doc::text("import")
                    .append(Doc::text(" { "))
                    .append(intersperse(&docs, &sep))
                    .append(Doc::text(" }"))
                    .append(Doc::text(" from "))
                    .append(lit.to_doc())
            },
        }
    }
}

impl SourceUnitPart {
    /// Whether the printer supports this part: contracts, pragmas,
    /// imports, events, errors and enums are in the supported subset;
    /// other top-level items are not.
    pub open spec fn printable(self) -> bool {
        match self {
            SourceUnitPart::ContractDefinition(cd) => cd.printable(),
            SourceUnitPart::PragmaDirective(_, _, _) => true,
            SourceUnitPart::ImportDirective(import) => import.printable(),
            SourceUnitPart::EventDefinition(ed) => ed.printable(),
            SourceUnitPart::ErrorDefinition(ed) => ed.printable(),
            SourceUnitPart::EnumDefinition(_) => true,
            _ => false,
        }
    }

    /// The document this part lays out to. A pragma writes its value raw,
    /// without quotes, and ends its own line.
    pub open spec fn doc_spec(self) -> DocV {
        match self {
            SourceUnitPart::ContractDefinition(cd) => cd.doc_spec(),
            SourceUnitPart::PragmaDirective(_, id, lit) => catv(
                catv(
                    catv(catv(catv(DocV::Text("pragma "@), id.doc_spec()), sp()), DocV::Text(
                        lit.string@,
                    )),
                    DocV::Text(";"@),
                ),
                DocV::Hardline,
            ),
            SourceUnitPart::ImportDirective(import) => catv(import.doc_spec(), DocV::Text(";"@)),
            SourceUnitPart::EventDefinition(ed) => catv(ed.doc_spec(), DocV::Text(";"@)),
            SourceUnitPart::ErrorDefinition(ed) => catv(ed.doc_spec(), DocV::Text(";"@)),
            SourceUnitPart::EnumDefinition(ed) => ed.doc_spec(),
            _ => DocV::Nil,
        }
    }

    /// Lay the part out as a document.
    pub fn to_doc(&self) -> (d: Doc)
        requires
            self.printable(),
        ensures
            d@ == self.doc_spec(),
    {
        match self {
            SourceUnitPart::ContractDefinition(cd) => cd.to_doc(),
            SourceUnitPart::PragmaDirective(_, id, lit) => Doc::text("pragma ")
                .append(id.to_doc())
                .append(Doc::space())
                .append(Doc::text_string(lit.string.clone()))
                .append(Doc::text(";"))
                .append(Doc::hardline()),
            SourceUnitPart::ImportDirective(import) => import.to_doc().append(Doc::text(";")),
            SourceUnitPart::EventDefinition(ed) => ed.to_doc().append(Doc::text(";")),
            SourceUnitPart::ErrorDefinition(ed) => ed.to_doc().append(Doc::text(";")),
            SourceUnitPart::EnumDefinition(ed) => ed.to_doc(),
            _ => vstd::pervasive::unreached(),
        }
    }

    /// The part's textual form.
    pub fn display(&self) -> (s: String)
        requires
            self.printable(),
        ensures
            s@ == rendered(self.doc_spec()),
    {
        render_doc(&self.to_doc())
    }
}

impl SourceUnit {
    /// Whether the printer supports this source unit: every part must be
    /// printable.
    pub open spec fn printable(self) -> bool {
        unit_parts_printable(self.0@)
    }

    /// The document this source unit lays out to: its parts, one per
    /// line.
    pub open spec fn doc_spec(self) -> DocV {
        intersperse_v(unit_parts_docs(self.0@), DocV::Hardline)
    }

    /// Lay the source unit out as a document.
    pub fn to_doc(&self) -> (d: Doc)
        requires
            self.printable(),
        ensures
            d@ == self.doc_spec(),
    {
        let mut docs: Vec<Doc> = Vec::new();
        let mut i: usize = 0;
        while i < self.0.len()
            invariant
                i <= self.0@.len(),
                docs@.len() == i,
                unit_parts_printable(self.0@),
                forall|j: int| 0 <= j < i ==> #[trigger] docs@[j]@ == self.0@[j].doc_spec(),
            decreases self.0@.len() - i,
        {
            docs.push(self.0[i].to_doc());
            i = i + 1;
        }
        proof {
            assert(views_of(docs@) =~= unit_parts_docs(self.0@));
        }
        let sep = Doc::hardline();
        intersperse(&docs, &sep)
    }

    /// The source unit's textual form: reparseable Solidity text.
    pub fn display(&self) -> (s: String)
        requires
            self.printable(),
        ensures
            s@ == rendered(self.doc_spec()),
    {
        render_doc(&self.to_doc())
    }
}


} // verus!
