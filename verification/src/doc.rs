//! The layout documents that the pretty-printer builds, their mathematical
//! model, and the bridge to the `pretty` crate that renders them.
//!
//! The printer only ever uses plain text, concatenation, forced line breaks
//! and indentation; it never builds a group. For that subset the rendered
//! text does not depend on the target width, and it has an exact
//! specification: [`render_cmds`] mirrors, command list by command list, how
//! the renderer lays such a document out.

use vstd::prelude::*;
use vstd::string::StringExecFns;

verus! {

/// Width handed to the renderer. The documents built here contain no
/// groups, so the rendered text does not depend on it.
pub const RENDER_WIDTH: usize = 70;

/// Indentation of one nesting level, in spaces.
pub const INDENT: u32 = 4;

/// An executable layout document.
#[derive(Debug)]
pub enum Doc {
    /// The empty document.
    Nil,
    /// Literal text, written as is; it must not contain line breaks.
    Text(String),
    /// One document followed by another.
    Concat(Box<Doc>, Box<Doc>),
    /// A forced line break.
    Hardline,
    /// A document whose line breaks are indented by that many more spaces.
    Nest(u32, Box<Doc>),
}

/// The mathematical model of a document.
#[verifier::ext_equal]
pub enum DocV {
    Nil,
    Text(Seq<char>),
    Concat(Box<DocV>, Box<DocV>),
    Hardline,
    Nest(nat, Box<DocV>),
}

pub open spec fn doc_view(d: Doc) -> DocV
    decreases d,
{
    match d {
        Doc::Nil => DocV::Nil,
        Doc::Text(s) => DocV::Text(s@),
        Doc::Concat(a, b) => DocV::Concat(Box::new(doc_view(*a)), Box::new(doc_view(*b))),
        Doc::Hardline => DocV::Hardline,
        Doc::Nest(n, inner) => DocV::Nest(n as nat, Box::new(doc_view(*inner))),
    }
}

impl View for Doc {
    type V = DocV;

    open spec fn view(&self) -> DocV {
        doc_view(*self)
    }
}

/// Concatenation at the model level.
pub open spec fn catv(a: DocV, b: DocV) -> DocV {
    DocV::Concat(Box::new(a), Box::new(b))
}

/// Nesting at the model level.
pub open spec fn nestv(n: nat, d: DocV) -> DocV {
    DocV::Nest(n, Box::new(d))
}

// ---------------------------------------------------------------------------
// The rendering model
// ---------------------------------------------------------------------------

/// Size of a document, the measure that shows rendering terminates.
pub open spec fn doc_v_size(d: DocV) -> nat
    decreases d,
{
    match d {
        DocV::Nil => 1,
        DocV::Text(_) => 1,
        DocV::Concat(a, b) => 1 + doc_v_size(*a) + doc_v_size(*b),
        DocV::Hardline => 1,
        DocV::Nest(_, inner) => 1 + doc_v_size(*inner),
    }
}

/// Summed size of a list of pending commands, each a document paired with
/// the nesting level it was reached at.
pub open spec fn cmds_size(cmds: Seq<(nat, DocV)>) -> nat
    decreases cmds.len(),
{
    if cmds.len() == 0 {
        0
    } else {
        doc_v_size(cmds[0].1) + cmds_size(cmds.drop_first())
    }
}

/// `n` spaces.
pub open spec fn spaces(n: nat) -> Seq<char>
    decreases n,
{
    if n == 0 {
        Seq::<char>::empty()
    } else {
        spaces((n - 1) as nat).push(' ')
    }
}

/// The indentation written after a line break: the renderer indents by the
/// nesting level at which the next pending command was reached, and by the
/// break's own level when nothing follows.
pub open spec fn break_indent(rest: Seq<(nat, DocV)>, own: nat) -> nat {
    if rest.len() == 0 {
        own
    } else {
        rest[0].0
    }
}

/// The text produced for a list of pending commands: text is written as is,
/// a line break writes `'\n'` and then [`break_indent`] spaces, and `Nest`
/// raises the level of everything under it.
pub open spec fn render_cmds(cmds: Seq<(nat, DocV)>) -> Seq<char>
    decreases cmds_size(cmds), cmds.len(),
{
    if cmds.len() == 0 {
        Seq::<char>::empty()
    } else {
        let ind = cmds[0].0;
        let rest = cmds.drop_first();
        match cmds[0].1 {
            DocV::Nil => render_cmds(rest),
            DocV::Text(s) => s + render_cmds(rest),
            DocV::Concat(a, b) => {
                proof {
                    lemma_cmds_size_two((ind, *a), (ind, *b), rest);
                }
                render_cmds(seq![(ind, *a), (ind, *b)] + rest)
            },
            DocV::Hardline => seq!['\n'] + spaces(break_indent(rest, ind)) + render_cmds(rest),
            DocV::Nest(n, inner) => {
                proof {
                    lemma_cmds_size_one(((ind + n) as nat, *inner), rest);
                }
                render_cmds(seq![((ind + n) as nat, *inner)] + rest)
            },
        }
    }
}

pub proof fn lemma_cmds_size_one(x: (nat, DocV), rest: Seq<(nat, DocV)>)
    ensures
        cmds_size(seq![x] + rest) == doc_v_size(x.1) + cmds_size(rest),
{
    let s = seq![x] + rest;
    assert(s[0] == x);
    assert(s.drop_first() =~= rest);
}

pub proof fn lemma_cmds_size_two(x: (nat, DocV), y: (nat, DocV), rest: Seq<(nat, DocV)>)
    ensures
        cmds_size(seq![x, y] + rest) == doc_v_size(x.1) + doc_v_size(y.1) + cmds_size(rest),
{
    let s = seq![x, y] + rest;
    assert(s[0] == x);
    assert(s.drop_first() =~= seq![y] + rest);
    lemma_cmds_size_one(y, rest);
}

/// The text a whole document renders to.
pub open spec fn rendered(d: DocV) -> Seq<char> {
    render_cmds(seq![(0nat, d)])
}

/// A document that is just text renders to that text.
pub proof fn lemma_rendered_text(s: Seq<char>)
    ensures
        rendered(DocV::Text(s)) == s,
{
    let cmds = seq![(0nat, DocV::Text(s))];
    assert(cmds.drop_first() =~= Seq::<(nat, DocV)>::empty());
    assert(render_cmds(cmds.drop_first()) =~= Seq::<char>::empty());
    assert(rendered(DocV::Text(s)) =~= s);
}

// ---------------------------------------------------------------------------
// Building documents
// ---------------------------------------------------------------------------

impl Clone for Doc {
    fn clone(&self) -> (res: Doc)
        ensures
            res == *self,
        decreases self,
    {
        match self {
            Doc::Nil => Doc::Nil,
            Doc::Text(s) => Doc::Text(s.clone()),
            Doc::Concat(a, b) => Doc::Concat(Box::new((**a).clone()), Box::new((**b).clone())),
            Doc::Hardline => Doc::Hardline,
            Doc::Nest(n, inner) => Doc::Nest(*n, Box::new((**inner).clone())),
        }
    }
}

impl Doc {
    /// The empty document.
    pub fn nil() -> (d: Doc)
        ensures
            d@ == DocV::Nil,
    {
        Doc::Nil
    }

    /// The given text.
    pub fn text(s: &str) -> (d: Doc)
        ensures
            d@ == DocV::Text(s@),
    {
        Doc::Text(s.to_owned())
    }

    /// The given text, taking ownership.
    pub fn text_string(s: String) -> (d: Doc)
        ensures
            d@ == DocV::Text(s@),
    {
        Doc::Text(s)
    }

    /// A single space.
    pub fn space() -> (d: Doc)
        ensures
            d@ == DocV::Text(" "@),
    {
        Doc::Text(" ".to_owned())
    }

    /// A forced line break.
    pub fn hardline() -> (d: Doc)
        ensures
            d@ == DocV::Hardline,
    {
        Doc::Hardline
    }

    /// This document followed by another.
    pub fn append(self, other: Doc) -> (d: Doc)
        ensures
            d@ == catv(self@, other@),
    {
        Doc::Concat(Box::new(self), Box::new(other))
    }

    /// This document, its line breaks indented by `n` more spaces.
    pub fn nest(self, n: u32) -> (d: Doc)
        ensures
            d@ == nestv(n as nat, self@),
    {
        Doc::Nest(n, Box::new(self))
    }
}

/// The models of a list of documents.
pub open spec fn views_of(docs: Seq<Doc>) -> Seq<DocV> {
    docs.map_values(|d: Doc| d@)
}

/// The documents of a list separated by `sep`, at the model level: of
/// `[a, b, c]` it makes `a sep b sep c`.
pub open spec fn intersperse_v(docs: Seq<DocV>, sep: DocV) -> DocV
    decreases docs.len(),
{
    if docs.len() == 0 {
        DocV::Nil
    } else if docs.len() == 1 {
        docs[0]
    } else {
        catv(docs[0], catv(sep, intersperse_v(docs.drop_first(), sep)))
    }
}

fn intersperse_from(docs: &Vec<Doc>, sep: &Doc, i: usize) -> (d: Doc)
    requires
        i < docs.len(),
    ensures
        d@ == intersperse_v(views_of(docs@).skip(i as int), sep@),
    decreases docs.len() - i,
{
    let first = docs[i].clone();
    let ghost tail = views_of(docs@).skip(i as int);
    if i + 1 == docs.len() {
        proof {
            assert(tail =~= seq![docs@[i as int]@]);
        }
        first
    } else {
        let rest = intersperse_from(docs, sep, i + 1);
        let d = first.append(sep.clone().append(rest));
        proof {
            assert(tail.drop_first() =~= views_of(docs@).skip(i + 1));
            assert(tail[0] == docs@[i as int]@);
        }
        d
    }
}

/// The documents of a list separated by `sep`.
pub fn intersperse(docs: &Vec<Doc>, sep: &Doc) -> (d: Doc)
    ensures
        d@ == intersperse_v(views_of(docs@), sep@),
{
    if docs.len() == 0 {
        proof {
            assert(views_of(docs@) =~= Seq::<DocV>::empty());
        }
        Doc::nil()
    } else {
        let d = intersperse_from(docs, sep, 0);
        proof {
            assert(views_of(docs@).skip(0) =~= views_of(docs@));
        }
        d
    }
}

// ---------------------------------------------------------------------------
// The bridge to the pretty crate
// ---------------------------------------------------------------------------

/// The `pretty` crate's document type, declared so that the wrappers below
/// can build and hand one over; nothing of its inside is visible here.
#[verifier::external_type_specification]
#[verifier::external_body]
#[verifier::reject_recursive_types(A)]
pub struct ExRcDoc<'a, A>(pretty::RcDoc<'a, A>);

/// Relies on the `pretty` crate's document constructors (`RcDoc::nil`,
/// `RcDoc::text`, `RcDoc::hardline`, `append`, `nest`): builds the pretty
/// twin of a document, one constructor per variant.
#[verifier::external_body]
fn doc_to_rc(d: &Doc) -> pretty::RcDoc<'static, ()> {
    match d {
        Doc::Nil => pretty::RcDoc::nil(),
        Doc::Text(s) => pretty::RcDoc::text(s.clone()),
        Doc::Concat(a, b) => doc_to_rc(a).append(doc_to_rc(b)),
        Doc::Hardline => pretty::RcDoc::hardline(),
        Doc::Nest(n, inner) => doc_to_rc(inner).nest(*n as isize),
    }
}

/// Relies on the `pretty` crate's `Doc::render_fmt`: with no group in the
/// document the renderer stays in break mode, writes text as is, and for a
/// line break writes `'\n'` and then as many spaces as the nesting level of
/// the next pending document, exactly as [`render_cmds`] states. Writing to
/// a `String` cannot fail.
#[verifier::external_body]
pub fn render_doc(d: &Doc) -> (r: String)
    ensures
        r@ == rendered(d@),
{
    let mut out = String::new();
    doc_to_rc(d).render_fmt(RENDER_WIDTH, &mut out).unwrap();
    out
}

// ---------------------------------------------------------------------------
// Decimal digits for size suffixes
// ---------------------------------------------------------------------------

/// The decimal digit character for `d < 10`.
pub open spec fn dec_digit(d: nat) -> char {
    if d == 0 {
        '0'
    } else if d == 1 {
        '1'
    } else if d == 2 {
        '2'
    } else if d == 3 {
        '3'
    } else if d == 4 {
        '4'
    } else if d == 5 {
        '5'
    } else if d == 6 {
        '6'
    } else if d == 7 {
        '7'
    } else if d == 8 {
        '8'
    } else {
        '9'
    }
}

/// The decimal writing of `n`, without leading zeroes (a single `'0'` for
/// zero itself).
pub open spec fn dec_chars(n: nat) -> Seq<char>
    decreases n,
{
    if n < 10 {
        seq![dec_digit(n)]
    } else {
        dec_chars(n / 10).push(dec_digit(n % 10))
    }
}

fn digit_str(d: u16) -> (s: &'static str)
    requires
        d < 10,
    ensures
        s@ == seq![dec_digit(d as nat)],
{
    let s: &'static str = match d {
        0 => "0",
        1 => "1",
        2 => "2",
        3 => "3",
        4 => "4",
        5 => "5",
        6 => "6",
        7 => "7",
        8 => "8",
        _ => "9",
    };
    proof {
        reveal_strlit("0");
        reveal_strlit("1");
        reveal_strlit("2");
        reveal_strlit("3");
        reveal_strlit("4");
        reveal_strlit("5");
        reveal_strlit("6");
        reveal_strlit("7");
        reveal_strlit("8");
        reveal_strlit("9");
        assert(s@ =~= seq![dec_digit(d as nat)]);
    }
    s
}

/// The decimal writing of a 16-bit number, as for `uint256`'s size.
pub fn u16_string(n: u16) -> (s: String)
    ensures
        s@ == dec_chars(n as nat),
    decreases n,
{
    if n < 10 {
        digit_str(n).to_owned()
    } else {
        let mut s = u16_string(n / 10);
        s.append(digit_str(n % 10));
        proof {
            assert(s@ =~= dec_chars(n as nat));
        }
        s
    }
}

/// The writing of a boolean, `true` or `false`.
pub open spec fn bool_chars(b: bool) -> Seq<char> {
    if b {
        "true"@
    } else {
        "false"@
    }
}

/// The writing of a boolean literal.
pub fn bool_string(b: bool) -> (s: String)
    ensures
        s@ == bool_chars(b),
{
    if b {
        "true".to_owned()
    } else {
        "false".to_owned()
    }
}

} // verus!
