//! Source locations and the uniform accessors for them.
//!
//! Every parse-tree node carries a [`Loc`]: either a byte range in a source
//! file or a provenance sentinel. Equality on `Loc` deliberately holds
//! between any two values, so that structural equality of whole trees is
//! insensitive to where they were parsed from.

use vstd::prelude::*;
use vstd::std_specs::cmp::PartialEqSpec;

verus! {

/// A source location: file number, start offset and end offset in bytes,
/// or a provenance sentinel that carries no range.
#[derive(Debug, Eq, PartialOrd, Ord, Clone, Copy)]
pub enum Loc {
    /// Built into the language.
    Builtin,
    /// Given on the command line.
    CommandLine,
    /// Implied rather than written.
    Implicit,
    /// Synthesised by a codegen builder.
    Codegen,
    /// A byte range in a source file: file number, start offset, end offset.
    File(usize, usize, usize),
}

impl PartialEq for Loc {
    /// Any two locations compare equal, whatever they hold: tree equality
    /// then reflects shape and content, never source coordinates.
    fn eq(&self, _other: &Self) -> (r: bool)
        ensures
            r,
    {
        true
    }
}

impl vstd::std_specs::cmp::PartialEqSpecImpl for Loc {
    open spec fn obeys_eq_spec() -> bool {
        true
    }

    open spec fn eq_spec(&self, _other: &Loc) -> bool {
        true
    }
}

impl core::hash::Hash for Loc {
    /// Hashing is consistent with the trivial equality: every location
    /// hashes to the same value, so it feeds nothing to the hasher.
    fn hash<H: core::hash::Hasher>(&self, _state: &mut H) {
    }
}

/// Equality on locations is trivial: it holds of any two values.
pub proof fn lemma_loc_eq_trivial(a: Loc, b: Loc)
    ensures
        a.eq_spec(&b),
{
}

/// A node that always has a location.
pub trait CodeLocation {
    /// Whether the node is shaped so that its location can be read: a node
    /// that takes its location from a sequence of literals needs the
    /// sequence non-empty; for every other node this holds outright.
    spec fn loc_wf(&self) -> bool;

    /// The location, at the specification level.
    spec fn spec_loc(&self) -> Loc;

    /// Return the node's location.
    fn loc(&self) -> (l: Loc)
        requires
            self.loc_wf(),
        ensures
            l == self.spec_loc(),
    ;
}

/// A node whose location is itself optional.
pub trait OptionalCodeLocation {
    /// The optional location, at the specification level.
    spec fn spec_loc(&self) -> Option<Loc>;

    /// Return the node's location, if it has one.
    fn loc(&self) -> (l: Option<Loc>)
        ensures
            l == self.spec_loc(),
    ;
}

impl Loc {
    /// Collapse a file range to a zero-width point at its start; identity
    /// on the sentinels.
    #[must_use]
    pub fn begin_range(&self) -> (r: Self)
        ensures
            r == self.spec_begin_range(),
    {
        match self {
            Loc::File(file_no, start, _) => Loc::File(*file_no, *start, *start),
            loc => *loc,
        }
    }

    pub open spec fn spec_begin_range(self) -> Loc {
        match self {
            Loc::File(file_no, start, _) => Loc::File(file_no, start, start),
            loc => loc,
        }
    }

    /// Collapse a file range to a zero-width point at its end; identity on
    /// the sentinels.
    #[must_use]
    pub fn end_range(&self) -> (r: Self)
        ensures
            r == self.spec_end_range(),
    {
        match self {
            Loc::File(file_no, _, end) => Loc::File(*file_no, *end, *end),
            loc => *loc,
        }
    }

    pub open spec fn spec_end_range(self) -> Loc {
        match self {
            Loc::File(file_no, _, end) => Loc::File(file_no, end, end),
            loc => loc,
        }
    }

    /// The file number; only a file location has one.
    pub fn file_no(&self) -> (n: usize)
        requires
            self is File,
        ensures
            n == self->File_0,
    {
        match self {
            Loc::File(file_no, _, _) => *file_no,
            _ => vstd::pervasive::unreached(),
        }
    }

    /// Return the file number if the location is in a file.
    pub fn try_file_no(&self) -> (n: Option<usize>)
        ensures
            n == (match *self {
                Loc::File(file_no, _, _) => Some(file_no),
                _ => None::<usize>,
            }),
    {
        match self {
            Loc::File(file_no, _, _) => Some(*file_no),
            _ => None,
        }
    }

    /// The start offset; only a file location has one.
    pub fn start(&self) -> (n: usize)
        requires
            self is File,
        ensures
            n == self->File_1,
    {
        match self {
            Loc::File(_, start, _) => *start,
            _ => vstd::pervasive::unreached(),
        }
    }

    /// The end offset; only a file location has one.
    pub fn end(&self) -> (n: usize)
        requires
            self is File,
        ensures
            n == self->File_2,
    {
        match self {
            Loc::File(_, _, end) => *end,
            _ => vstd::pervasive::unreached(),
        }
    }

    /// Splice the end offset from another file location into this one; both
    /// sides must be file locations.
    pub fn use_end_from(&mut self, other: &Loc)
        requires
            *old(self) is File,
            other is File,
        ensures
            *final(self) == Loc::File(old(self)->File_0, old(self)->File_1, other->File_2),
    {
        let s = *self;
        match (s, *other) {
            (Loc::File(file_no, start, _), Loc::File(_, _, other_end)) => {
                *self = Loc::File(file_no, start, other_end);
            },
            _ => {
                vstd::pervasive::unreached()
            },
        }
    }

    /// Splice the start offset from another file location into this one;
    /// both sides must be file locations.
    pub fn use_start_from(&mut self, other: &Loc)
        requires
            *old(self) is File,
            other is File,
        ensures
            *final(self) == Loc::File(old(self)->File_0, other->File_1, old(self)->File_2),
    {
        let s = *self;
        match (s, *other) {
            (Loc::File(file_no, _, end), Loc::File(_, other_start, _)) => {
                *self = Loc::File(file_no, other_start, end);
            },
            _ => {
                vstd::pervasive::unreached()
            },
        }
    }
}

} // verus!
