//! Places in source text, and the names found there.

use vstd::prelude::*;

verus! {

/// A range of bytes in one source file.
#[derive(Clone, Copy, Debug, PartialEq, Eq, Hash, Structural)]
pub struct Span {
    /// The byte position at which the span starts.
    pub start: usize,
    /// The byte position at which the span ends.
    pub end: usize,
    /// The file that the span lies in.
    pub source_id: u32,
}

impl Span {
    /// The span from `start` to `end` in the file `source_id`.
    pub fn new(start: usize, end: usize, source_id: u32) -> (span: Span)
        ensures
            span == (Span { start, end, source_id }),
    {
        Span { start, end, source_id }
    }

    /// The smallest span that holds both spans.
    pub open spec fn joined(self, other: Span) -> Span {
        Span {
            start: if self.start <= other.start {
                self.start
            } else {
                other.start
            },
            end: if self.end >= other.end {
                self.end
            } else {
                other.end
            },
            source_id: self.source_id,
        }
    }

    /// The smallest span that holds both spans, which lie in one file.
    pub fn join(s1: Span, s2: Span) -> (span: Span)
        requires
            s1.source_id == s2.source_id,
        ensures
            span == s1.joined(s2),
    {
        Span {
            start: if s1.start <= s2.start {
                s1.start
            } else {
                s2.start
            },
            end: if s1.end >= s2.end {
                s1.end
            } else {
                s2.end
            },
            source_id: s1.source_id,
        }
    }

    /// Whether the span holds no byte.
    pub fn is_empty(&self) -> (empty: bool)
        ensures
            empty == (self.start == self.end),
    {
        self.start == self.end
    }
}

/// A name with the place where it was written. Two identifiers are the same
/// if their names are, wherever they stand.
#[derive(Clone, Debug)]
pub struct Ident {
    pub name: String,
    pub span: Span,
}

impl View for Ident {
    type V = Seq<char>;

    open spec fn view(&self) -> Seq<char> {
        self.name@
    }
}

impl PartialEq for Ident {
    /// Whether both identifiers have the same name.
    fn eq(&self, other: &Ident) -> (same: bool) {
        self.name == other.name
    }
}

impl vstd::std_specs::cmp::PartialEqSpecImpl for Ident {
    open spec fn obeys_eq_spec() -> bool {
        true
    }

    open spec fn eq_spec(&self, other: &Ident) -> bool {
        self.name@ == other.name@
    }
}

impl Eq for Ident {

}

impl Ident {
    /// The identifier `name` at `span`.
    pub fn new(name: &str, span: Span) -> (ident: Ident)
        ensures
            ident@ == name@,
            ident.span == span,
    {
        Ident { name: String::from_str(name), span }
    }

    /// The name.
    pub fn as_str(&self) -> (name: &str)
        ensures
            name@ == self@,
    {
        self.name.as_str()
    }

    /// The place where the identifier was written.
    pub fn span(&self) -> (span: Span)
        ensures
            span == self.span,
    {
        self.span
    }

    /// Whether both identifiers have the same name.
    pub fn same_name(&self, other: &Ident) -> (same: bool)
        ensures
            same == (self@ == other@),
    {
        self.name == other.name
    }

    /// A copy of the identifier.
    pub fn copy(&self) -> (ident: Ident)
        ensures
            ident == *self,
    {
        Ident { name: self.name.clone(), span: self.span }
    }
}

} // verus!
