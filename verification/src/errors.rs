//! Structured, path-aware validation failures.
//!
//! A failure carries one or more line errors; each line error names the
//! kind of failure, the offending input, and a location path.  The path
//! is stored innermost segment first: as the error crosses a container
//! or decorator boundary outward, the enclosing segment is appended.

use vstd::prelude::*;

use crate::value::{clone_value, SpecValue, Value};

verus! {

/// One segment of a location path: a mapping key or a sequence index.
pub enum LocItem {
    Key(String),
    Index(usize),
}

/// The model of a [`LocItem`].
pub enum SpecLocItem {
    Key(Seq<char>),
    Index(int),
}

impl View for LocItem {
    type V = SpecLocItem;

    open spec fn view(&self) -> SpecLocItem {
        match self {
            LocItem::Key(s) => SpecLocItem::Key(s@),
            LocItem::Index(i) => SpecLocItem::Index(*i as int),
        }
    }
}

/// A copy of a location segment with the same model.
pub fn clone_loc_item(l: &LocItem) -> (r: LocItem)
    ensures
        r@ == l@,
{
    match l {
        LocItem::Key(s) => LocItem::Key(s.clone()),
        LocItem::Index(i) => LocItem::Index(*i),
    }
}

/// What went wrong, as a closed set of diagnostic kinds.
#[derive(Clone, Copy, PartialEq, Eq, Structural)]
pub enum ErrorKind {
    /// The input is of the wrong shape for an integer validator.
    IntType,
    /// The input string could not be read as an integer.
    IntParsing,
    /// The input is of the wrong shape for a list validator.
    ListType,
    /// A self-referential schema re-entered itself on the same input,
    /// or the recursion ceiling was reached.
    RecursionLoop,
}

/// One located cause inside a validation failure.
pub struct ValLineError {
    pub kind: ErrorKind,
    /// Innermost segment first; outer segments are appended as the
    /// error propagates outward.
    pub location: Vec<LocItem>,
    /// The input that failed, as seen by the failing validator.
    pub input: Value,
}

/// The model of a [`ValLineError`].
#[verifier::ext_equal]
pub struct SpecLineError {
    pub kind: ErrorKind,
    pub location: Seq<SpecLocItem>,
    pub input: SpecValue,
}

impl View for ValLineError {
    type V = SpecLineError;

    open spec fn view(&self) -> SpecLineError {
        SpecLineError {
            kind: self.kind,
            location: Seq::new(self.location@.len(), |i: int| self.location@[i]@),
            input: self.input@,
        }
    }
}

/// Model of a sequence of line errors, element by element.
pub open spec fn view_lines(ls: Seq<ValLineError>) -> Seq<SpecLineError> {
    Seq::new(ls.len(), |i: int| ls[i]@)
}

/// A validation failure: either reportable line errors, or the omit
/// sentinel, which tells the immediate caller to drop the field
/// silently instead of reporting anything.
pub enum ValError {
    LineErrors(Vec<ValLineError>),
    Omit,
}

/// The model of a [`ValError`].
#[verifier::ext_equal]
pub enum SpecError {
    Lines(Seq<SpecLineError>),
    Omit,
}

impl View for ValError {
    type V = SpecError;

    open spec fn view(&self) -> SpecError {
        match self {
            ValError::LineErrors(ls) => SpecError::Lines(view_lines(ls@)),
            ValError::Omit => SpecError::Omit,
        }
    }
}

/// A failure with one cause at an empty location.
pub open spec fn spec_line(kind: ErrorKind, input: SpecValue) -> SpecLineError {
    SpecLineError { kind, location: Seq::empty(), input }
}

/// One line error appended with an enclosing location segment.
pub open spec fn spec_with_outer_line(l: SpecLineError, loc: SpecLocItem) -> SpecLineError {
    SpecLineError { kind: l.kind, location: l.location.push(loc), input: l.input }
}

/// Every line error of a failure appended with an enclosing segment;
/// the omit sentinel carries no location and passes unchanged.
pub open spec fn spec_with_outer(e: SpecError, loc: SpecLocItem) -> SpecError {
    match e {
        SpecError::Omit => SpecError::Omit,
        SpecError::Lines(ls) => SpecError::Lines(
            Seq::new(ls.len(), |i: int| spec_with_outer_line(ls[i], loc)),
        ),
    }
}

impl ValError {
    /// A fresh failure with a single cause located at the failure site.
    pub fn new_line(kind: ErrorKind, input: Value) -> (r: ValError)
        ensures
            r@ == SpecError::Lines(seq![spec_line(kind, input@)]),
    {
        let line = ValLineError { kind, location: Vec::new(), input };
        let mut ls: Vec<ValLineError> = Vec::new();
        ls.push(line);
        let r = ValError::LineErrors(ls);
        proof {
            assert(view_lines(ls@) =~~= seq![spec_line(kind, input@)]);
        }
        r
    }

    /// Record that this failure crossed the enclosing segment `loc` on
    /// its way out.
    pub fn with_outer_location(self, loc: LocItem) -> (r: ValError)
        ensures
            r@ == spec_with_outer(self@, loc@),
    {
        match self {
            ValError::Omit => ValError::Omit,
            ValError::LineErrors(lines) => {
                let ghost orig: Seq<ValLineError> = lines@;
                let mut rest = lines;
                let mut out: Vec<ValLineError> = Vec::new();
                while rest.len() > 0
                    invariant
                        out@.len() + rest@.len() == orig.len(),
                        rest@ == orig.skip(out@.len() as int),
                        forall|j: int| 0 <= j < out@.len()
                            ==> out@[j]@ == spec_with_outer_line(orig[j]@, loc@),
                    decreases rest@.len(),
                {
                    let mut l = rest.remove(0);
                    let seg = clone_loc_item(&loc);
                    let ghost lv = l@;
                    l.location.push(seg);
                    proof {
                        assert(l@.location =~= lv.location.push(loc@));
                        assert(rest@ =~= orig.skip(out@.len() as int + 1));
                    }
                    out.push(l);
                }
                let r = ValError::LineErrors(out);
                proof {
                    assert(view_lines(out@) =~~= spec_with_outer(SpecError::Lines(view_lines(orig)), loc@)->Lines_0);
                }
                r
            },
        }
    }
}

} // verus!
