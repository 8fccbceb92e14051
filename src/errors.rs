use vstd::prelude::*;
use crate::tokens::Tag;

verus! {

/// A construct that the parser expected to see.
#[derive(Clone, Copy, Debug, PartialEq, Eq, Structural)]
pub enum Construct {
    /// A token of the given category.
    Token(Tag),
    /// The start of an expression.
    Expression,
    /// A literal or a name, as a function argument.
    Atom,
}

/// Why a parse failed, with the row and column of the failure point.
#[derive(Debug)]
pub enum ParserError {
    /// Exactly this construct was expected.
    Expected(Construct, usize, usize),
    /// One of these constructs was expected.
    ExpectedOneOf(Vec<Construct>, usize, usize),
    /// Expressions or types were nested deeper than the parser allows.
    NestingTooDeep(usize, usize),
}

/// The model of a [`ParserError`].
pub enum Fail {
    Expected(Construct, usize, usize),
    ExpectedOneOf(Seq<Construct>, usize, usize),
    NestingTooDeep(usize, usize),
}

impl ParserError {
    /// The model of this error.
    pub open spec fn view(&self) -> Fail {
        match self {
            ParserError::Expected(c, row, col) => Fail::Expected(*c, *row, *col),
            ParserError::ExpectedOneOf(cs, row, col) => Fail::ExpectedOneOf(cs@, *row, *col),
            ParserError::NestingTooDeep(row, col) => Fail::NestingTooDeep(*row, *col),
        }
    }

    /// The row and column where the parse failed.
    pub fn location(&self) -> (r: (usize, usize))
        ensures
            r == self.view().location(),
    {
        match self {
            ParserError::Expected(_, row, col) => (*row, *col),
            ParserError::ExpectedOneOf(_, row, col) => (*row, *col),
            ParserError::NestingTooDeep(row, col) => (*row, *col),
        }
    }

    /// Whether exactly one construct was expected.
    pub fn is_expected(&self) -> (r: bool)
        ensures
            r == self.view() is Expected,
    {
        match self {
            ParserError::Expected(..) => true,
            ParserError::ExpectedOneOf(..) => false,
            ParserError::NestingTooDeep(..) => false,
        }
    }
}

impl Fail {
    /// The row and column where the parse failed.
    pub open spec fn location(&self) -> (usize, usize) {
        match self {
            Fail::Expected(_, row, col) => (*row, *col),
            Fail::ExpectedOneOf(_, row, col) => (*row, *col),
            Fail::NestingTooDeep(row, col) => (*row, *col),
        }
    }
}

} // verus!
