//! The typed failures of the parse operation.  Every failure is fatal:
//! the parser returns either a complete layer list or one of these.

use vstd::prelude::*;

verus! {

/// Why a parse failed.  `UnknownKeyToken` carries the offending token so
/// that a malformed firmware source can be diagnosed.
#[derive(Debug, PartialEq, Eq)]
pub enum ParseError {
    /// The declaration-opening marker does not occur in the source.
    MarkerNotFound,
    /// No `};` terminates the declaration after the opening marker.
    UnterminatedDeclaration,
    /// A macro invocation opens a parenthesis that is never closed.
    UnmatchedParentheses,
    /// A two-argument composite opener is the last token of its layer,
    /// with no following token to merge.
    UnmatchedCompositeCall,
    /// A two-argument composite holds some other number of arguments.
    InvalidCompositeArity,
    /// A token outside the closed key vocabulary.
    UnknownKeyToken(String),
    /// The number of bracketed layer names differs from the number of
    /// macro invocations.
    LayerCountMismatch,
}

/// The mathematical model of [`ParseError`]: the same variants over
/// character sequences.
pub enum ParseErrorView {
    MarkerNotFound,
    UnterminatedDeclaration,
    UnmatchedParentheses,
    UnmatchedCompositeCall,
    InvalidCompositeArity,
    UnknownKeyToken(Seq<char>),
    LayerCountMismatch,
}

impl DeepView for ParseError {
    type V = ParseErrorView;

    open spec fn deep_view(&self) -> ParseErrorView {
        match self {
            ParseError::MarkerNotFound => ParseErrorView::MarkerNotFound,
            ParseError::UnterminatedDeclaration => ParseErrorView::UnterminatedDeclaration,
            ParseError::UnmatchedParentheses => ParseErrorView::UnmatchedParentheses,
            ParseError::UnmatchedCompositeCall => ParseErrorView::UnmatchedCompositeCall,
            ParseError::InvalidCompositeArity => ParseErrorView::InvalidCompositeArity,
            ParseError::UnknownKeyToken(t) => ParseErrorView::UnknownKeyToken(t@),
            ParseError::LayerCountMismatch => ParseErrorView::LayerCountMismatch,
        }
    }
}

impl ParseError {
    /// A short human-readable description, for reporting at the process
    /// edge.
    pub fn describe(&self) -> String {
        match self {
            ParseError::MarkerNotFound => String::from_str("keymap declaration marker not found"),
            ParseError::UnterminatedDeclaration => String::from_str(
                "keymap declaration is not terminated",
            ),
            ParseError::UnmatchedParentheses => String::from_str(
                "unmatched parentheses in a macro invocation",
            ),
            ParseError::UnmatchedCompositeCall => String::from_str(
                "composite key call with no following token",
            ),
            ParseError::InvalidCompositeArity => String::from_str(
                "composite key call with a wrong number of arguments",
            ),
            ParseError::UnknownKeyToken(t) => String::from_str("unknown key token: ").concat(
                t.as_str(),
            ),
            ParseError::LayerCountMismatch => String::from_str(
                "layer name count differs from invocation count",
            ),
        }
    }
}

} // verus!
