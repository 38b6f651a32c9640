//! The shared error model: source spans, the vocabulary of token shapes that
//! a parse position can expect, lexical errors, and structured parse errors.
//! Both the tokenizer and the grammar engine only construct values of these
//! shapes; rendering them for people is left to the caller.

use vstd::prelude::*;

use crate::lexer::Ctrl;
use crate::lexer::Keyword;
use crate::lexer::Op;
use crate::lexer::SpecToken;
use crate::lexer::Token;

verus! {

/// A half-open range of character positions into the source text.
#[derive(Debug, Clone, Copy, PartialEq, Eq, Structural)]
pub struct Span {
    pub start: usize,
    pub end: usize,
}

/// One shape of token that would have been accepted at a parse position.
#[derive(Debug, Clone, Copy, PartialEq, Eq, Structural)]
pub enum Expected {
    /// A specific keyword.
    Kw(Keyword),
    /// A specific type name.
    Ty(crate::lexer::Type),
    /// Any identifier.
    Ident,
    /// Any integer literal, signed or unsigned.
    Lit,
    /// A specific punctuation character.
    Ctrl(Ctrl),
    /// A specific operator.
    Op(Op),
    /// The end of the input.
    End,
}

/// A lexical error. The tokenizer recovers by skipping the offending
/// character (or out-of-range literal) and scanning on, so one pass can
/// surface several of these.
#[derive(Debug, Clone, Copy, PartialEq, Eq, Structural)]
pub enum LexError {
    /// A character that starts no token.
    UnexpectedChar(Span),
    /// A digit sequence whose value does not fit the 32-bit literal type
    /// that its (absent or present) suffix selects.
    LiteralOutOfRange(Span),
}

/// Why a parse failed at `ParseError::span`.
#[derive(Debug, Clone, PartialEq, Eq)]
pub enum ParseReason {
    /// The token found (`None` at end of input) was none of the expected
    /// shapes.
    UnexpectedToken { expected: Vec<Expected>, found: Option<Token> },
    /// A delimiter opened at `opening` was never closed by the expected
    /// closing token. Part of the shared vocabulary for the renderer; the
    /// grammar engine itself reports every mismatch, a missing closer
    /// included, as `UnexpectedToken` at the blocking position.
    UnclosedDelimiter { opening: Span, expected_closing: Expected },
    /// A failure outside the two structural reasons, described in prose.
    /// Part of the shared vocabulary for the renderer; the engine itself
    /// never needs it.
    Custom { message: String },
}

/// A structured parse error: where it happened and why.
#[derive(Debug, Clone, PartialEq, Eq)]
pub struct ParseError {
    pub span: Span,
    pub reason: ParseReason,
}

// ---------------------------------------------------------------------------
// Mathematical model of the parse errors.
// ---------------------------------------------------------------------------

/// Model of `ParseReason`.
#[verifier::ext_equal]
pub enum SpecParseReason {
    UnexpectedToken { expected: Seq<Expected>, found: Option<SpecToken> },
    UnclosedDelimiter { opening: Span, expected_closing: Expected },
    Custom { message: Seq<char> },
}

/// Model of `ParseError`.
#[verifier::ext_equal]
pub struct SpecParseError {
    pub span: Span,
    pub reason: SpecParseReason,
}

/// The model of an optional token: `None` stands for end of input.
pub open spec fn view_opt_token(o: Option<Token>) -> Option<SpecToken> {
    match o {
        Some(t) => Some(t@),
        None => None,
    }
}

impl View for ParseReason {
    type V = SpecParseReason;

    open spec fn view(&self) -> SpecParseReason {
        match self {
            ParseReason::UnexpectedToken { expected, found } => SpecParseReason::UnexpectedToken {
                expected: expected@,
                found: view_opt_token(*found),
            },
            ParseReason::UnclosedDelimiter { opening, expected_closing } => SpecParseReason::UnclosedDelimiter {
                opening: *opening,
                expected_closing: *expected_closing,
            },
            ParseReason::Custom { message } => SpecParseReason::Custom { message: message@ },
        }
    }
}

impl View for ParseError {
    type V = SpecParseError;

    open spec fn view(&self) -> SpecParseError {
        SpecParseError { span: self.span, reason: self.reason@ }
    }
}

} // verus!
