//! Errors reported by the lexer and the parser.

use vstd::prelude::*;
use crate::span::{Span, Spanned};
use crate::token::TokenInfo;

verus! {

/// What went wrong.
#[derive(Clone, Debug, PartialEq, Eq)]
pub enum ErrorInfo {
    /// A token that no rule of the grammar accepts at this point; `None` at the end of input.
    UnexpectedInput(Option<TokenInfo>),
    /// The input ended in the middle of an escape sequence, with an optional hint: a character to
    /// insert, and what inserting it does.
    UnexpectedEof(Option<(char, String)>),
    /// A `\x`, `\u` or `\U` escape whose digits are not a valid character code.
    InvalidHexEscapeSequence(String),
    /// A backslash followed by a character that starts no escape sequence.
    UnknownEscapeSequence(char),
    /// A mutable binding (`mut x`) used as the target of an assignment.
    MutableAssignmentTarget(Spanned<String>),
    /// A keyword parameter that is not a plain identifier; the span is that of the parameter.
    KeywordParameterNotIdent(Span),
    /// A second `*` separator in a parameter list; the span is that of the separator.
    MultipleKeywordParameterSeparators(Span),
    /// A positional argument after a keyword argument.
    UnexpectedPositionalArgument,
    /// A field visibility whose setter is more public than its getter.
    SetterMorePublicThanGetter,
}

/// An error together with the span it concerns.
#[derive(Clone, Debug, PartialEq, Eq)]
pub struct Error {
    /// What went wrong.
    pub info: ErrorInfo,
    /// Where it went wrong.
    pub span: Span,
}

impl Error {
    /// A token, or the end of input, that the grammar does not accept at `span`.
    pub fn expected_input_found(span: Span, found: Option<TokenInfo>) -> (r: Error)
        ensures
            r == (Error { info: ErrorInfo::UnexpectedInput(found), span }),
    {
        Error { info: ErrorInfo::UnexpectedInput(found), span }
    }

    /// The input ended inside an escape sequence; `hint` suggests a character to insert.
    pub fn unexpected_eof(span: Span, hint: Option<(char, String)>) -> (r: Error)
        ensures
            r == (Error { info: ErrorInfo::UnexpectedEof(hint), span }),
    {
        Error { info: ErrorInfo::UnexpectedEof(hint), span }
    }

    /// The digits `sequence` of a hexadecimal escape are not a character code.
    pub fn invalid_hex_escape_sequence(sequence: String, span: Span) -> (r: Error)
        ensures
            r == (Error { info: ErrorInfo::InvalidHexEscapeSequence(sequence), span }),
    {
        Error { info: ErrorInfo::InvalidHexEscapeSequence(sequence), span }
    }

    /// `\c` is no escape sequence.
    pub fn unknown_escape_sequence(c: char, span: Span) -> (r: Error)
        ensures
            r == (Error { info: ErrorInfo::UnknownEscapeSequence(c), span }),
    {
        Error { info: ErrorInfo::UnknownEscapeSequence(c), span }
    }

    /// The binding `ident`, declared `mut` at `span`, is the target of an assignment.
    pub fn mutable_assignment_target(span: Span, ident: Spanned<String>) -> (r: Error)
        ensures
            r == (Error { info: ErrorInfo::MutableAssignmentTarget(ident), span }),
    {
        Error { info: ErrorInfo::MutableAssignmentTarget(ident), span }
    }

    /// The keyword parameter at `param` in the function header at `header` is not an identifier.
    pub fn keyword_parameter_not_ident(header: Span, param: Span) -> (r: Error)
        ensures
            r == (Error { info: ErrorInfo::KeywordParameterNotIdent(param), span: header }),
    {
        Error { info: ErrorInfo::KeywordParameterNotIdent(param), span: header }
    }

    /// A second `*` separator at `sep` in the function header at `header`.
    pub fn multiple_keyword_parameter_separators(header: Span, sep: Span) -> (r: Error)
        ensures
            r == (Error { info: ErrorInfo::MultipleKeywordParameterSeparators(sep), span: header }),
    {
        Error { info: ErrorInfo::MultipleKeywordParameterSeparators(sep), span: header }
    }

    /// The field visibility at `span` makes the setter more public than the getter.
    pub fn setter_more_public_than_getter(span: Span) -> (r: Error)
        ensures
            r == (Error { info: ErrorInfo::SetterMorePublicThanGetter, span }),
    {
        Error { info: ErrorInfo::SetterMorePublicThanGetter, span }
    }

    /// A positional argument at `span` follows a keyword argument.
    pub fn unexpected_positional_argument(span: Span) -> (r: Error)
        ensures
            r == (Error { info: ErrorInfo::UnexpectedPositionalArgument, span }),
    {
        Error { info: ErrorInfo::UnexpectedPositionalArgument, span }
    }
}

} // verus!

verus! {

/// Model of [`ErrorInfo`], with character sequences in place of strings.
pub enum SpecErrorInfo {
    UnexpectedInput(Option<TokenInfo>),
    UnexpectedEof(Option<(char, Seq<char>)>),
    InvalidHexEscapeSequence(Seq<char>),
    UnknownEscapeSequence(char),
    MutableAssignmentTarget(Spanned<Seq<char>>),
    KeywordParameterNotIdent(Span),
    MultipleKeywordParameterSeparators(Span),
    UnexpectedPositionalArgument,
    SetterMorePublicThanGetter,
}

/// Model of [`Error`].
pub struct SpecError {
    pub info: SpecErrorInfo,
    pub span: Span,
}

/// View of an error.
pub open spec fn v_error(e: Error) -> SpecError {
    SpecError {
        info: match e.info {
            ErrorInfo::UnexpectedInput(t) => SpecErrorInfo::UnexpectedInput(t),
            ErrorInfo::UnexpectedEof(h) => SpecErrorInfo::UnexpectedEof(
                match h {
                    Some((c, s)) => Some((c, s@)),
                    None => None,
                },
            ),
            ErrorInfo::InvalidHexEscapeSequence(s) => SpecErrorInfo::InvalidHexEscapeSequence(s@),
            ErrorInfo::UnknownEscapeSequence(c) => SpecErrorInfo::UnknownEscapeSequence(c),
            ErrorInfo::MutableAssignmentTarget(n) => SpecErrorInfo::MutableAssignmentTarget(
                Spanned(n.0@, n.1),
            ),
            ErrorInfo::KeywordParameterNotIdent(s) => SpecErrorInfo::KeywordParameterNotIdent(s),
            ErrorInfo::MultipleKeywordParameterSeparators(s) =>
                SpecErrorInfo::MultipleKeywordParameterSeparators(s),
            ErrorInfo::UnexpectedPositionalArgument => SpecErrorInfo::UnexpectedPositionalArgument,
            ErrorInfo::SetterMorePublicThanGetter => SpecErrorInfo::SetterMorePublicThanGetter,
        },
        span: e.span,
    }
}

} // verus!
