//! Tokens produced by the lexer and consumed by the parser.

use vstd::prelude::*;
use crate::span::Span;

verus! {

/// The radix an integer literal was written in.
#[derive(Copy, Clone, Debug, PartialEq, Eq, Hash, Structural)]
pub enum Radix {
    /// No prefix.
    Decimal,
    /// The `0x` prefix.
    Hexadecimal,
    /// The `0o` prefix.
    Octal,
    /// The `0b` prefix.
    Binary,
}

/// Flags of a string literal; bit `0` marks a raw string, whose escapes are kept verbatim.
#[derive(Copy, Clone, Debug, PartialEq, Eq, Hash, Structural)]
pub struct StringLiteralFlags(pub u8);

impl StringLiteralFlags {
    /// Whether the literal is raw.
    pub open spec fn spec_is_raw(self) -> bool {
        self.0 % 2 == 1
    }

    /// Whether the literal is raw, i.e. its escape sequences are not resolved.
    #[verifier::when_used_as_spec(spec_is_raw)]
    pub fn is_raw(self) -> (r: bool)
        ensures
            r == self.spec_is_raw(),
    {
        self.0 % 2 == 1
    }
}

/// The kind and payload of a token.
#[derive(Clone, Debug, PartialEq, Eq, Hash)]
pub enum TokenInfo {
    /// A run of whitespace or a comment.
    Whitespace,
    /// An identifier or keyword; the flag tells whether it was written raw (`r#name`).
    Ident(String, bool),
    /// An integer literal: its digits without prefix, and its radix.
    IntLiteral(String, Radix),
    /// A floating-point literal, as written.
    FloatLiteral(String),
    /// A string literal: its content between the quotes, its flags, and the span of the content.
    StringLiteral(String, StringLiteralFlags, Span),
    /// A character literal: its content between the quotes, and the span of the content.
    CharLiteral(String, Span),
    /// `(`
    LeftParen,
    /// `)`
    RightParen,
    /// `[`
    LeftBracket,
    /// `]`
    RightBracket,
    /// `{`
    LeftBrace,
    /// `}`
    RightBrace,
    /// `<`
    Lt,
    /// `>`
    Gt,
    /// `,`
    Comma,
    /// `.`
    Dot,
    /// `:`
    Colon,
    /// `;`
    Semicolon,
    /// `=`
    Equals,
    /// `-`
    Minus,
    /// `+`
    Plus,
    /// `!`
    Not,
    /// `~`
    Tilde,
    /// `*`
    Asterisk,
    /// `/`
    Divide,
    /// `%`
    Modulus,
    /// `&`
    And,
    /// `|`
    Or,
    /// `^`
    Caret,
    /// `?`
    Question,
    /// Any other character.
    Invalid(char),
}

} // verus!

verus! {

/// Whether a token carries no payload.
pub open spec fn is_plain(k: TokenInfo) -> bool {
    !(k is Ident || k is IntLiteral || k is FloatLiteral || k is StringLiteral || k is CharLiteral
        || k is Invalid)
}

impl TokenInfo {
    /// An exact copy of the token.
    pub fn duplicate(&self) -> (r: TokenInfo)
        ensures
            r == *self,
    {
        match self {
            TokenInfo::Whitespace => TokenInfo::Whitespace,
            TokenInfo::Ident(s, b) => TokenInfo::Ident(s.clone(), *b),
            TokenInfo::IntLiteral(s, r) => TokenInfo::IntLiteral(s.clone(), *r),
            TokenInfo::FloatLiteral(s) => TokenInfo::FloatLiteral(s.clone()),
            TokenInfo::StringLiteral(s, f, sp) => TokenInfo::StringLiteral(s.clone(), *f, *sp),
            TokenInfo::CharLiteral(s, sp) => TokenInfo::CharLiteral(s.clone(), *sp),
            TokenInfo::LeftParen => TokenInfo::LeftParen,
            TokenInfo::RightParen => TokenInfo::RightParen,
            TokenInfo::LeftBracket => TokenInfo::LeftBracket,
            TokenInfo::RightBracket => TokenInfo::RightBracket,
            TokenInfo::LeftBrace => TokenInfo::LeftBrace,
            TokenInfo::RightBrace => TokenInfo::RightBrace,
            TokenInfo::Lt => TokenInfo::Lt,
            TokenInfo::Gt => TokenInfo::Gt,
            TokenInfo::Comma => TokenInfo::Comma,
            TokenInfo::Dot => TokenInfo::Dot,
            TokenInfo::Colon => TokenInfo::Colon,
            TokenInfo::Semicolon => TokenInfo::Semicolon,
            TokenInfo::Equals => TokenInfo::Equals,
            TokenInfo::Minus => TokenInfo::Minus,
            TokenInfo::Plus => TokenInfo::Plus,
            TokenInfo::Not => TokenInfo::Not,
            TokenInfo::Tilde => TokenInfo::Tilde,
            TokenInfo::Asterisk => TokenInfo::Asterisk,
            TokenInfo::Divide => TokenInfo::Divide,
            TokenInfo::Modulus => TokenInfo::Modulus,
            TokenInfo::And => TokenInfo::And,
            TokenInfo::Or => TokenInfo::Or,
            TokenInfo::Caret => TokenInfo::Caret,
            TokenInfo::Question => TokenInfo::Question,
            TokenInfo::Invalid(c) => TokenInfo::Invalid(*c),
        }
    }

    /// Whether the token is the payload-free token `k`.
    pub fn is(&self, k: &TokenInfo) -> (r: bool)
        requires
            is_plain(*k),
        ensures
            r == (*self == *k),
    {
        match (self, k) {
            (TokenInfo::Whitespace, TokenInfo::Whitespace) => true,
            (TokenInfo::LeftParen, TokenInfo::LeftParen) => true,
            (TokenInfo::RightParen, TokenInfo::RightParen) => true,
            (TokenInfo::LeftBracket, TokenInfo::LeftBracket) => true,
            (TokenInfo::RightBracket, TokenInfo::RightBracket) => true,
            (TokenInfo::LeftBrace, TokenInfo::LeftBrace) => true,
            (TokenInfo::RightBrace, TokenInfo::RightBrace) => true,
            (TokenInfo::Lt, TokenInfo::Lt) => true,
            (TokenInfo::Gt, TokenInfo::Gt) => true,
            (TokenInfo::Comma, TokenInfo::Comma) => true,
            (TokenInfo::Dot, TokenInfo::Dot) => true,
            (TokenInfo::Colon, TokenInfo::Colon) => true,
            (TokenInfo::Semicolon, TokenInfo::Semicolon) => true,
            (TokenInfo::Equals, TokenInfo::Equals) => true,
            (TokenInfo::Minus, TokenInfo::Minus) => true,
            (TokenInfo::Plus, TokenInfo::Plus) => true,
            (TokenInfo::Not, TokenInfo::Not) => true,
            (TokenInfo::Tilde, TokenInfo::Tilde) => true,
            (TokenInfo::Asterisk, TokenInfo::Asterisk) => true,
            (TokenInfo::Divide, TokenInfo::Divide) => true,
            (TokenInfo::Modulus, TokenInfo::Modulus) => true,
            (TokenInfo::And, TokenInfo::And) => true,
            (TokenInfo::Or, TokenInfo::Or) => true,
            (TokenInfo::Caret, TokenInfo::Caret) => true,
            (TokenInfo::Question, TokenInfo::Question) => true,
            _ => false,
        }
    }
}

} // verus!
