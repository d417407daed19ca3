//! The parser over a source: it reads the source's tokens and parses expressions and bodies from
//! them, as the grammar describes.

use vstd::prelude::*;
use crate::ast::{Expr, Node};
use crate::error::{v_error, Error, SpecError};
use crate::grammar::{sp_body, sp_expr};
use crate::lexer::{lex, tokenize, v_tokens};
use crate::model::{v_nodes, v_sp_expr, SpecExpr, SpecNode};
use crate::pcore::{fail_at, fail_at_exec, wf_toks, Toks};
use crate::pexpr::expr_parser;
use crate::pstmt::body_parser;
use crate::span::{Provider, Spanned};
use crate::token::TokenInfo;

verus! {

/// Parses a token stream into an AST.
pub struct Parser {
    tokens: Vec<Spanned<TokenInfo>>,
    pos: usize,
}

/// An expression at `p` that reaches the end of the tokens.
pub open spec fn sp_expr_until_end(t: Toks, p: int) -> Result<Spanned<SpecExpr>, SpecError> {
    match sp_expr(t, p) {
        Ok((e, q)) => if q == t.len() {
            Ok(e)
        } else {
            Err(fail_at(t, q))
        },
        Err(e) => Err(e),
    }
}

/// A body at `p` that reaches the end of the tokens.
pub open spec fn sp_body_until_end(t: Toks, p: int) -> Result<Seq<Spanned<SpecNode>>, SpecError> {
    let (nodes, q) = sp_body(t, p);
    if q == t.len() {
        Ok(nodes)
    } else {
        Err(fail_at(t, q))
    }
}

/// The view of the errors of a parse: it reports exactly one error.
pub open spec fn v_errors(es: Vec<Error>) -> SpecError {
    v_error(es@[0])
}

/// The single error `e`.
fn one_error(e: Error) -> (r: Vec<Error>)
    ensures
        r@.len() == 1,
        r@[0] == e,
{
    let mut v = Vec::new();
    v.push(e);
    v
}

impl Parser {
    /// The parser's position lies within its tokens, and the tokens are fit to be parsed.
    #[verifier::type_invariant]
    spec fn inv(self) -> bool {
        self.pos <= self.tokens@.len() && wf_toks(self.tokens@)
    }

    /// The tokens the parser reads.
    pub closed spec fn tokens(self) -> Toks {
        self.tokens@
    }

    /// The position of the next token to be read.
    pub closed spec fn pos(self) -> int {
        self.pos as int
    }

    /// A parser at the start of the tokens of `provider`.
    pub fn from_provider(provider: &Provider) -> (r: Parser)
        requires
            provider@.len() + 32 <= usize::MAX,
        ensures
            v_tokens(r.tokens()) == lex(provider@),
            r.pos() == 0,
    {
        Parser { tokens: tokenize(provider), pos: 0 }
    }

    /// A parser at the start of the tokens of `src`.
    pub fn from_str(src: &str) -> (r: Parser)
        requires
            src@.len() + 32 <= usize::MAX,
        ensures
            v_tokens(r.tokens()) == lex(src@),
            r.pos() == 0,
    {
        let provider = Provider::new(src);
        Parser::from_provider(&provider)
    }

    /// Consumes the next expression in the token stream; on an error, nothing is consumed.
    pub fn next_expr(&mut self) -> (r: Result<Spanned<Expr>, Vec<Error>>)
        ensures
            final(self).tokens() == old(self).tokens(),
            match (r, sp_expr(old(self).tokens(), old(self).pos())) {
                (Ok(e), Ok((se, q))) => v_sp_expr(e) == se && final(self).pos() == q,
                (Err(es), Err(se)) => es@.len() == 1 && v_errors(es) == se && final(self).pos()
                    == old(self).pos(),
                _ => false,
            },
    {
        proof {
            use_type_invariant(&*self);
        }
        match expr_parser(&self.tokens, self.pos) {
            Ok((e, q)) => {
                self.pos = q;
                Ok(e)
            },
            Err(e) => Err(one_error(e)),
        }
    }

    /// Consumes the rest of the token stream as one expression.
    pub fn consume_expr_until_end(&mut self) -> (r: Result<Spanned<Expr>, Vec<Error>>)
        ensures
            final(self).tokens() == old(self).tokens(),
            match (r, sp_expr_until_end(old(self).tokens(), old(self).pos())) {
                (Ok(e), Ok(se)) => v_sp_expr(e) == se && final(self).pos()
                    == final(self).tokens().len(),
                (Err(es), Err(se)) => es@.len() == 1 && v_errors(es) == se && final(self).pos()
                    == old(self).pos(),
                _ => false,
            },
    {
        proof {
            use_type_invariant(&*self);
        }
        match expr_parser(&self.tokens, self.pos) {
            Ok((e, q)) => {
                if q == self.tokens.len() {
                    self.pos = q;
                    Ok(e)
                } else {
                    Err(one_error(fail_at_exec(&self.tokens, q)))
                }
            },
            Err(e) => Err(one_error(e)),
        }
    }

    /// Consumes the rest of the token stream as one expression.
    pub fn consume_expr(&mut self) -> (r: Result<Spanned<Expr>, Vec<Error>>)
        ensures
            final(self).tokens() == old(self).tokens(),
            match (r, sp_expr_until_end(old(self).tokens(), old(self).pos())) {
                (Ok(e), Ok(se)) => v_sp_expr(e) == se && final(self).pos()
                    == final(self).tokens().len(),
                (Err(es), Err(se)) => es@.len() == 1 && v_errors(es) == se && final(self).pos()
                    == old(self).pos(),
                _ => false,
            },
    {
        self.consume_expr_until_end()
    }

    /// Consumes the rest of the token stream as a body.
    pub fn consume_body_until_end(&mut self) -> (r: Result<Vec<Spanned<Node>>, Vec<Error>>)
        ensures
            final(self).tokens() == old(self).tokens(),
            match (r, sp_body_until_end(old(self).tokens(), old(self).pos())) {
                (Ok(ns), Ok(sns)) => v_nodes(ns@) == sns && final(self).pos()
                    == final(self).tokens().len(),
                (Err(es), Err(se)) => es@.len() == 1 && v_errors(es) == se && final(self).pos()
                    == old(self).pos(),
                _ => false,
            },
    {
        proof {
            use_type_invariant(&*self);
        }
        let (nodes, q) = body_parser(&self.tokens, self.pos);
        if q == self.tokens.len() {
            self.pos = q;
            Ok(nodes)
        } else {
            Err(one_error(fail_at_exec(&self.tokens, q)))
        }
    }
}

} // verus!
