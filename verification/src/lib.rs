//! Front end of the Terbium language: source spans, tokens, the abstract syntax tree, a
//! verified parser from tokens to that tree, and the high-level intermediate representation.

pub mod span;
pub mod token;
pub mod lexer;
pub mod error;
pub mod ast;
pub mod model;
pub mod text;
pub mod escape;
pub mod pcore;
pub mod parse_misc;
pub mod parse_type;
pub mod grammar;
pub mod pview;
pub mod pstmt;
pub mod pjump;
pub mod pdecl;
pub mod pexpr;
pub mod pbrace;
pub mod pops;
pub mod pchain;
pub mod parser;
pub mod show;
pub mod display;
pub mod display_expr;
pub mod checks;
pub mod clone;
pub mod hir;
pub mod laws;
