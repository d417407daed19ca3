//! Properties of the library as a whole: how its parts fit together.

use vstd::prelude::*;
use crate::ast::{Delimiter, MemberVisibility};
use crate::escape::{resolve_from, spec_resolve_string};
use crate::grammar::{
    sp_body, sp_body_items, sp_braced_if, sp_break, sp_const, sp_continue, sp_expr_stmt, sp_func,
    sp_expr, sp_let, sp_return, sp_stmt, sp_stmt_padded, sp_struct, sp_ternary,
};
use crate::lexer::{lex, lex_from, SpecToken};
use crate::model::{SpecExpr, SpecNode};
use crate::parse_misc::{accessor, accessor_scope, expanded_field_vis, sp_field_vis, sp_member_vis};
use crate::pcore::Toks;
use crate::span::{Span, Spanned};
use crate::token::{StringLiteralFlags, TokenInfo};

verus! {

/// The source made of the opening character of a delimiter reads as the delimiter's opening
/// token, and the one made of its closing character as its closing token.
pub proof fn law_delimiter_tokens(d: Delimiter)
    ensures
        lex(seq![d.spec_open()]) == seq![
            Spanned(SpecToken::Plain(d.spec_open_token()), Span { start: 0, end: 1 }),
        ],
        lex(seq![d.spec_close()]) == seq![
            Spanned(SpecToken::Plain(d.spec_close_token()), Span { start: 0, end: 1 }),
        ],
{
    reveal_with_fuel(lex_from, 2);
    assert(lex(seq![d.spec_open()]) =~= seq![
        Spanned(SpecToken::Plain(d.spec_open_token()), Span { start: 0, end: 1 }),
    ]);
    assert(lex(seq![d.spec_close()]) =~= seq![
        Spanned(SpecToken::Plain(d.spec_close_token()), Span { start: 0, end: 1 }),
    ]);
}

/// Whether a body is exactly one expression node.
pub open spec fn one_expr_node(b: Seq<Spanned<SpecNode>>) -> bool {
    b.len() == 1 && b[0].0 is Expr
}

/// An `if` written with `then` and `else` is a ternary: it has an `else` branch, no `else if`
/// branch, and each branch is exactly one `Expr` node. An `if` written with braces is not a
/// ternary.
pub proof fn law_ternary_shape(t: Toks, p: int)
    ensures
        sp_ternary(t, p) matches Ok((e, _)) ==> (e.0 matches SpecExpr::If {
            body,
            else_if_bodies,
            else_body,
            ternary,
            ..
        } && ternary && else_body is Some && else_if_bodies.len() == 0 && one_expr_node(
            body.0,
        ) && one_expr_node(else_body->Some_0.0)),
        sp_braced_if(t, p) matches Ok((e, _)) ==> (e.0 matches SpecExpr::If { ternary, .. }
            && !ternary),
{
    reveal(sp_ternary);
    reveal(sp_braced_if);
}

/// Whether a node is an implicit return.
pub open spec fn is_implicit_return(n: Spanned<SpecNode>) -> bool {
    n.0 is ImplicitReturn
}

/// No statement is an implicit return.
proof fn lemma_stmt_not_implicit_return(t: Toks, p: int)
    ensures
        sp_stmt_padded(t, p) matches Ok((n, _)) ==> !(n.0 is ImplicitReturn),
{
    reveal(sp_stmt_padded);
    reveal(sp_stmt);
    assert(sp_let(t, p) matches Ok((n, _)) ==> !(n.0 is ImplicitReturn)) by {
        reveal(sp_let);
    }
    assert(sp_const(t, p) matches Ok((n, _)) ==> !(n.0 is ImplicitReturn)) by {
        reveal(sp_const);
    }
    assert(sp_func(t, p) matches Ok((n, _)) ==> !(n.0 is ImplicitReturn)) by {
        reveal(sp_func);
    }
    assert(sp_struct(t, p) matches Ok((n, _)) ==> !(n.0 is ImplicitReturn)) by {
        reveal(sp_struct);
    }
    assert(sp_break(t, p) matches Ok((n, _)) ==> !(n.0 is ImplicitReturn)) by {
        reveal(sp_break);
    }
    assert(sp_continue(t, p) matches Ok((n, _)) ==> !(n.0 is ImplicitReturn)) by {
        reveal(sp_continue);
    }
    assert(sp_return(t, p) matches Ok((n, _)) ==> !(n.0 is ImplicitReturn)) by {
        reveal(sp_return);
    }
    assert(sp_expr_stmt(t, p) matches Ok((n, _)) ==> !(n.0 is ImplicitReturn)) by {
        reveal(sp_expr_stmt);
    }
}

/// The statements of a body keep what came before them, and none of them is an implicit
/// return.
proof fn lemma_body_items_no_implicit_return(t: Toks, q: int, acc: Seq<Spanned<SpecNode>>)
    ensures
        sp_body_items(t, q, acc).0.len() >= acc.len(),
        sp_body_items(t, q, acc).0.subrange(0, acc.len() as int) == acc,
        forall|i: int|
            acc.len() <= i < sp_body_items(t, q, acc).0.len() ==> !is_implicit_return(
            #[trigger] sp_body_items(t, q, acc).0[i],
        ),
    decreases t.len() - q,
{
    reveal(sp_body_items);
    reveal(sp_stmt_padded);
    if 0 <= q <= t.len() {
        lemma_stmt_not_implicit_return(t, q);
        match sp_stmt_padded(t, q) {
            Ok((n, r)) => if q < r <= t.len() {
                lemma_body_items_no_implicit_return(t, r, acc.push(n));
                assert(sp_body_items(t, q, acc) == sp_body_items(t, r, acc.push(n)));
                let res = sp_body_items(t, r, acc.push(n)).0;
                assert(res.subrange(0, acc.len() as int) =~= acc) by {
                    assert(res.subrange(0, (acc.len() + 1) as int) == acc.push(n));
                    assert forall|i: int| 0 <= i < acc.len() implies res[i] == acc[i] by {
                        assert(res.subrange(0, (acc.len() + 1) as int)[i] == acc.push(n)[i]);
                    }
                }
                assert forall|i: int| acc.len() <= i < res.len() implies !is_implicit_return(
                #[trigger] res[i],
                ) by {
                    if i == acc.len() {
                        assert(res.subrange(0, (acc.len() + 1) as int)[i] == acc.push(n)[i]);
                    }
                }
            } else {
                assert(sp_body_items(t, q, acc) == (acc, q));
                assert(acc.subrange(0, acc.len() as int) =~= acc);
            },
            Err(_) => {
                assert(sp_body_items(t, q, acc) == (acc, q));
                assert(acc.subrange(0, acc.len() as int) =~= acc);
            },
        }
    } else {
        assert(acc.subrange(0, acc.len() as int) =~= acc);
    }
}

/// In a body, only the last node can be an implicit return: it holds the expression that ends
/// the body without a semicolon.
pub proof fn law_implicit_return_last(t: Toks, p: int)
    ensures
        forall|i: int|
            0 <= i < sp_body(t, p).0.len() - 1 ==> !is_implicit_return(
                #[trigger] sp_body(t, p).0[i],
            ),
{
    reveal(sp_body);
    reveal(sp_body_items);
    reveal(sp_expr);
    lemma_body_items_no_implicit_return(t, p, Seq::empty());
    let items = sp_body_items(t, p, Seq::empty()).0;
    let nodes = sp_body(t, p).0;
    assert(nodes.len() <= items.len() + 1);
    assert forall|i: int| 0 <= i < nodes.len() - 1 implies !is_implicit_return(
        #[trigger] nodes[i],
    ) by {
        assert(nodes[i] == items[i]);
        assert(!is_implicit_return(items[i]));
    }
}

/// The content of a raw string literal is kept as written.
pub proof fn law_raw_string_verbatim(content: Seq<char>, flags: StringLiteralFlags, span: Span)
    requires
        flags.spec_is_raw(),
    ensures
        spec_resolve_string(content, flags, span) == Ok::<Seq<char>, crate::error::SpecError>(
            content,
        ),
{
}

/// Content without a backslash resolves from any index to the rest of itself.
proof fn lemma_resolve_plain_from(cs: Seq<char>, i: int, pos: int)
    requires
        0 <= i <= cs.len(),
        forall|k: int| 0 <= k < cs.len() ==> cs[k] != '\\',
    ensures
        resolve_from(cs, i, pos) == Ok::<Seq<char>, crate::error::SpecError>(
            cs.subrange(i, cs.len() as int),
        ),
    decreases cs.len() - i,
{
    if i < cs.len() {
        lemma_resolve_plain_from(cs, i + 1, pos + 1);
        assert(seq![cs[i]] + cs.subrange(i + 1, cs.len() as int) =~= cs.subrange(
            i,
            cs.len() as int,
        ));
    } else {
        assert(cs.subrange(i, cs.len() as int) =~= Seq::<char>::empty());
    }
}

/// The content of a string literal with no backslash in it is kept as written, raw or not.
pub proof fn law_resolve_without_escapes(
    content: Seq<char>,
    flags: StringLiteralFlags,
    span: Span,
)
    requires
        forall|k: int| 0 <= k < content.len() ==> content[k] != '\\',
    ensures
        spec_resolve_string(content, flags, span) == Ok::<Seq<char>, crate::error::SpecError>(
            content,
        ),
{
    lemma_resolve_plain_from(content, 0, span.start as int);
    assert(content.subrange(0, content.len() as int) =~= content);
}

/// A field visibility written without `get` and `set` gives the getter and the setter the same
/// visibility, that of a member, with no spans of their own.
pub proof fn law_field_vis_unexpanded(t: Toks, p: int)
    requires
        expanded_field_vis(t, p) is None,
    ensures
        sp_field_vis(t, p).0.0.get == (sp_member_vis(t, p).0.0, None::<Span>),
        sp_field_vis(t, p).0.0.set == sp_field_vis(t, p).0.0.get,
{
}

/// In the expanded form `public(...)`, an accessor that is not written is private and has no
/// span, and at least one of the two is written.
pub proof fn law_field_vis_expanded(t: Toks, p: int)
    requires
        expanded_field_vis(t, p) is Some,
    ensures
        sp_field_vis(t, p).0.0.get.1 is None ==> sp_field_vis(t, p).0.0.get.0
            == MemberVisibility::Private,
        sp_field_vis(t, p).0.0.set.1 is None ==> sp_field_vis(t, p).0.0.set.0
            == MemberVisibility::Private,
        sp_field_vis(t, p).0.0.get.1 is Some || sp_field_vis(t, p).0.0.set.1 is Some,
{
}

/// An accessor (`get` or `set`) written without a scope keyword before it is public.
pub proof fn law_accessor_default_public(t: Toks, p: int, word: Seq<char>)
    requires
        accessor_scope(t, p).0 is None,
        accessor(t, p, word) is Some,
    ensures
        accessor(t, p, word)->Some_0.0.0 == MemberVisibility::Public,
{
}

/// `public(private)` is another way to write `private`: written with no whitespace inside, all
/// four tokens are consumed and the member is private.
pub proof fn law_member_vis_public_private(t: Toks, p: int)
    requires
        crate::pcore::is_kw(t, p, "public"@),
        crate::pcore::tok_is(t, p + 1, TokenInfo::LeftParen),
        crate::pcore::is_kw(t, p + 2, "private"@),
        crate::pcore::tok_is(t, p + 3, TokenInfo::RightParen),
    ensures
        sp_member_vis(t, p).0.0 == MemberVisibility::Private,
        sp_member_vis(t, p).1 == crate::pcore::skip_ws(t, p + 4),
{
    reveal_strlit("public");
    reveal_strlit("private");
    assert("public"@[1] != "private"@[1]);
    assert(!crate::pcore::is_kw(t, p, "private"@));
    assert(crate::pcore::skip_ws(t, p + 1) == p + 1);
    assert(crate::pcore::skip_ws(t, p + 2) == p + 2);
    assert(crate::pcore::skip_ws(t, p + 3) == p + 3);
    assert(crate::parse_misc::member_scope(t, p + 2) == Some(MemberVisibility::Private));
    assert(crate::parse_misc::member_scope_parens(t, p + 1) == Some((MemberVisibility::Private, p + 4)));
}

/// Without a visibility keyword, a member is visible within its module.
pub proof fn law_member_vis_default(t: Toks, p: int)
    requires
        !(crate::pcore::is_kw(t, p, "private"@) || crate::pcore::is_kw(t, p, "public"@)),
    ensures
        sp_member_vis(t, p).0.0 == MemberVisibility::Mod,
{
}

} // verus!
