use grammar::ast::{
    expr_as_block, Atom, BinaryOp, Delimiter, Expr, FuncParam, ItemVisibility, MemberVisibility,
    Node, Pattern, TypeExpr, UnaryOp, Visibility,
};
use grammar::parse_misc::{field_vis_parser, item_vis_parser, member_vis_parser};
use grammar::parse_type::type_expr_parser;
use grammar::pdecl::split_func_params;
use grammar::pview::ParamItem;
use grammar::error::ErrorInfo;
use grammar::escape::resolve_string;
use grammar::hir::{Ident, IntWidth, ModuleId, ScopeId};
use grammar::lexer::tokenize;
use grammar::parser::Parser;
use grammar::span::{Provider, Span, Spanned};
use grammar::token::{Radix, StringLiteralFlags, TokenInfo};

fn expr_text(src: &str) -> String {
    let mut p = Parser::from_str(src);
    let e = p.consume_expr().unwrap();
    e.0.to_string()
}

fn body(src: &str) -> Vec<Spanned<Node>> {
    let mut p = Parser::from_str(src);
    p.consume_body_until_end().unwrap()
}

fn expr_error(src: &str) -> ErrorInfo {
    let mut p = Parser::from_str(src);
    match p.consume_expr() {
        Ok(_) => panic!("expected an error"),
        Err(es) => {
            assert_eq!(es.len(), 1);
            es[0].info.clone()
        }
    }
}

fn body_error(src: &str) -> ErrorInfo {
    let mut p = Parser::from_str(src);
    match p.consume_body_until_end() {
        Ok(_) => panic!("expected an error"),
        Err(es) => {
            assert_eq!(es.len(), 1);
            es[0].info.clone()
        }
    }
}

#[test]
fn delimiters_open_and_close() {
    assert_eq!(Delimiter::Paren.open(), '(');
    assert_eq!(Delimiter::Bracket.close(), ']');
    assert_eq!(Delimiter::Brace.open_token(), TokenInfo::LeftBrace);
    assert_eq!(Delimiter::Angle.close_token(), TokenInfo::Gt);
    assert_eq!(Delimiter::Angle.to_string(), "angle bracket");
}

#[test]
fn delimiter_characters_lex_to_their_tokens() {
    for d in [Delimiter::Paren, Delimiter::Bracket, Delimiter::Brace, Delimiter::Angle] {
        let src = format!("{}{}", d.open(), d.close());
        let toks = tokenize(&Provider::new(&src));
        assert_eq!(toks.len(), 2);
        assert_eq!(toks[0].0, d.open_token());
        assert_eq!(toks[1].0, d.close_token());
    }
}

#[test]
fn visibility_defaults_to_module() {
    assert_eq!(Visibility::default(), Visibility::Mod);
}

#[test]
fn scope_ids_count_up() {
    let s = ScopeId::default();
    assert_eq!(s.next(), ScopeId(1));
    assert_eq!(s.next().next(), ScopeId(2));
}

#[test]
fn spans_merge() {
    let a = Span::new(2, 5);
    let b = Span::new(4, 9);
    assert_eq!(a.merge(b), Span::new(2, 9));
    assert_eq!(b.merge(a), Span::new(2, 9));
    assert_eq!(a.merge(a), a);
}

#[test]
fn tokens_tile_the_source() {
    let src = "let x = 0x1F + 2.5; // note\n'c' \"s\"";
    let toks = tokenize(&Provider::new(src));
    assert_eq!(toks[0].1.start, 0);
    for w in toks.windows(2) {
        assert_eq!(w[0].1.end, w[1].1.start);
        assert!(w[0].1.start < w[0].1.end);
    }
    assert_eq!(toks.last().unwrap().1.end, src.chars().count());
    assert!(toks.iter().any(|t| t.0 == TokenInfo::IntLiteral("1F".to_string(), Radix::Hexadecimal)));
    assert!(toks.iter().any(|t| t.0 == TokenInfo::FloatLiteral("2.5".to_string())));
    assert!(toks.iter().any(|t| matches!(&t.0, TokenInfo::CharLiteral(c, _) if c == "c")));
}

#[test]
fn unterminated_string_is_invalid() {
    let toks = tokenize(&Provider::new("\"abc"));
    assert_eq!(toks[0].0, TokenInfo::Invalid('"'));
}

#[test]
fn escapes_resolve() {
    let r = resolve_string("a\\n\\x50\\u00e9\\\"".to_string(), StringLiteralFlags(0), Span::new(0, 15));
    assert_eq!(r.unwrap(), "a\nP\u{e9}\"");
}

#[test]
fn raw_strings_keep_escapes() {
    let r = resolve_string("a\\n".to_string(), StringLiteralFlags(1), Span::new(0, 3));
    assert_eq!(r.unwrap(), "a\\n");
}

#[test]
fn unknown_escape_is_an_error() {
    let r = resolve_string("\\q".to_string(), StringLiteralFlags(0), Span::new(10, 12));
    let e = r.unwrap_err();
    assert_eq!(e.info, ErrorInfo::UnknownEscapeSequence('q'));
    assert_eq!(e.span, Span::new(10, 12));
}

#[test]
fn invalid_hex_escape_is_an_error() {
    let r = resolve_string("\\xZZ".to_string(), StringLiteralFlags(0), Span::new(0, 4));
    assert_eq!(r.unwrap_err().info, ErrorInfo::InvalidHexEscapeSequence("ZZ".to_string()));
}

#[test]
fn trailing_backslash_is_an_error() {
    let r = resolve_string("a\\".to_string(), StringLiteralFlags(0), Span::new(0, 2));
    let e = r.unwrap_err();
    assert_eq!(e.info, ErrorInfo::UnexpectedEof(Some(('n', "insert an escape sequence".to_string()))));
    assert_eq!(e.span, Span::single(2));
}

#[test]
fn products_bind_tighter_than_sums() {
    assert_eq!(expr_text("1 + 2 * 3"), "(1 + (2 * 3))");
}

#[test]
fn sums_associate_to_the_left() {
    assert_eq!(expr_text("1 - 2 - 3"), "((1 - 2) - 3)");
}

#[test]
fn powers_associate_to_the_right() {
    assert_eq!(expr_text("2 ** 3 ** 2"), "(2 ** (3 ** 2))");
}

#[test]
fn prefix_operators() {
    assert_eq!(expr_text("-x"), "(-x)");
    assert_eq!(expr_text("!true"), "(!true)");
}

#[test]
fn comparisons_and_logic() {
    assert_eq!(expr_text("a < b && c != d || e"), "(((a < b) && (c != d)) || e)");
}

#[test]
fn chains_of_postfixes() {
    assert_eq!(expr_text("a.b(c, d: 1)[0]"), "((a.b)(c, d: 1)[0])");
}

#[test]
fn tuples_and_arrays() {
    assert_eq!(expr_text("(1,)"), "(1,)");
    assert_eq!(expr_text("(1, 2)"), "(1, 2)");
    assert_eq!(expr_text("[1, 2, 3]"), "[1, 2, 3]");
    assert_eq!(expr_text("(1)"), "1");
}

#[test]
fn literals_display() {
    assert_eq!(expr_text("0x1f"), "0x1f");
    assert_eq!(expr_text("0b101"), "0b101");
    assert_eq!(expr_text("1.5"), "1.5");
    assert_eq!(expr_text("\"a\\tb\""), "\"a\\tb\"");
    assert_eq!(expr_text("'x'"), "'x'");
    assert_eq!(expr_text("void"), "void");
    assert_eq!(expr_text("false"), "false");
}

#[test]
fn casts() {
    assert_eq!(expr_text("x :: int"), "(x::int)");
    assert_eq!(expr_text("a::int"), "(a::int)");
    assert_eq!(expr_text("a::b::c"), "((a::b)::c)");
}

#[test]
fn ternary_if() {
    let mut p = Parser::from_str("if a then b else c");
    let e = p.consume_expr().unwrap();
    match &e.0 {
        Expr::If { ternary, else_body, body, .. } => {
            assert!(*ternary);
            assert_eq!(body.0.len(), 1);
            assert!(matches!(body.0[0].0, Node::Expr(_)));
            assert_eq!(else_body.as_ref().unwrap().0.len(), 1);
            assert!(matches!(else_body.as_ref().unwrap().0[0].0, Node::Expr(_)));
        }
        _ => panic!("expected an if"),
    }
    assert_eq!(e.0.to_string(), "if a {\n    b;\n} else {\n    c;\n}");
}

#[test]
fn braced_if_with_branches() {
    assert_eq!(
        expr_text("if a { 1 } else if b { 2 } else { 3 }"),
        "if a {\n    1\n} else if b {\n    2\n} else {\n    3\n}"
    );
}

#[test]
fn loops_and_blocks() {
    assert_eq!(expr_text("while x { y; }"), "while x {\n    y;\n}");
    assert_eq!(expr_text("loop { break; }"), "loop {\n    break;\n}");
    assert_eq!(expr_text("{ let a = 1; a }"), "{\n    let a = 1;    a\n}");
}

#[test]
fn assignments_chain_to_the_right() {
    assert_eq!(expr_text("x = y = 1"), "(x = (y = 1))");
    assert_eq!(expr_text("x += 2"), "(x += 2)");
}

#[test]
fn statements() {
    let nodes = body("let x: int = 1; const Y = 2; return x if y; x");
    assert_eq!(nodes.len(), 4);
    assert!(matches!(nodes[0].0, Node::Let { .. }));
    assert!(matches!(nodes[1].0, Node::Const { .. }));
    assert!(matches!(nodes[2].0, Node::Return { .. }));
    assert!(matches!(nodes[3].0, Node::ImplicitReturn(_)));
    assert_eq!(nodes[0].0.to_string(), "let x: int = 1;");
    assert_eq!(nodes[2].0.to_string(), "return x if y;");
}

#[test]
fn functions_with_keyword_parameters() {
    let nodes = body("func f(a: int, *, b: int = 2) -> int { a + b }");
    match &nodes[0].0 {
        Node::Func { params, kw_params, .. } => {
            assert_eq!(params.len(), 1);
            assert_eq!(kw_params.len(), 1);
        }
        _ => panic!("expected a function"),
    }
    assert_eq!(
        nodes[0].0.to_string(),
        "func f(a: int, b: int = 2) -> int {\n    (a + b)\n}"
    );
}

#[test]
fn function_without_keyword_parameters_shows_a_star() {
    let nodes = body("func g() {}");
    assert_eq!(nodes[0].0.to_string(), "func g(*) {\n\n}");
}

fn ident_pat(name: &str, start: usize) -> Spanned<Pattern> {
    let end = start + name.len();
    Spanned(Pattern::Ident { ident: Spanned(name.to_string(), Span::new(start, end)), mut_kw: None }, Span::new(start, end))
}

fn param(pat: Spanned<Pattern>) -> ParamItem {
    let span = pat.1;
    ParamItem::Param(Spanned(FuncParam { pat, ty: Spanned(TypeExpr::Infer, span), default: None }, span))
}

#[test]
fn keyword_parameter_must_be_an_identifier() {
    let tuple = Spanned(Pattern::Tuple(vec![], vec![ident_pat("a", 11), ident_pat("b", 14)]), Span::new(10, 16));
    let items = vec![param(ident_pat("x", 7)), ParamItem::Sep(Span::new(8, 9)), param(tuple)];
    let err = split_func_params(Span::new(0, 20), items).unwrap_err();
    assert_eq!(err.info, ErrorInfo::KeywordParameterNotIdent(Span::new(10, 16)));
    assert_eq!(err.span, Span::new(0, 20));
}

#[test]
fn only_one_keyword_separator() {
    let items = vec![param(ident_pat("x", 7)), ParamItem::Sep(Span::new(8, 9)), ParamItem::Sep(Span::new(10, 11))];
    let err = split_func_params(Span::new(0, 20), items).unwrap_err();
    assert_eq!(err.info, ErrorInfo::MultipleKeywordParameterSeparators(Span::new(10, 11)));
}

#[test]
fn parameters_split_at_the_separator() {
    let items = vec![param(ident_pat("x", 7)), ParamItem::Sep(Span::new(8, 9)), param(ident_pat("y", 10))];
    let (params, kw) = split_func_params(Span::new(0, 20), items).unwrap();
    assert_eq!(params.len(), 1);
    assert_eq!(kw.len(), 1);
}

#[test]
fn positional_argument_after_keyword_argument() {
    assert_eq!(expr_error("f(a: 1, 2)"), ErrorInfo::UnexpectedPositionalArgument);
}

#[test]
fn leftover_input_is_an_error() {
    assert!(matches!(expr_error("1 2"), ErrorInfo::UnexpectedInput(Some(_))));
}

#[test]
fn next_expr_moves_on() {
    let mut p = Parser::from_str("1 2");
    assert_eq!(p.next_expr().unwrap().0.to_string(), "1");
    assert_eq!(p.next_expr().unwrap().0.to_string(), "2");
    assert!(p.next_expr().is_err());
}

#[test]
fn structs() {
    let nodes = body("struct P<T> { x: int, y: T }");
    assert_eq!(nodes[0].0.to_string(), "struct P<T> {x: int, y: T}");
}

#[test]
fn immutable_bindings_check() {
    let b = Spanned(
        Pattern::Ident { ident: Spanned("b".to_string(), Span::new(8, 9)), mut_kw: Some(Span::new(4, 7)) },
        Span::new(4, 9),
    );
    let p = Pattern::Tuple(vec![], vec![ident_pat("a", 1), b]);
    let err = p.assert_immutable_bindings().unwrap_err();
    assert_eq!(err.span, Span::new(4, 7));
    match err.info {
        ErrorInfo::MutableAssignmentTarget(name) => assert_eq!(name.0, "b"),
        _ => panic!("expected a mutable binding error"),
    }
    let q = Pattern::Tuple(vec![], vec![ident_pat("a", 1), ident_pat("c", 4)]);
    assert!(q.assert_immutable_bindings().is_ok());
}

#[test]
fn mutable_binding_in_let() {
    let nodes = body("let mut x = 1;");
    match &nodes[0].0 {
        Node::Let { pat, .. } => assert!(pat.0.assert_immutable_bindings().is_err()),
        _ => panic!("expected a let"),
    }
}

#[test]
fn patterns_display() {
    let rest = Spanned(Pattern::Wildcard(Some(Box::new(ident_pat("rest", 5)))), Span::new(4, 9));
    let p = Pattern::Tuple(vec![Spanned("P".to_string(), Span::new(0, 1))], vec![ident_pat("a", 2), rest]);
    assert_eq!(p.to_string(), "P(a, *rest)");
}

#[test]
fn block_of_one_return() {
    let e = Spanned(Expr::Atom(Atom::Bool(true)), Span::new(3, 7));
    let b = expr_as_block(e);
    assert_eq!(b.1, Span::new(3, 7));
    assert_eq!(b.0.len(), 1);
    assert!(matches!(&b.0[0].0, Node::ImplicitReturn(x) if x.1 == Span::new(3, 7)));
}

#[test]
fn operators_display() {
    assert_eq!(UnaryOp::BitNot.to_string(), "~");
    assert_eq!(BinaryOp::Shl.to_string(), "<<");
    assert_eq!(BinaryOp::LogicalOr.to_string(), "||");
}

#[test]
fn strings_display_with_escapes() {
    assert_eq!(Atom::String("a\"b".to_string()).to_string(), "\"a\\\"b\"");
    assert_eq!(Atom::Char('\n').to_string(), "'\\n'");
}

#[test]
fn patterns_with_mut_display() {
    let p = Pattern::Ident { ident: Spanned("x".to_string(), Span::new(0, 1)), mut_kw: Some(Span::new(0, 3)) };
    assert_eq!(p.to_string(), "mut x");
}

#[test]
fn identifiers_are_interned() {
    let a = Ident::new("alpha");
    let b = Ident::new("alpha");
    assert_eq!(a, b);
    assert_eq!(a.to_string(), "alpha");
    assert_ne!(a, Ident::new("beta"));
}

#[test]
fn module_ids_join_with_dots() {
    let m = ModuleId::new(vec!["std".to_string(), "io".to_string()]);
    assert_eq!(m.to_string(), "std.io");
}

#[test]
fn int_width_bits() {
    assert_eq!(IntWidth::default(), IntWidth::Int32);
    assert_eq!(IntWidth::Int64.bits(), Some(64));
    assert_eq!(IntWidth::Unknown.bits(), None);
    assert!(IntWidth::Unknown < IntWidth::Int8);
}

fn field_vis(src: &str) -> ((MemberVisibility, bool), (MemberVisibility, bool), usize) {
    let toks = tokenize(&Provider::new(src));
    let (fv, q) = field_vis_parser(&toks, 0).unwrap();
    ((fv.0.get.0, fv.0.get.1.is_some()), (fv.0.set.0, fv.0.set.1.is_some()), q)
}

fn field_vis_error(src: &str) -> (ErrorInfo, Span) {
    let toks = tokenize(&Provider::new(src));
    let e = field_vis_parser(&toks, 0).unwrap_err();
    (e.info, e.span)
}

#[test]
fn setter_more_public_than_getter_is_refused() {
    assert_eq!(
        field_vis_error("public(set)"),
        (ErrorInfo::SetterMorePublicThanGetter, Span::new(0, 11))
    );
    assert_eq!(field_vis_error("public(lib set)").0, ErrorInfo::SetterMorePublicThanGetter);
    assert_eq!(field_vis_error("public(mod get, lib set)").0, ErrorInfo::SetterMorePublicThanGetter);
    assert_eq!(field_vis_error("public(private get, set)").0, ErrorInfo::SetterMorePublicThanGetter);
}


#[test]
fn field_visibility_expansions() {
    assert_eq!(field_vis("public(get, set)"), ((MemberVisibility::Public, true), (MemberVisibility::Public, true), 7));
    assert_eq!(field_vis("public(get)"), ((MemberVisibility::Public, true), (MemberVisibility::Private, false), 4));
    assert_eq!(field_vis("public(lib get)"), ((MemberVisibility::Lib, true), (MemberVisibility::Private, false), 6));
    assert_eq!(field_vis("public(get, private set)"), ((MemberVisibility::Public, true), (MemberVisibility::Private, true), 9));
    assert_eq!(field_vis("public(get, mod set)"), ((MemberVisibility::Public, true), (MemberVisibility::Mod, true), 9));
    assert_eq!(field_vis("public(lib get, mod set)"), ((MemberVisibility::Lib, true), (MemberVisibility::Mod, true), 11));
}

#[test]
fn field_visibility_unexpanded() {
    assert_eq!(field_vis("public"), ((MemberVisibility::Public, false), (MemberVisibility::Public, false), 1));
    assert_eq!(field_vis("public(lib)"), ((MemberVisibility::Lib, false), (MemberVisibility::Lib, false), 4));
    assert_eq!(field_vis("private"), ((MemberVisibility::Private, false), (MemberVisibility::Private, false), 1));
    assert_eq!(field_vis("x"), ((MemberVisibility::Mod, false), (MemberVisibility::Mod, false), 0));
}

#[test]
fn member_and_item_visibility() {
    let toks = tokenize(&Provider::new("public(sub) x"));
    let (v, q) = member_vis_parser(&toks, 0);
    assert_eq!(v.0, MemberVisibility::Sub);
    assert_eq!(v.1, Span::new(0, 11));
    assert_eq!(q, 5);
    let toks = tokenize(&Provider::new("public(super)"));
    assert_eq!(item_vis_parser(&toks, 0), (ItemVisibility::Super, 4));
    let toks = tokenize(&Provider::new("private"));
    assert_eq!(item_vis_parser(&toks, 0), (ItemVisibility::Mod, 1));
    let toks = tokenize(&Provider::new("public(private)"));
    let (v, q) = member_vis_parser(&toks, 0);
    assert_eq!((v.0, q), (MemberVisibility::Private, 4));
    assert_eq!(field_vis("public(private)"), ((MemberVisibility::Private, false), (MemberVisibility::Private, false), 4));
    let toks = tokenize(&Provider::new("y"));
    assert_eq!(member_vis_parser(&toks, 0).0 .0, MemberVisibility::Mod);
}

#[test]
fn strings_without_escapes_are_unchanged() {
    let r = resolve_string("plain text".to_string(), StringLiteralFlags(0), Span::new(3, 13));
    assert_eq!(r.unwrap(), "plain text");
}

fn ty(src: &str) -> (TypeExpr, usize, usize) {
    let toks = tokenize(&Provider::new(src));
    let n = toks.len();
    let (t, q) = type_expr_parser(&toks, 0).unwrap();
    (t.0, q, n)
}

fn ty_text(src: &str) -> String {
    let (t, q, n) = ty(src);
    assert_eq!(q, n, "the whole of {src:?} is one type");
    t.to_string()
}

#[test]
fn array_types() {
    let (t, q, n) = ty("int[5]");
    assert_eq!(q, n);
    match t {
        TypeExpr::Array(elem, Some(size)) => {
            assert_eq!(elem.0.to_string(), "int");
            assert_eq!(size.0, Atom::Int("5".to_string(), grammar::token::Radix::Decimal));
        }
        _ => panic!("expected an array type"),
    }
    assert!(matches!(ty("int[]").0, TypeExpr::Array(_, None)));
    assert_eq!(ty_text("int[N]"), "int[N]");
    assert_eq!(ty_text("int[2][3]"), "int[2][3]");
}

#[test]
fn union_and_product_types() {
    assert!(matches!(ty("int | str").0, TypeExpr::Union(ref v) if v.len() == 2));
    assert_eq!(ty_text("int | str | bool"), "int | str | bool");
    assert!(matches!(ty("A & B").0, TypeExpr::And(ref v) if v.len() == 2));
    assert_eq!(ty_text("A & B | C"), "A & B | C");
    assert!(matches!(ty("A & B | C").0, TypeExpr::Union(ref v) if matches!(v[0], TypeExpr::And(_))));
}

#[test]
fn prefixed_types() {
    assert!(matches!(ty("!int").0, TypeExpr::Not(_)));
    assert!(matches!(ty("mut int").0, TypeExpr::Mut(_)));
    assert!(matches!(ty("to string").0, TypeExpr::To(_)));
    assert_eq!(ty_text("mut int[]"), "mut int[]");
    assert_eq!(ty_text("!A | B"), "!A | B");
}

#[test]
fn function_types() {
    match ty("(int, x?: str) -> bool").0 {
        TypeExpr::Func { params, kw_params, ret } => {
            assert_eq!(params.len(), 2);
            assert_eq!(params[0].name, None);
            assert_eq!(params[1].name, Some("x".to_string()));
            assert!(params[1].optional);
            assert!(kw_params.is_empty());
            assert_eq!(ret.unwrap().to_string(), "bool");
        }
        _ => panic!("expected a function type"),
    }
    assert_eq!(ty_text("(int) -> int"), "(int) -> int");
    assert_eq!(ty_text("() -> int"), "() -> int");
    assert_eq!(ty_text("(int, str)"), "(int, str)");
    assert_eq!(ty_text("(int)"), "int");
}

#[test]
fn only_the_last_node_returns_implicitly() {
    let nodes = body("let x = 1; x + 1; x");
    assert_eq!(nodes.len(), 3);
    assert!(!matches!(nodes[0].0, Node::ImplicitReturn(_)));
    assert!(!matches!(nodes[1].0, Node::ImplicitReturn(_)));
    assert!(matches!(nodes[2].0, Node::ImplicitReturn(_)));
}

#[test]
fn syntax_trees_clone_to_equal_copies() {
    let mut p = Parser::from_str("if a then f(x, k = [1, 2]) else b::int[3] | str");
    let e = p.consume_expr().unwrap();
    let c = e.0.clone();
    assert_eq!(c, e.0);
    assert_eq!(c.to_string(), e.0.to_string());
    let nodes = body("let x: int = z; func f(a: int, *, b: int = 1) -> int { a } struct S<T> { x: T }");
    assert_eq!(nodes.len(), 3);
    for n in &nodes {
        assert_eq!(n.0.clone(), n.0);
    }
    let (t, _, _) = ty("(x?: int) -> mut A & B[]");
    assert_eq!(t.clone(), t);
}
