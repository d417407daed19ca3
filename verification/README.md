# grammar

The front end of the Terbium language, written in Verus: a lexer from characters to tokens,
a parser from tokens to the abstract syntax tree, the textual rendering of that tree, and the
types of the high-level intermediate representation.

Every executable function carries a contract over a mathematical model:

- `lexer`: `lex` states, as a spec function over `Seq<char>`, which token each run of
  characters becomes; `tokenize` is proved to compute it, and its tokens tile the source.
- `grammar` (with `parse_misc`, `parse_type`, `pcore`): the grammar as spec functions over a
  sequence of tokens and a position. Each parser (`pstmt`, `pexpr`, `pbrace`, `pops`,
  `pchain`, `pdecl`, `pjump`) is proved to return exactly what the grammar gives, error
  included.
- `escape`: escape sequences of string and character literals.
- `show`, `display`, `display_expr`: the text of each syntax tree node as a spec function, and
  `to_string` methods proved to produce it.
- `checks`: the check that an assignment pattern binds nothing mutably.
- `clone`: `Clone` for the syntax trees, each copy proved to have the model of its original.
- `hir`: the intermediate representation, with identifiers interned through the `internment`
  crate.
- `laws`: properties that relate several of the above.

The library under `src/` is verified by Verus; the tests under `tests/` run it compiled.
