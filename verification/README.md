# amxml

The front end of an XPath 3.1 processor for XML, written in Verus: the
lexer, the parser and the type judgements that evaluation uses, with the
functions on strings and sequences that need no document. It holds no
evaluator and no document tree. Every function of the library is verified
against a specification.

## Layout

- `src/lexer.rs`: the tokens of an expression, classified as the parser
  needs them; the specification (`spec_tokenize`) describes scanning and
  every rewriting step.
- `src/grammar.rs`, `src/expr_grammar.rs`: the grammar as specification:
  for each rule, the tree that the tokens from a position give, or the
  kind of the error.
- `src/parser.rs`: the recursive-descent parser; each parse function is
  proved to read its rule exactly, and `compile_xpath` to give the tree
  of `spec_compile`.
- `src/xnode.rs`: the syntax tree and its printed form.
- `src/subtype.rs`, `src/func.rs`, `src/nodetest.rs`: the type judgements
  of the evaluator (derivation of atomic types, subtypes of sequence and
  item types, function signatures, including those of named function
  references, node tests).
- `src/evalenv.rs`: the evaluation environment (variables, position, size).
- `src/strings.rs`, `src/seqfn.rs`: the functions on strings and sequences
  that need no document.
- `src/error.rs`, `src/text.rs`: errors and small text helpers.

The laws that the library keeps (for instance, that stepping back undoes
reading a token, or that removing a variable undoes setting it) are
public proof functions whose names begin with `law_`.

`tests/` holds the tests, run against the compiled library.
