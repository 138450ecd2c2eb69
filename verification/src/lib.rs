//! XPath 3.1 for reading XML: a lexer and a parser that turn an expression
//! into its syntax tree, the type judgements of the evaluator (derivation of
//! atomic types, subtypes of sequence and item types, function signatures,
//! node tests), its environment of variables, and the functions on strings
//! and sequences that need no document; each verified against its
//! specification.

pub mod error;
pub mod text;
pub mod lexer;
pub mod xnode;
pub mod subtype;
pub mod func;
pub mod grammar;
pub mod expr_grammar;
pub mod parser;
pub mod strings;
pub mod seqfn;
pub mod evalenv;
pub mod nodetest;
