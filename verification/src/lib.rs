//! Compiler front end for miniC, a small C-like language: a tokenizer that
//! turns source text into a sequence of spanned tokens, and a grammar engine
//! that turns the token sequence into a syntax tree, with a shared model of
//! structured, span-carrying errors.

pub mod ast;
pub mod error;
pub mod lexer;
pub mod parser;
