//! A small compiler that turns a fluent query expression such as
//! `Account.select(Id, Name).where(Id = 1).limit(10)` into a SOQL-like
//! query string, plus a flag saying whether the single matching record
//! should be opened in a browser.
//!
//! The pipeline is pure text-to-text: tokenizer, recursive-descent
//! parser, abstract syntax tree, and query-string generator. Every stage
//! carries a contract relating its result to a specification-level model
//! of the same computation.

pub mod engine;
pub mod hint;
