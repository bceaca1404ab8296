//! A small embeddable expression language over JSON documents.
//!
//! Expression text is tokenized and parsed into an AST of dot-chained
//! property accesses and method calls, then evaluated against a JSON
//! root document together with a registry of builtin methods and
//! caller-supplied host functions.

pub mod engine;
pub mod expression;
pub mod jsontext;
pub mod laws;
pub mod methods;
pub mod num;
pub mod strings;
pub mod tokenizer;
pub mod value;
