//! Clojure-style threading pipelines, lowered to nested call expressions.

pub mod either;
pub mod error;
pub mod extended_syn;
pub mod laws;
pub mod misc;
pub mod parser;
pub mod thread;
pub mod tokens;
