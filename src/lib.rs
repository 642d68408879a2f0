//! A parser for single query statements: retrieval, insertion, deletion and update,
//! with an optional filter clause.

pub mod error;
pub mod grammar;
pub mod laws;
pub mod lexer;
pub mod parser;
pub mod query;
pub mod text;

pub use error::{Expected, ParseError};
pub use grammar::Step;
pub use lexer::{Keyword, TokenKind};
pub use parser::Parser;
pub use query::{Condition, Connective, Query, StatementKind};

