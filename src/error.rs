use vstd::prelude::*;

verus! {

/// The production a parser state was waiting for.
#[derive(Clone, Copy, Debug, PartialEq, Eq, Structural)]
pub enum Expected {
    Statement,
    Field,
    CommaOrFrom,
    Table,
    Where,
    OpenParen,
    CommaOrCloseParen,
    ValuesKeyword,
    Value,
    EndOfInput,
    Assignment,
    Equals,
    CommaOrWhere,
    Operator,
    Connective,
}

/// Why a statement could not be parsed. Positions are offsets, in characters, into the text.
#[derive(Debug)]
pub enum ParseError {
    /// The leading token is none of the statement-leading phrases.
    UnsupportedStatement { position: usize, found: String },
    /// A quoted literal that starts at `position` is never closed.
    UnterminatedLiteral { position: usize },
    /// The token at `position` does not fit what the parser expected.
    UnexpectedToken { position: usize, expected: Expected, found: String },
    /// The text ends while the parser still expects a token.
    UnexpectedEndOfInput { position: usize, expected: Expected },
    /// An insertion names a different number of fields and values.
    CardinalityMismatch { fields: usize, values: usize },
}

/// A parse error as a mathematical value.
pub enum ErrorModel {
    UnsupportedStatement { position: int, found: Seq<char> },
    UnterminatedLiteral { position: int },
    UnexpectedToken { position: int, expected: Expected, found: Seq<char> },
    UnexpectedEndOfInput { position: int, expected: Expected },
    CardinalityMismatch { fields: int, values: int },
}

impl ParseError {
    pub open spec fn model(&self) -> ErrorModel {
        match self {
            ParseError::UnsupportedStatement { position, found } => ErrorModel::UnsupportedStatement {
                position: *position as int,
                found: found@,
            },
            ParseError::UnterminatedLiteral { position } => ErrorModel::UnterminatedLiteral {
                position: *position as int,
            },
            ParseError::UnexpectedToken { position, expected, found } => ErrorModel::UnexpectedToken {
                position: *position as int,
                expected: *expected,
                found: found@,
            },
            ParseError::UnexpectedEndOfInput { position, expected } => ErrorModel::UnexpectedEndOfInput {
                position: *position as int,
                expected: *expected,
            },
            ParseError::CardinalityMismatch { fields, values } => ErrorModel::CardinalityMismatch {
                fields: *fields as int,
                values: *values as int,
            },
        }
    }
}

} // verus!
