use vstd::prelude::*;

use crate::error::{ErrorModel, Expected};
use crate::lexer::{is_two_char_operator, scan, space_end, Keyword, TokenKind};
use crate::query::{empty_query, Connective, QueryModel, StatementKind};

verus! {

/// The states of the statement parser: each names what it waits for next.
#[derive(Clone, Copy, Debug, PartialEq, Eq, Structural)]
pub enum Step {
    /// The statement-leading phrase.
    Type,
    SelectField,
    SelectAfterField,
    SelectTable,
    /// After the table of a retrieval or deletion: a filter clause or the end.
    FilterOrEnd,
    InsertTable,
    InsertOpenFields,
    InsertColumn,
    InsertAfterColumn,
    InsertValuesKeyword,
    InsertOpenValues,
    InsertValue,
    InsertAfterValue,
    /// A complete insertion: only the end may follow.
    Finished,
    DeleteTable,
    UpdateTable,
    UpdateSet,
    UpdateField,
    UpdateEquals,
    UpdateValue,
    UpdateAfterValue,
    WhereField,
    WhereOperator,
    WhereValue,
    /// After a condition: a connective or the end.
    WhereNext,
}

/// Everything the parser carries from one token to the next.
pub struct MachineModel {
    pub step: Step,
    pub query: QueryModel,
    /// The condition fragment read so far.
    pub fragment: Seq<char>,
    /// The connective in front of the condition being read.
    pub connective: Option<Connective>,
}

pub open spec fn initial_machine() -> MachineModel {
    MachineModel {
        step: Step::Type,
        query: empty_query(),
        fragment: Seq::empty(),
        connective: None,
    }
}

/// The production that `step` waits for.
pub open spec fn expected_for(step: Step) -> Expected {
    match step {
        Step::Type => Expected::Statement,
        Step::SelectField => Expected::Field,
        Step::SelectAfterField => Expected::CommaOrFrom,
        Step::SelectTable => Expected::Table,
        Step::FilterOrEnd => Expected::Where,
        Step::InsertTable => Expected::Table,
        Step::InsertOpenFields => Expected::OpenParen,
        Step::InsertColumn => Expected::Field,
        Step::InsertAfterColumn => Expected::CommaOrCloseParen,
        Step::InsertValuesKeyword => Expected::ValuesKeyword,
        Step::InsertOpenValues => Expected::OpenParen,
        Step::InsertValue => Expected::Value,
        Step::InsertAfterValue => Expected::CommaOrCloseParen,
        Step::Finished => Expected::EndOfInput,
        Step::DeleteTable => Expected::Table,
        Step::UpdateTable => Expected::Table,
        Step::UpdateSet => Expected::Assignment,
        Step::UpdateField => Expected::Field,
        Step::UpdateEquals => Expected::Equals,
        Step::UpdateValue => Expected::Value,
        Step::UpdateAfterValue => Expected::CommaOrWhere,
        Step::WhereField => Expected::Field,
        Step::WhereOperator => Expected::Operator,
        Step::WhereValue => Expected::Value,
        Step::WhereNext => Expected::Connective,
    }
}

/// The states in which the statement may end.
pub open spec fn accepting(step: Step) -> bool {
    step == Step::FilterOrEnd || step == Step::Finished || step == Step::UpdateAfterValue || step
        == Step::WhereNext
}

pub open spec fn is_symbol(kind: TokenKind, text: Seq<char>, c: char) -> bool {
    kind == TokenKind::Symbol && text == seq![c]
}

/// The comparison operators of a condition.
pub open spec fn is_operator(kind: TokenKind, text: Seq<char>) -> bool {
    kind == TokenKind::Symbol && (text == seq!['='] || text == seq!['<'] || text == seq!['>'] || (
    text.len() == 2 && is_two_char_operator(text[0], text[1])))
}

/// A literal or a bare word may stand as a value.
pub open spec fn is_value(kind: TokenKind) -> bool {
    kind == TokenKind::Literal || kind == TokenKind::Ident
}

pub open spec fn goto(m: MachineModel, step: Step) -> Result<MachineModel, ErrorModel> {
    Ok(MachineModel { step, ..m })
}

pub open spec fn start(m: MachineModel, step: Step, kind: StatementKind) -> Result<
    MachineModel,
    ErrorModel,
> {
    Ok(MachineModel { step, query: QueryModel { kind: Some(kind), ..m.query }, ..m })
}

pub open spec fn with_table(m: MachineModel, step: Step, t: Seq<char>) -> Result<
    MachineModel,
    ErrorModel,
> {
    Ok(MachineModel { step, query: QueryModel { table: Some(t), ..m.query }, ..m })
}

pub open spec fn with_field(m: MachineModel, step: Step, f: Seq<char>) -> Result<
    MachineModel,
    ErrorModel,
> {
    Ok(MachineModel { step, query: QueryModel { fields: m.query.fields.push(f), ..m.query }, ..m })
}

pub open spec fn with_value(m: MachineModel, step: Step, v: Seq<char>) -> Result<
    MachineModel,
    ErrorModel,
> {
    Ok(MachineModel { step, query: QueryModel { values: m.query.values.push(v), ..m.query }, ..m })
}

/// Enters a filter clause, or the next condition of one.
pub open spec fn open_condition(m: MachineModel, c: Option<Connective>) -> Result<
    MachineModel,
    ErrorModel,
> {
    Ok(MachineModel { step: Step::WhereField, connective: c, ..m })
}

/// Ends the condition being read with the value `v`.
pub open spec fn close_condition(m: MachineModel, v: Seq<char>) -> Result<MachineModel, ErrorModel> {
    Ok(
        MachineModel {
            step: Step::WhereNext,
            query: QueryModel {
                conditions: m.query.conditions.push(
                    (m.connective, m.fragment + seq![' '] + v),
                ),
                ..m.query
            },
            fragment: Seq::empty(),
            ..m
        },
    )
}

/// What the parser does with the token of `kind` and `text` found at `pos` (not the end).
pub open spec fn transition(m: MachineModel, kind: TokenKind, text: Seq<char>, pos: int) -> Result<
    MachineModel,
    ErrorModel,
> {
    let unexpected = Err(
        ErrorModel::UnexpectedToken { position: pos, expected: expected_for(m.step), found: text },
    );
    match m.step {
        Step::Type => match kind {
            TokenKind::Keyword(Keyword::Select) => start(m, Step::SelectField, StatementKind::Select),
            TokenKind::Keyword(Keyword::InsertInto) => start(
                m,
                Step::InsertTable,
                StatementKind::Insert,
            ),
            TokenKind::Keyword(Keyword::DeleteFrom) => start(
                m,
                Step::DeleteTable,
                StatementKind::Delete,
            ),
            TokenKind::Keyword(Keyword::Update) => start(m, Step::UpdateTable, StatementKind::Update),
            _ => Err(ErrorModel::UnsupportedStatement { position: pos, found: text }),
        },
        Step::SelectField => if kind == TokenKind::Ident {
            with_field(m, Step::SelectAfterField, text)
        } else {
            unexpected
        },
        Step::SelectAfterField => if is_symbol(kind, text, ',') {
            goto(m, Step::SelectField)
        } else if kind == TokenKind::Keyword(Keyword::From) {
            goto(m, Step::SelectTable)
        } else {
            unexpected
        },
        Step::SelectTable | Step::DeleteTable => if kind == TokenKind::Ident {
            with_table(m, Step::FilterOrEnd, text)
        } else {
            unexpected
        },
        Step::FilterOrEnd => if kind == TokenKind::Keyword(Keyword::Where) {
            open_condition(m, None)
        } else {
            unexpected
        },
        Step::InsertTable => if kind == TokenKind::Ident {
            with_table(m, Step::InsertOpenFields, text)
        } else {
            unexpected
        },
        Step::InsertOpenFields => if is_symbol(kind, text, '(') {
            goto(m, Step::InsertColumn)
        } else {
            unexpected
        },
        Step::InsertColumn => if kind == TokenKind::Ident {
            with_field(m, Step::InsertAfterColumn, text)
        } else {
            unexpected
        },
        Step::InsertAfterColumn => if is_symbol(kind, text, ',') {
            goto(m, Step::InsertColumn)
        } else if is_symbol(kind, text, ')') {
            goto(m, Step::InsertValuesKeyword)
        } else {
            unexpected
        },
        Step::InsertValuesKeyword => if kind == TokenKind::Keyword(Keyword::Values) {
            goto(m, Step::InsertOpenValues)
        } else {
            unexpected
        },
        Step::InsertOpenValues => if is_symbol(kind, text, '(') {
            goto(m, Step::InsertValue)
        } else {
            unexpected
        },
        Step::InsertValue => if is_value(kind) {
            with_value(m, Step::InsertAfterValue, text)
        } else {
            unexpected
        },
        Step::InsertAfterValue => if is_symbol(kind, text, ',') {
            goto(m, Step::InsertValue)
        } else if is_symbol(kind, text, ')') {
            if m.query.fields.len() == m.query.values.len() {
                goto(m, Step::Finished)
            } else {
                Err(
                    ErrorModel::CardinalityMismatch {
                        fields: m.query.fields.len() as int,
                        values: m.query.values.len() as int,
                    },
                )
            }
        } else {
            unexpected
        },
        Step::Finished => unexpected,
        Step::UpdateTable => if kind == TokenKind::Ident {
            with_table(m, Step::UpdateSet, text)
        } else {
            unexpected
        },
        Step::UpdateSet => if kind == TokenKind::Keyword(Keyword::SetKw) {
            goto(m, Step::UpdateField)
        } else {
            unexpected
        },
        Step::UpdateField => if kind == TokenKind::Ident {
            with_field(m, Step::UpdateEquals, text)
        } else {
            unexpected
        },
        Step::UpdateEquals => if is_symbol(kind, text, '=') {
            goto(m, Step::UpdateValue)
        } else {
            unexpected
        },
        Step::UpdateValue => if is_value(kind) {
            with_value(m, Step::UpdateAfterValue, text)
        } else {
            unexpected
        },
        Step::UpdateAfterValue => if is_symbol(kind, text, ',') {
            goto(m, Step::UpdateField)
        } else if kind == TokenKind::Keyword(Keyword::Where) {
            open_condition(m, None)
        } else {
            unexpected
        },
        Step::WhereField => if kind == TokenKind::Ident {
            Ok(MachineModel { step: Step::WhereOperator, fragment: text, ..m })
        } else {
            unexpected
        },
        Step::WhereOperator => if is_operator(kind, text) {
            Ok(
                MachineModel {
                    step: Step::WhereValue,
                    fragment: m.fragment + seq![' '] + text,
                    ..m
                },
            )
        } else {
            unexpected
        },
        Step::WhereValue => if is_value(kind) {
            close_condition(m, text)
        } else {
            unexpected
        },
        Step::WhereNext => if kind == TokenKind::Keyword(Keyword::And) {
            open_condition(m, Some(Connective::And))
        } else if kind == TokenKind::Keyword(Keyword::Or) {
            open_condition(m, Some(Connective::Or))
        } else {
            unexpected
        },
    }
}

/// What the parser gives when the text ends at `pos` in machine state `m`.
pub open spec fn finish(m: MachineModel, pos: int) -> Result<QueryModel, ErrorModel> {
    if accepting(m.step) {
        Ok(m.query)
    } else if m.step == Step::Type {
        Err(ErrorModel::UnsupportedStatement { position: pos, found: Seq::empty() })
    } else {
        Err(ErrorModel::UnexpectedEndOfInput { position: pos, expected: expected_for(m.step) })
    }
}

/// The outcome of running the parser from `pos`, which follows any whitespace, in state `m`.
pub open spec fn run(s: Seq<char>, pos: int, m: MachineModel) -> Result<QueryModel, ErrorModel>
    decreases s.len() - pos,
{
    match scan(s, pos) {
        None => Err(ErrorModel::UnterminatedLiteral { position: pos }),
        Some((kind, text, n)) => if kind == TokenKind::End {
            finish(m, pos)
        } else {
            match transition(m, kind, text, pos) {
                Err(e) => Err(e),
                Ok(next) => {
                    let p = space_end(s, pos + n);
                    // Never taken: every token but the end consumes at least one character.
                    if p <= pos || p > s.len() {
                        Err(ErrorModel::UnterminatedLiteral { position: pos })
                    } else {
                        run(s, p, next)
                    }
                },
            }
        },
    }
}

/// The outcome of parsing the whole text `s`.
pub open spec fn parse_text(s: Seq<char>) -> Result<QueryModel, ErrorModel> {
    run(s, space_end(s, 0), initial_machine())
}

} // verus!
