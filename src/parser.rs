use vstd::prelude::*;

use crate::error::{ErrorModel, Expected, ParseError};
use crate::grammar::{
    expected_for, finish, initial_machine, parse_text, is_operator, is_symbol, run,
    transition, MachineModel, Step,
};
use crate::lexer::{
    ident_end, ident_end_exec, literal_exec, literal_from, scan, scan_exec, space_end,
    space_end_exec, Keyword, Scanned, TokenKind,
};
use crate::query::{Condition, Connective, Query, StatementKind};
use crate::text::{chars_of, string_of};

verus! {

/// A parser over one statement: the text, a cursor into it, and the state of the
/// statement grammar.
pub struct Parser {
    sql: String,
    chars: Vec<char>,
    i: usize,
    step: Step,
    query: Query,
    fragment: Vec<char>,
    connective: Option<Connective>,
}

fn expected_exec(step: Step) -> (r: Expected)
    ensures
        r == expected_for(step),
{
    match step {
        Step::Type => Expected::Statement,
        Step::SelectField => Expected::Field,
        Step::SelectAfterField => Expected::CommaOrFrom,
        Step::SelectTable => Expected::Table,
        Step::FilterOrEnd => Expected::Where,
        Step::InsertTable => Expected::Table,
        Step::InsertOpenFields => Expected::OpenParen,
        Step::InsertColumn => Expected::Field,
        Step::InsertAfterColumn => Expected::CommaOrCloseParen,
        Step::InsertValuesKeyword => Expected::ValuesKeyword,
        Step::InsertOpenValues => Expected::OpenParen,
        Step::InsertValue => Expected::Value,
        Step::InsertAfterValue => Expected::CommaOrCloseParen,
        Step::Finished => Expected::EndOfInput,
        Step::DeleteTable => Expected::Table,
        Step::UpdateTable => Expected::Table,
        Step::UpdateSet => Expected::Assignment,
        Step::UpdateField => Expected::Field,
        Step::UpdateEquals => Expected::Equals,
        Step::UpdateValue => Expected::Value,
        Step::UpdateAfterValue => Expected::CommaOrWhere,
        Step::WhereField => Expected::Field,
        Step::WhereOperator => Expected::Operator,
        Step::WhereValue => Expected::Value,
        Step::WhereNext => Expected::Connective,
    }
}

fn symbol_exec(tok: &Scanned, c: char) -> (r: bool)
    ensures
        r == is_symbol(tok.kind, tok.text@, c),
{
    let r = tok.kind == TokenKind::Symbol && tok.text.len() == 1 && tok.text[0] == c;
    assert(r ==> tok.text@ =~= seq![c]);
    r
}

fn operator_exec(tok: &Scanned) -> (r: bool)
    ensures
        r == is_operator(tok.kind, tok.text@),
{
    if tok.kind != TokenKind::Symbol {
        return false;
    }
    if tok.text.len() == 1 {
        let c = tok.text[0];
        assert(tok.text@ =~= seq![c]);
        c == '=' || c == '<' || c == '>'
    } else if tok.text.len() == 2 {
        let a = tok.text[0];
        let b = tok.text[1];
        (a == '!' && b == '=') || (a == '<' && b == '=') || (a == '>' && b == '=') || (a == '<'
            && b == '>')
    } else {
        false
    }
}

fn append_chars(dst: &mut Vec<char>, src: &Vec<char>)
    ensures
        final(dst)@ == old(dst)@ + src@,
{
    let mut j: usize = 0;
    while j < src.len()
        invariant
            j <= src.len(),
            dst@ == old(dst)@ + src@.take(j as int),
        decreases src.len() - j,
    {
        dst.push(src[j]);
        assert(src@.take(j + 1) =~= src@.take(j as int).push(src@[j as int]));
        j = j + 1;
    }
    assert(src@.take(src.len() as int) =~= src@);
}

impl Parser {
    /// The text being parsed.
    pub closed spec fn source(&self) -> Seq<char> {
        self.chars@
    }

    /// The cursor: an offset, in characters, into the text.
    pub closed spec fn pos(&self) -> int {
        self.i as int
    }

    /// The state of the statement grammar.
    pub closed spec fn machine(&self) -> MachineModel {
        MachineModel {
            step: self.step,
            query: self.query.model(),
            fragment: self.fragment@,
            connective: self.connective,
        }
    }

    pub closed spec fn wf(&self) -> bool {
        &&& self.chars@ == self.sql@
        &&& self.i <= self.chars.len()
    }

    /// A parser at the start of `s`, with nothing read yet.
    pub fn new(s: String) -> (p: Parser)
        ensures
            p.wf(),
            p.source() == s@,
            p.pos() == 0,
            p.machine() == initial_machine(),
    {
        let chars = chars_of(s.as_str());
        let p = Parser {
            sql: s,
            chars,
            i: 0,
            step: Step::Type,
            query: Query::empty(),
            fragment: Vec::new(),
            connective: None,
        };
        assert(p.fragment@ =~= Seq::<char>::empty());
        p
    }

    /// The text being parsed.
    pub fn text(&self) -> (r: &str)
        requires
            self.wf(),
        ensures
            r@ == self.source(),
    {
        self.sql.as_str()
    }

    /// The cursor position.
    pub fn position(&self) -> (r: usize)
        ensures
            r == self.pos(),
    {
        self.i
    }

    /// The state of the statement grammar.
    pub fn step(&self) -> (r: Step)
        ensures
            r == self.machine().step,
    {
        self.step
    }

    /// The query assembled so far.
    pub fn query(&self) -> (r: &Query)
        ensures
            r.model() == self.machine().query,
    {
        &self.query
    }

    /// The token at the cursor, as text, with the number of characters it spans.
    /// A reserved phrase comes back in upper case, a quoted literal without its quotes
    /// and escapes. Nothing moves.
    pub fn peek_with_length(&self) -> (r: Result<(String, usize), ParseError>)
        requires
            self.wf(),
        ensures
            match scan(self.source(), self.pos()) {
                Some((kind, text, n)) => r matches Ok((w, len)) && w@ == text && len == n,
                None => r matches Err(e) && e.model() == (ErrorModel::UnterminatedLiteral {
                    position: self.pos(),
                }),
            },
    {
        match scan_exec(&self.chars, self.i) {
            Some(tok) => Ok((string_of(&tok.text), tok.len)),
            None => Err(ParseError::UnterminatedLiteral { position: self.i }),
        }
    }

    /// The text of the token at the cursor (see `peek_with_length`).
    pub fn peek(&self) -> (r: Result<String, ParseError>)
        requires
            self.wf(),
        ensures
            match scan(self.source(), self.pos()) {
                Some((kind, text, n)) => r matches Ok(w) && w@ == text,
                None => r matches Err(e) && e.model() == (ErrorModel::UnterminatedLiteral {
                    position: self.pos(),
                }),
            },
    {
        match self.peek_with_length() {
            Ok((w, _)) => Ok(w),
            Err(e) => Err(e),
        }
    }

    /// Moves the cursor past any whitespace.
    pub fn pop_whitespace(&mut self)
        requires
            old(self).wf(),
        ensures
            final(self).wf(),
            final(self).source() == old(self).source(),
            final(self).machine() == old(self).machine(),
            final(self).pos() == space_end(old(self).source(), old(self).pos()),
            old(self).pos() <= final(self).pos() <= final(self).source().len(),
    {
        self.i = space_end_exec(&self.chars, self.i);
    }

    /// Takes the token at the cursor and moves past it and the whitespace after it.
    /// On an unterminated literal nothing moves.
    pub fn pop(&mut self) -> (r: Result<String, ParseError>)
        requires
            old(self).wf(),
        ensures
            final(self).wf(),
            final(self).source() == old(self).source(),
            final(self).machine() == old(self).machine(),
            match scan(old(self).source(), old(self).pos()) {
                Some((kind, text, n)) => r matches Ok(w) && w@ == text && final(self).pos()
                    == space_end(old(self).source(), old(self).pos() + n),
                None => r matches Err(e) && e.model() == (ErrorModel::UnterminatedLiteral {
                    position: old(self).pos(),
                }) && final(self).pos() == old(self).pos(),
            },
    {
        match scan_exec(&self.chars, self.i) {
            Some(tok) => {
                self.i = self.i + tok.len;
                self.pop_whitespace();
                Ok(string_of(&tok.text))
            },
            None => Err(ParseError::UnterminatedLiteral { position: self.i }),
        }
    }

    /// The run of identifier characters at the cursor, with its length.
    pub fn peek_identifier_with_length(&self) -> (r: (String, usize))
        requires
            self.wf(),
        ensures
            r.0@ == self.source().subrange(self.pos(), ident_end(self.source(), self.pos())),
            r.1 == ident_end(self.source(), self.pos()) - self.pos(),
    {
        let e = ident_end_exec(&self.chars, self.i);
        let mut text: Vec<char> = Vec::new();
        let mut j = self.i;
        while j < e
            invariant
                self.i <= j <= e <= self.chars.len(),
                text@ == self.chars@.subrange(self.i as int, j as int),
            decreases e - j,
        {
            text.push(self.chars[j]);
            assert(self.chars@.subrange(self.i as int, j + 1) =~= self.chars@.subrange(
                self.i as int,
                j as int,
            ).push(self.chars@[j as int]));
            j = j + 1;
        }
        (string_of(&text), e - self.i)
    }

    /// The quoted literal at the cursor: its content and the characters it spans,
    /// quotes and escapes included. Where the cursor is not at a quote, an empty text of
    /// length zero.
    pub fn peek_quoted_string_with_length(&self) -> (r: Result<(String, usize), ParseError>)
        requires
            self.wf(),
        ensures
            self.pos() < self.source().len() && self.source()[self.pos()] == '\'' ==> match literal_from(
                self.source(),
                self.pos() + 1,
                Seq::empty(),
            ) {
                Some((content, end)) => r matches Ok((w, len)) && w@ == content && len == end
                    - self.pos(),
                None => r matches Err(e) && e.model() == (ErrorModel::UnterminatedLiteral {
                    position: self.pos(),
                }),
            },
            !(self.pos() < self.source().len() && self.source()[self.pos()] == '\'') ==> (r matches Ok(
                (w, len),
            ) && w@.len() == 0 && len == 0),
    {
        if self.i >= self.chars.len() || self.chars[self.i] != '\'' {
            return Ok((String::new(), 0));
        }
        match literal_exec(&self.chars, self.i) {
            Some((content, end)) => Ok((string_of(&content), end - self.i)),
            None => Err(ParseError::UnterminatedLiteral { position: self.i }),
        }
    }

    /// What ending the text at `pos` gives in the current state.
    fn finish(&self, pos: usize) -> (r: Result<&Query, ParseError>)
        ensures
            match finish(self.machine(), pos as int) {
                Ok(q) => r matches Ok(x) && x.model() == q,
                Err(e) => r matches Err(x) && x.model() == e,
            },
    {
        let step = self.step;
        if step == Step::FilterOrEnd || step == Step::Finished || step == Step::UpdateAfterValue
            || step == Step::WhereNext {
            Ok(&self.query)
        } else if step == Step::Type {
            Err(ParseError::UnsupportedStatement { position: pos, found: String::new() })
        } else {
            Err(ParseError::UnexpectedEndOfInput { position: pos, expected: expected_exec(step) })
        }
    }

    /// Parses the rest of the statement from the cursor and returns the query, or the
    /// first error met.
    pub fn parse(&mut self) -> (r: Result<&Query, ParseError>)
        requires
            old(self).wf(),
        ensures
            match run(
                old(self).source(),
                space_end(old(self).source(), old(self).pos()),
                old(self).machine(),
            ) {
                Ok(q) => r matches Ok(x) && x.model() == q,
                Err(e) => r matches Err(x) && x.model() == e,
            },
            old(self).pos() == 0 && old(self).machine() == initial_machine() ==> match parse_text(
                old(self).source(),
            ) {
                Ok(q) => r matches Ok(x) && x.model() == q,
                Err(e) => r matches Err(x) && x.model() == e,
            },
    {
        let ghost s = self.chars@;
        let ghost outcome = run(s, space_end(s, self.i as int), self.machine());
        self.pop_whitespace();
        loop
            invariant
                self.wf(),
                self.chars@ == s,
                run(s, self.i as int, self.machine()) == outcome,
                s == old(self).source(),
                outcome == run(
                    old(self).source(),
                    space_end(old(self).source(), old(self).pos()),
                    old(self).machine(),
                ),
            decreases s.len() - self.i,
        {
            let pos = self.i;
            match scan_exec(&self.chars, pos) {
                None => {
                    return Err(ParseError::UnterminatedLiteral { position: pos });
                },
                Some(tok) => {
                    if tok.kind == TokenKind::End {
                        return self.finish(pos);
                    }
                    let n = tok.len;
                    match self.apply(tok, pos) {
                        Err(e) => {
                            return Err(e);
                        },
                        Ok(()) => {},
                    }
                    self.i = pos + n;
                    self.pop_whitespace();
                },
            }
        }
    }

    /// Feeds the token `tok`, found at `pos`, to the statement grammar.
    fn apply(&mut self, tok: Scanned, pos: usize) -> (r: Result<(), ParseError>)
        ensures
            final(self).sql == old(self).sql,
            final(self).chars == old(self).chars,
            final(self).i == old(self).i,
            match transition(old(self).machine(), tok.kind, tok.text@, pos as int) {
                Ok(m) => r is Ok && final(self).machine() == m,
                Err(e) => r matches Err(x) && x.model() == e,
            },
    {
        let kind = tok.kind;
        let step = self.step;
        let ok = match step {
            Step::Type => match kind {
                TokenKind::Keyword(Keyword::Select) => {
                    self.query.kind = Some(StatementKind::Select);
                    self.step = Step::SelectField;
                    true
                },
                TokenKind::Keyword(Keyword::InsertInto) => {
                    self.query.kind = Some(StatementKind::Insert);
                    self.step = Step::InsertTable;
                    true
                },
                TokenKind::Keyword(Keyword::DeleteFrom) => {
                    self.query.kind = Some(StatementKind::Delete);
                    self.step = Step::DeleteTable;
                    true
                },
                TokenKind::Keyword(Keyword::Update) => {
                    self.query.kind = Some(StatementKind::Update);
                    self.step = Step::UpdateTable;
                    true
                },
                _ => {
                    return Err(
                        ParseError::UnsupportedStatement { position: pos, found: string_of(&tok.text) },
                    );
                },
            },
            Step::SelectField | Step::InsertColumn | Step::UpdateField => {
                if kind == TokenKind::Ident {
                    self.query.push_field(string_of(&tok.text));
                    self.step =
                    match step {
                        Step::SelectField => Step::SelectAfterField,
                        Step::InsertColumn => Step::InsertAfterColumn,
                        _ => Step::UpdateEquals,
                    };
                    true
                } else {
                    false
                }
            },
            Step::SelectAfterField => {
                if symbol_exec(&tok, ',') {
                    self.step = Step::SelectField;
                    true
                } else if kind == TokenKind::Keyword(Keyword::From) {
                    self.step = Step::SelectTable;
                    true
                } else {
                    false
                }
            },
            Step::SelectTable | Step::DeleteTable | Step::InsertTable | Step::UpdateTable => {
                if kind == TokenKind::Ident {
                    self.query.table = Some(string_of(&tok.text));
                    self.step =
                    match step {
                        Step::InsertTable => Step::InsertOpenFields,
                        Step::UpdateTable => Step::UpdateSet,
                        _ => Step::FilterOrEnd,
                    };
                    true
                } else {
                    false
                }
            },
            Step::FilterOrEnd => {
                if kind == TokenKind::Keyword(Keyword::Where) {
                    self.connective = None;
                    self.step = Step::WhereField;
                    true
                } else {
                    false
                }
            },
            Step::InsertOpenFields | Step::InsertOpenValues => {
                if symbol_exec(&tok, '(') {
                    self.step =
                    if step == Step::InsertOpenFields {
                        Step::InsertColumn
                    } else {
                        Step::InsertValue
                    };
                    true
                } else {
                    false
                }
            },
            Step::InsertAfterColumn => {
                if symbol_exec(&tok, ',') {
                    self.step = Step::InsertColumn;
                    true
                } else if symbol_exec(&tok, ')') {
                    self.step = Step::InsertValuesKeyword;
                    true
                } else {
                    false
                }
            },
            Step::InsertValuesKeyword => {
                if kind == TokenKind::Keyword(Keyword::Values) {
                    self.step = Step::InsertOpenValues;
                    true
                } else {
                    false
                }
            },
            Step::InsertValue | Step::UpdateValue => {
                if kind == TokenKind::Literal || kind == TokenKind::Ident {
                    self.query.push_value(string_of(&tok.text));
                    self.step =
                    if step == Step::InsertValue {
                        Step::InsertAfterValue
                    } else {
                        Step::UpdateAfterValue
                    };
                    true
                } else {
                    false
                }
            },
            Step::InsertAfterValue => {
                if symbol_exec(&tok, ',') {
                    self.step = Step::InsertValue;
                    true
                } else if symbol_exec(&tok, ')') {
                    let nf = self.query.fields.len();
                    let nv = self.query.values.len();
                    if nf != nv {
                        return Err(ParseError::CardinalityMismatch { fields: nf, values: nv });
                    }
                    self.step = Step::Finished;
                    true
                } else {
                    false
                }
            },
            Step::Finished => false,
            Step::UpdateSet => {
                if kind == TokenKind::Keyword(Keyword::SetKw) {
                    self.step = Step::UpdateField;
                    true
                } else {
                    false
                }
            },
            Step::UpdateEquals => {
                if symbol_exec(&tok, '=') {
                    self.step = Step::UpdateValue;
                    true
                } else {
                    false
                }
            },
            Step::UpdateAfterValue => {
                if symbol_exec(&tok, ',') {
                    self.step = Step::UpdateField;
                    true
                } else if kind == TokenKind::Keyword(Keyword::Where) {
                    self.connective = None;
                    self.step = Step::WhereField;
                    true
                } else {
                    false
                }
            },
            Step::WhereField => {
                if kind == TokenKind::Ident {
                    let mut fragment: Vec<char> = Vec::new();
                    append_chars(&mut fragment, &tok.text);
                    assert(fragment@ =~= tok.text@);
                    self.fragment = fragment;
                    self.step = Step::WhereOperator;
                    true
                } else {
                    false
                }
            },
            Step::WhereOperator => {
                if operator_exec(&tok) {
                    let ghost before = self.fragment@;
                    self.fragment.push(' ');
                    append_chars(&mut self.fragment, &tok.text);
                    assert(self.fragment@ =~= before + seq![' '] + tok.text@);
                    self.step = Step::WhereValue;
                    true
                } else {
                    false
                }
            },
            Step::WhereValue => {
                if kind == TokenKind::Literal || kind == TokenKind::Ident {
                    let ghost before = self.fragment@;
                    self.fragment.push(' ');
                    append_chars(&mut self.fragment, &tok.text);
                    assert(self.fragment@ =~= before + seq![' '] + tok.text@);
                    let text = string_of(&self.fragment);
                    self.query.push_condition(Condition { connective: self.connective, text });
                    self.fragment = Vec::new();
                    self.step = Step::WhereNext;
                    true
                } else {
                    false
                }
            },
            Step::WhereNext => {
                if kind == TokenKind::Keyword(Keyword::And) {
                    self.connective = Some(Connective::And);
                    self.step = Step::WhereField;
                    true
                } else if kind == TokenKind::Keyword(Keyword::Or) {
                    self.connective = Some(Connective::Or);
                    self.step = Step::WhereField;
                    true
                } else {
                    false
                }
            },
        };
        if ok {
            Ok(())
        } else {
            Err(
                ParseError::UnexpectedToken {
                    position: pos,
                    expected: expected_exec(step),
                    found: string_of(&tok.text),
                },
            )
        }
    }
}

} // verus!
