use sql_parser::{Connective, Expected, ParseError, Parser, Query, StatementKind, Step};

fn parse_ok(text: &str) -> Query {
    let mut parser = Parser::new(String::from(text));
    match parser.parse() {
        Ok(q) => Query {
            kind: q.kind,
            table: q.table.clone(),
            fields: q.fields.clone(),
            values: q.values.clone(),
            conditions: q
                .conditions
                .iter()
                .map(|c| sql_parser::Condition { connective: c.connective, text: c.text.clone() })
                .collect(),
        },
        Err(e) => panic!("unexpected error {:?}", e),
    }
}

fn parse_err(text: &str) -> ParseError {
    let mut parser = Parser::new(String::from(text));
    match parser.parse() {
        Ok(_) => panic!("expected an error"),
        Err(e) => e,
    }
}

fn condition_texts(q: &Query) -> Vec<String> {
    q.conditions.iter().map(|c| c.text.clone()).collect()
}

#[test]
fn test_new() {
    let parser: Parser = Parser::new(String::from("SELECT * FROM"));
    assert_eq!(parser.text(), "SELECT * FROM");
    assert_eq!(parser.query().kind, None);
    assert_eq!(parser.position(), 0);
    assert!(matches!(parser.step(), Step::Type));
}

#[test]
fn test_peek() {
    let parser: Parser = Parser::new(String::from("SELECT * FROM"));
    assert_eq!(parser.peek().unwrap(), "SELECT");
}

#[test]
fn test_pop() {
    let mut parser: Parser = Parser::new(String::from("SELECT * FROM"));
    assert_eq!(parser.pop().unwrap().as_str(), "SELECT");
    assert_eq!(parser.position(), 7);
    assert_eq!(parser.pop().unwrap().as_str(), "*");
    assert_eq!(parser.position(), 9);
}

#[test]
fn test_pop_whitespace() {
    let mut parser: Parser = Parser::new(String::from("     FROM"));
    parser.pop_whitespace();
    assert_eq!(parser.position(), 5);

    parser.pop_whitespace();
    assert_eq!(parser.position(), 5);
}

#[test]
fn test_peek_with_length() {
    let parser = Parser::new(String::from("SELECT, * FROM USERS"));
    let (word, length) = parser.peek_with_length().unwrap();
    assert_eq!(word.as_str(), "SELECT");
    assert_eq!(length, 6);
}

#[test]
fn test_peek_quoted_string_with_length() {
    let parser = Parser::new(String::from("'ben'"));
    let (word, length) = parser.peek_with_length().unwrap();
    assert_eq!(word.as_str(), "ben");
    assert_eq!(length, 5);
}

#[test]
fn test_peek_identifier_with_length() {
    let parser = Parser::new(String::from("david, is an animal"));
    let (word, length) = parser.peek_identifier_with_length();
    assert_eq!(word.as_str(), "david");
    assert_eq!(length, 5);
}

#[test]
fn quoted_string_direct() {
    let parser = Parser::new(String::from("'ben' rest"));
    let (word, length) = parser.peek_quoted_string_with_length().unwrap();
    assert_eq!(word, "ben");
    assert_eq!(length, 5);
    let parser = Parser::new(String::from("ben"));
    let (word, length) = parser.peek_quoted_string_with_length().unwrap();
    assert_eq!(word, "");
    assert_eq!(length, 0);
}

#[test]
fn escaped_quote_is_kept() {
    let parser = Parser::new(String::from("'o\\'clock' x"));
    let (word, length) = parser.peek_with_length().unwrap();
    assert_eq!(word, "o'clock");
    assert_eq!(length, 10);
}

#[test]
fn escaped_backslash_then_quote_closes() {
    let parser = Parser::new(String::from("'a\\\\' b"));
    let (word, length) = parser.peek_with_length().unwrap();
    assert_eq!(word, "a\\");
    assert_eq!(length, 5);
}

#[test]
fn unterminated_literal_is_an_error() {
    let parser = Parser::new(String::from("'abc"));
    assert!(matches!(
        parser.peek_with_length(),
        Err(ParseError::UnterminatedLiteral { position: 0 })
    ));
    let parser = Parser::new(String::from("'abc\\'"));
    assert!(matches!(
        parser.peek_with_length(),
        Err(ParseError::UnterminatedLiteral { position: 0 })
    ));
}

#[test]
fn identifier_stops_at_semicolon() {
    let parser = Parser::new(String::from("users;"));
    let (word, length) = parser.peek_with_length().unwrap();
    assert_eq!(word, "users");
    assert_eq!(length, 5);
}

#[test]
fn keyword_is_case_insensitive() {
    for text in ["select", "Select", "SELECT", "sElEcT"] {
        let parser = Parser::new(String::from(text));
        let (word, length) = parser.peek_with_length().unwrap();
        assert_eq!(word, "SELECT");
        assert_eq!(length, 6);
    }
    let q = parse_ok("select * from users");
    assert_eq!(q.kind, Some(StatementKind::Select));
    let q = parse_ok("Select * From users");
    assert_eq!(q.kind, Some(StatementKind::Select));
}

#[test]
fn word_boundary_rejects_longer_identifier() {
    let parser = Parser::new(String::from("SELECTOR"));
    let (word, length) = parser.peek_with_length().unwrap();
    assert_eq!(word, "SELECTOR");
    assert_eq!(length, 8);
    assert!(matches!(
        parse_err("SELECTOR * FROM users"),
        ParseError::UnsupportedStatement { position: 0, .. }
    ));
}

#[test]
fn multi_word_phrase_is_one_token() {
    let parser = Parser::new(String::from("insert into users"));
    let (word, length) = parser.peek_with_length().unwrap();
    assert_eq!(word, "INSERT INTO");
    assert_eq!(length, 11);
}

#[test]
fn operators_are_tokens() {
    let parser = Parser::new(String::from(">= 3"));
    let (word, length) = parser.peek_with_length().unwrap();
    assert_eq!(word, ">=");
    assert_eq!(length, 2);
    let parser = Parser::new(String::from(", x"));
    let (word, length) = parser.peek_with_length().unwrap();
    assert_eq!(word, ",");
    assert_eq!(length, 1);
}

#[test]
fn end_of_input_is_empty_token() {
    let parser = Parser::new(String::from(""));
    let (word, length) = parser.peek_with_length().unwrap();
    assert_eq!(word, "");
    assert_eq!(length, 0);
}

#[test]
fn select_star() {
    let q = parse_ok("SELECT * FROM users");
    assert_eq!(q.kind, Some(StatementKind::Select));
    assert_eq!(q.fields, vec!["*"]);
    assert_eq!(q.table.as_deref(), Some("users"));
    assert!(q.conditions.is_empty());
    assert!(q.values.is_empty());
}

#[test]
fn select_fields_with_filter() {
    let q = parse_ok("SELECT id, name FROM users WHERE id = '5'");
    assert_eq!(q.kind, Some(StatementKind::Select));
    assert_eq!(q.fields, vec!["id", "name"]);
    assert_eq!(q.table.as_deref(), Some("users"));
    assert_eq!(condition_texts(&q), vec!["id = 5"]);
    assert_eq!(q.conditions[0].connective, None);
}

#[test]
fn insert_statement() {
    let q = parse_ok("INSERT INTO users (id, name) VALUES (1, 'ben')");
    assert_eq!(q.kind, Some(StatementKind::Insert));
    assert_eq!(q.table.as_deref(), Some("users"));
    assert_eq!(q.fields, vec!["id", "name"]);
    assert_eq!(q.values, vec!["1", "ben"]);
    assert!(q.conditions.is_empty());
}

#[test]
fn delete_statement() {
    let q = parse_ok("DELETE FROM users WHERE id = '1'");
    assert_eq!(q.kind, Some(StatementKind::Delete));
    assert_eq!(q.table.as_deref(), Some("users"));
    assert_eq!(condition_texts(&q), vec!["id = 1"]);
    assert!(q.fields.is_empty());
}

#[test]
fn delete_without_filter() {
    let q = parse_ok("DELETE FROM users");
    assert_eq!(q.kind, Some(StatementKind::Delete));
    assert_eq!(q.table.as_deref(), Some("users"));
    assert!(q.conditions.is_empty());
}

#[test]
fn update_statement() {
    let q = parse_ok("UPDATE users SET name = 'ben' WHERE id = '1'");
    assert_eq!(q.kind, Some(StatementKind::Update));
    assert_eq!(q.table.as_deref(), Some("users"));
    assert_eq!(q.fields, vec!["name"]);
    assert_eq!(q.values, vec!["ben"]);
    assert_eq!(condition_texts(&q), vec!["id = 1"]);
}

#[test]
fn update_several_assignments() {
    let q = parse_ok("UPDATE users SET name = 'ben', age = 7");
    assert_eq!(q.fields, vec!["name", "age"]);
    assert_eq!(q.values, vec!["ben", "7"]);
    assert!(q.conditions.is_empty());
}

#[test]
fn connectives_are_recorded() {
    let q = parse_ok("SELECT * FROM t WHERE a = 1 AND b != 'x' or c <= 3");
    assert_eq!(condition_texts(&q), vec!["a = 1", "b != x", "c <= 3"]);
    assert_eq!(q.conditions[0].connective, None);
    assert_eq!(q.conditions[1].connective, Some(Connective::And));
    assert_eq!(q.conditions[2].connective, Some(Connective::Or));
}

#[test]
fn surrounding_whitespace_is_skipped() {
    let q = parse_ok("  SELECT\tid ,name\nFROM users  ");
    assert_eq!(q.fields, vec!["id", "name"]);
    assert_eq!(q.table.as_deref(), Some("users"));
}

#[test]
fn unsupported_statement() {
    match parse_err("SELEC * FROM x") {
        ParseError::UnsupportedStatement { position, found } => {
            assert_eq!(position, 0);
            assert_eq!(found, "SELEC");
        }
        e => panic!("wrong error {:?}", e),
    }
}

#[test]
fn empty_text_is_unsupported() {
    assert!(matches!(parse_err(""), ParseError::UnsupportedStatement { position: 0, .. }));
}

#[test]
fn filter_without_condition() {
    match parse_err("SELECT * FROM users WHERE") {
        ParseError::UnexpectedEndOfInput { position, expected } => {
            assert_eq!(position, 25);
            assert_eq!(expected, Expected::Field);
        }
        e => panic!("wrong error {:?}", e),
    }
}

#[test]
fn unexpected_token() {
    match parse_err("SELECT * users") {
        ParseError::UnexpectedToken { position, expected, found } => {
            assert_eq!(position, 9);
            assert_eq!(expected, Expected::CommaOrFrom);
            assert_eq!(found, "users");
        }
        e => panic!("wrong error {:?}", e),
    }
}

#[test]
fn trailing_token_after_insert() {
    match parse_err("INSERT INTO t (a) VALUES (1) x") {
        ParseError::UnexpectedToken { position, expected, found } => {
            assert_eq!(position, 29);
            assert_eq!(expected, Expected::EndOfInput);
            assert_eq!(found, "x");
        }
        e => panic!("wrong error {:?}", e),
    }
}

#[test]
fn cardinality_mismatch() {
    match parse_err("INSERT INTO users (id, name) VALUES (1)") {
        ParseError::CardinalityMismatch { fields, values } => {
            assert_eq!(fields, 2);
            assert_eq!(values, 1);
        }
        e => panic!("wrong error {:?}", e),
    }
}

#[test]
fn unterminated_literal_in_statement() {
    match parse_err("SELECT * FROM t WHERE a = 'open") {
        ParseError::UnterminatedLiteral { position } => assert_eq!(position, 26),
        e => panic!("wrong error {:?}", e),
    }
}

#[test]
fn parse_is_deterministic() {
    let text = "UPDATE t SET a = 'x' WHERE b = 2 OR c = 3";
    let a = parse_ok(text);
    let b = parse_ok(text);
    assert_eq!(a.kind, b.kind);
    assert_eq!(a.table, b.table);
    assert_eq!(a.fields, b.fields);
    assert_eq!(a.values, b.values);
    assert_eq!(condition_texts(&a), condition_texts(&b));
    let e1 = format!("{:?}", parse_err("SELECT * FROM"));
    let e2 = format!("{:?}", parse_err("SELECT * FROM"));
    assert_eq!(e1, e2);
}
