use parser::position::Position;
use parser::text::same_text;
use parser::token::{Token, TokenKind};
use parser::Parser;

/// A token of one line of source text, starting `index` characters in.
fn token(kind: TokenKind, value: &str, index: usize) -> Token {
    Token {
        kind,
        value: value.to_string(),
        start_position: Position {
            index,
            line: 1,
            column: index + 1,
        },
        end_position: Position {
            index: index + value.chars().count(),
            line: 1,
            column: index + value.chars().count() + 1,
        },
    }
}

/// The tokens of `let x = 10`.
fn tokens() -> Vec<Token> {
    vec![
        token(TokenKind::Keyword, "let", 0),
        token(TokenKind::Identifier, "x", 4),
        token(TokenKind::Operator, "=", 6),
        token(TokenKind::Integer, "10", 8),
    ]
}

#[test]
fn new_starts_at_the_first_token() {
    let parser = Parser::new(tokens());
    assert_eq!(parser.mark(), 0);
    assert_eq!(parser.peek_token(0), Some(&tokens()[0]));
}

#[test]
fn new_keeps_the_order_of_the_tokens_that_are_not_comments() {
    let with_comments = vec![
        token(TokenKind::Comment, "// a", 0),
        token(TokenKind::Keyword, "let", 5),
        token(TokenKind::Comment, "/* b */", 9),
        token(TokenKind::Comment, "/* c */", 17),
        token(TokenKind::Identifier, "x", 25),
        token(TokenKind::Comment, "// d", 27),
    ];
    let parser = Parser::new(with_comments.clone());
    assert_eq!(parser.peek_token(0), Some(&with_comments[1]));
    assert_eq!(parser.peek_token(1), Some(&with_comments[4]));
    assert_eq!(parser.peek_token(2), None);

    let only_comments = vec![token(TokenKind::Comment, "// a", 0)];
    assert_eq!(Parser::new(only_comments).peek_token(0), None);
}

#[test]
fn peek_token_does_not_move_the_cursor() {
    let parser = Parser::new(tokens());
    assert_eq!(parser.peek_token(1), Some(&tokens()[1]));
    assert_eq!(parser.peek_token(3), Some(&tokens()[3]));
    assert_eq!(parser.peek_token(0), Some(&tokens()[0]));
    assert_eq!(parser.mark(), 0);
}

#[test]
fn peek_token_returns_none_past_the_end() {
    let mut parser = Parser::new(tokens());
    assert_eq!(parser.peek_token(4), None);
    assert_eq!(parser.peek_token(usize::MAX), None);
    parser.advance_token();
    assert_eq!(parser.peek_token(2), Some(&tokens()[3]));
    assert_eq!(parser.peek_token(3), None);
    assert_eq!(parser.peek_token(usize::MAX), None);
    assert_eq!(Parser::new(vec![]).peek_token(0), None);
}

#[test]
fn advance_token_returns_the_token_and_moves_on() {
    let mut parser = Parser::new(tokens());
    assert_eq!(parser.advance_token(), Some(&tokens()[0]));
    assert_eq!(parser.mark(), 1);
    assert_eq!(parser.advance_token(), Some(&tokens()[1]));
    assert_eq!(parser.advance_token(), Some(&tokens()[2]));
    assert_eq!(parser.advance_token(), Some(&tokens()[3]));
    assert_eq!(parser.mark(), 4);
}

#[test]
fn advance_token_moves_on_past_the_end() {
    let mut parser = Parser::new(tokens());
    for _ in 0..4 {
        parser.advance_token();
    }
    assert_eq!(parser.advance_token(), None);
    assert_eq!(parser.mark(), 5);
    assert_eq!(parser.advance_token(), None);
    assert_eq!(parser.mark(), 6);
    assert_eq!(parser.peek_token(0), None);
    assert_eq!(parser.expression(), None);
    assert_eq!(parser.statement(), None);
    assert_eq!(parser.block(), None);
    assert_eq!(parser.mark(), 6);
}

#[test]
fn consume_token_kind_takes_a_token_of_that_kind_only() {
    let mut parser = Parser::new(tokens());
    assert_eq!(parser.consume_token_kind(TokenKind::Identifier), None);
    assert_eq!(parser.consume_token_kind(TokenKind::Comment), None);
    assert_eq!(parser.mark(), 0);
    assert_eq!(
        parser.consume_token_kind(TokenKind::Keyword),
        Some(&tokens()[0])
    );
    assert_eq!(parser.mark(), 1);
    assert_eq!(parser.consume_token_kind(TokenKind::Keyword), None);
    assert_eq!(
        parser.consume_token_kind(TokenKind::Identifier),
        Some(&tokens()[1])
    );
    assert_eq!(parser.mark(), 2);
}

#[test]
fn consume_token_kind_returns_none_at_the_end() {
    let mut parser = Parser::new(vec![]);
    assert_eq!(parser.consume_token_kind(TokenKind::Keyword), None);
    assert_eq!(parser.mark(), 0);
}

#[test]
fn consume_token_takes_a_token_of_that_kind_and_text_only() {
    let mut parser = Parser::new(tokens());
    assert_eq!(parser.consume_token(TokenKind::Keyword, "var"), None);
    assert_eq!(parser.consume_token(TokenKind::Keyword, "le"), None);
    assert_eq!(parser.consume_token(TokenKind::Keyword, "lets"), None);
    assert_eq!(parser.consume_token(TokenKind::Keyword, ""), None);
    assert_eq!(parser.consume_token(TokenKind::Identifier, "let"), None);
    assert_eq!(parser.mark(), 0);
    assert_eq!(
        parser.consume_token(TokenKind::Keyword, "let"),
        Some(&tokens()[0])
    );
    assert_eq!(parser.mark(), 1);
    assert_eq!(parser.consume_token(TokenKind::Keyword, "let"), None);
    assert_eq!(
        parser.consume_token(TokenKind::Identifier, "x"),
        Some(&tokens()[1])
    );
    assert_eq!(parser.mark(), 2);
}

#[test]
fn consume_token_returns_none_at_the_end() {
    let mut parser = Parser::new(vec![]);
    assert_eq!(parser.consume_token(TokenKind::Keyword, "let"), None);
    assert_eq!(parser.mark(), 0);
}

#[test]
fn transaction_goes_back_when_nothing_was_found() {
    let mut parser = Parser::new(tokens());
    let mark = parser.mark();
    parser.advance_token();
    parser.advance_token();
    let outcome: Option<u8> = parser.transaction(mark, None);
    assert_eq!(outcome, None);
    assert_eq!(parser.mark(), 0);
    assert_eq!(parser.peek_token(0), Some(&tokens()[0]));
}

#[test]
fn transaction_stays_when_something_was_found() {
    let mut parser = Parser::new(tokens());
    let mark = parser.mark();
    parser.advance_token();
    parser.advance_token();
    let outcome = parser.transaction(mark, Some("found"));
    assert_eq!(outcome, Some("found"));
    assert_eq!(parser.mark(), 2);
    assert_eq!(parser.peek_token(0), Some(&tokens()[2]));
}

#[test]
fn transaction_goes_back_to_the_mark_it_is_given() {
    let mut parser = Parser::new(tokens());
    parser.advance_token();
    let inner = parser.mark();
    parser.advance_token();
    parser.advance_token();
    let outcome: Option<u8> = parser.transaction(inner, None);
    assert_eq!(outcome, None);
    assert_eq!(parser.mark(), 1);
}

#[test]
fn consume_add_operator_takes_plus_and_minus() {
    let plus = token(TokenKind::Operator, "+", 0);
    let minus = token(TokenKind::Operator, "-", 2);
    let mut parser = Parser::new(vec![plus.clone(), minus.clone()]);
    assert_eq!(parser.consume_mul_operator(), None);
    let operator = parser.consume_add_operator().unwrap();
    assert_eq!(operator.operator, parser::ast::OperatorKind::Add);
    assert_eq!(operator.location.start, plus.start_position);
    assert_eq!(operator.location.end, plus.end_position);
    let operator = parser.consume_add_operator().unwrap();
    assert_eq!(operator.operator, parser::ast::OperatorKind::Subtract);
    assert_eq!(operator.location.start, minus.start_position);
    assert_eq!(operator.location.end, minus.end_position);
    assert_eq!(parser.consume_add_operator(), None);
    assert_eq!(parser.mark(), 2);
}

#[test]
fn consume_mul_operator_takes_star_and_slash() {
    let star = token(TokenKind::Operator, "*", 0);
    let slash = token(TokenKind::Operator, "/", 2);
    let mut parser = Parser::new(vec![star.clone(), slash.clone()]);
    assert_eq!(parser.consume_add_operator(), None);
    let operator = parser.consume_mul_operator().unwrap();
    assert_eq!(operator.operator, parser::ast::OperatorKind::Multiply);
    assert_eq!(operator.location.start, star.start_position);
    let operator = parser.consume_mul_operator().unwrap();
    assert_eq!(operator.operator, parser::ast::OperatorKind::Divide);
    assert_eq!(operator.location.end, slash.end_position);
    assert_eq!(parser.consume_mul_operator(), None);
}

#[test]
fn operators_of_another_kind_are_not_operators() {
    let mut parser = Parser::new(vec![
        token(TokenKind::Delimiter, "+", 0),
        token(TokenKind::Operator, "=", 2),
        token(TokenKind::Identifier, "*", 4),
    ]);
    assert_eq!(parser.consume_add_operator(), None);
    assert_eq!(parser.consume_mul_operator(), None);
    parser.advance_token();
    assert_eq!(parser.consume_add_operator(), None);
    assert_eq!(parser.consume_mul_operator(), None);
    parser.advance_token();
    assert_eq!(parser.consume_mul_operator(), None);
    assert_eq!(parser.mark(), 2);
}

#[test]
fn literal_and_identifier_copy_the_text_of_the_token() {
    let mut parser = Parser::new(vec![
        token(TokenKind::Integer, "0042", 0),
        token(TokenKind::Identifier, "naïve", 5),
    ]);
    assert_eq!(parser.identifier(), None);
    let literal = parser.literal().unwrap();
    assert_eq!(
        literal,
        parser::ast::Expression::IntegerLiteral(parser::ast::IntegerLiteral {
            value: "0042".to_string(),
            location: parser::ast::Location {
                start: Position {
                    index: 0,
                    line: 1,
                    column: 1
                },
                end: Position {
                    index: 4,
                    line: 1,
                    column: 5
                },
            },
        })
    );
    assert_eq!(parser.literal(), None);
    let identifier = parser.identifier().unwrap();
    assert_eq!(identifier.name, "naïve");
    assert_eq!(identifier.location.start.index, 5);
    assert_eq!(identifier.location.end.index, 10);
    assert_eq!(parser.identifier(), None);
}

#[test]
fn same_text_compares_characters() {
    assert!(same_text("", ""));
    assert!(same_text("let", "let"));
    assert!(same_text("naïve", "naïve"));
    assert!(!same_text("let", "le"));
    assert!(!same_text("le", "let"));
    assert!(!same_text("let", "lot"));
    assert!(!same_text("let", "Let"));
    assert!(!same_text("", " "));
    assert!(!same_text("naïve", "naive"));
}

#[test]
fn token_clone_is_equal_to_the_token() {
    let token = token(TokenKind::Identifier, "abc", 3);
    assert_eq!(token.clone(), token);
}
