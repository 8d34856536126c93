//! The parser: a cursor over a token sequence, with one function for each
//! production of the grammar.

use crate::ast::{
    lemma_expression_views, AssignmentExpression, BinaryExpression, Block, Expression,
    ExpressionStatement, FunctionCall, FunctionDefinition, Identifier, IntegerLiteral, Location,
    Operator, OperatorKind, Parameter, Parameters, Program, Statement, Statements, Type, TypeKind,
    VariableDefinition,
};
use crate::grammar;
use crate::grammar::Match;
use crate::progress::{lemma_function_definition_advances, lemma_statement_advances};
use crate::shape::{
    lemma_block_well_formed, lemma_function_definition_well_formed, lemma_program_well_formed,
    lemma_statement_terminated,
};
use crate::spans::{
    lemma_block_spans, lemma_expression_spans, lemma_function_definition_spans,
    lemma_program_spans, lemma_statement_spans,
};
use crate::text::same_text;
use crate::token::{is_significant, without_comments, Token, TokenKind, TokenView};
use crate::views::{lemma_views_empty, lemma_views_push, views};
use vstd::prelude::*;

verus! {

/// A cursor over a sequence of tokens.
pub struct Parser {
    /// The tokens to parse.
    tokens: Vec<Token>,
    /// The index of the next token to look at.
    current: usize,
}

/// The mathematical value of a [`Parser`]: the values of its tokens and the
/// position of its cursor.
pub struct ParserView {
    pub tokens: Seq<TokenView>,
    pub current: nat,
}

impl View for Parser {
    type V = ParserView;

    closed spec fn view(&self) -> ParserView {
        ParserView { tokens: views(self.tokens@), current: self.current as nat }
    }
}

impl ParserView {
    /// A production that was expected to yield `expected` at the cursor has
    /// been tried, with the outcome `result`, and the cursor now stands as in
    /// `after`: where the production matches, `result` is its node; where it
    /// does not, `result` is `None`.
    pub open spec fn tried<T: View>(
        self,
        after: ParserView,
        result: Option<T>,
        expected: Match<T::V>,
    ) -> bool {
        &&& after.tokens == self.tokens
        &&& match expected {
            Some((node, n)) => result is Some && result->0@ == node && after.current
                == self.current + n,
            None => result is None,
        }
    }

    /// As [`ParserView::tried`], for a production that yields a list of nodes.
    pub open spec fn tried_all<T: View>(
        self,
        after: ParserView,
        result: Option<Vec<T>>,
        expected: Match<Seq<T::V>>,
    ) -> bool {
        &&& after.tokens == self.tokens
        &&& match expected {
            Some((nodes, n)) => result is Some && views(result->0@) == nodes && after.current
                == self.current + n,
            None => result is None,
        }
    }

    /// As [`ParserView::tried`], and the attempt was all or nothing: where
    /// the production matches the cursor has moved past exactly the tokens it
    /// covers, and where it does not the cursor has not moved.
    pub open spec fn parsed<T: View>(
        self,
        after: ParserView,
        result: Option<T>,
        expected: Match<T::V>,
    ) -> bool {
        &&& self.tried(after, result, expected)
        &&& expected is None ==> after.current == self.current
    }
}

impl Parser {
    /// A parser at the start of `tokens`, with the comments among them removed.
    pub fn new(tokens: Vec<Token>) -> (parser: Parser)
        ensures
            parser@.tokens == without_comments(views(tokens@)),
            forall|i: int|
                0 <= i < parser@.tokens.len() ==> is_significant(#[trigger] parser@.tokens[i]),
            parser@.current == 0,
    {
        let ghost all = views(tokens@);
        let mut tokens_without_comments: Vec<Token> = Vec::new();
        for token in iter: tokens
            invariant
                iter.seq() == tokens@,
                all == views(tokens@),
                views(tokens_without_comments@) == without_comments(
                    all.take(iter.index() as int),
                ),
        {
            proof {
                let i = iter.index() as int;
                let keep = |token: TokenView| is_significant(token);
                all.lemma_take_succ_push(i);
                all.take(i).lemma_filter_push(all[i], keep);
            }
            if token.kind != TokenKind::Comment {
                tokens_without_comments.push(token);
            }
        }
        proof {
            assert(all.take(all.len() as int) =~= all);
        }
        Parser { tokens: tokens_without_comments, current: 0 }
    }

    /// There are no more tokens than a `usize` can count.
    pub proof fn lemma_tokens_fit(&self)
        ensures
            self@.tokens.len() <= usize::MAX,
    {
        assert(self.tokens.len() == self.tokens@.len());
    }

    /// The token `offset` places after the cursor, if there is one. The cursor
    /// does not move.
    pub fn peek_token(&self, offset: usize) -> (token: Option<&Token>)
        ensures
            match token {
                Some(token) => self@.current + offset < self@.tokens.len() && token@
                    == self@.tokens[self@.current + offset],
                None => self@.current + offset >= self@.tokens.len(),
            },
    {
        proof {
            self.lemma_tokens_fit();
        }
        match self.current.checked_add(offset) {
            Some(index) => if index < self.tokens.len() {
                Some(&self.tokens[index])
            } else {
                None
            },
            None => None,
        }
    }

    /// Moves the cursor one place on, whether or not a token stands at it,
    /// and returns the token it stood at, if there was one.
    pub fn advance_token(&mut self) -> (token: Option<&Token>)
        requires
            old(self)@.current < usize::MAX,
        ensures
            final(self)@.tokens == old(self)@.tokens,
            final(self)@.current == old(self)@.current + 1,
            match token {
                Some(token) => old(self)@.current < old(self)@.tokens.len() && token@ == old(
                    self,
                )@.tokens[old(self)@.current as int],
                None => old(self)@.current >= old(self)@.tokens.len(),
            },
    {
        let at = self.current;
        self.current = self.current + 1;
        if at < self.tokens.len() {
            Some(&self.tokens[at])
        } else {
            None
        }
    }

    /// Takes the token at the cursor if it is of the given kind; otherwise the
    /// cursor does not move.
    pub fn consume_token_kind(&mut self, token_kind: TokenKind) -> (token: Option<&Token>)
        ensures
            final(self)@.tokens == old(self)@.tokens,
            match token {
                Some(token) => grammar::kind_at(old(self)@.tokens, old(self)@.current, token_kind)
                    && token@ == grammar::token(old(self)@.tokens, old(self)@.current)
                    && final(self)@.current == old(self)@.current + 1,
                None => !grammar::kind_at(old(self)@.tokens, old(self)@.current, token_kind)
                    && final(self)@.current == old(self)@.current,
            },
    {
        let found = match self.peek_token(0) {
            Some(token) => token.kind == token_kind,
            None => false,
        };
        if found {
            proof {
                self.lemma_tokens_fit();
            }
            self.advance_token()
        } else {
            None
        }
    }

    /// Takes the token at the cursor if it is of the given kind and has the
    /// given text; otherwise the cursor does not move.
    pub fn consume_token(&mut self, token_kind: TokenKind, value: &str) -> (token: Option<&Token>)
        ensures
            final(self)@.tokens == old(self)@.tokens,
            match token {
                Some(token) => grammar::token_at(
                    old(self)@.tokens,
                    old(self)@.current,
                    token_kind,
                    value@,
                ) && token@ == grammar::token(old(self)@.tokens, old(self)@.current)
                    && final(self)@.current == old(self)@.current + 1,
                None => !grammar::token_at(
                    old(self)@.tokens,
                    old(self)@.current,
                    token_kind,
                    value@,
                ) && final(self)@.current == old(self)@.current,
            },
    {
        let found = match self.peek_token(0) {
            Some(token) => token.kind == token_kind && same_text(token.value.as_str(), value),
            None => false,
        };
        if found {
            proof {
                self.lemma_tokens_fit();
            }
            self.advance_token()
        } else {
            None
        }
    }

    /// The position of the cursor, to which a later call of
    /// [`Parser::transaction`] can return.
    pub fn mark(&self) -> (mark: usize)
        ensures
            mark == self@.current,
    {
        self.current
    }

    /// Concludes an attempt that began with the cursor at `mark`: where the
    /// attempt found nothing, the cursor goes back to `mark`; where it found
    /// something, the cursor stays where the attempt left it.
    pub fn transaction<T>(&mut self, mark: usize, result: Option<T>) -> (outcome: Option<T>)
        ensures
            outcome == result,
            final(self)@.tokens == old(self)@.tokens,
            final(self)@.current == if result is None {
                mark as nat
            } else {
                old(self)@.current
            },
    {
        if result.is_none() {
            self.current = mark;
        }
        result
    }

    /// `literal = INTEGER`
    pub fn literal(&mut self) -> (result: Option<Expression>)
        ensures
            old(self)@.parsed(
                final(self)@,
                result,
                grammar::literal(old(self)@.tokens, old(self)@.current),
            ),
    {
        match self.consume_token_kind(TokenKind::Integer) {
            Some(token) => Some(
                Expression::IntegerLiteral(
                    IntegerLiteral {
                        location: Location { start: token.start_position, end: token.end_position },
                        value: token.value.clone(),
                    },
                ),
            ),
            None => None,
        }
    }

    /// `identifier = IDENTIFIER`
    pub fn identifier(&mut self) -> (result: Option<Identifier>)
        ensures
            old(self)@.parsed(
                final(self)@,
                result,
                grammar::identifier(old(self)@.tokens, old(self)@.current),
            ),
    {
        match self.consume_token_kind(TokenKind::Identifier) {
            Some(token) => Some(
                Identifier {
                    name: token.value.clone(),
                    location: Location { start: token.start_position, end: token.end_position },
                },
            ),
            None => None,
        }
    }

    /// `type = "i32" | "i64"`
    pub fn type_expression(&mut self) -> (result: Option<Type>)
        ensures
            old(self)@.parsed(
                final(self)@,
                result,
                grammar::type_expression(old(self)@.tokens, old(self)@.current),
            ),
    {
        let (location, name) = {
            let token = self.peek_token(0)?;
            let location = Location { start: token.start_position, end: token.end_position };
            match token.kind {
                TokenKind::Identifier => if same_text(token.value.as_str(), "i32") {
                    (location, TypeKind::I32)
                } else if same_text(token.value.as_str(), "i64") {
                    (location, TypeKind::I64)
                } else {
                    return None;
                },
                _ => {
                    return None;
                },
            }
        };
        proof {
            self.lemma_tokens_fit();
        }
        self.advance_token();
        Some(Type { name, location })
    }

    /// Takes the operator at the cursor if it is `+` or `-`.
    pub fn consume_add_operator(&mut self) -> (result: Option<Operator>)
        ensures
            old(self)@.parsed(
                final(self)@,
                result,
                grammar::add_operator(old(self)@.tokens, old(self)@.current),
            ),
    {
        let operator = {
            let token = self.peek_token(0)?;
            if token.kind != TokenKind::Operator {
                return None;
            }
            let location = Location { start: token.start_position, end: token.end_position };
            if same_text(token.value.as_str(), "+") {
                Operator { operator: OperatorKind::Add, location }
            } else if same_text(token.value.as_str(), "-") {
                Operator { operator: OperatorKind::Subtract, location }
            } else {
                return None;
            }
        };
        proof {
            self.lemma_tokens_fit();
        }
        self.advance_token();
        Some(operator)
    }

    /// Takes the operator at the cursor if it is `*` or `/`.
    pub fn consume_mul_operator(&mut self) -> (result: Option<Operator>)
        ensures
            old(self)@.parsed(
                final(self)@,
                result,
                grammar::mul_operator(old(self)@.tokens, old(self)@.current),
            ),
    {
        let operator = {
            let token = self.peek_token(0)?;
            if token.kind != TokenKind::Operator {
                return None;
            }
            let location = Location { start: token.start_position, end: token.end_position };
            if same_text(token.value.as_str(), "*") {
                Operator { operator: OperatorKind::Multiply, location }
            } else if same_text(token.value.as_str(), "/") {
                Operator { operator: OperatorKind::Divide, location }
            } else {
                return None;
            }
        };
        proof {
            self.lemma_tokens_fit();
        }
        self.advance_token();
        Some(operator)
    }

    /// `expression = add_expression`
    pub fn expression(&mut self) -> (result: Option<Expression>)
        ensures
            old(self)@.parsed(
                final(self)@,
                result,
                grammar::expression(old(self)@.tokens, old(self)@.current),
            ),
            result matches Some(node) ==> node@.spans_children(),
        decreases grammar::remaining(old(self)@.tokens, old(self)@.current), 20nat,
    {
        proof {
            lemma_expression_spans(self@.tokens, self@.current);
        }
        reveal(grammar::add_expression);
        self.add_expression()
    }

    /// `add_expression = mul_expression (("+" | "-") mul_expression)*`
    pub fn add_expression(&mut self) -> (result: Option<Expression>)
        ensures
            old(self)@.parsed(
                final(self)@,
                result,
                grammar::add_expression(old(self)@.tokens, old(self)@.current),
            ),
        decreases grammar::remaining(old(self)@.tokens, old(self)@.current), 19nat,
    {
        let mark = self.mark();
        let attempt = self.attempt_add_expression();
        self.transaction(mark, attempt)
    }

    fn attempt_add_expression(&mut self) -> (result: Option<Expression>)
        ensures
            old(self)@.tried(
                final(self)@,
                result,
                grammar::add_expression(old(self)@.tokens, old(self)@.current),
            ),
        decreases grammar::remaining(old(self)@.tokens, old(self)@.current), 18nat,
    {
        reveal(grammar::add_expression);
        reveal(grammar::add_operands);
        reveal(grammar::mul_expression);
        let ghost ts = self@.tokens;
        let ghost start = self@.current;
        let mut expression = self.mul_expression()?;
        loop
            invariant
                ts == old(self)@.tokens,
                start == old(self)@.current,
                self@.tokens == ts,
                start <= self@.current,
                grammar::add_expression(ts, start) == grammar::after(
                    (self@.current - start) as nat,
                    grammar::add_operands(ts, self@.current, expression@),
                ),
            ensures
                grammar::add_operator(ts, self@.current) is None,
            decreases grammar::remaining(ts, self@.current),
        {
            reveal(grammar::add_operands);
            reveal(grammar::mul_expression);
            let operator = match self.consume_add_operator() {
                Some(operator) => operator,
                None => {
                    break ;
                },
            };
            let rhs = self.mul_expression()?;
            let location = Location { start: expression.location().start, end: rhs.location().end };
            expression =
            Expression::BinaryExpression(
                BinaryExpression {
                    location,
                    left: Box::new(expression),
                    operator,
                    right: Box::new(rhs),
                },
            );
        }
        Some(expression)
    }

    /// `mul_expression = unary_expression (("*" | "/") unary_expression)*`
    pub fn mul_expression(&mut self) -> (result: Option<Expression>)
        ensures
            old(self)@.parsed(
                final(self)@,
                result,
                grammar::mul_expression(old(self)@.tokens, old(self)@.current),
            ),
        decreases grammar::remaining(old(self)@.tokens, old(self)@.current), 17nat,
    {
        let mark = self.mark();
        let attempt = self.attempt_mul_expression();
        self.transaction(mark, attempt)
    }

    fn attempt_mul_expression(&mut self) -> (result: Option<Expression>)
        ensures
            old(self)@.tried(
                final(self)@,
                result,
                grammar::mul_expression(old(self)@.tokens, old(self)@.current),
            ),
        decreases grammar::remaining(old(self)@.tokens, old(self)@.current), 16nat,
    {
        reveal(grammar::mul_expression);
        reveal(grammar::mul_operands);
        reveal(grammar::unary_expression);
        let ghost ts = self@.tokens;
        let ghost start = self@.current;
        let mut expression = self.unary_expression()?;
        loop
            invariant
                ts == old(self)@.tokens,
                start == old(self)@.current,
                self@.tokens == ts,
                start <= self@.current,
                grammar::mul_expression(ts, start) == grammar::after(
                    (self@.current - start) as nat,
                    grammar::mul_operands(ts, self@.current, expression@),
                ),
            ensures
                grammar::mul_operator(ts, self@.current) is None,
            decreases grammar::remaining(ts, self@.current),
        {
            reveal(grammar::mul_operands);
            reveal(grammar::unary_expression);
            let operator = match self.consume_mul_operator() {
                Some(operator) => operator,
                None => {
                    break ;
                },
            };
            let rhs = self.unary_expression()?;
            let location = Location { start: expression.location().start, end: rhs.location().end };
            expression =
            Expression::BinaryExpression(
                BinaryExpression {
                    location,
                    left: Box::new(expression),
                    operator,
                    right: Box::new(rhs),
                },
            );
        }
        Some(expression)
    }

    /// `unary_expression = primary_expression | "-" primary_expression`
    pub fn unary_expression(&mut self) -> (result: Option<Expression>)
        ensures
            old(self)@.parsed(
                final(self)@,
                result,
                grammar::unary_expression(old(self)@.tokens, old(self)@.current),
            ),
        decreases grammar::remaining(old(self)@.tokens, old(self)@.current), 15nat,
    {
        reveal(grammar::unary_expression);
        reveal(grammar::primary_expression);
        reveal(grammar::negated_expression);
        match self.primary_expression() {
            Some(primary) => Some(primary),
            None => {
                let mark = self.mark();
                let attempt = self.attempt_negated_expression();
                self.transaction(mark, attempt)
            },
        }
    }

    fn attempt_negated_expression(&mut self) -> (result: Option<Expression>)
        ensures
            old(self)@.tried(
                final(self)@,
                result,
                grammar::negated_expression(old(self)@.tokens, old(self)@.current),
            ),
        decreases grammar::remaining(old(self)@.tokens, old(self)@.current), 13nat,
    {
        reveal(grammar::negated_expression);
        reveal(grammar::primary_expression);
        let (minus_start_position, minus_end_position) = {
            let token = self.consume_token(TokenKind::Operator, "-")?;
            (token.start_position, token.end_position)
        };
        let expression = self.primary_expression()?;
        let zero = Expression::IntegerLiteral(
            IntegerLiteral {
                location: Location { start: minus_start_position, end: minus_start_position },
                value: "0".to_owned(),
            },
        );
        assert(zero@ is IntegerLiteral);
        Some(
            Expression::BinaryExpression(
                BinaryExpression {
                    location: Location {
                        start: minus_start_position,
                        end: expression.location().end,
                    },
                    left: Box::new(zero),
                    operator: Operator {
                        operator: OperatorKind::Subtract,
                        location: Location {
                            start: minus_start_position,
                            end: minus_end_position,
                        },
                    },
                    right: Box::new(expression),
                },
            ),
        )
    }

    /// `primary_expression = literal | assignment | function_call | identifier | "(" expression ")"`
    pub fn primary_expression(&mut self) -> (result: Option<Expression>)
        ensures
            old(self)@.parsed(
                final(self)@,
                result,
                grammar::primary_expression(old(self)@.tokens, old(self)@.current),
            ),
        decreases grammar::remaining(old(self)@.tokens, old(self)@.current), 14nat,
    {
        reveal(grammar::primary_expression);
        reveal(grammar::assignment_expression);
        reveal(grammar::function_call);
        reveal(grammar::parenthesized_expression);
        if let Some(literal) = self.literal() {
            return Some(literal);
        }
        if let Some(assignment) = self.assignment_expression() {
            return Some(assignment);
        }
        if let Some(call) = self.function_call() {
            return Some(call);
        }
        if let Some(identifier) = self.identifier() {
            return Some(Expression::Identifier(identifier));
        }
        let mark = self.mark();
        let attempt = self.attempt_parenthesized_expression();
        self.transaction(mark, attempt)
    }

    fn attempt_parenthesized_expression(&mut self) -> (result: Option<Expression>)
        ensures
            old(self)@.tried(
                final(self)@,
                result,
                grammar::parenthesized_expression(old(self)@.tokens, old(self)@.current),
            ),
        decreases grammar::remaining(old(self)@.tokens, old(self)@.current), 12nat,
    {
        reveal(grammar::parenthesized_expression);
        self.consume_token(TokenKind::Delimiter, "(")?;
        let expression = self.expression()?;
        self.consume_token(TokenKind::Delimiter, ")")?;
        Some(expression)
    }

    /// `assignment = identifier "=" expression`
    pub fn assignment_expression(&mut self) -> (result: Option<Expression>)
        ensures
            old(self)@.parsed(
                final(self)@,
                result,
                grammar::assignment_expression(old(self)@.tokens, old(self)@.current),
            ),
        decreases grammar::remaining(old(self)@.tokens, old(self)@.current), 12nat,
    {
        let mark = self.mark();
        let attempt = self.attempt_assignment_expression();
        self.transaction(mark, attempt)
    }

    fn attempt_assignment_expression(&mut self) -> (result: Option<Expression>)
        ensures
            old(self)@.tried(
                final(self)@,
                result,
                grammar::assignment_expression(old(self)@.tokens, old(self)@.current),
            ),
        decreases grammar::remaining(old(self)@.tokens, old(self)@.current), 11nat,
    {
        reveal(grammar::assignment_expression);
        let identifier = self.identifier()?;
        self.consume_token(TokenKind::Operator, "=")?;
        let expression = self.expression()?;
        Some(
            Expression::AssignmentExpression(
                AssignmentExpression {
                    location: Location {
                        start: identifier.location.start,
                        end: expression.location().end,
                    },
                    name: identifier,
                    value: Box::new(expression),
                },
            ),
        )
    }

    /// `function_call = identifier "(" (expression ("," expression)*)? ")"`
    pub fn function_call(&mut self) -> (result: Option<Expression>)
        ensures
            old(self)@.parsed(
                final(self)@,
                result,
                grammar::function_call(old(self)@.tokens, old(self)@.current),
            ),
        decreases grammar::remaining(old(self)@.tokens, old(self)@.current), 12nat,
    {
        let mark = self.mark();
        let attempt = self.attempt_function_call();
        self.transaction(mark, attempt)
    }

    fn attempt_function_call(&mut self) -> (result: Option<Expression>)
        ensures
            old(self)@.tried(
                final(self)@,
                result,
                grammar::function_call(old(self)@.tokens, old(self)@.current),
            ),
        decreases grammar::remaining(old(self)@.tokens, old(self)@.current), 11nat,
    {
        reveal(grammar::function_call);
        reveal(grammar::arguments);
        let identifier = self.identifier()?;
        self.consume_token(TokenKind::Delimiter, "(")?;
        let arguments = self.attempt_arguments()?;
        let end_position = self.consume_token(TokenKind::Delimiter, ")")?.end_position;
        let call = FunctionCall {
            location: Location { start: identifier.location.start, end: end_position },
            name: identifier,
            arguments,
        };
        proof {
            lemma_expression_views(call.arguments@);
        }
        Some(Expression::FunctionCall(call))
    }

    /// `(expression ("," expression)*)?`
    fn attempt_arguments(&mut self) -> (result: Option<Vec<Expression>>)
        ensures
            old(self)@.tried_all(
                final(self)@,
                result,
                grammar::arguments(old(self)@.tokens, old(self)@.current),
            ),
        decreases grammar::remaining(old(self)@.tokens, old(self)@.current), 21nat,
    {
        reveal(grammar::arguments);
        reveal(grammar::more_arguments);
        let ghost ts = self@.tokens;
        let ghost start = self@.current;
        let mut arguments: Vec<Expression> = Vec::new();
        proof {
            lemma_views_empty::<Expression>();
        }
        if let Some(first) = self.expression() {
            proof {
                lemma_views_push(arguments@, first);
            }
            arguments.push(first);
            loop
                invariant
                    ts == old(self)@.tokens,
                    start == old(self)@.current,
                    self@.tokens == ts,
                    start <= self@.current,
                    grammar::arguments(ts, start) == grammar::after(
                        (self@.current - start) as nat,
                        grammar::more_arguments(ts, self@.current, views(arguments@)),
                    ),
                ensures
                    !grammar::token_at(ts, self@.current, TokenKind::Delimiter, ","@),
                decreases grammar::remaining(ts, self@.current),
            {
                reveal(grammar::more_arguments);
                if self.consume_token(TokenKind::Delimiter, ",").is_none() {
                    break ;
                }
                let next = self.expression()?;
                proof {
                    lemma_views_push(arguments@, next);
                }
                arguments.push(next);
            }
        }
        Some(arguments)
    }

    /// `expression_statement = expression ";"`
    pub fn expression_statement(&mut self) -> (result: Option<ExpressionStatement>)
        ensures
            old(self)@.parsed(
                final(self)@,
                result,
                grammar::expression_statement(old(self)@.tokens, old(self)@.current),
            ),
    {
        let mark = self.mark();
        let attempt = self.attempt_expression_statement();
        self.transaction(mark, attempt)
    }

    fn attempt_expression_statement(&mut self) -> (result: Option<ExpressionStatement>)
        ensures
            old(self)@.tried(
                final(self)@,
                result,
                grammar::expression_statement(old(self)@.tokens, old(self)@.current),
            ),
    {
        reveal(grammar::expression_statement);
        let expression = self.expression()?;
        let end_position = self.consume_token(TokenKind::Delimiter, ";")?.end_position;
        Some(
            ExpressionStatement {
                location: Location { start: expression.location().start, end: end_position },
                expression,
            },
        )
    }

    /// `variable_definition = "let" identifier ":" type "=" expression ";"`
    /// `                    | "var" identifier ":" type ("=" expression)? ";"`
    pub fn variable_definition_statement(&mut self) -> (result: Option<VariableDefinition>)
        ensures
            old(self)@.parsed(
                final(self)@,
                result,
                grammar::variable_definition_statement(old(self)@.tokens, old(self)@.current),
            ),
    {
        let mark = self.mark();
        let attempt = self.attempt_variable_definition_statement();
        self.transaction(mark, attempt)
    }

    fn attempt_variable_definition_statement(&mut self) -> (result: Option<VariableDefinition>)
        ensures
            old(self)@.tried(
                final(self)@,
                result,
                grammar::variable_definition_statement(old(self)@.tokens, old(self)@.current),
            ),
    {
        reveal(grammar::variable_definition_statement);
        let start_position = self.peek_token(0)?.start_position;
        let mutable = if self.consume_token(TokenKind::Keyword, "let").is_some() {
            false
        } else if self.consume_token(TokenKind::Keyword, "var").is_some() {
            true
        } else {
            return None;
        };
        let name = self.identifier()?;
        self.consume_token(TokenKind::Delimiter, ":")?;
        let variable_type = self.type_expression()?;
        let value = self.attempt_initializer()?;
        if !mutable && value.is_none() {
            return None;
        }
        let end_position = self.consume_token(TokenKind::Delimiter, ";")?.end_position;
        Some(
            VariableDefinition {
                location: Location { start: start_position, end: end_position },
                name,
                mutable,
                variable_type,
                value,
            },
        )
    }

    /// `("=" expression)?`
    fn attempt_initializer(&mut self) -> (result: Option<Option<Expression>>)
        ensures
            final(self)@.tokens == old(self)@.tokens,
            match grammar::initializer(old(self)@.tokens, old(self)@.current) {
                Some((value, n)) => result is Some && final(self)@.current == old(self)@.current
                    + n && match value {
                    Some(value) => result->0 is Some && result->0->0@ == value,
                    None => result->0 is None,
                },
                None => result is None,
            },
    {
        reveal(grammar::initializer);
        if self.consume_token(TokenKind::Operator, "=").is_some() {
            Some(Some(self.expression()?))
        } else {
            Some(None)
        }
    }

    /// `statement = variable_definition | expression_statement`
    pub fn statement(&mut self) -> (result: Option<Statement>)
        ensures
            old(self)@.parsed(
                final(self)@,
                result,
                grammar::statement(old(self)@.tokens, old(self)@.current),
            ),
            result matches Some(node) ==> node@.is_terminated() && node@.well_formed()
                && node@.spans_children(),
    {
        proof {
            lemma_statement_terminated(self@.tokens, self@.current);
            lemma_statement_spans(self@.tokens, self@.current);
        }
        reveal(grammar::statement);
        if let Some(definition) = self.variable_definition_statement() {
            Some(Statement::VariableDefinition(definition))
        } else {
            match self.expression_statement() {
                Some(statement) => Some(Statement::ExpressionStatement(statement)),
                None => None,
            }
        }
    }

    /// `statement*`: the statements from the cursor on, as many as there are.
    pub fn statements(&mut self) -> (statements: Vec<Statement>)
        ensures
            final(self)@.tokens == old(self)@.tokens,
            views(statements@) == grammar::statements(
                old(self)@.tokens,
                old(self)@.current,
                Seq::empty(),
            ).0,
            final(self)@.current == old(self)@.current + grammar::statements(
                old(self)@.tokens,
                old(self)@.current,
                Seq::empty(),
            ).1,
    {
        let ghost ts = self@.tokens;
        let ghost start = self@.current;
        let mut statements: Vec<Statement> = Vec::new();
        proof {
            lemma_views_empty::<Statement>();
        }
        loop
            invariant
                self@.tokens == ts,
                start <= self@.current,
                grammar::statements(ts, start, Seq::empty()).0 == grammar::statements(
                    ts,
                    self@.current,
                    views(statements@),
                ).0,
                grammar::statements(ts, start, Seq::empty()).1 == (self@.current - start)
                    + grammar::statements(ts, self@.current, views(statements@)).1,
            ensures
                grammar::statement(ts, self@.current) is None,
            decreases grammar::remaining(ts, self@.current),
        {
            reveal(grammar::statements);
            proof {
                lemma_statement_advances(ts, self@.current);
            }
            let statement = match self.statement() {
                Some(statement) => statement,
                None => {
                    break ;
                },
            };
            proof {
                lemma_views_push(statements@, statement);
            }
            statements.push(statement);
        }
        proof {
            reveal(grammar::statements);
        }
        statements
    }

    /// `block = "{" statement* expression? "}"`
    pub fn block(&mut self) -> (result: Option<Block>)
        ensures
            old(self)@.parsed(
                final(self)@,
                result,
                grammar::block(old(self)@.tokens, old(self)@.current),
            ),
            result matches Some(node) ==> node@.well_formed() && node@.spans_children(),
    {
        proof {
            lemma_block_well_formed(self@.tokens, self@.current);
            lemma_block_spans(self@.tokens, self@.current);
        }
        let mark = self.mark();
        let attempt = self.attempt_block();
        self.transaction(mark, attempt)
    }

    fn attempt_block(&mut self) -> (result: Option<Block>)
        ensures
            old(self)@.tried(
                final(self)@,
                result,
                grammar::block(old(self)@.tokens, old(self)@.current),
            ),
    {
        reveal(grammar::block);
        let start_position = self.consume_token(TokenKind::Delimiter, "{")?.start_position;
        let mut statements = self.statements();
        if let Some(expression) = self.expression() {
            proof {
                lemma_views_push(statements@, Statement::Expression(expression));
            }
            statements.push(Statement::Expression(expression));
        }
        let end_position = self.consume_token(TokenKind::Delimiter, "}")?.end_position;
        Some(
            Block {
                location: Location { start: start_position, end: end_position },
                statements: Statements {
                    location: Location { start: start_position, end: end_position },
                    statements,
                },
            },
        )
    }

    /// `parameter = identifier ":" type`
    pub fn parameter(&mut self) -> (result: Option<Parameter>)
        ensures
            old(self)@.parsed(
                final(self)@,
                result,
                grammar::parameter(old(self)@.tokens, old(self)@.current),
            ),
    {
        let mark = self.mark();
        let attempt = self.attempt_parameter();
        self.transaction(mark, attempt)
    }

    fn attempt_parameter(&mut self) -> (result: Option<Parameter>)
        ensures
            old(self)@.tried(
                final(self)@,
                result,
                grammar::parameter(old(self)@.tokens, old(self)@.current),
            ),
    {
        reveal(grammar::parameter);
        let name = self.identifier()?;
        self.consume_token(TokenKind::Delimiter, ":")?;
        let parameter_type = self.type_expression()?;
        Some(
            Parameter {
                location: Location { start: name.location.start, end: parameter_type.location.end },
                name,
                parameter_type,
            },
        )
    }

    /// `parameters = "(" (parameter ("," parameter)*)? ")"`
    pub fn parameters(&mut self) -> (result: Option<Parameters>)
        ensures
            old(self)@.parsed(
                final(self)@,
                result,
                grammar::parameters(old(self)@.tokens, old(self)@.current),
            ),
    {
        let mark = self.mark();
        let attempt = self.attempt_parameters();
        self.transaction(mark, attempt)
    }

    fn attempt_parameters(&mut self) -> (result: Option<Parameters>)
        ensures
            old(self)@.tried(
                final(self)@,
                result,
                grammar::parameters(old(self)@.tokens, old(self)@.current),
            ),
    {
        reveal(grammar::parameters);
        let start_position = self.consume_token(TokenKind::Delimiter, "(")?.start_position;
        let parameters = self.attempt_parameter_list()?;
        let end_position = self.consume_token(TokenKind::Delimiter, ")")?.end_position;
        Some(
            Parameters {
                location: Location { start: start_position, end: end_position },
                parameters,
            },
        )
    }

    /// `(parameter ("," parameter)*)?`
    fn attempt_parameter_list(&mut self) -> (result: Option<Vec<Parameter>>)
        ensures
            old(self)@.tried_all(
                final(self)@,
                result,
                grammar::parameter_list(old(self)@.tokens, old(self)@.current),
            ),
    {
        reveal(grammar::parameter_list);
        reveal(grammar::more_parameters);
        let ghost ts = self@.tokens;
        let ghost start = self@.current;
        let mut parameters: Vec<Parameter> = Vec::new();
        proof {
            lemma_views_empty::<Parameter>();
        }
        if let Some(first) = self.parameter() {
            proof {
                lemma_views_push(parameters@, first);
            }
            parameters.push(first);
            loop
                invariant
                    ts == old(self)@.tokens,
                    start == old(self)@.current,
                    self@.tokens == ts,
                    start <= self@.current,
                    grammar::parameter_list(ts, start) == grammar::after(
                        (self@.current - start) as nat,
                        grammar::more_parameters(ts, self@.current, views(parameters@)),
                    ),
                ensures
                    !grammar::token_at(ts, self@.current, TokenKind::Delimiter, ","@),
                decreases grammar::remaining(ts, self@.current),
            {
                reveal(grammar::more_parameters);
                if self.consume_token(TokenKind::Delimiter, ",").is_none() {
                    break ;
                }
                let next = self.parameter()?;
                proof {
                    lemma_views_push(parameters@, next);
                }
                parameters.push(next);
            }
        }
        Some(parameters)
    }

    /// `function_definition = "fn" identifier parameters "->" type block`
    pub fn function_definition(&mut self) -> (result: Option<FunctionDefinition>)
        ensures
            old(self)@.parsed(
                final(self)@,
                result,
                grammar::function_definition(old(self)@.tokens, old(self)@.current),
            ),
            result matches Some(node) ==> node@.location.start == node@.name.location.start
                && node@.location.end == node@.body.location.end,
            result matches Some(node) ==> node@.well_formed() && node@.spans_children(),
    {
        proof {
            lemma_function_definition_well_formed(self@.tokens, self@.current);
            lemma_function_definition_spans(self@.tokens, self@.current);
        }
        let mark = self.mark();
        let attempt = self.attempt_function_definition();
        self.transaction(mark, attempt)
    }

    fn attempt_function_definition(&mut self) -> (result: Option<FunctionDefinition>)
        ensures
            old(self)@.tried(
                final(self)@,
                result,
                grammar::function_definition(old(self)@.tokens, old(self)@.current),
            ),
    {
        reveal(grammar::function_definition);
        self.consume_token(TokenKind::Keyword, "fn")?;
        let name = self.identifier()?;
        let parameters = self.parameters()?;
        self.consume_token(TokenKind::Operator, "->")?;
        let return_type = self.type_expression()?;
        let body = self.block()?;
        Some(
            FunctionDefinition {
                location: Location { start: name.location.start, end: body.location.end },
                name,
                parameters,
                return_type,
                body,
            },
        )
    }

    /// `program = function_definition*`: the definitions from the cursor on, as
    /// many as there are. The cursor stops at the first position at which no
    /// definition matches; whatever follows is not looked at.
    pub fn program(&mut self) -> (program: Program)
        ensures
            final(self)@.tokens == old(self)@.tokens,
            program@ == grammar::program(old(self)@.tokens, old(self)@.current).0,
            final(self)@.current == old(self)@.current + grammar::program(
                old(self)@.tokens,
                old(self)@.current,
            ).1,
            program@.well_formed(),
            program@.spans_children(),
    {
        proof {
            lemma_program_well_formed(self@.tokens, self@.current);
            lemma_program_spans(self@.tokens, self@.current);
        }
        let ghost ts = self@.tokens;
        let ghost start = self@.current;
        let mut functions: Vec<FunctionDefinition> = Vec::new();
        proof {
            lemma_views_empty::<FunctionDefinition>();
        }
        loop
            invariant
                self@.tokens == ts,
                start <= self@.current,
                grammar::function_definitions(ts, start, Seq::empty()).0
                    == grammar::function_definitions(ts, self@.current, views(functions@)).0,
                grammar::function_definitions(ts, start, Seq::empty()).1 == (self@.current - start)
                    + grammar::function_definitions(ts, self@.current, views(functions@)).1,
            ensures
                grammar::function_definition(ts, self@.current) is None,
            decreases grammar::remaining(ts, self@.current),
        {
            reveal(grammar::function_definitions);
            proof {
                lemma_function_definition_advances(ts, self@.current);
            }
            let function = match self.function_definition() {
                Some(function) => function,
                None => {
                    break ;
                },
            };
            proof {
                lemma_views_push(functions@, function);
            }
            functions.push(function);
        }
        proof {
            reveal(grammar::function_definitions);
        }
        Program { functions }
    }

    /// Parses the tokens from the cursor on into a program.
    pub fn parse(&mut self) -> (program: Program)
        ensures
            final(self)@.tokens == old(self)@.tokens,
            program@ == grammar::program(old(self)@.tokens, old(self)@.current).0,
            final(self)@.current == old(self)@.current + grammar::program(
                old(self)@.tokens,
                old(self)@.current,
            ).1,
            program@.well_formed(),
            program@.spans_children(),
    {
        self.program()
    }
}

/// Parses `tokens`, without the comments among them, into a program: the
/// function definitions that stand one after another at the start of the
/// tokens. Tokens after the last definition that matches are left unread.
pub fn parse(tokens: Vec<Token>) -> (program: Program)
    ensures
        program@ == grammar::program(without_comments(views(tokens@)), 0).0,
        program@.well_formed(),
        program@.spans_children(),
{
    let mut parser = Parser::new(tokens);
    parser.parse()
}

} // verus!
