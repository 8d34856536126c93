//! The grammar, as mathematical functions on token sequences.
//!
//! ```text
//! program              = function_definition*
//! function_definition  = "fn" identifier parameters "->" type block
//! parameters           = "(" (parameter ("," parameter)*)? ")"
//! parameter            = identifier ":" type
//! block                = "{" statement* expression? "}"
//! statement            = variable_definition | expression_statement
//! variable_definition  = "let" identifier ":" type "=" expression ";"
//!                      | "var" identifier ":" type ("=" expression)? ";"
//! expression_statement = expression ";"
//! expression           = add_expression
//! add_expression       = mul_expression (("+" | "-") mul_expression)*
//! mul_expression       = unary_expression (("*" | "/") unary_expression)*
//! unary_expression     = primary_expression | "-" primary_expression
//! primary_expression   = literal | assignment | function_call | identifier
//!                      | "(" expression ")"
//! assignment           = identifier "=" expression
//! function_call        = identifier "(" (expression ("," expression)*)? ")"
//! literal              = INTEGER
//! type                 = "i32" | "i64"
//! ```
//!
//! Each production is a function of a token sequence `ts` and a position `at`.
//! It yields the node that the production builds from the tokens starting at
//! `at`, with the number of tokens the production covers, or `None` where the
//! production does not match. Alternatives are ordered: the first one that
//! matches is taken. Repetitions are greedy: they take as many items as match.

use crate::ast::{
    AssignmentExpressionView, BinaryExpressionView, BlockView, ExpressionStatementView,
    ExpressionView, FunctionCallView, FunctionDefinitionView, IdentifierView, IntegerLiteralView,
    Location, Operator, OperatorKind, ParameterView, ParametersView, ProgramView, StatementView,
    StatementsView, Type, TypeKind, VariableDefinitionView,
};
use crate::progress::{lemma_function_definition_advances, lemma_statement_advances};
use crate::token::{TokenKind, TokenView};
use vstd::prelude::*;

verus! {

/// What a production yields: a node and the number of tokens it covers.
pub type Match<T> = Option<(T, nat)>;

/// The match `m`, found after `skipped` tokens, counted from before them.
pub open spec fn after<T>(skipped: nat, m: Match<T>) -> Match<T> {
    match m {
        Some((node, n)) => Some((node, skipped + n)),
        None => None,
    }
}

/// The number of tokens of `ts` from position `at` on.
pub open spec fn remaining(ts: Seq<TokenView>, at: nat) -> nat {
    if at <= ts.len() {
        (ts.len() - at) as nat
    } else {
        0
    }
}

/// The token at position `at`.
pub open spec fn token(ts: Seq<TokenView>, at: nat) -> TokenView {
    ts[at as int]
}

/// There is a token of the given kind at position `at`.
pub open spec fn kind_at(ts: Seq<TokenView>, at: nat, kind: TokenKind) -> bool {
    at < ts.len() && token(ts, at).kind == kind
}

/// There is a token of the given kind and text at position `at`.
pub open spec fn token_at(ts: Seq<TokenView>, at: nat, kind: TokenKind, value: Seq<char>) -> bool {
    kind_at(ts, at, kind) && token(ts, at).value == value
}

/// The span of a single token.
pub open spec fn span(token: TokenView) -> Location {
    Location { start: token.start_position, end: token.end_position }
}

/// `left operator right`, spanning from the start of `left` to the end of `right`.
pub open spec fn binary(left: ExpressionView, operator: Operator, right: ExpressionView)
    -> ExpressionView {
    ExpressionView::BinaryExpression(
        BinaryExpressionView {
            location: Location { start: left.location().start, end: right.location().end },
            left: Box::new(left),
            operator,
            right: Box::new(right),
        },
    )
}

/// The negation of `operand`, written with the minus sign `minus`: the
/// subtraction of `operand` from a literal zero that stands, with no width, where
/// the minus sign starts.
pub open spec fn negation(minus: TokenView, operand: ExpressionView) -> ExpressionView {
    ExpressionView::BinaryExpression(
        BinaryExpressionView {
            location: Location { start: minus.start_position, end: operand.location().end },
            left: Box::new(
                ExpressionView::IntegerLiteral(
                    IntegerLiteralView {
                        location: Location {
                            start: minus.start_position,
                            end: minus.start_position,
                        },
                        value: "0"@,
                    },
                ),
            ),
            operator: Operator { location: span(minus), operator: OperatorKind::Subtract },
            right: Box::new(operand),
        },
    )
}

/// `identifier = IDENTIFIER`
pub open spec fn identifier(ts: Seq<TokenView>, at: nat) -> Match<IdentifierView> {
    if kind_at(ts, at, TokenKind::Identifier) {
        Some((IdentifierView { location: span(token(ts, at)), name: token(ts, at).value }, 1))
    } else {
        None
    }
}

/// `literal = INTEGER`
pub open spec fn literal(ts: Seq<TokenView>, at: nat) -> Match<ExpressionView> {
    if kind_at(ts, at, TokenKind::Integer) {
        Some(
            (
                ExpressionView::IntegerLiteral(
                    IntegerLiteralView {
                        location: span(token(ts, at)),
                        value: token(ts, at).value,
                    },
                ),
                1,
            ),
        )
    } else {
        None
    }
}

/// `type = "i32" | "i64"`, each an identifier token.
pub open spec fn type_expression(ts: Seq<TokenView>, at: nat) -> Match<Type> {
    if token_at(ts, at, TokenKind::Identifier, "i32"@) {
        Some((Type { location: span(token(ts, at)), name: TypeKind::I32 }, 1))
    } else if token_at(ts, at, TokenKind::Identifier, "i64"@) {
        Some((Type { location: span(token(ts, at)), name: TypeKind::I64 }, 1))
    } else {
        None
    }
}

/// `"+" | "-"`
pub open spec fn add_operator(ts: Seq<TokenView>, at: nat) -> Match<Operator> {
    if token_at(ts, at, TokenKind::Operator, "+"@) {
        Some((Operator { location: span(token(ts, at)), operator: OperatorKind::Add }, 1))
    } else if token_at(ts, at, TokenKind::Operator, "-"@) {
        Some((Operator { location: span(token(ts, at)), operator: OperatorKind::Subtract }, 1))
    } else {
        None
    }
}

/// `"*" | "/"`
pub open spec fn mul_operator(ts: Seq<TokenView>, at: nat) -> Match<Operator> {
    if token_at(ts, at, TokenKind::Operator, "*"@) {
        Some((Operator { location: span(token(ts, at)), operator: OperatorKind::Multiply }, 1))
    } else if token_at(ts, at, TokenKind::Operator, "/"@) {
        Some((Operator { location: span(token(ts, at)), operator: OperatorKind::Divide }, 1))
    } else {
        None
    }
}

/// `expression = add_expression`
pub open spec fn expression(ts: Seq<TokenView>, at: nat) -> Match<ExpressionView>
    decreases remaining(ts, at), 12nat,
{
    add_expression(ts, at)
}

/// `add_expression = mul_expression (("+" | "-") mul_expression)*`
#[verifier::opaque]
pub open spec fn add_expression(ts: Seq<TokenView>, at: nat) -> Match<ExpressionView>
    decreases remaining(ts, at), 11nat,
{
    match mul_expression(ts, at) {
        Some((first, n)) => after(n, add_operands(ts, at + n, first)),
        None => None,
    }
}

/// `(("+" | "-") mul_expression)*`, folded to the left onto `left`. An
/// operator that no operand follows makes the whole expression fail.
#[verifier::opaque]
pub open spec fn add_operands(ts: Seq<TokenView>, at: nat, left: ExpressionView) -> Match<
    ExpressionView,
>
    decreases remaining(ts, at), 10nat,
{
    match add_operator(ts, at) {
        Some((operator, _)) => match mul_expression(ts, at + 1) {
            Some((right, n)) => after(
                1 + n,
                add_operands(ts, at + 1 + n, binary(left, operator, right)),
            ),
            None => None,
        },
        None => Some((left, 0)),
    }
}

/// `mul_expression = unary_expression (("*" | "/") unary_expression)*`
#[verifier::opaque]
pub open spec fn mul_expression(ts: Seq<TokenView>, at: nat) -> Match<ExpressionView>
    decreases remaining(ts, at), 9nat,
{
    match unary_expression(ts, at) {
        Some((first, n)) => after(n, mul_operands(ts, at + n, first)),
        None => None,
    }
}

/// `(("*" | "/") unary_expression)*`, folded to the left onto `left`. An
/// operator that no operand follows makes the whole expression fail.
#[verifier::opaque]
pub open spec fn mul_operands(ts: Seq<TokenView>, at: nat, left: ExpressionView) -> Match<
    ExpressionView,
>
    decreases remaining(ts, at), 8nat,
{
    match mul_operator(ts, at) {
        Some((operator, _)) => match unary_expression(ts, at + 1) {
            Some((right, n)) => after(
                1 + n,
                mul_operands(ts, at + 1 + n, binary(left, operator, right)),
            ),
            None => None,
        },
        None => Some((left, 0)),
    }
}

/// `unary_expression = primary_expression | "-" primary_expression`
///
/// The minus sign is tried only where no primary expression matches.
#[verifier::opaque]
pub open spec fn unary_expression(ts: Seq<TokenView>, at: nat) -> Match<ExpressionView>
    decreases remaining(ts, at), 7nat,
{
    match primary_expression(ts, at) {
        Some(primary) => Some(primary),
        None => negated_expression(ts, at),
    }
}

/// `"-" primary_expression`: the negation of the primary expression. The minus
/// sign does not nest: a primary expression must follow it.
#[verifier::opaque]
pub open spec fn negated_expression(ts: Seq<TokenView>, at: nat) -> Match<ExpressionView>
    decreases remaining(ts, at), 4nat,
{
    if token_at(ts, at, TokenKind::Operator, "-"@) {
        match primary_expression(ts, at + 1) {
            Some((operand, n)) => Some((negation(token(ts, at), operand), n + 1)),
            None => None,
        }
    } else {
        None
    }
}

/// `primary_expression = literal | assignment | function_call | identifier | "(" expression ")"`
#[verifier::opaque]
pub open spec fn primary_expression(ts: Seq<TokenView>, at: nat) -> Match<ExpressionView>
    decreases remaining(ts, at), 6nat,
{
    if literal(ts, at) is Some {
        literal(ts, at)
    } else if assignment_expression(ts, at) is Some {
        assignment_expression(ts, at)
    } else if function_call(ts, at) is Some {
        function_call(ts, at)
    } else {
        match identifier(ts, at) {
            Some((name, n)) => Some((ExpressionView::Identifier(name), n)),
            None => parenthesized_expression(ts, at),
        }
    }
}

/// `"(" expression ")"`: the expression between the parentheses, unchanged.
#[verifier::opaque]
pub open spec fn parenthesized_expression(ts: Seq<TokenView>, at: nat) -> Match<ExpressionView>
    decreases remaining(ts, at), 5nat,
{
    if token_at(ts, at, TokenKind::Delimiter, "("@) {
        match expression(ts, at + 1) {
            Some((inner, n)) => if token_at(ts, at + 1 + n, TokenKind::Delimiter, ")"@) {
                Some((inner, n + 2))
            } else {
                None
            },
            None => None,
        }
    } else {
        None
    }
}

/// `assignment = identifier "=" expression`
#[verifier::opaque]
pub open spec fn assignment_expression(ts: Seq<TokenView>, at: nat) -> Match<ExpressionView>
    decreases remaining(ts, at), 5nat,
{
    match identifier(ts, at) {
        Some((name, _)) => if token_at(ts, at + 1, TokenKind::Operator, "="@) {
            match expression(ts, at + 2) {
                Some((value, n)) => Some(
                    (
                        ExpressionView::AssignmentExpression(
                            AssignmentExpressionView {
                                location: Location {
                                    start: name.location.start,
                                    end: value.location().end,
                                },
                                name,
                                value: Box::new(value),
                            },
                        ),
                        n + 2,
                    ),
                ),
                None => None,
            }
        } else {
            None
        },
        None => None,
    }
}

/// `function_call = identifier "(" (expression ("," expression)*)? ")"`
#[verifier::opaque]
pub open spec fn function_call(ts: Seq<TokenView>, at: nat) -> Match<ExpressionView>
    decreases remaining(ts, at), 5nat,
{
    match identifier(ts, at) {
        Some((name, _)) => if token_at(ts, at + 1, TokenKind::Delimiter, "("@) {
            match arguments(ts, at + 2) {
                Some((arguments, n)) => if token_at(
                    ts,
                    at + 2 + n,
                    TokenKind::Delimiter,
                    ")"@,
                ) {
                    Some(
                        (
                            ExpressionView::FunctionCall(
                                FunctionCallView {
                                    location: Location {
                                        start: name.location.start,
                                        end: token(ts, at + 2 + n).end_position,
                                    },
                                    name,
                                    arguments,
                                },
                            ),
                            n + 3,
                        ),
                    )
                } else {
                    None
                },
                None => None,
            }
        } else {
            None
        },
        None => None,
    }
}

/// `(expression ("," expression)*)?`
#[verifier::opaque]
pub open spec fn arguments(ts: Seq<TokenView>, at: nat) -> Match<Seq<ExpressionView>>
    decreases remaining(ts, at), 14nat,
{
    match expression(ts, at) {
        Some((first, n)) => after(n, more_arguments(ts, at + n, seq![first])),
        None => Some((Seq::empty(), 0)),
    }
}

/// `("," expression)*`, appended to `found`. A comma that no expression follows
/// makes the whole list fail.
#[verifier::opaque]
pub open spec fn more_arguments(ts: Seq<TokenView>, at: nat, found: Seq<ExpressionView>) -> Match<
    Seq<ExpressionView>,
>
    decreases remaining(ts, at), 13nat,
{
    if token_at(ts, at, TokenKind::Delimiter, ","@) {
        match expression(ts, at + 1) {
            Some((next, n)) => after(1 + n, more_arguments(ts, at + 1 + n, found.push(next))),
            None => None,
        }
    } else {
        Some((found, 0))
    }
}

/// `expression_statement = expression ";"`
#[verifier::opaque]
pub open spec fn expression_statement(ts: Seq<TokenView>, at: nat) -> Match<
    ExpressionStatementView,
> {
    match expression(ts, at) {
        Some((expression, n)) => if token_at(ts, at + n, TokenKind::Delimiter, ";"@) {
            Some(
                (
                    ExpressionStatementView {
                        location: Location {
                            start: expression.location().start,
                            end: token(ts, at + n).end_position,
                        },
                        expression,
                    },
                    n + 1,
                ),
            )
        } else {
            None
        },
        None => None,
    }
}

/// `("=" expression)?`: the initial value of a variable, where one is given. An
/// equals sign that no expression follows makes the definition fail.
#[verifier::opaque]
pub open spec fn initializer(ts: Seq<TokenView>, at: nat) -> Match<Option<ExpressionView>> {
    if token_at(ts, at, TokenKind::Operator, "="@) {
        match expression(ts, at + 1) {
            Some((value, n)) => Some((Some(value), n + 1)),
            None => None,
        }
    } else {
        Some((None, 0))
    }
}

/// `variable_definition = "let" identifier ":" type "=" expression ";"`
/// `                    | "var" identifier ":" type ("=" expression)? ";"`
///
/// The variable is mutable exactly when it is introduced by `var`. A variable
/// that is not mutable must be given its value where it is defined.
#[verifier::opaque]
pub open spec fn variable_definition_statement(ts: Seq<TokenView>, at: nat) -> Match<
    VariableDefinitionView,
> {
    let immutable = token_at(ts, at, TokenKind::Keyword, "let"@);
    if immutable || token_at(ts, at, TokenKind::Keyword, "var"@) {
        match identifier(ts, at + 1) {
            Some((name, _)) => if token_at(ts, at + 2, TokenKind::Delimiter, ":"@) {
                match type_expression(ts, at + 3) {
                    Some((variable_type, _)) => match initializer(ts, at + 4) {
                        Some((value, n)) => if (immutable ==> value is Some) && token_at(
                            ts,
                            at + 4 + n,
                            TokenKind::Delimiter,
                            ";"@,
                        ) {
                            Some(
                                (
                                    VariableDefinitionView {
                                        location: Location {
                                            start: token(ts, at).start_position,
                                            end: token(ts, at + 4 + n).end_position,
                                        },
                                        name,
                                        mutable: !immutable,
                                        variable_type,
                                        value,
                                    },
                                    n + 5,
                                ),
                            )
                        } else {
                            None
                        },
                        None => None,
                    },
                    None => None,
                }
            } else {
                None
            },
            None => None,
        }
    } else {
        None
    }
}

/// `statement = variable_definition | expression_statement`
#[verifier::opaque]
pub open spec fn statement(ts: Seq<TokenView>, at: nat) -> Match<StatementView> {
    match variable_definition_statement(ts, at) {
        Some((definition, n)) => Some((StatementView::VariableDefinition(definition), n)),
        None => match expression_statement(ts, at) {
            Some((statement, n)) => Some((StatementView::ExpressionStatement(statement), n)),
            None => None,
        },
    }
}

/// `statement*`, appended to `found`, with the number of tokens the
/// statements cover.
#[verifier::opaque]
pub open spec fn statements(ts: Seq<TokenView>, at: nat, found: Seq<StatementView>) -> (
    Seq<StatementView>,
    nat,
)
    decreases remaining(ts, at),
{
    match statement(ts, at) {
        Some((next, n)) => {
            proof {
                lemma_statement_advances(ts, at);
            }
            let (all, m) = statements(ts, at + n, found.push(next));
            (all, n + m)
        },
        None => (found, 0),
    }
}

/// `block = "{" statement* expression? "}"`
///
/// An expression without a terminator may stand last in the block, and only
/// one: both the block and its statement list span from the opening brace to
/// the closing one.
#[verifier::opaque]
pub open spec fn block(ts: Seq<TokenView>, at: nat) -> Match<BlockView> {
    if token_at(ts, at, TokenKind::Delimiter, "{"@) {
        let (terminated, n) = statements(ts, at + 1, Seq::empty());
        let (all, m) = match expression(ts, at + 1 + n) {
            Some((value, k)) => (terminated.push(StatementView::Expression(value)), n + k),
            None => (terminated, n),
        };
        if token_at(ts, at + 1 + m, TokenKind::Delimiter, "}"@) {
            let location = Location {
                start: token(ts, at).start_position,
                end: token(ts, at + 1 + m).end_position,
            };
            Some(
                (
                    BlockView {
                        location,
                        statements: StatementsView { location, statements: all },
                    },
                    m + 2,
                ),
            )
        } else {
            None
        }
    } else {
        None
    }
}

/// `parameter = identifier ":" type`
#[verifier::opaque]
pub open spec fn parameter(ts: Seq<TokenView>, at: nat) -> Match<ParameterView> {
    match identifier(ts, at) {
        Some((name, _)) => if token_at(ts, at + 1, TokenKind::Delimiter, ":"@) {
            match type_expression(ts, at + 2) {
                Some((parameter_type, _)) => Some(
                    (
                        ParameterView {
                            location: Location {
                                start: name.location.start,
                                end: parameter_type.location.end,
                            },
                            name,
                            parameter_type,
                        },
                        3,
                    ),
                ),
                None => None,
            }
        } else {
            None
        },
        None => None,
    }
}

/// `(parameter ("," parameter)*)?`
#[verifier::opaque]
pub open spec fn parameter_list(ts: Seq<TokenView>, at: nat) -> Match<Seq<ParameterView>> {
    match parameter(ts, at) {
        Some((first, n)) => after(n, more_parameters(ts, at + n, seq![first])),
        None => Some((Seq::empty(), 0)),
    }
}

/// `("," parameter)*`, appended to `found`. A comma that no parameter follows
/// makes the whole list fail.
#[verifier::opaque]
pub open spec fn more_parameters(ts: Seq<TokenView>, at: nat, found: Seq<ParameterView>) -> Match<
    Seq<ParameterView>,
>
    decreases remaining(ts, at),
{
    if token_at(ts, at, TokenKind::Delimiter, ","@) {
        match parameter(ts, at + 1) {
            Some((next, n)) => after(1 + n, more_parameters(ts, at + 1 + n, found.push(next))),
            None => None,
        }
    } else {
        Some((found, 0))
    }
}

/// `parameters = "(" (parameter ("," parameter)*)? ")"`
#[verifier::opaque]
pub open spec fn parameters(ts: Seq<TokenView>, at: nat) -> Match<ParametersView> {
    if token_at(ts, at, TokenKind::Delimiter, "("@) {
        match parameter_list(ts, at + 1) {
            Some((parameters, n)) => if token_at(ts, at + 1 + n, TokenKind::Delimiter, ")"@) {
                Some(
                    (
                        ParametersView {
                            location: Location {
                                start: token(ts, at).start_position,
                                end: token(ts, at + 1 + n).end_position,
                            },
                            parameters,
                        },
                        n + 2,
                    ),
                )
            } else {
                None
            },
            None => None,
        }
    } else {
        None
    }
}

/// `function_definition = "fn" identifier parameters "->" type block`
///
/// The definition spans from the start of its name to the end of its body.
#[verifier::opaque]
pub open spec fn function_definition(ts: Seq<TokenView>, at: nat) -> Match<
    FunctionDefinitionView,
> {
    if token_at(ts, at, TokenKind::Keyword, "fn"@) {
        match identifier(ts, at + 1) {
            Some((name, _)) => match parameters(ts, at + 2) {
                Some((parameters, n)) => if token_at(
                    ts,
                    at + 2 + n,
                    TokenKind::Operator,
                    "->"@,
                ) {
                    match type_expression(ts, at + 3 + n) {
                        Some((return_type, _)) => match block(ts, at + 4 + n) {
                            Some((body, m)) => Some(
                                (
                                    FunctionDefinitionView {
                                        location: Location {
                                            start: name.location.start,
                                            end: body.location.end,
                                        },
                                        name,
                                        parameters,
                                        return_type,
                                        body,
                                    },
                                    n + m + 4,
                                ),
                            ),
                            None => None,
                        },
                        None => None,
                    }
                } else {
                    None
                },
                None => None,
            },
            None => None,
        }
    } else {
        None
    }
}

/// `function_definition*`, appended to `found`, with the number of tokens the
/// definitions cover.
#[verifier::opaque]
pub open spec fn function_definitions(
    ts: Seq<TokenView>,
    at: nat,
    found: Seq<FunctionDefinitionView>,
) -> (Seq<FunctionDefinitionView>, nat)
    decreases remaining(ts, at),
{
    match function_definition(ts, at) {
        Some((next, n)) => {
            proof {
                lemma_function_definition_advances(ts, at);
            }
            let (all, m) = function_definitions(ts, at + n, found.push(next));
            (all, n + m)
        },
        None => (found, 0),
    }
}

/// `program = function_definition*`
///
/// The definitions that can be read from position `at` on, one after another,
/// with the number of tokens they cover. Reading stops at the first position
/// at which no definition matches; what follows is not looked at.
pub open spec fn program(ts: Seq<TokenView>, at: nat) -> (ProgramView, nat) {
    let (functions, n) = function_definitions(ts, at, Seq::empty());
    (ProgramView { functions }, n)
}

} // verus!
