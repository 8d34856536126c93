//! Every production makes progress and stays within the input: what it matches
//! covers at least one token, and no token past the end of the sequence.

use crate::ast::{ExpressionView, FunctionDefinitionView, ParameterView, StatementView};
use crate::grammar::{
    add_expression, add_operands, arguments, assignment_expression, binary, block, expression,
    expression_statement, function_call, function_definition, function_definitions, initializer,
    more_arguments, more_parameters, mul_expression, mul_operands, negated_expression, parameter,
    parameter_list, parameters, parenthesized_expression, primary_expression, program, remaining,
    statement, statements, unary_expression, variable_definition_statement, Match,
};
use crate::token::TokenView;
use vstd::prelude::*;

verus! {

/// A match at position `at` that ends within `ts`.
pub open spec fn within<T>(m: Match<T>, ts: Seq<TokenView>, at: nat) -> bool {
    m matches Some((_, n)) ==> at + n <= ts.len()
}

/// A match at position `at` that covers at least one token and ends within `ts`.
pub open spec fn advances<T>(m: Match<T>, ts: Seq<TokenView>, at: nat) -> bool {
    m matches Some((_, n)) ==> 0 < n && at + n <= ts.len()
}

/// An expression covers at least one token and ends within the input.
pub proof fn lemma_expression_advances(ts: Seq<TokenView>, at: nat)
    ensures
        advances(expression(ts, at), ts, at),
    decreases remaining(ts, at), 12nat,
{
    reveal(add_expression);
    lemma_add_expression_advances(ts, at);
}

/// An additive expression covers at least one token and ends within the input.
pub proof fn lemma_add_expression_advances(ts: Seq<TokenView>, at: nat)
    ensures
        advances(add_expression(ts, at), ts, at),
    decreases remaining(ts, at), 11nat,
{
    reveal(add_expression);
    reveal(mul_expression);
    reveal(add_operands);
    lemma_mul_expression_advances(ts, at);
    if let Some((first, n)) = mul_expression(ts, at) {
        lemma_add_operands_within(ts, at + n, first);
    }
}

/// The operands that follow an additive expression end within the input, if they start within it.
pub proof fn lemma_add_operands_within(ts: Seq<TokenView>, at: nat, left: ExpressionView)
    requires
        at <= ts.len(),
    ensures
        within(add_operands(ts, at, left), ts, at),
    decreases remaining(ts, at), 10nat,
{
    reveal(add_operands);
    reveal(mul_expression);
    if let Some((operator, _)) = crate::grammar::add_operator(ts, at) {
        lemma_mul_expression_advances(ts, at + 1);
        if let Some((right, n)) = mul_expression(ts, at + 1) {
            lemma_add_operands_within(ts, at + 1 + n, binary(left, operator, right));
        }
    }
}

/// A multiplicative expression covers at least one token and ends within the input.
pub proof fn lemma_mul_expression_advances(ts: Seq<TokenView>, at: nat)
    ensures
        advances(mul_expression(ts, at), ts, at),
    decreases remaining(ts, at), 9nat,
{
    reveal(mul_expression);
    reveal(unary_expression);
    reveal(mul_operands);
    lemma_unary_expression_advances(ts, at);
    if let Some((first, n)) = unary_expression(ts, at) {
        lemma_mul_operands_within(ts, at + n, first);
    }
}

/// The operands that follow a multiplicative expression end within the input, if they start
/// within it.
pub proof fn lemma_mul_operands_within(ts: Seq<TokenView>, at: nat, left: ExpressionView)
    requires
        at <= ts.len(),
    ensures
        within(mul_operands(ts, at, left), ts, at),
    decreases remaining(ts, at), 8nat,
{
    reveal(mul_operands);
    reveal(unary_expression);
    if let Some((operator, _)) = crate::grammar::mul_operator(ts, at) {
        lemma_unary_expression_advances(ts, at + 1);
        if let Some((right, n)) = unary_expression(ts, at + 1) {
            lemma_mul_operands_within(ts, at + 1 + n, binary(left, operator, right));
        }
    }
}

/// A unary expression covers at least one token and ends within the input.
pub proof fn lemma_unary_expression_advances(ts: Seq<TokenView>, at: nat)
    ensures
        advances(unary_expression(ts, at), ts, at),
    decreases remaining(ts, at), 7nat,
{
    reveal(unary_expression);
    reveal(primary_expression);
    reveal(negated_expression);
    lemma_primary_expression_advances(ts, at);
    lemma_negated_expression_advances(ts, at);
}

/// A negated expression covers at least one token and ends within the input.
pub proof fn lemma_negated_expression_advances(ts: Seq<TokenView>, at: nat)
    ensures
        advances(negated_expression(ts, at), ts, at),
    decreases remaining(ts, at), 4nat,
{
    reveal(negated_expression);
    reveal(primary_expression);
    if at < ts.len() {
        lemma_primary_expression_advances(ts, at + 1);
    }
}

/// A primary expression covers at least one token and ends within the input.
pub proof fn lemma_primary_expression_advances(ts: Seq<TokenView>, at: nat)
    ensures
        advances(primary_expression(ts, at), ts, at),
    decreases remaining(ts, at), 6nat,
{
    reveal(primary_expression);
    reveal(assignment_expression);
    reveal(function_call);
    reveal(parenthesized_expression);
    lemma_assignment_expression_advances(ts, at);
    lemma_function_call_advances(ts, at);
    lemma_parenthesized_expression_advances(ts, at);
}

/// An expression in parentheses covers at least one token and ends within the input.
pub proof fn lemma_parenthesized_expression_advances(ts: Seq<TokenView>, at: nat)
    ensures
        advances(parenthesized_expression(ts, at), ts, at),
    decreases remaining(ts, at), 5nat,
{
    reveal(parenthesized_expression);
    if at < ts.len() {
        lemma_expression_advances(ts, at + 1);
    }
}

/// An assignment covers at least one token and ends within the input.
pub proof fn lemma_assignment_expression_advances(ts: Seq<TokenView>, at: nat)
    ensures
        advances(assignment_expression(ts, at), ts, at),
    decreases remaining(ts, at), 5nat,
{
    reveal(assignment_expression);
    if at < ts.len() {
        lemma_expression_advances(ts, at + 2);
    }
}

/// A function call covers at least one token and ends within the input.
pub proof fn lemma_function_call_advances(ts: Seq<TokenView>, at: nat)
    ensures
        advances(function_call(ts, at), ts, at),
    decreases remaining(ts, at), 5nat,
{
    reveal(function_call);
    reveal(arguments);
    if at + 1 < ts.len() {
        lemma_arguments_within(ts, at + 2);
    }
}

/// An argument list ends within the input, if it starts within it.
pub proof fn lemma_arguments_within(ts: Seq<TokenView>, at: nat)
    requires
        at <= ts.len(),
    ensures
        within(arguments(ts, at), ts, at),
    decreases remaining(ts, at), 14nat,
{
    reveal(arguments);
    reveal(more_arguments);
    lemma_expression_advances(ts, at);
    if let Some((first, n)) = expression(ts, at) {
        lemma_more_arguments_within(ts, at + n, seq![first]);
    }
}

/// The arguments that follow a comma end within the input, if they start within it.
pub proof fn lemma_more_arguments_within(
    ts: Seq<TokenView>,
    at: nat,
    found: Seq<ExpressionView>,
)
    requires
        at <= ts.len(),
    ensures
        within(more_arguments(ts, at, found), ts, at),
    decreases remaining(ts, at), 13nat,
{
    reveal(more_arguments);
    if at < ts.len() {
        lemma_expression_advances(ts, at + 1);
        if let Some((next, n)) = expression(ts, at + 1) {
            lemma_more_arguments_within(ts, at + 1 + n, found.push(next));
        }
    }
}

/// An expression statement covers at least one token and ends within the input.
pub proof fn lemma_expression_statement_advances(ts: Seq<TokenView>, at: nat)
    ensures
        advances(expression_statement(ts, at), ts, at),
{
    reveal(expression_statement);
    lemma_expression_advances(ts, at);
}

/// An initial value ends within the input, if it starts within it.
pub proof fn lemma_initializer_within(ts: Seq<TokenView>, at: nat)
    requires
        at <= ts.len(),
    ensures
        within(initializer(ts, at), ts, at),
{
    reveal(initializer);
    lemma_expression_advances(ts, at + 1);
}

/// A variable definition covers at least one token and ends within the input.
pub proof fn lemma_variable_definition_statement_advances(ts: Seq<TokenView>, at: nat)
    ensures
        advances(variable_definition_statement(ts, at), ts, at),
{
    reveal(variable_definition_statement);
    if at + 3 < ts.len() {
        lemma_initializer_within(ts, at + 4);
    }
}

/// A statement covers at least one token and ends within the input.
pub proof fn lemma_statement_advances(ts: Seq<TokenView>, at: nat)
    ensures
        advances(statement(ts, at), ts, at),
{
    reveal(statement);
    lemma_variable_definition_statement_advances(ts, at);
    lemma_expression_statement_advances(ts, at);
}

/// Statements read one after another end within the input, if they start within it.
pub proof fn lemma_statements_within(ts: Seq<TokenView>, at: nat, found: Seq<StatementView>)
    requires
        at <= ts.len(),
    ensures
        at + statements(ts, at, found).1 <= ts.len(),
    decreases remaining(ts, at),
{
    reveal(statements);
    lemma_statement_advances(ts, at);
    if let Some((next, n)) = statement(ts, at) {
        lemma_statements_within(ts, at + n, found.push(next));
    }
}

/// A block covers at least one token and ends within the input.
pub proof fn lemma_block_advances(ts: Seq<TokenView>, at: nat)
    ensures
        advances(block(ts, at), ts, at),
{
    reveal(block);
}

/// A parameter covers at least one token and ends within the input.
pub proof fn lemma_parameter_advances(ts: Seq<TokenView>, at: nat)
    ensures
        advances(parameter(ts, at), ts, at),
{
    reveal(parameter);
}

/// The parameters that follow a comma end within the input, if they start within it.
pub proof fn lemma_more_parameters_within(
    ts: Seq<TokenView>,
    at: nat,
    found: Seq<ParameterView>,
)
    requires
        at <= ts.len(),
    ensures
        within(more_parameters(ts, at, found), ts, at),
    decreases remaining(ts, at),
{
    reveal(more_parameters);
    if at < ts.len() {
        lemma_parameter_advances(ts, at + 1);
        if let Some((next, n)) = parameter(ts, at + 1) {
            lemma_more_parameters_within(ts, at + 1 + n, found.push(next));
        }
    }
}

/// A parameter list ends within the input, if it starts within it.
pub proof fn lemma_parameter_list_within(ts: Seq<TokenView>, at: nat)
    requires
        at <= ts.len(),
    ensures
        within(parameter_list(ts, at), ts, at),
{
    reveal(parameter_list);
    lemma_parameter_advances(ts, at);
    if let Some((first, n)) = parameter(ts, at) {
        lemma_more_parameters_within(ts, at + n, seq![first]);
    }
}

/// A parenthesised parameter list covers at least one token and ends within the input.
pub proof fn lemma_parameters_advances(ts: Seq<TokenView>, at: nat)
    ensures
        advances(parameters(ts, at), ts, at),
{
    reveal(parameters);
}

/// A function definition covers at least one token and ends within the input.
pub proof fn lemma_function_definition_advances(ts: Seq<TokenView>, at: nat)
    ensures
        advances(function_definition(ts, at), ts, at),
{
    reveal(function_definition);
    if let Some((_, n)) = parameters(ts, at + 2) {
        lemma_parameters_advances(ts, at + 2);
        lemma_block_advances(ts, at + 4 + n);
    }
}

/// Function definitions read one after another end within the input, if they start within
/// it.
pub proof fn lemma_function_definitions_within(
    ts: Seq<TokenView>,
    at: nat,
    found: Seq<FunctionDefinitionView>,
)
    requires
        at <= ts.len(),
    ensures
        at + function_definitions(ts, at, found).1 <= ts.len(),
    decreases remaining(ts, at),
{
    reveal(function_definitions);
    lemma_function_definition_advances(ts, at);
    if let Some((next, n)) = function_definition(ts, at) {
        lemma_function_definitions_within(ts, at + n, found.push(next));
    }
}

/// A program ends within the input, if it starts within it.
pub proof fn lemma_program_within(ts: Seq<TokenView>, at: nat)
    requires
        at <= ts.len(),
    ensures
        at + program(ts, at).1 <= ts.len(),
{
    lemma_function_definitions_within(ts, at, Seq::empty());
}

} // verus!
