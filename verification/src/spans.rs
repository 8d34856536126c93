//! How the span of a node relates to the spans of its children and to the
//! tokens it was built from.
//!
//! A node whose first and last parts are nodes themselves spans from the start
//! of its first child to the end of its last child. A node that begins or ends
//! with a token of its own (a keyword, a bracket, a terminator) begins or ends
//! where that token does.

use crate::ast::{
    BlockView, ExpressionView, FunctionDefinitionView, Location, ParameterView, ParametersView,
    ProgramView, StatementView,
};
use crate::grammar::{
    add_expression, add_operands, add_operator, arguments, assignment_expression, binary, block,
    expression, expression_statement, function_call, function_definition, function_definitions,
    initializer, more_arguments, more_parameters, mul_expression, mul_operands, mul_operator,
    negated_expression, parameter, parameter_list, parameters, parenthesized_expression,
    primary_expression, program, remaining, statement, statements, token, unary_expression,
    variable_definition_statement, Match,
};
use crate::progress::{lemma_block_advances, lemma_parameters_advances};
use crate::token::TokenView;
use vstd::prelude::*;

verus! {

impl ExpressionView {
    /// Every binary expression and every assignment within the expression,
    /// itself included, spans from the start of its first child to the end of
    /// its last child, and every function call starts where its name starts.
    pub open spec fn spans_children(self) -> bool
        decreases self,
    {
        match self {
            ExpressionView::IntegerLiteral(_) => true,
            ExpressionView::Identifier(_) => true,
            ExpressionView::AssignmentExpression(node) => {
                &&& node.location.start == node.name.location.start
                &&& node.location.end == node.value.location().end
                &&& node.value.spans_children()
            },
            ExpressionView::FunctionCall(node) => {
                &&& node.location.start == node.name.location.start
                &&& all_span_children(node.arguments)
            },
            ExpressionView::BinaryExpression(node) => {
                &&& node.location.start == node.left.location().start
                &&& node.location.end == node.right.location().end
                &&& node.left.spans_children()
                &&& node.right.spans_children()
            },
        }
    }
}

/// [`ExpressionView::spans_children`] holds of every expression of the sequence.
pub open spec fn all_span_children(expressions: Seq<ExpressionView>) -> bool
    decreases expressions,
{
    expressions.len() == 0 || (all_span_children(expressions.drop_last())
        && expressions.last().spans_children())
}

impl StatementView {
    /// An expression statement starts where its expression starts, and the
    /// expressions within the statement span their children.
    pub open spec fn spans_children(self) -> bool {
        match self {
            StatementView::VariableDefinition(node) => node.value matches Some(value)
                ==> value.spans_children(),
            StatementView::ExpressionStatement(node) => {
                &&& node.location.start == node.expression.location().start
                &&& node.expression.spans_children()
            },
            StatementView::Expression(node) => node.spans_children(),
        }
    }
}

impl BlockView {
    /// The block spans what its statement list spans, and its statements span
    /// their children.
    pub open spec fn spans_children(self) -> bool {
        &&& self.location == self.statements.location
        &&& forall|i: int|
            0 <= i < self.statements.statements.len()
                ==> #[trigger] self.statements.statements[i].spans_children()
    }
}

impl ParameterView {
    /// The parameter spans from the start of its name to the end of its type.
    pub open spec fn spans_children(self) -> bool {
        &&& self.location.start == self.name.location.start
        &&& self.location.end == self.parameter_type.location.end
    }
}

impl ParametersView {
    /// Every parameter of the list spans its children.
    pub open spec fn spans_children(self) -> bool {
        forall|i: int|
            0 <= i < self.parameters.len() ==> #[trigger] self.parameters[i].spans_children()
    }
}

impl FunctionDefinitionView {
    /// The definition spans from the start of its name to the end of its body,
    /// and its parameters and its body span their children.
    pub open spec fn spans_children(self) -> bool {
        &&& self.location.start == self.name.location.start
        &&& self.location.end == self.body.location.end
        &&& self.parameters.spans_children()
        &&& self.body.spans_children()
    }
}

impl ProgramView {
    /// Every function definition of the program spans its children.
    pub open spec fn spans_children(self) -> bool {
        forall|i: int|
            0 <= i < self.functions.len() ==> #[trigger] self.functions[i].spans_children()
    }
}

/// The node of a match, if there is one, spans its children.
pub open spec fn spans(m: Match<ExpressionView>) -> bool {
    m matches Some((node, _)) ==> node.spans_children()
}

/// Appending to a sequence of expressions that span their children one that
/// does gives a sequence of expressions that span their children.
pub proof fn lemma_all_span_children_push(found: Seq<ExpressionView>, next: ExpressionView)
    requires
        all_span_children(found),
        next.spans_children(),
    ensures
        all_span_children(found.push(next)),
{
    assert(found.push(next).drop_last() =~= found);
}

/// An expression that the grammar accepts spans its children.
pub proof fn lemma_expression_spans(ts: Seq<TokenView>, at: nat)
    ensures
        spans(expression(ts, at)),
    decreases remaining(ts, at), 12nat,
{
    reveal(add_expression);
    lemma_add_expression_spans(ts, at);
}

/// An additive expression that the grammar accepts spans its children.
pub proof fn lemma_add_expression_spans(ts: Seq<TokenView>, at: nat)
    ensures
        spans(add_expression(ts, at)),
    decreases remaining(ts, at), 11nat,
{
    reveal(add_expression);
    reveal(mul_expression);
    reveal(add_operands);
    lemma_mul_expression_spans(ts, at);
    if let Some((first, n)) = mul_expression(ts, at) {
        lemma_add_operands_spans(ts, at + n, first);
    }
}

/// Folding operands onto an expression that spans its children gives an expression that
/// spans its children.
pub proof fn lemma_add_operands_spans(ts: Seq<TokenView>, at: nat, left: ExpressionView)
    requires
        left.spans_children(),
    ensures
        spans(add_operands(ts, at, left)),
    decreases remaining(ts, at), 10nat,
{
    reveal(add_operands);
    reveal(mul_expression);
    if let Some((operator, _)) = add_operator(ts, at) {
        lemma_mul_expression_spans(ts, at + 1);
        if let Some((right, n)) = mul_expression(ts, at + 1) {
            lemma_add_operands_spans(ts, at + 1 + n, binary(left, operator, right));
        }
    }
}

/// A multiplicative expression that the grammar accepts spans its children.
pub proof fn lemma_mul_expression_spans(ts: Seq<TokenView>, at: nat)
    ensures
        spans(mul_expression(ts, at)),
    decreases remaining(ts, at), 9nat,
{
    reveal(mul_expression);
    reveal(unary_expression);
    reveal(mul_operands);
    lemma_unary_expression_spans(ts, at);
    if let Some((first, n)) = unary_expression(ts, at) {
        lemma_mul_operands_spans(ts, at + n, first);
    }
}

/// Folding operands onto an expression that spans its children gives an expression that
/// spans its children.
pub proof fn lemma_mul_operands_spans(ts: Seq<TokenView>, at: nat, left: ExpressionView)
    requires
        left.spans_children(),
    ensures
        spans(mul_operands(ts, at, left)),
    decreases remaining(ts, at), 8nat,
{
    reveal(mul_operands);
    reveal(unary_expression);
    if let Some((operator, _)) = mul_operator(ts, at) {
        lemma_unary_expression_spans(ts, at + 1);
        if let Some((right, n)) = unary_expression(ts, at + 1) {
            lemma_mul_operands_spans(ts, at + 1 + n, binary(left, operator, right));
        }
    }
}

/// A unary expression that the grammar accepts spans its children.
pub proof fn lemma_unary_expression_spans(ts: Seq<TokenView>, at: nat)
    ensures
        spans(unary_expression(ts, at)),
    decreases remaining(ts, at), 7nat,
{
    reveal(unary_expression);
    reveal(primary_expression);
    reveal(negated_expression);
    lemma_primary_expression_spans(ts, at);
    lemma_negated_expression_spans(ts, at);
}

/// A negated expression spans its children: it starts where its zero stands, which is
/// where the minus sign starts, and ends where its operand ends.
pub proof fn lemma_negated_expression_spans(ts: Seq<TokenView>, at: nat)
    ensures
        spans(negated_expression(ts, at)),
    decreases remaining(ts, at), 4nat,
{
    reveal(negated_expression);
    reveal(primary_expression);
    if at < ts.len() {
        lemma_primary_expression_spans(ts, at + 1);
        if let Some((node, _)) = negated_expression(ts, at) {
            let zero = *node->BinaryExpression_0.left;
            assert(zero.spans_children());
        }
    }
}

/// A primary expression that the grammar accepts spans its children.
pub proof fn lemma_primary_expression_spans(ts: Seq<TokenView>, at: nat)
    ensures
        spans(primary_expression(ts, at)),
    decreases remaining(ts, at), 6nat,
{
    reveal(primary_expression);
    reveal(assignment_expression);
    reveal(function_call);
    reveal(parenthesized_expression);
    lemma_assignment_expression_spans(ts, at);
    lemma_function_call_spans(ts, at);
    lemma_parenthesized_expression_spans(ts, at);
}

/// An expression in parentheses spans its children.
pub proof fn lemma_parenthesized_expression_spans(ts: Seq<TokenView>, at: nat)
    ensures
        spans(parenthesized_expression(ts, at)),
    decreases remaining(ts, at), 5nat,
{
    reveal(parenthesized_expression);
    if at < ts.len() {
        lemma_expression_spans(ts, at + 1);
    }
}

/// An assignment that the grammar accepts spans from the start of its name to the end of
/// its value.
pub proof fn lemma_assignment_expression_spans(ts: Seq<TokenView>, at: nat)
    ensures
        spans(assignment_expression(ts, at)),
    decreases remaining(ts, at), 5nat,
{
    reveal(assignment_expression);
    if at < ts.len() {
        lemma_expression_spans(ts, at + 2);
    }
}

/// A function call that the grammar accepts starts where its name starts, and its
/// arguments span their children.
pub proof fn lemma_function_call_spans(ts: Seq<TokenView>, at: nat)
    ensures
        spans(function_call(ts, at)),
    decreases remaining(ts, at), 5nat,
{
    reveal(function_call);
    reveal(arguments);
    if at < ts.len() {
        lemma_arguments_span(ts, at + 2);
    }
}

/// The arguments of an argument list span their children.
pub proof fn lemma_arguments_span(ts: Seq<TokenView>, at: nat)
    ensures
        arguments(ts, at) matches Some((found, _)) ==> all_span_children(found),
    decreases remaining(ts, at), 14nat,
{
    reveal(arguments);
    reveal(more_arguments);
    lemma_expression_spans(ts, at);
    if let Some((first, n)) = expression(ts, at) {
        lemma_all_span_children_push(Seq::empty(), first);
        assert(Seq::<ExpressionView>::empty().push(first) =~= seq![first]);
        lemma_more_arguments_span(ts, at + n, seq![first]);
    }
}

/// The arguments that follow a comma span their children, if those before them do.
pub proof fn lemma_more_arguments_span(ts: Seq<TokenView>, at: nat, found: Seq<ExpressionView>)
    requires
        all_span_children(found),
    ensures
        more_arguments(ts, at, found) matches Some((all, _)) ==> all_span_children(all),
    decreases remaining(ts, at), 13nat,
{
    reveal(more_arguments);
    if at < ts.len() {
        lemma_expression_spans(ts, at + 1);
        if let Some((next, n)) = expression(ts, at + 1) {
            lemma_all_span_children_push(found, next);
            lemma_more_arguments_span(ts, at + 1 + n, found.push(next));
        }
    }
}

/// A statement that the grammar accepts spans its children.
pub proof fn lemma_statement_spans(ts: Seq<TokenView>, at: nat)
    ensures
        statement(ts, at) matches Some((node, _)) ==> node.spans_children(),
{
    reveal(statement);
    reveal(variable_definition_statement);
    reveal(initializer);
    reveal(expression_statement);
    lemma_expression_spans(ts, at);
    lemma_expression_spans(ts, at + 5);
}

/// Statements read one after another span their children, if those read before them do.
pub proof fn lemma_statements_span(ts: Seq<TokenView>, at: nat, found: Seq<StatementView>)
    requires
        forall|i: int| 0 <= i < found.len() ==> #[trigger] found[i].spans_children(),
    ensures
        forall|i: int|
            0 <= i < statements(ts, at, found).0.len() ==> #[trigger] statements(
                ts,
                at,
                found,
            ).0[i].spans_children(),
    decreases remaining(ts, at),
{
    reveal(statements);
    if let Some((next, n)) = statement(ts, at) {
        lemma_statement_spans(ts, at);
        crate::progress::lemma_statement_advances(ts, at);
        lemma_statements_span(ts, at + n, found.push(next));
        assert(statements(ts, at, found).0 == statements(ts, at + n, found.push(next)).0);
    }
}

/// A block that the grammar accepts spans its children.
pub proof fn lemma_block_spans(ts: Seq<TokenView>, at: nat)
    ensures
        block(ts, at) matches Some((node, _)) ==> node.spans_children(),
{
    reveal(block);
    lemma_statements_span(ts, at + 1, Seq::empty());
    let n = statements(ts, at + 1, Seq::empty()).1;
    lemma_expression_spans(ts, at + 1 + n);
}

/// The parameters that follow a comma span their children, if those before them do.
pub proof fn lemma_more_parameters_span(ts: Seq<TokenView>, at: nat, found: Seq<ParameterView>)
    requires
        forall|i: int| 0 <= i < found.len() ==> #[trigger] found[i].spans_children(),
    ensures
        more_parameters(ts, at, found) matches Some((all, _)) ==> forall|i: int|
            0 <= i < all.len() ==> #[trigger] all[i].spans_children(),
    decreases remaining(ts, at),
{
    reveal(more_parameters);
    reveal(parameter);
    if at < ts.len() {
        if let Some((next, n)) = parameter(ts, at + 1) {
            lemma_more_parameters_span(ts, at + 1 + n, found.push(next));
        }
    }
}

/// The parameters of a parameter list span from the start of their names to the end of
/// their types.
pub proof fn lemma_parameters_span(ts: Seq<TokenView>, at: nat)
    ensures
        parameters(ts, at) matches Some((node, _)) ==> node.spans_children(),
{
    reveal(parameters);
    reveal(parameter_list);
    reveal(parameter);
    if let Some((first, n)) = parameter(ts, at + 1) {
        lemma_more_parameters_span(ts, at + 1 + n, seq![first]);
    }
}

/// A function definition spans exactly from the start of its name to the end
/// of its body, and every node within it spans its children.
pub proof fn lemma_function_definition_spans(ts: Seq<TokenView>, at: nat)
    ensures
        function_definition(ts, at) matches Some((node, _)) ==> {
            &&& node.location == Location {
                start: node.name.location.start,
                end: node.body.location.end,
            }
            &&& node.spans_children()
        },
{
    reveal(function_definition);
    lemma_parameters_span(ts, at + 2);
    if let Some((_, n)) = parameters(ts, at + 2) {
        lemma_block_spans(ts, at + 4 + n);
    }
}

/// Function definitions read one after another span their children, if those read before
/// them do.
pub proof fn lemma_function_definitions_span(
    ts: Seq<TokenView>,
    at: nat,
    found: Seq<FunctionDefinitionView>,
)
    requires
        forall|i: int| 0 <= i < found.len() ==> #[trigger] found[i].spans_children(),
    ensures
        forall|i: int|
            0 <= i < function_definitions(ts, at, found).0.len()
                ==> #[trigger] function_definitions(ts, at, found).0[i].spans_children(),
    decreases remaining(ts, at),
{
    reveal(function_definitions);
    if let Some((next, n)) = function_definition(ts, at) {
        lemma_function_definition_spans(ts, at);
        crate::progress::lemma_function_definition_advances(ts, at);
        lemma_function_definitions_span(ts, at + n, found.push(next));
        assert(function_definitions(ts, at, found).0 == function_definitions(
            ts,
            at + n,
            found.push(next),
        ).0);
    }
}

/// Every node of a program that was read from tokens spans its children.
pub proof fn lemma_program_spans(ts: Seq<TokenView>, at: nat)
    ensures
        program(ts, at).0.spans_children(),
{
    lemma_function_definitions_span(ts, at, Seq::empty());
}

/// A block spans from its opening brace to its closing brace, which are the
/// first and the last token it covers; its statement list spans the same.
pub proof fn lemma_block_spans_its_braces(ts: Seq<TokenView>, at: nat)
    ensures
        block(ts, at) matches Some((node, n)) ==> {
            &&& node.location.start == token(ts, at).start_position
            &&& node.location.end == token(ts, (at + n - 1) as nat).end_position
            &&& node.statements.location == node.location
        },
{
    reveal(block);
}

/// A parameter list spans from its opening parenthesis to its closing
/// parenthesis, which are the first and the last token it covers.
pub proof fn lemma_parameters_span_their_parentheses(ts: Seq<TokenView>, at: nat)
    ensures
        parameters(ts, at) matches Some((node, n)) ==> {
            &&& node.location.start == token(ts, at).start_position
            &&& node.location.end == token(ts, (at + n - 1) as nat).end_position
        },
{
    reveal(parameters);
}

/// A variable definition spans from its keyword to its terminator, which are
/// the first and the last token it covers.
pub proof fn lemma_variable_definition_spans_its_tokens(ts: Seq<TokenView>, at: nat)
    ensures
        variable_definition_statement(ts, at) matches Some((node, n)) ==> {
            &&& node.location.start == token(ts, at).start_position
            &&& node.location.end == token(ts, (at + n - 1) as nat).end_position
        },
{
    reveal(variable_definition_statement);
}

/// An expression statement ends where its terminator ends, which is the last
/// token it covers.
pub proof fn lemma_expression_statement_ends_with_its_terminator(ts: Seq<TokenView>, at: nat)
    ensures
        expression_statement(ts, at) matches Some((node, n)) ==> node.location.end == token(
            ts,
            (at + n - 1) as nat,
        ).end_position,
{
    reveal(expression_statement);
}

/// A function call ends where its closing parenthesis ends, which is the last
/// token it covers.
pub proof fn lemma_function_call_ends_with_its_parenthesis(ts: Seq<TokenView>, at: nat)
    ensures
        function_call(ts, at) matches Some((node, n)) ==> node.location().end == token(
            ts,
            (at + n - 1) as nat,
        ).end_position,
{
    reveal(function_call);
}

/// A function definition ends where the closing brace of its body ends, which
/// is the last token it covers.
pub proof fn lemma_function_definition_ends_with_its_body(ts: Seq<TokenView>, at: nat)
    ensures
        function_definition(ts, at) matches Some((node, n)) ==> node.location.end == token(
            ts,
            (at + n - 1) as nat,
        ).end_position,
{
    reveal(function_definition);
    if let Some((_, k)) = parameters(ts, at + 2) {
        lemma_parameters_advances(ts, at + 2);
        lemma_block_advances(ts, at + 4 + k);
        lemma_block_spans_its_braces(ts, at + 4 + k);
    }
}

} // verus!
