//! The shape of the trees that the grammar builds: which statements may stand
//! where, and which variables have a value.

use crate::ast::{FunctionDefinitionView, StatementView};
use crate::grammar::{
    block, function_definition, function_definitions, program, remaining, statement, statements,
    variable_definition_statement,
};
use crate::progress::{lemma_function_definition_advances, lemma_statement_advances};
use crate::token::TokenView;
use vstd::prelude::*;

verus! {

/// A variable definition that the grammar accepts is well formed: a variable
/// introduced by `let` has an initial value.
pub proof fn lemma_variable_definition_well_formed(ts: Seq<TokenView>, at: nat)
    ensures
        variable_definition_statement(ts, at) matches Some((node, _)) ==> node.well_formed(),
{
    reveal(variable_definition_statement);
}

/// A statement is never a bare expression: it defines a variable or is an
/// expression with its terminator. What it defines is well formed.
pub proof fn lemma_statement_terminated(ts: Seq<TokenView>, at: nat)
    ensures
        statement(ts, at) matches Some((node, _)) ==> node.is_terminated() && node.well_formed(),
{
    reveal(statement);
    lemma_variable_definition_well_formed(ts, at);
}

/// Statements read one after another are all terminated and well formed, if
/// those read before them are.
pub proof fn lemma_statements_terminated(ts: Seq<TokenView>, at: nat, found: Seq<StatementView>)
    requires
        forall|i: int|
            0 <= i < found.len() ==> (#[trigger] found[i]).is_terminated() && found[i].well_formed(),
    ensures
        forall|i: int|
            0 <= i < statements(ts, at, found).0.len() ==> (#[trigger] statements(
                ts,
                at,
                found,
            ).0[i]).is_terminated() && statements(ts, at, found).0[i].well_formed(),
    decreases remaining(ts, at),
{
    reveal(statements);
    if let Some((next, n)) = statement(ts, at) {
        lemma_statement_terminated(ts, at);
        lemma_statement_advances(ts, at);
        lemma_statements_terminated(ts, at + n, found.push(next));
        assert(statements(ts, at, found).0 == statements(ts, at + n, found.push(next)).0);
    }
}

/// A block that the grammar accepts is well formed: a bare expression can
/// only be its last statement.
pub proof fn lemma_block_well_formed(ts: Seq<TokenView>, at: nat)
    ensures
        block(ts, at) matches Some((node, _)) ==> node.well_formed(),
{
    reveal(block);
    lemma_statements_terminated(ts, at + 1, Seq::empty());
}

/// A function definition that the grammar accepts is well formed.
pub proof fn lemma_function_definition_well_formed(ts: Seq<TokenView>, at: nat)
    ensures
        function_definition(ts, at) matches Some((node, _)) ==> node.well_formed(),
{
    reveal(function_definition);
    if let Some((_, n)) = crate::grammar::parameters(ts, at + 2) {
        lemma_block_well_formed(ts, at + 4 + n);
    }
}

/// Function definitions read one after another are all well formed, if those
/// read before them are.
pub proof fn lemma_function_definitions_well_formed(
    ts: Seq<TokenView>,
    at: nat,
    found: Seq<FunctionDefinitionView>,
)
    requires
        forall|i: int| 0 <= i < found.len() ==> (#[trigger] found[i]).well_formed(),
    ensures
        forall|i: int|
            0 <= i < function_definitions(ts, at, found).0.len()
                ==> (#[trigger] function_definitions(ts, at, found).0[i]).well_formed(),
    decreases remaining(ts, at),
{
    reveal(function_definitions);
    if let Some((next, n)) = function_definition(ts, at) {
        lemma_function_definition_well_formed(ts, at);
        lemma_function_definition_advances(ts, at);
        lemma_function_definitions_well_formed(ts, at + n, found.push(next));
        assert(function_definitions(ts, at, found).0 == function_definitions(
            ts,
            at + n,
            found.push(next),
        ).0);
    }
}

/// A program read from tokens is well formed.
pub proof fn lemma_program_well_formed(ts: Seq<TokenView>, at: nat)
    ensures
        program(ts, at).0.well_formed(),
{
    lemma_function_definitions_well_formed(ts, at, Seq::empty());
}

} // verus!
