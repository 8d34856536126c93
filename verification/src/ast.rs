//! The syntax tree.
//!
//! Every node owns its children and records the span of source text it was
//! built from. Nodes that hold text or a sequence of children have a
//! mathematical value (`...View`), in which text is a `Seq<char>` and children
//! form a `Seq`; the grammar is stated over those values.

use crate::position::Position;
use crate::views::views;
use vstd::prelude::*;

verus! {

/// A span of source text, from `start` up to `end`.
#[derive(Clone, Copy, Debug, PartialEq, Eq, Structural)]
pub struct Location {
    pub start: Position,
    pub end: Position,
}

/// The two integer types of the language.
#[derive(Clone, Copy, Debug, PartialEq, Eq, Structural)]
pub enum TypeKind {
    I32,
    I64,
}

/// A type as written in the source.
#[derive(Clone, Copy, Debug, PartialEq, Eq, Structural)]
pub struct Type {
    pub location: Location,
    pub name: TypeKind,
}

/// The four arithmetic operations.
#[derive(Clone, Copy, Debug, PartialEq, Eq, Structural)]
pub enum OperatorKind {
    Add,
    Subtract,
    Multiply,
    Divide,
}

/// An operator as written in the source.
#[derive(Clone, Copy, Debug, PartialEq, Eq, Structural)]
pub struct Operator {
    pub location: Location,
    pub operator: OperatorKind,
}

/// An integer literal. The digits are kept as text.
#[derive(Debug, PartialEq)]
pub struct IntegerLiteral {
    pub location: Location,
    pub value: String,
}

/// A name.
#[derive(Debug, PartialEq)]
pub struct Identifier {
    pub location: Location,
    pub name: String,
}

/// `name = value`
#[derive(Debug, PartialEq)]
pub struct AssignmentExpression {
    pub location: Location,
    pub name: Identifier,
    pub value: Box<Expression>,
}

/// `name(arguments)`
#[derive(Debug, PartialEq)]
pub struct FunctionCall {
    pub location: Location,
    pub name: Identifier,
    pub arguments: Vec<Expression>,
}

/// `left operator right`
#[derive(Debug, PartialEq)]
pub struct BinaryExpression {
    pub location: Location,
    pub left: Box<Expression>,
    pub operator: Operator,
    pub right: Box<Expression>,
}

#[derive(Debug, PartialEq)]
pub enum Expression {
    IntegerLiteral(IntegerLiteral),
    Identifier(Identifier),
    AssignmentExpression(AssignmentExpression),
    FunctionCall(FunctionCall),
    BinaryExpression(BinaryExpression),
}

/// `let` or `var`, a name, its type and, optionally, its initial value.
#[derive(Debug, PartialEq)]
pub struct VariableDefinition {
    pub location: Location,
    pub name: Identifier,
    pub mutable: bool,
    pub variable_type: Type,
    pub value: Option<Expression>,
}

/// An expression followed by its terminator.
#[derive(Debug, PartialEq)]
pub struct ExpressionStatement {
    pub location: Location,
    pub expression: Expression,
}

/// One element of a block. The `Expression` variant is the block's value: an
/// expression without a terminator, which can only be a block's last element.
#[derive(Debug, PartialEq)]
pub enum Statement {
    VariableDefinition(VariableDefinition),
    ExpressionStatement(ExpressionStatement),
    Expression(Expression),
}

#[derive(Debug, PartialEq)]
pub struct Statements {
    pub location: Location,
    pub statements: Vec<Statement>,
}

/// A sequence of statements between braces.
#[derive(Debug, PartialEq)]
pub struct Block {
    pub location: Location,
    pub statements: Statements,
}

/// `name: parameter_type`
#[derive(Debug, PartialEq)]
pub struct Parameter {
    pub location: Location,
    pub name: Identifier,
    pub parameter_type: Type,
}

/// A parenthesised list of parameters.
#[derive(Debug, PartialEq)]
pub struct Parameters {
    pub location: Location,
    pub parameters: Vec<Parameter>,
}

#[derive(Debug, PartialEq)]
pub struct FunctionDefinition {
    pub location: Location,
    pub name: Identifier,
    pub parameters: Parameters,
    pub return_type: Type,
    pub body: Block,
}

/// The root of the tree: the functions of a source text, in the order in which
/// they were defined.
#[derive(Debug, PartialEq)]
pub struct Program {
    pub functions: Vec<FunctionDefinition>,
}

pub struct IntegerLiteralView {
    pub location: Location,
    pub value: Seq<char>,
}

pub struct IdentifierView {
    pub location: Location,
    pub name: Seq<char>,
}

pub struct AssignmentExpressionView {
    pub location: Location,
    pub name: IdentifierView,
    pub value: Box<ExpressionView>,
}

pub struct FunctionCallView {
    pub location: Location,
    pub name: IdentifierView,
    pub arguments: Seq<ExpressionView>,
}

pub struct BinaryExpressionView {
    pub location: Location,
    pub left: Box<ExpressionView>,
    pub operator: Operator,
    pub right: Box<ExpressionView>,
}

pub enum ExpressionView {
    IntegerLiteral(IntegerLiteralView),
    Identifier(IdentifierView),
    AssignmentExpression(AssignmentExpressionView),
    FunctionCall(FunctionCallView),
    BinaryExpression(BinaryExpressionView),
}

pub struct VariableDefinitionView {
    pub location: Location,
    pub name: IdentifierView,
    pub mutable: bool,
    pub variable_type: Type,
    pub value: Option<ExpressionView>,
}

pub struct ExpressionStatementView {
    pub location: Location,
    pub expression: ExpressionView,
}

pub enum StatementView {
    VariableDefinition(VariableDefinitionView),
    ExpressionStatement(ExpressionStatementView),
    Expression(ExpressionView),
}

pub struct StatementsView {
    pub location: Location,
    pub statements: Seq<StatementView>,
}

pub struct BlockView {
    pub location: Location,
    pub statements: StatementsView,
}

pub struct ParameterView {
    pub location: Location,
    pub name: IdentifierView,
    pub parameter_type: Type,
}

pub struct ParametersView {
    pub location: Location,
    pub parameters: Seq<ParameterView>,
}

pub struct FunctionDefinitionView {
    pub location: Location,
    pub name: IdentifierView,
    pub parameters: ParametersView,
    pub return_type: Type,
    pub body: BlockView,
}

pub struct ProgramView {
    pub functions: Seq<FunctionDefinitionView>,
}

impl View for Type {
    type V = Type;

    open spec fn view(&self) -> Type {
        *self
    }
}

impl View for Operator {
    type V = Operator;

    open spec fn view(&self) -> Operator {
        *self
    }
}

impl View for IntegerLiteral {
    type V = IntegerLiteralView;

    open spec fn view(&self) -> IntegerLiteralView {
        IntegerLiteralView { location: self.location, value: self.value@ }
    }
}

impl View for Identifier {
    type V = IdentifierView;

    open spec fn view(&self) -> IdentifierView {
        IdentifierView { location: self.location, name: self.name@ }
    }
}

impl View for AssignmentExpression {
    type V = AssignmentExpressionView;

    open spec fn view(&self) -> AssignmentExpressionView
        decreases self,
    {
        AssignmentExpressionView {
            location: self.location,
            name: self.name@,
            value: Box::new((*self.value)@),
        }
    }
}

impl View for FunctionCall {
    type V = FunctionCallView;

    open spec fn view(&self) -> FunctionCallView
        decreases self,
    {
        FunctionCallView {
            location: self.location,
            name: self.name@,
            arguments: expression_views(self.arguments@),
        }
    }
}

/// The values of a sequence of expressions, in order.
pub open spec fn expression_views(expressions: Seq<Expression>) -> Seq<ExpressionView>
    decreases expressions,
{
    if expressions.len() == 0 {
        Seq::empty()
    } else {
        expression_views(expressions.drop_last()).push(expressions.last()@)
    }
}

impl View for BinaryExpression {
    type V = BinaryExpressionView;

    open spec fn view(&self) -> BinaryExpressionView
        decreases self,
    {
        BinaryExpressionView {
            location: self.location,
            left: Box::new((*self.left)@),
            operator: self.operator,
            right: Box::new((*self.right)@),
        }
    }
}

impl View for Expression {
    type V = ExpressionView;

    open spec fn view(&self) -> ExpressionView
        decreases self,
    {
        match self {
            Expression::IntegerLiteral(node) => ExpressionView::IntegerLiteral(node@),
            Expression::Identifier(node) => ExpressionView::Identifier(node@),
            Expression::AssignmentExpression(node) => ExpressionView::AssignmentExpression(node@),
            Expression::FunctionCall(node) => ExpressionView::FunctionCall(node@),
            Expression::BinaryExpression(node) => ExpressionView::BinaryExpression(node@),
        }
    }
}

impl View for VariableDefinition {
    type V = VariableDefinitionView;

    open spec fn view(&self) -> VariableDefinitionView {
        VariableDefinitionView {
            location: self.location,
            name: self.name@,
            mutable: self.mutable,
            variable_type: self.variable_type,
            value: match self.value {
                Some(value) => Some(value@),
                None => None,
            },
        }
    }
}

impl View for ExpressionStatement {
    type V = ExpressionStatementView;

    open spec fn view(&self) -> ExpressionStatementView {
        ExpressionStatementView { location: self.location, expression: self.expression@ }
    }
}

impl View for Statement {
    type V = StatementView;

    open spec fn view(&self) -> StatementView {
        match self {
            Statement::VariableDefinition(node) => StatementView::VariableDefinition(node@),
            Statement::ExpressionStatement(node) => StatementView::ExpressionStatement(node@),
            Statement::Expression(node) => StatementView::Expression(node@),
        }
    }
}

impl View for Statements {
    type V = StatementsView;

    open spec fn view(&self) -> StatementsView {
        StatementsView { location: self.location, statements: views(self.statements@) }
    }
}

impl View for Block {
    type V = BlockView;

    open spec fn view(&self) -> BlockView {
        BlockView { location: self.location, statements: self.statements@ }
    }
}

impl View for Parameter {
    type V = ParameterView;

    open spec fn view(&self) -> ParameterView {
        ParameterView {
            location: self.location,
            name: self.name@,
            parameter_type: self.parameter_type,
        }
    }
}

impl View for Parameters {
    type V = ParametersView;

    open spec fn view(&self) -> ParametersView {
        ParametersView { location: self.location, parameters: views(self.parameters@) }
    }
}

impl View for FunctionDefinition {
    type V = FunctionDefinitionView;

    open spec fn view(&self) -> FunctionDefinitionView {
        FunctionDefinitionView {
            location: self.location,
            name: self.name@,
            parameters: self.parameters@,
            return_type: self.return_type,
            body: self.body@,
        }
    }
}

impl View for Program {
    type V = ProgramView;

    open spec fn view(&self) -> ProgramView {
        ProgramView { functions: views(self.functions@) }
    }
}

/// The values of a sequence of expressions are the values of its members.
pub proof fn lemma_expression_views(expressions: Seq<Expression>)
    ensures
        expression_views(expressions) == views(expressions),
    decreases expressions.len(),
{
    if expressions.len() > 0 {
        lemma_expression_views(expressions.drop_last());
        assert(expression_views(expressions) == expression_views(expressions.drop_last()).push(
            expressions.last()@,
        ));
    }
    assert(expression_views(expressions) =~= views(expressions));
}

impl ExpressionView {
    /// The span of the expression, whatever its form.
    pub open spec fn location(self) -> Location {
        match self {
            ExpressionView::IntegerLiteral(node) => node.location,
            ExpressionView::Identifier(node) => node.location,
            ExpressionView::AssignmentExpression(node) => node.location,
            ExpressionView::FunctionCall(node) => node.location,
            ExpressionView::BinaryExpression(node) => node.location,
        }
    }
}

impl VariableDefinitionView {
    /// A variable that is not mutable has an initial value.
    pub open spec fn well_formed(self) -> bool {
        !self.mutable ==> self.value is Some
    }
}

impl StatementView {
    /// The statement ends with a terminator: it is not a bare expression.
    pub open spec fn is_terminated(self) -> bool {
        !(self is Expression)
    }

    /// If the statement defines a variable, the definition is well formed.
    pub open spec fn well_formed(self) -> bool {
        self matches StatementView::VariableDefinition(definition) ==> definition.well_formed()
    }
}

impl BlockView {
    /// The statements of the block are well formed, and all of them but the
    /// last end with a terminator.
    pub open spec fn well_formed(self) -> bool {
        let statements = self.statements.statements;
        forall|i: int|
            0 <= i < statements.len() ==> {
                &&& (#[trigger] statements[i]).well_formed()
                &&& i < statements.len() - 1 ==> statements[i].is_terminated()
            }
    }
}

impl FunctionDefinitionView {
    /// The body of the function is well formed.
    pub open spec fn well_formed(self) -> bool {
        self.body.well_formed()
    }
}

impl ProgramView {
    /// The functions of the program are well formed.
    pub open spec fn well_formed(self) -> bool {
        forall|i: int| 0 <= i < self.functions.len() ==> (#[trigger] self.functions[i]).well_formed()
    }
}

impl Expression {
    /// The span of the expression, whatever its form.
    pub fn location(&self) -> (location: Location)
        ensures
            location == self@.location(),
    {
        match self {
            Expression::IntegerLiteral(node) => node.location,
            Expression::Identifier(node) => node.location,
            Expression::AssignmentExpression(node) => node.location,
            Expression::FunctionCall(node) => node.location,
            Expression::BinaryExpression(node) => node.location,
        }
    }
}

} // verus!
