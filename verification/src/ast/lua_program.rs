//! The shape of a parsed program: blocks, statements, expressions, operators.
//!
//! A function body is held behind `Rc` so that registering a function and
//! calling it share one tree without deep copies.

use vstd::prelude::*;
use std::rc::Rc;

verus! {

/// A whole program: a single top-level block.
#[derive(Debug)]
pub struct LuaProgram {
    pub block: Block,
}

/// An ordered sequence of statements plus an optional trailing return.
#[derive(Debug)]
pub struct Block {
    pub statements: Vec<Statement>,
    pub return_statement: Option<ReturnStatement>,
}

#[derive(Debug)]
pub enum Statement {
    Empty,
    MultipleAssignment(VarList, ExpressionList),
    FunctionCall(Var, Args),
    Label(String),
    Break,
    GoTo(String),
    DoBlockEnd(Block),
    WhileExprDoBlockEnd(Expression, Block),
    RepeatBlockUntilExpr(Block, Expression),
    IfBlock((Expression, Block), Vec<(Expression, Block)>, Option<Block>),
    ForEach(String, Expression, Expression, Option<Expression>, Block),
    ForList(NameList, ExpressionList, Block),
    Function(FunctionName, Rc<FunctionBody>),
    LocalFunction(String, Rc<FunctionBody>),
}

#[derive(Debug)]
pub struct ReturnStatement {
    pub expression_list: Option<ExpressionList>,
}

#[derive(Debug)]
pub struct ExpressionList {
    pub expressions: Vec<Expression>,
}

#[derive(Debug)]
pub struct NameList {
    pub names: Vec<String>,
}

#[derive(Debug)]
pub enum Expression {
    Expr(Expr),
    Binary(BinaryOperator, Expr, Expr),
}

#[derive(Debug)]
pub enum Expr {
    Nil,
    Boolean(bool),
    Numerical(NumberKind),
    LiteralString(String),
    Expansion(Expansion),
    FunctionDef(Rc<FunctionBody>),
    Prefix(Box<PrefixExpression>),
    Unary(UnaryOperator, Box<Expression>),
}

#[derive(Debug)]
pub enum PrefixExpression {
    Var(Var),
    FunctionCall(Var, Args),
    Expression(Expression),
}

#[derive(Debug)]
pub enum BinaryOperator {
    MathOperator(MathOperator),
    BitwiseOperator(BitwiseOperator),
    Concat,
    BooleanOperator(BooleanOperator),
}

#[derive(Debug, Clone, Copy, PartialEq, Eq, Structural)]
pub enum MathOperator {
    Plus,
    Minus,
    Multiply,
    FloatDivision,
    FloorDivision,
    Exponent,
    Mod,
}

#[derive(Debug, Clone, Copy, PartialEq, Eq, Structural)]
pub enum BitwiseOperator {
    And,
    Or,
    ExclusiveOr,
    RightShift,
    LeftShift,
}

#[derive(Debug, Clone, Copy, PartialEq, Eq, Structural)]
pub enum BooleanOperator {
    LessThan,
    LessThanEqualTo,
    GreaterThan,
    GreaterThanEqualTo,
    Equal,
    Unequal,
    And,
    Or,
}

#[derive(Debug, Clone, Copy, PartialEq, Eq, Structural)]
pub enum UnaryOperator {
    UnaryMinus,
    Not,
    Length,
    BitwiseUnaryNot,
}

#[derive(Debug)]
pub struct VarList {
    pub vars: Vec<Var>,
}

#[derive(Debug)]
pub enum Var {
    NestedAccess(Vec<String>),
    VarName(String),
    TableAccess(String, Expression),
}

/// `foo.bar.baz:thing` parses to
/// `{ outer_name: "foo", accessors: ["bar", "baz"], pass_self: Some("thing") }`.
#[derive(Debug)]
pub struct FunctionName {
    pub outer_name: String,
    pub accessors: Vec<String>,
    pub pass_self: Option<String>,
}

#[derive(Debug)]
pub enum Parameters {
    Normal(NameList, Option<Expansion>),
    Expanded(Expansion),
}

#[derive(Debug)]
pub struct FunctionBody {
    pub parameters: Option<Parameters>,
    pub block: Block,
}

#[derive(Debug)]
pub enum Args {
    ExpressionList(Option<ExpressionList>),
}

/// A numeric literal. A float literal is carried as the bit pattern of its
/// IEEE-754 double value: the verified core stores and compares such values
/// but defines no arithmetic on them.
#[derive(Debug, Clone, Copy, PartialEq, Eq, Structural)]
pub enum NumberKind {
    Int(i64),
    Float(u64),
}

/// The variadic marker `...`.
#[derive(Debug)]
pub struct Expansion;

} // verus!
