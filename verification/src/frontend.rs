//! The execution engine: the cell arena, the variable environment, the
//! function registry, and the tree-walking evaluator.
//!
//! The evaluator is proved to agree exactly with the specification
//! interpreter in `semantics`: for every program, state, and fuel, the
//! executable run and the mathematical run produce the same final state and
//! the same outcome.

pub mod data;
pub mod function;
pub mod variable_map;
pub mod function_map;
pub mod semantics;
pub mod natives;

use vstd::prelude::*;
use std::rc::Rc;
use crate::ast::lua_program::{Args, BinaryOperator, Block, BooleanOperator, Expr, Expression, FunctionBody, LuaProgram, NumberKind as AstNumberKind, Parameters, PrefixExpression, ReturnStatement, Statement, Var};
use crate::err_handle::{Failure, RuntimeFailure};
use crate::frontend::data::{CellArena, Data, DataKind, NumberKind, Val, data_valid, vals_of, math_op_on, bool_op_on, concat_on, unary_op_on};
use crate::frontend::function::{FunctionKind, rc_body_clone, rc_body_ref};
use crate::frontend::function_map::FunctionMap;
use crate::frontend::semantics::{EvalOut, FlowOut, ListOut, SState, init_state, s_args, s_assign_binds, s_bind_params, s_block, s_call, s_elseifs, s_expr, s_expr_list, s_expression, s_for, s_for_stmt, s_prefix, s_program, s_register, s_remove_params, s_repeat, s_return, s_statement, s_stmt_seq, s_var_read, s_while, st_bind};
use crate::frontend::variable_map::{VariableMap, assoc_insert, assoc_lookup, assoc_remove};

verus! {

/// How a statement or block finished: fell through, returned a value, or
/// hit `break`.
#[derive(Debug, PartialEq)]
pub enum Control {
    Proceed,
    Return(DataKind),
    Break,
}

/// Why evaluation stopped early: a runtime failure, or the fuel budget ran
/// out.
#[derive(Debug, PartialEq)]
pub enum Interrupt {
    Failed(RuntimeFailure),
    OutOfFuel,
}

/// What a whole program run yielded.
#[derive(Debug, PartialEq)]
pub enum ProgramOutcome {
    Finished(DataKind),
    Failed(RuntimeFailure),
    OutOfFuel,
}

/// The mathematical form of a statement outcome.
pub open spec fn flow_of(r: Result<Control, Interrupt>) -> FlowOut {
    match r {
        Ok(Control::Proceed) => FlowOut::Normal,
        Ok(Control::Return(v)) => FlowOut::Ret(v@),
        Ok(Control::Break) => FlowOut::Brk,
        Err(Interrupt::Failed(e)) => FlowOut::Fail(e@),
        Err(Interrupt::OutOfFuel) => FlowOut::Out,
    }
}

/// The mathematical form of an expression outcome.
pub open spec fn eval_of(r: Result<DataKind, Interrupt>) -> EvalOut {
    match r {
        Ok(v) => EvalOut::Val(v@),
        Err(Interrupt::Failed(e)) => EvalOut::Fail(e@),
        Err(Interrupt::OutOfFuel) => EvalOut::Out,
    }
}

/// The mathematical form of an expression-list outcome.
pub open spec fn list_of(r: Result<Vec<DataKind>, Interrupt>) -> ListOut {
    match r {
        Ok(vs) => ListOut::Vals(vals_of(vs@)),
        Err(Interrupt::Failed(e)) => ListOut::Fail(e@),
        Err(Interrupt::OutOfFuel) => ListOut::Out,
    }
}

/// The mathematical form of a program outcome.
pub open spec fn outcome_of(r: ProgramOutcome) -> EvalOut {
    match r {
        ProgramOutcome::Finished(v) => EvalOut::Val(v@),
        ProgramOutcome::Failed(e) => EvalOut::Fail(e@),
        ProgramOutcome::OutOfFuel => EvalOut::Out,
    }
}

/// Per-execution state: the current source line for diagnostics and owning
/// references to the cells, the environment, the registry, and the output
/// log, for the duration of one program run.
pub struct Context {
    pub current_line: i32,
    variable_map: VariableMap,
    registered_functions: FunctionMap,
    cells: CellArena,
    output: Vec<String>,
}

/// The texts of a sequence of owned strings.
pub open spec fn texts_of(ss: Seq<String>) -> Seq<Seq<char>> {
    ss.map(|i: int, s: String| s@)
}

impl View for Context {
    type V = SState;

    closed spec fn view(&self) -> SState {
        SState {
            cells: self.cells@,
            vars: self.variable_map@,
            funcs: self.registered_functions@,
            out: texts_of(self.output@),
            line: self.current_line as int,
        }
    }
}

impl Context {
    /// A fresh context: empty environment, empty registry but for the
    /// standard library, nothing printed, line zero.
    pub fn new() -> (r: Context)
        ensures
            r@ == init_state(),
    {
        let mut registered_functions = FunctionMap::new();
        natives::register_std_lib(&mut registered_functions);
        let r = Context {
            current_line: 0,
            variable_map: VariableMap::new(),
            registered_functions,
            cells: CellArena::new(),
            output: Vec::new(),
        };
        proof {
            assert(texts_of(r.output@) =~= Seq::<Seq<char>>::empty());
            assert(assoc_lookup(Seq::<(Seq<char>, FunctionKind)>::empty(), "print"@) is None);
        }
        r
    }

    /// Binds `var_name` to an existing cell handle: this is how two names
    /// come to alias one cell.
    pub fn store_data(&mut self, var_name: String, data: Data)
        ensures
            final(self)@ == (SState { vars: assoc_insert(old(self)@.vars, var_name@, data@), ..old(self)@ }),
    {
        self.variable_map.insert(var_name, data);
    }

    /// Creates a fresh cell holding `value` and binds `name` to it.
    pub fn bind(&mut self, name: String, value: DataKind)
        ensures
            final(self)@ == st_bind(old(self)@, name@, value@),
    {
        let d = Data::new(&mut self.cells, value);
        self.variable_map.insert(name, d);
    }

    /// Reads the cell behind a handle under a read access scoped to this
    /// call: a dangling handle (which a correct engine never hands out) and
    /// a cell under write access are failures.
    pub fn read_cell(&self, d: Data) -> (r: Result<DataKind, RuntimeFailure>)
        ensures
            match r {
                Ok(v) => {
                    &&& data_valid(d@, self@.cells)
                    &&& !self@.cells[d@].writer
                    &&& v@ == self@.cells[d@].value
                },
                Err(e) => if !data_valid(d@, self@.cells) {
                    e@ == Failure::InternalError("reading a variable cell"@)
                } else {
                    &&& self@.cells[d@].writer
                    &&& e@ == Failure::BorrowError("Cannot borrow a variable when it has a mutable reference in use"@, self@.line)
                },
            },
    {
        if !self.cells.contains(&d) {
            Err(RuntimeFailure::InternalError("reading a variable cell".to_owned()))
        } else {
            d.borrow(&self.cells, self.current_line)
        }
    }

    /// Creates a fresh, unbound cell in this run's arena and hands back its
    /// handle; `store_data` can then bind it under one or more names.
    pub fn new_cell(&mut self, value: DataKind) -> (r: Data)
        ensures
            final(self)@ == (SState { cells: old(self)@.cells.push(crate::frontend::data::fresh_slot(value@)), ..old(self)@ }),
            r@ == old(self)@.cells.len(),
    {
        Data::new(&mut self.cells, value)
    }

    /// Replaces the value in the cell behind a handle under a write access
    /// scoped to this call: it succeeds only when no other access is live.
    pub fn write_cell(&mut self, d: Data, value: DataKind) -> (r: Result<(), RuntimeFailure>)
        ensures
            match r {
                Ok(()) => {
                    &&& data_valid(d@, old(self)@.cells)
                    &&& !old(self)@.cells[d@].writer
                    &&& old(self)@.cells[d@].readers == 0
                    &&& final(self)@ == (SState { cells: old(self)@.cells.update(d@, crate::frontend::data::SlotView { value: value@, ..old(self)@.cells[d@] }), ..old(self)@ })
                },
                Err(e) => {
                    &&& final(self)@ == old(self)@
                    &&& if !data_valid(d@, old(self)@.cells) {
                        e@ == Failure::InternalError("writing a variable cell"@)
                    } else {
                        &&& old(self)@.cells[d@].writer || old(self)@.cells[d@].readers != 0
                        &&& e@ == Failure::BorrowError("Cannot borrow a variable mutably when it already has a reference in use"@, old(self)@.line)
                    }
                },
            },
    {
        if !self.cells.contains(&d) {
            Err(RuntimeFailure::InternalError("writing a variable cell".to_owned()))
        } else {
            d.borrow_mut(&mut self.cells, value, self.current_line)
        }
    }

    /// The lines printed so far, in order.
    pub fn printed(&self) -> (r: &Vec<String>)
        ensures
            texts_of(r@) == self@.out,
    {
        &self.output
    }

    /// Appends one line to the output log.
    pub(crate) fn log_line(&mut self, text: String)
        ensures
            final(self)@ == (SState { out: old(self)@.out.push(text@), ..old(self)@ }),
    {
        self.output.push(text);
        proof {
            assert(texts_of(self.output@) =~= texts_of(old(self).output@).push(text@));
        }
    }

    /// Drops the binding under `name` from the environment.
    fn unbind(&mut self, name: &str)
        ensures
            final(self)@ == (SState { vars: assoc_remove(old(self)@.vars, name@), ..old(self)@ }),
    {
        self.variable_map.remove(name);
    }
}

/// A numeric literal as a runtime value.
fn resolve_number_kind(nk: &AstNumberKind) -> (r: DataKind)
    ensures
        r@ == match *nk {
            AstNumberKind::Int(i) => Val::Int(i),
            AstNumberKind::Float(bits) => Val::Float(bits),
        },
{
    match nk {
        AstNumberKind::Int(i) => DataKind::Number(NumberKind::Integer(*i)),
        AstNumberKind::Float(bits) => DataKind::Number(NumberKind::Float(*bits)),
    }
}

/// A variable reference, resolved by reading its cell's current value.
fn resolve_var(context: &Context, var: &Var) -> (r: Result<DataKind, RuntimeFailure>)
    ensures
        match r {
            Ok(v) => s_var_read(context@, *var) == Ok::<Val, Failure>(v@),
            Err(e) => s_var_read(context@, *var) == Err::<Val, Failure>(e@),
        },
{
    match var {
        Var::VarName(name) => match context.variable_map.get(name.as_str(), context.current_line) {
            Ok(d) => context.read_cell(d),
            Err(e) => Err(e),
        },
        Var::NestedAccess(_) => Err(RuntimeFailure::InvalidArgs("nested access is not supported".to_owned(), context.current_line)),
        Var::TableAccess(_, _) => Err(RuntimeFailure::InvalidArgs("table access is not supported".to_owned(), context.current_line)),
    }
}

/// Resolving an expression; see `semantics::s_expression`.
fn resolve_expression(context: &mut Context, e: &Expression, fuel: u64) -> (r: Result<DataKind, Interrupt>)
    ensures
        ({
            let (st, out) = s_expression(old(context)@, *e, fuel as nat);
            final(context)@ == st && eval_of(r) == out
        }),
    decreases fuel,
{
    if fuel == 0 {
        return Err(Interrupt::OutOfFuel);
    }
    match e {
        Expression::Expr(x) => resolve_expr(context, x, fuel - 1),
        Expression::Binary(op, l, r) => match op {
            BinaryOperator::BooleanOperator(BooleanOperator::And) => {
                let lv = resolve_expr(context, l, fuel - 1)?;
                if !lv.is_true() {
                    Ok(lv)
                } else {
                    resolve_expr(context, r, fuel - 1)
                }
            },
            BinaryOperator::BooleanOperator(BooleanOperator::Or) => {
                let lv = resolve_expr(context, l, fuel - 1)?;
                if lv.is_true() {
                    Ok(lv)
                } else {
                    resolve_expr(context, r, fuel - 1)
                }
            },
            _ => {
                let a = resolve_expr(context, l, fuel - 1)?;
                let b = resolve_expr(context, r, fuel - 1)?;
                match op {
                    BinaryOperator::MathOperator(m) => match math_op_on(&a, &b, *m, context.current_line) {
                        Ok(n) => Ok(DataKind::Number(n)),
                        Err(e) => Err(Interrupt::Failed(e)),
                    },
                    BinaryOperator::Concat => match concat_on(&a, &b, context.current_line) {
                        Ok(v) => Ok(v),
                        Err(e) => Err(Interrupt::Failed(e)),
                    },
                    BinaryOperator::BooleanOperator(bo) => match bool_op_on(&a, &b, *bo, context.current_line) {
                        Ok(t) => Ok(DataKind::Bool(t)),
                        Err(e) => Err(Interrupt::Failed(e)),
                    },
                    BinaryOperator::BitwiseOperator(_) => Err(Interrupt::Failed(RuntimeFailure::InvalidArgs("bitwise operators are not supported".to_owned(), context.current_line))),
                }
            },
        },
    }
}

/// Resolving an inner expression; see `semantics::s_expr`.
fn resolve_expr(context: &mut Context, x: &Expr, fuel: u64) -> (r: Result<DataKind, Interrupt>)
    ensures
        ({
            let (st, out) = s_expr(old(context)@, *x, fuel as nat);
            final(context)@ == st && eval_of(r) == out
        }),
    decreases fuel,
{
    if fuel == 0 {
        return Err(Interrupt::OutOfFuel);
    }
    match x {
        Expr::Nil => Ok(DataKind::Null),
        Expr::Boolean(b) => Ok(DataKind::Bool(*b)),
        Expr::Numerical(nk) => Ok(resolve_number_kind(nk)),
        Expr::LiteralString(s) => Ok(DataKind::String(s.clone())),
        Expr::Expansion(_) => Err(Interrupt::Failed(RuntimeFailure::InvalidArgs("the variadic expression is not supported".to_owned(), context.current_line))),
        Expr::FunctionDef(_) => Err(Interrupt::Failed(RuntimeFailure::InvalidArgs("an anonymous function is not a value".to_owned(), context.current_line))),
        Expr::Prefix(p) => resolve_prefix(context, &**p, fuel - 1),
        Expr::Unary(op, e) => {
            let v = resolve_expression(context, &**e, fuel - 1)?;
            match unary_op_on(*op, &v, context.current_line) {
                Ok(w) => Ok(w),
                Err(e) => Err(Interrupt::Failed(e)),
            }
        },
    }
}

/// Resolving a prefixed sub-expression; see `semantics::s_prefix`.
fn resolve_prefix(context: &mut Context, p: &PrefixExpression, fuel: u64) -> (r: Result<DataKind, Interrupt>)
    ensures
        ({
            let (st, out) = s_prefix(old(context)@, *p, fuel as nat);
            final(context)@ == st && eval_of(r) == out
        }),
    decreases fuel,
{
    if fuel == 0 {
        return Err(Interrupt::OutOfFuel);
    }
    match p {
        PrefixExpression::Var(v) => match resolve_var(context, v) {
            Ok(d) => Ok(d),
            Err(e) => Err(Interrupt::Failed(e)),
        },
        PrefixExpression::FunctionCall(f, args) => function_call(context, f, args, fuel - 1),
        PrefixExpression::Expression(e) => resolve_expression(context, e, fuel - 1),
    }
}

/// Resolving an expression list from index `i` on; see
/// `semantics::s_expr_list`.
fn resolve_expr_list(context: &mut Context, exprs: &Vec<Expression>, i: usize, fuel: u64) -> (r: Result<Vec<DataKind>, Interrupt>)
    requires
        i <= exprs.len(),
    ensures
        ({
            let (st, out) = s_expr_list(old(context)@, exprs@.skip(i as int), fuel as nat);
            final(context)@ == st && list_of(r) == out
        }),
    decreases fuel,
{
    if fuel == 0 {
        return Err(Interrupt::OutOfFuel);
    }
    if i == exprs.len() {
        let out: Vec<DataKind> = Vec::new();
        proof {
            assert(exprs@.skip(i as int) =~= Seq::<Expression>::empty());
            assert(vals_of(out@) =~= Seq::<Val>::empty());
        }
        return Ok(out);
    }
    proof {
        assert(exprs@.skip(i as int)[0] == exprs@[i as int]);
        assert(exprs@.skip(i as int).drop_first() =~= exprs@.skip(i as int + 1));
    }
    let v = resolve_expression(context, &exprs[i], fuel - 1)?;
    let mut rest = resolve_expr_list(context, exprs, i + 1, fuel - 1)?;
    let ghost pre_rest = rest@;
    rest.insert(0, v);
    proof {
        assert(vals_of(rest@) =~= seq![v@] + vals_of(pre_rest));
    }
    Ok(rest)
}

/// Resolving a call's arguments; see `semantics::s_args`.
fn resolve_args(context: &mut Context, args: &Args, fuel: u64) -> (r: Result<Vec<DataKind>, Interrupt>)
    ensures
        ({
            let (st, out) = s_args(old(context)@, *args, fuel as nat);
            final(context)@ == st && list_of(r) == out
        }),
    decreases fuel,
{
    if fuel == 0 {
        return Err(Interrupt::OutOfFuel);
    }
    match args {
        Args::ExpressionList(None) => {
            let out: Vec<DataKind> = Vec::new();
            proof {
                assert(vals_of(out@) =~= Seq::<Val>::empty());
            }
            Ok(out)
        },
        Args::ExpressionList(Some(el)) => {
            proof {
                assert(el.expressions@.skip(0) =~= el.expressions@);
            }
            resolve_expr_list(context, &el.expressions, 0, fuel - 1)
        },
    }
}

/// Binding call parameters positionally from index `i` on; see
/// `semantics::s_bind_params`.
fn run_bind_params(context: &mut Context, names: &Vec<String>, vals: &Vec<DataKind>, i: usize)
    requires
        i <= names.len(),
        names.len() == vals.len(),
    ensures
        final(context)@ == s_bind_params(old(context)@, names@.skip(i as int), vals_of(vals@.skip(i as int))),
    decreases names.len() - i,
{
    if i == names.len() {
        proof {
            assert(names@.skip(i as int) =~= Seq::<String>::empty());
        }
        return;
    }
    proof {
        assert(names@.skip(i as int)[0] == names@[i as int]);
        assert(names@.skip(i as int).drop_first() =~= names@.skip(i as int + 1));
        assert(vals_of(vals@.skip(i as int))[0] == vals@[i as int]@);
        assert(vals_of(vals@.skip(i as int)).drop_first() =~= vals_of(vals@.skip(i as int + 1)));
    }
    context.bind(names[i].clone(), vals[i].duplicate());
    run_bind_params(context, names, vals, i + 1);
}

/// Removing call parameters from index `i` on; see
/// `semantics::s_remove_params`.
fn run_remove_params(context: &mut Context, names: &Vec<String>, i: usize)
    requires
        i <= names.len(),
    ensures
        final(context)@ == s_remove_params(old(context)@, names@.skip(i as int)),
    decreases names.len() - i,
{
    if i == names.len() {
        proof {
            assert(names@.skip(i as int) =~= Seq::<String>::empty());
        }
        return;
    }
    proof {
        assert(names@.skip(i as int)[0] == names@[i as int]);
        assert(names@.skip(i as int).drop_first() =~= names@.skip(i as int + 1));
    }
    context.unbind(names[i].as_str());
    run_remove_params(context, names, i + 1);
}

/// The call protocol; see `semantics::s_call`.
fn function_call(context: &mut Context, fvar: &Var, args: &Args, fuel: u64) -> (r: Result<DataKind, Interrupt>)
    ensures
        ({
            let (st, out) = s_call(old(context)@, *fvar, *args, fuel as nat);
            final(context)@ == st && eval_of(r) == out
        }),
    decreases fuel,
{
    if fuel == 0 {
        return Err(Interrupt::OutOfFuel);
    }
    let vals = resolve_args(context, args, fuel - 1)?;
    match fvar {
        Var::VarName(name) => match context.registered_functions.get(name.as_str()) {
            None => Err(Interrupt::Failed(RuntimeFailure::FuncNotFound(name.clone(), context.current_line))),
            Some(FunctionKind::Internal(internal)) => match internal.run_function_one_string(context, vals) {
                Ok(()) => Ok(DataKind::Null),
                Err(e) => Err(Interrupt::Failed(e)),
            },
            Some(FunctionKind::External(body_rc)) => {
                let body = rc_body_ref(&body_rc);
                match &body.parameters {
                    None => {
                        if vals.len() != 0 {
                            return Err(Interrupt::Failed(RuntimeFailure::InvalidArgs("Number of args passed are invalid".to_owned(), context.current_line)));
                        }
                        let flow = run_block(context, &body.block, fuel - 1)?;
                        match flow {
                            Control::Proceed => Ok(DataKind::Null),
                            Control::Return(v) => Ok(v),
                            Control::Break => Err(Interrupt::Failed(RuntimeFailure::InvalidArgs("'break' outside a loop".to_owned(), context.current_line))),
                        }
                    },
                    Some(Parameters::Normal(name_list, None)) => {
                        if name_list.names.len() != vals.len() {
                            return Err(Interrupt::Failed(RuntimeFailure::InvalidArgs("Number of args passed are invalid".to_owned(), context.current_line)));
                        }
                        proof {
                            assert(name_list.names@.skip(0) =~= name_list.names@);
                            assert(vals@.skip(0) =~= vals@);
                        }
                        run_bind_params(context, &name_list.names, &vals, 0);
                        match run_block(context, &body.block, fuel - 1) {
                            Err(stop) => Err(stop),
                            Ok(flow) => {
                                proof {
                                    assert(name_list.names@.skip(0) =~= name_list.names@);
                                }
                                run_remove_params(context, &name_list.names, 0);
                                match flow {
                                    Control::Proceed => Ok(DataKind::Null),
                                    Control::Return(v) => Ok(v),
                                    Control::Break => Err(Interrupt::Failed(RuntimeFailure::InvalidArgs("'break' outside a loop".to_owned(), context.current_line))),
                                }
                            },
                        }
                    },
                    Some(Parameters::Normal(_, Some(_))) => Err(Interrupt::Failed(RuntimeFailure::InvalidArgs("variadic parameters are not supported".to_owned(), context.current_line))),
                    Some(Parameters::Expanded(_)) => Err(Interrupt::Failed(RuntimeFailure::InvalidArgs("variadic parameters are not supported".to_owned(), context.current_line))),
                }
            },
        },
        Var::NestedAccess(_) => Err(Interrupt::Failed(RuntimeFailure::InvalidArgs("nested access is not supported".to_owned(), context.current_line))),
        Var::TableAccess(_, _) => Err(Interrupt::Failed(RuntimeFailure::InvalidArgs("table access is not supported".to_owned(), context.current_line))),
    }
}

/// Executing a block; see `semantics::s_block`. This is the evaluator's
/// entry for one block of statements with its optional trailing return.
pub fn run_block(context: &mut Context, block: &Block, fuel: u64) -> (r: Result<Control, Interrupt>)
    ensures
        ({
            let (st, out) = s_block(old(context)@, *block, fuel as nat);
            final(context)@ == st && flow_of(r) == out
        }),
    decreases fuel,
{
    if fuel == 0 {
        return Err(Interrupt::OutOfFuel);
    }
    proof {
        assert(block.statements@.skip(0) =~= block.statements@);
    }
    let flow = run_stmt_seq(context, &block.statements, 0, fuel - 1)?;
    match flow {
        Control::Proceed => match &block.return_statement {
            None => Ok(Control::Proceed),
            Some(rs) => match run_return_statement(context, rs, fuel - 1) {
                Ok(v) => Ok(Control::Return(v)),
                Err(stop) => Err(stop),
            },
        },
        other => Ok(other),
    }
}

/// Executing the statements of a block from index `i` on; see
/// `semantics::s_stmt_seq`.
fn run_stmt_seq(context: &mut Context, stmts: &Vec<Statement>, i: usize, fuel: u64) -> (r: Result<Control, Interrupt>)
    requires
        i <= stmts.len(),
    ensures
        ({
            let (st, out) = s_stmt_seq(old(context)@, stmts@.skip(i as int), fuel as nat);
            final(context)@ == st && flow_of(r) == out
        }),
    decreases fuel,
{
    if fuel == 0 {
        return Err(Interrupt::OutOfFuel);
    }
    if i == stmts.len() {
        proof {
            assert(stmts@.skip(i as int) =~= Seq::<Statement>::empty());
        }
        return Ok(Control::Proceed);
    }
    proof {
        assert(stmts@.skip(i as int)[0] == stmts@[i as int]);
        assert(stmts@.skip(i as int).drop_first() =~= stmts@.skip(i as int + 1));
    }
    let flow = run_statement(context, &stmts[i], fuel - 1)?;
    match flow {
        Control::Proceed => run_stmt_seq(context, stmts, i + 1, fuel - 1),
        other => Ok(other),
    }
}

/// Executing a return statement; see `semantics::s_return`.
fn run_return_statement(context: &mut Context, return_statement: &ReturnStatement, fuel: u64) -> (r: Result<DataKind, Interrupt>)
    ensures
        ({
            let (st, out) = s_return(old(context)@, *return_statement, fuel as nat);
            final(context)@ == st && match r {
                Ok(v) => out == FlowOut::Ret(v@),
                Err(Interrupt::Failed(e)) => out == FlowOut::Fail(e@),
                Err(Interrupt::OutOfFuel) => out == FlowOut::Out,
            }
        }),
    decreases fuel,
{
    if fuel == 0 {
        return Err(Interrupt::OutOfFuel);
    }
    match &return_statement.expression_list {
        None => Ok(DataKind::Null),
        Some(el) => if el.expressions.len() == 0 {
            Ok(DataKind::Null)
        } else if el.expressions.len() != 1 {
            Err(Interrupt::Failed(RuntimeFailure::InternalError("resolving return statement".to_owned())))
        } else {
            resolve_expression(context, &el.expressions[0], fuel - 1)
        },
    }
}

/// Binding the targets of a multiple assignment from index `vi` on, taking
/// values from index `j` on; see `semantics::s_assign_binds`.
fn run_assign_binds(context: &mut Context, vars: &Vec<Var>, vi: usize, vals: &Vec<DataKind>, j: usize) -> (r: Result<(), RuntimeFailure>)
    requires
        vi <= vars.len(),
        j <= vals.len(),
    ensures
        ({
            let (st, out) = s_assign_binds(old(context)@, vars@.skip(vi as int), vals_of(vals@.skip(j as int)));
            final(context)@ == st && match r {
                Ok(()) => out == Ok::<(), Failure>(()),
                Err(e) => out == Err::<(), Failure>(e@),
            }
        }),
    decreases vars.len() - vi,
{
    if vi == vars.len() {
        proof {
            assert(vars@.skip(vi as int) =~= Seq::<Var>::empty());
        }
        return Ok(());
    }
    proof {
        assert(vars@.skip(vi as int)[0] == vars@[vi as int]);
        assert(vars@.skip(vi as int).drop_first() =~= vars@.skip(vi as int + 1));
    }
    match &vars[vi] {
        Var::VarName(name) => {
            let has_val = j < vals.len();
            let v = if has_val { vals[j].duplicate() } else { DataKind::Null };
            proof {
                if j < vals.len() {
                    assert(vals_of(vals@.skip(j as int))[0] == vals@[j as int]@);
                    assert(vals_of(vals@.skip(j as int)).drop_first() =~= vals_of(vals@.skip(j as int + 1)));
                } else {
                    assert(vals_of(vals@.skip(j as int)) =~= Seq::<Val>::empty());
                }
            }
            context.bind(name.clone(), v);
            let j2 = if has_val { j + 1 } else { j };
            run_assign_binds(context, vars, vi + 1, vals, j2)
        },
        Var::NestedAccess(_) => Err(RuntimeFailure::InvalidArgs("nested access is not supported".to_owned(), context.current_line)),
        Var::TableAccess(_, _) => Err(RuntimeFailure::InvalidArgs("table access is not supported".to_owned(), context.current_line)),
    }
}

/// Registering a function definition under a plain name; see
/// `semantics::s_register`.
fn register_def(context: &mut Context, name: String, body: &Rc<FunctionBody>) -> (r: Result<Control, Interrupt>)
    ensures
        ({
            let (st, out) = s_register(old(context)@, name@, *body);
            final(context)@ == st && flow_of(r) == out
        }),
{
    match context.registered_functions.register_function(name, FunctionKind::External(rc_body_clone(body))) {
        Ok(()) => Ok(Control::Proceed),
        Err(e) => Err(Interrupt::Failed(e)),
    }
}

/// A while loop; see `semantics::s_while`.
fn run_while(context: &mut Context, cond: &Expression, body: &Block, fuel: u64) -> (r: Result<Control, Interrupt>)
    ensures
        ({
            let (st, out) = s_while(old(context)@, *cond, *body, fuel as nat);
            final(context)@ == st && flow_of(r) == out
        }),
    decreases fuel,
{
    if fuel == 0 {
        return Err(Interrupt::OutOfFuel);
    }
    let c = resolve_expression(context, cond, fuel - 1)?;
    if !c.is_true() {
        return Ok(Control::Proceed);
    }
    let flow = run_block(context, body, fuel - 1)?;
    match flow {
        Control::Proceed => run_while(context, cond, body, fuel - 1),
        Control::Break => Ok(Control::Proceed),
        Control::Return(v) => Ok(Control::Return(v)),
    }
}

/// A repeat-until loop; see `semantics::s_repeat`.
fn run_repeat(context: &mut Context, body: &Block, cond: &Expression, fuel: u64) -> (r: Result<Control, Interrupt>)
    ensures
        ({
            let (st, out) = s_repeat(old(context)@, *body, *cond, fuel as nat);
            final(context)@ == st && flow_of(r) == out
        }),
    decreases fuel,
{
    if fuel == 0 {
        return Err(Interrupt::OutOfFuel);
    }
    let flow = run_block(context, body, fuel - 1)?;
    match flow {
        Control::Proceed => {
            let c = resolve_expression(context, cond, fuel - 1)?;
            if c.is_true() {
                Ok(Control::Proceed)
            } else {
                run_repeat(context, body, cond, fuel - 1)
            }
        },
        Control::Break => Ok(Control::Proceed),
        Control::Return(v) => Ok(Control::Return(v)),
    }
}

/// The elseif chain of an if statement from index `i` on; see
/// `semantics::s_elseifs`.
fn run_elseifs(context: &mut Context, chain: &Vec<(Expression, Block)>, i: usize, else_block: &Option<Block>, fuel: u64) -> (r: Result<Control, Interrupt>)
    requires
        i <= chain.len(),
    ensures
        ({
            let (st, out) = s_elseifs(old(context)@, chain@.skip(i as int), *else_block, fuel as nat);
            final(context)@ == st && flow_of(r) == out
        }),
    decreases fuel,
{
    if fuel == 0 {
        return Err(Interrupt::OutOfFuel);
    }
    if i == chain.len() {
        proof {
            assert(chain@.skip(i as int) =~= Seq::<(Expression, Block)>::empty());
        }
        return match else_block {
            Some(b) => run_block(context, b, fuel - 1),
            None => Ok(Control::Proceed),
        };
    }
    proof {
        assert(chain@.skip(i as int)[0] == chain@[i as int]);
        assert(chain@.skip(i as int).drop_first() =~= chain@.skip(i as int + 1));
    }
    let c = resolve_expression(context, &chain[i].0, fuel - 1)?;
    if c.is_true() {
        run_block(context, &chain[i].1, fuel - 1)
    } else {
        run_elseifs(context, chain, i + 1, else_block, fuel - 1)
    }
}

/// The iterations of a numeric for loop; see `semantics::s_for`.
fn run_for(context: &mut Context, name: &String, cur: i64, stop: i64, step: i64, body: &Block, fuel: u64) -> (r: Result<Control, Interrupt>)
    ensures
        ({
            let (st, out) = s_for(old(context)@, name@, cur, stop, step, *body, fuel as nat);
            final(context)@ == st && flow_of(r) == out
        }),
    decreases fuel,
{
    if fuel == 0 {
        return Err(Interrupt::OutOfFuel);
    }
    let done = if step > 0 { cur > stop } else { cur < stop };
    if done {
        return Ok(Control::Proceed);
    }
    context.bind(name.clone(), DataKind::Number(NumberKind::Integer(cur)));
    let flow = run_block(context, body, fuel - 1)?;
    match flow {
        Control::Proceed => run_for(context, name, cur.wrapping_add(step), stop, step, body, fuel - 1),
        Control::Break => Ok(Control::Proceed),
        Control::Return(v) => Ok(Control::Return(v)),
    }
}

/// The header of a numeric for loop; see `semantics::s_for_stmt`.
fn run_for_header(context: &mut Context, name: &String, start_e: &Expression, stop_e: &Expression, step_e: &Option<Expression>, body: &Block, fuel: u64) -> (r: Result<Control, Interrupt>)
    ensures
        ({
            let (st, out) = s_for_stmt(old(context)@, name@, *start_e, *stop_e, *step_e, *body, fuel as nat);
            final(context)@ == st && flow_of(r) == out
        }),
    decreases fuel,
{
    if fuel == 0 {
        return Err(Interrupt::OutOfFuel);
    }
    let v1 = resolve_expression(context, start_e, fuel - 1)?;
    let v2 = resolve_expression(context, stop_e, fuel - 1)?;
    let v3 = match step_e {
        Some(e) => resolve_expression(context, e, fuel - 1)?,
        None => DataKind::Number(NumberKind::Integer(1)),
    };
    match (&v1, &v2, &v3) {
        (DataKind::Number(NumberKind::Integer(a)), DataKind::Number(NumberKind::Integer(b)), DataKind::Number(NumberKind::Integer(c))) => {
            if *c == 0 {
                Err(Interrupt::Failed(RuntimeFailure::InvalidArgs("'for' step is zero".to_owned(), context.current_line)))
            } else {
                run_for(context, name, *a, *b, *c, body, fuel - 1)
            }
        },
        (DataKind::Number(NumberKind::Float(_)), _, _) => Err(Interrupt::Failed(RuntimeFailure::WrongType("Integer".to_owned(), context.current_line))),
        (_, DataKind::Number(NumberKind::Float(_)), _) => Err(Interrupt::Failed(RuntimeFailure::WrongType("Integer".to_owned(), context.current_line))),
        (_, _, DataKind::Number(NumberKind::Float(_))) => Err(Interrupt::Failed(RuntimeFailure::WrongType("Integer".to_owned(), context.current_line))),
        _ => Err(Interrupt::Failed(RuntimeFailure::WrongType("Number".to_owned(), context.current_line))),
    }
}

/// Executing one statement; see `semantics::s_statement`.
fn run_statement(context: &mut Context, statement: &Statement, fuel: u64) -> (r: Result<Control, Interrupt>)
    ensures
        ({
            let (st, out) = s_statement(old(context)@, *statement, fuel as nat);
            final(context)@ == st && flow_of(r) == out
        }),
    decreases fuel,
{
    if fuel == 0 {
        return Err(Interrupt::OutOfFuel);
    }
    match statement {
        Statement::Empty => Ok(Control::Proceed),
        Statement::MultipleAssignment(var_list, expr_list) => {
            proof {
                assert(expr_list.expressions@.skip(0) =~= expr_list.expressions@);
            }
            let vals = resolve_expr_list(context, &expr_list.expressions, 0, fuel - 1)?;
            proof {
                assert(var_list.vars@.skip(0) =~= var_list.vars@);
                assert(vals@.skip(0) =~= vals@);
            }
            match run_assign_binds(context, &var_list.vars, 0, &vals, 0) {
                Ok(()) => Ok(Control::Proceed),
                Err(e) => Err(Interrupt::Failed(e)),
            }
        },
        Statement::FunctionCall(f, args) => {
            let _ = function_call(context, f, args, fuel - 1)?;
            Ok(Control::Proceed)
        },
        Statement::Label(_) => Ok(Control::Proceed),
        Statement::Break => Ok(Control::Break),
        Statement::GoTo(_) => Err(Interrupt::Failed(RuntimeFailure::InvalidArgs("goto is not supported".to_owned(), context.current_line))),
        Statement::DoBlockEnd(b) => run_block(context, b, fuel - 1),
        Statement::WhileExprDoBlockEnd(cond, body) => run_while(context, cond, body, fuel - 1),
        Statement::RepeatBlockUntilExpr(body, cond) => run_repeat(context, body, cond, fuel - 1),
        Statement::IfBlock(first, elseifs, else_block) => {
            let c = resolve_expression(context, &first.0, fuel - 1)?;
            if c.is_true() {
                run_block(context, &first.1, fuel - 1)
            } else {
                proof {
                    assert(elseifs@.skip(0) =~= elseifs@);
                }
                run_elseifs(context, elseifs, 0, else_block, fuel - 1)
            }
        },
        Statement::ForEach(name, start_e, stop_e, step_e, body) => run_for_header(context, name, start_e, stop_e, step_e, body, fuel - 1),
        Statement::ForList(_, _, _) => Err(Interrupt::Failed(RuntimeFailure::InvalidArgs("the generic for statement is not supported".to_owned(), context.current_line))),
        Statement::Function(name, body) => {
            if name.accessors.len() != 0 || name.pass_self.is_some() {
                Err(Interrupt::Failed(RuntimeFailure::InvalidArgs("a qualified function name is not supported".to_owned(), context.current_line)))
            } else {
                register_def(context, name.outer_name.clone(), body)
            }
        },
        Statement::LocalFunction(name, body) => register_def(context, name.clone(), body),
    }
}

/// Runs a whole program in the given context; see `semantics::s_program`.
/// The top-level block's return value — or nil when it falls through — is
/// the program's result.
pub fn enter_program_in(context: &mut Context, input: &LuaProgram, fuel: u64) -> (r: ProgramOutcome)
    ensures
        ({
            let (st, out) = s_program(old(context)@, *input, fuel as nat);
            final(context)@ == st && outcome_of(r) == out
        }),
{
    match run_block(context, &input.block, fuel) {
        Ok(Control::Proceed) => ProgramOutcome::Finished(DataKind::Null),
        Ok(Control::Return(v)) => ProgramOutcome::Finished(v),
        Ok(Control::Break) => ProgramOutcome::Failed(RuntimeFailure::InvalidArgs("'break' outside a loop".to_owned(), context.current_line)),
        Err(Interrupt::Failed(e)) => ProgramOutcome::Failed(e),
        Err(Interrupt::OutOfFuel) => ProgramOutcome::OutOfFuel,
    }
}

/// Runs a whole program in a fresh context: environment and registry are
/// created, the standard library is registered, and the top-level block
/// runs; see `semantics::s_program`.
pub fn enter_program(input: &LuaProgram, fuel: u64) -> (r: ProgramOutcome)
    ensures
        ({
            let (st, out) = s_program(init_state(), *input, fuel as nat);
            outcome_of(r) == out
        }),
{
    let mut context = Context::new();
    enter_program_in(&mut context, input, fuel)
}

} // verus!
