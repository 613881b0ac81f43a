//! The mathematical semantics of the language: a deterministic, fuel-bounded
//! interpreter written as specification functions over the abstract state.
//! The executable evaluator is proved to agree with these functions exactly,
//! state and outcome alike, for every program and every fuel.
//!
//! Fuel bounds the depth of evaluation: every recursive step burns one unit,
//! so a program that loops or recurses without end runs out of fuel instead
//! of hanging; the outcome then says so, distinct from every failure.

use vstd::prelude::*;
use crate::ast::lua_program::{Args, BinaryOperator, Block, BooleanOperator, Expr, Expression, FunctionBody, LuaProgram, NumberKind, Parameters, PrefixExpression, ReturnStatement, Statement, Var};
use crate::err_handle::Failure;
use crate::frontend::data::{SlotView, Val, NumVal, fresh_slot, truthy, spec_math_op, spec_bool_op, spec_concat, spec_unary_op};
use crate::frontend::function::{FunctionKind, InternalFunctionTypes, OneStrFn};
use crate::frontend::variable_map::{assoc_lookup, assoc_insert, assoc_remove};

verus! {

/// The abstract state of one program run: the cells, the variable
/// environment, the function registry, the lines printed so far, and the
/// current source line for diagnostics.
#[verifier::ext_equal]
pub struct SState {
    pub cells: Seq<SlotView>,
    pub vars: Seq<(Seq<char>, int)>,
    pub funcs: Seq<(Seq<char>, FunctionKind)>,
    pub out: Seq<Seq<char>>,
    pub line: int,
}

/// The outcome of resolving an expression.
pub enum EvalOut {
    Val(Val),
    Fail(Failure),
    Out,
}

/// The outcome of executing a statement or block: fell through, returned a
/// value, hit `break`, failed, or ran out of fuel.
pub enum FlowOut {
    Normal,
    Ret(Val),
    Brk,
    Fail(Failure),
    Out,
}

/// The outcome of resolving an expression list.
pub enum ListOut {
    Vals(Seq<Val>),
    Fail(Failure),
    Out,
}

/// `st` with a fresh cell holding `v`, bound under `name`.
pub open spec fn st_bind(st: SState, name: Seq<char>, v: Val) -> SState {
    SState {
        cells: st.cells.push(fresh_slot(v)),
        vars: assoc_insert(st.vars, name, st.cells.len() as int),
        ..st
    }
}

/// Reading a variable: look the name up, then read its cell under a read
/// access scoped to this resolution. A missing name, a dangling handle
/// (which a correct engine never produces), or a cell under a live write
/// access is a failure.
pub open spec fn s_var_read(st: SState, v: Var) -> Result<Val, Failure> {
    match v {
        Var::VarName(name) => match assoc_lookup(st.vars, name@) {
            None => Err(Failure::VarNotFound(name@, st.line)),
            Some(idx) => if !(0 <= idx < st.cells.len()) {
                Err(Failure::InternalError("reading a variable cell"@))
            } else if st.cells[idx].writer {
                Err(Failure::BorrowError("Cannot borrow a variable when it has a mutable reference in use"@, st.line))
            } else {
                Ok(st.cells[idx].value)
            },
        },
        Var::NestedAccess(_) => Err(Failure::InvalidArgs("nested access is not supported"@, st.line)),
        Var::TableAccess(_, _) => Err(Failure::InvalidArgs("table access is not supported"@, st.line)),
    }
}

/// Binding a multiple assignment: the i-th resolved value goes to the i-th
/// simple name through a fresh cell; targets beyond the value list get nil.
/// Only simple names are assignable; an unassignable target fails after the
/// earlier targets are already bound.
pub open spec fn s_assign_binds(st: SState, vars: Seq<Var>, vals: Seq<Val>) -> (SState, Result<(), Failure>)
    decreases vars.len(),
{
    if vars.len() == 0 {
        (st, Ok(()))
    } else {
        match vars[0] {
            Var::VarName(name) => {
                let v = if vals.len() > 0 { vals[0] } else { Val::Nil };
                let rest = if vals.len() > 0 { vals.drop_first() } else { vals };
                s_assign_binds(st_bind(st, name@, v), vars.drop_first(), rest)
            },
            Var::NestedAccess(_) => (st, Err(Failure::InvalidArgs("nested access is not supported"@, st.line))),
            Var::TableAccess(_, _) => (st, Err(Failure::InvalidArgs("table access is not supported"@, st.line))),
        }
    }
}

/// Binding call parameters positionally, each to a fresh cell.
pub open spec fn s_bind_params(st: SState, names: Seq<String>, vals: Seq<Val>) -> SState
    decreases names.len(),
{
    if names.len() == 0 || vals.len() == 0 {
        st
    } else {
        s_bind_params(st_bind(st, names[0]@, vals[0]), names.drop_first(), vals.drop_first())
    }
}

/// Removing call parameters from the environment when the call returns.
pub open spec fn s_remove_params(st: SState, names: Seq<String>) -> SState
    decreases names.len(),
{
    if names.len() == 0 {
        st
    } else {
        s_remove_params(SState { vars: assoc_remove(st.vars, names[0]@), ..st }, names.drop_first())
    }
}

/// A number outcome as a value.
pub open spec fn num_to_val(n: NumVal) -> Val {
    match n {
        NumVal::Int(i) => Val::Int(i),
        NumVal::Float(bits) => Val::Float(bits),
    }
}

/// Running a native definition on resolved argument values: the arity and
/// type checks are the native protocol's own, and the one shape provided
/// takes exactly one string. `print` appends its argument to the output.
pub open spec fn s_native(st: SState, op: OneStrFn, vals: Seq<Val>) -> (SState, EvalOut) {
    if vals.len() != 1 {
        (st, EvalOut::Fail(Failure::BadFunctionArgs("Function should have 1 arg"@, st.line)))
    } else {
        match vals[0] {
            Val::Str(text) => (SState { out: st.out.push(text), ..st }, EvalOut::Val(Val::Nil)),
            _ => (st, EvalOut::Fail(Failure::BadFunctionArgs("Function expected a string"@, st.line))),
        }
    }
}

/// Resolving an expression.
pub open spec fn s_expression(st: SState, e: Expression, fuel: nat) -> (SState, EvalOut)
    decreases fuel,
{
    if fuel == 0 {
        (st, EvalOut::Out)
    } else {
        match e {
            Expression::Expr(x) => s_expr(st, x, (fuel - 1) as nat),
            Expression::Binary(op, l, r) => match op {
                BinaryOperator::BooleanOperator(BooleanOperator::And) => {
                    let (st1, lr) = s_expr(st, l, (fuel - 1) as nat);
                    match lr {
                        EvalOut::Val(v) => if !truthy(v) {
                            (st1, EvalOut::Val(v))
                        } else {
                            s_expr(st1, r, (fuel - 1) as nat)
                        },
                        _ => (st1, lr),
                    }
                },
                BinaryOperator::BooleanOperator(BooleanOperator::Or) => {
                    let (st1, lr) = s_expr(st, l, (fuel - 1) as nat);
                    match lr {
                        EvalOut::Val(v) => if truthy(v) {
                            (st1, EvalOut::Val(v))
                        } else {
                            s_expr(st1, r, (fuel - 1) as nat)
                        },
                        _ => (st1, lr),
                    }
                },
                _ => {
                    let (st1, lr) = s_expr(st, l, (fuel - 1) as nat);
                    match lr {
                        EvalOut::Val(a) => {
                            let (st2, rr) = s_expr(st1, r, (fuel - 1) as nat);
                            match rr {
                                EvalOut::Val(b) => match op {
                                    BinaryOperator::MathOperator(m) => match spec_math_op(m, a, b, st2.line) {
                                        Ok(n) => (st2, EvalOut::Val(num_to_val(n))),
                                        Err(f) => (st2, EvalOut::Fail(f)),
                                    },
                                    BinaryOperator::Concat => match spec_concat(a, b, st2.line) {
                                        Ok(s) => (st2, EvalOut::Val(Val::Str(s))),
                                        Err(f) => (st2, EvalOut::Fail(f)),
                                    },
                                    BinaryOperator::BooleanOperator(bo) => match spec_bool_op(bo, a, b, st2.line) {
                                        Ok(t) => (st2, EvalOut::Val(Val::Bool(t))),
                                        Err(f) => (st2, EvalOut::Fail(f)),
                                    },
                                    BinaryOperator::BitwiseOperator(_) => (st2, EvalOut::Fail(Failure::InvalidArgs("bitwise operators are not supported"@, st2.line))),
                                },
                                _ => (st2, rr),
                            }
                        },
                        _ => (st1, lr),
                    }
                },
            },
        }
    }
}

/// Resolving an inner expression: literals resolve to their values, a prefix
/// recurses, a unary applies after its operand resolves; the variadic marker
/// and an anonymous function definition have no value in this engine.
pub open spec fn s_expr(st: SState, x: Expr, fuel: nat) -> (SState, EvalOut)
    decreases fuel,
{
    if fuel == 0 {
        (st, EvalOut::Out)
    } else {
        match x {
            Expr::Nil => (st, EvalOut::Val(Val::Nil)),
            Expr::Boolean(b) => (st, EvalOut::Val(Val::Bool(b))),
            Expr::Numerical(NumberKind::Int(i)) => (st, EvalOut::Val(Val::Int(i))),
            Expr::Numerical(NumberKind::Float(bits)) => (st, EvalOut::Val(Val::Float(bits))),
            Expr::LiteralString(s) => (st, EvalOut::Val(Val::Str(s@))),
            Expr::Expansion(_) => (st, EvalOut::Fail(Failure::InvalidArgs("the variadic expression is not supported"@, st.line))),
            Expr::FunctionDef(_) => (st, EvalOut::Fail(Failure::InvalidArgs("an anonymous function is not a value"@, st.line))),
            Expr::Prefix(p) => s_prefix(st, *p, (fuel - 1) as nat),
            Expr::Unary(op, e) => {
                let (st1, r) = s_expression(st, *e, (fuel - 1) as nat);
                match r {
                    EvalOut::Val(v) => match spec_unary_op(op, v, st1.line) {
                        Ok(w) => (st1, EvalOut::Val(w)),
                        Err(f) => (st1, EvalOut::Fail(f)),
                    },
                    _ => (st1, r),
                }
            },
        }
    }
}

/// Resolving a prefixed sub-expression: a variable read, a nested call, or a
/// parenthesized expression.
pub open spec fn s_prefix(st: SState, p: PrefixExpression, fuel: nat) -> (SState, EvalOut)
    decreases fuel,
{
    if fuel == 0 {
        (st, EvalOut::Out)
    } else {
        match p {
            PrefixExpression::Var(v) => match s_var_read(st, v) {
                Ok(val) => (st, EvalOut::Val(val)),
                Err(f) => (st, EvalOut::Fail(f)),
            },
            PrefixExpression::FunctionCall(f, args) => s_call(st, f, args, (fuel - 1) as nat),
            PrefixExpression::Expression(e) => s_expression(st, e, (fuel - 1) as nat),
        }
    }
}

/// Resolving an expression list in order, failing fast.
pub open spec fn s_expr_list(st: SState, es: Seq<Expression>, fuel: nat) -> (SState, ListOut)
    decreases fuel,
{
    if fuel == 0 {
        (st, ListOut::Out)
    } else if es.len() == 0 {
        (st, ListOut::Vals(Seq::empty()))
    } else {
        let (st1, r) = s_expression(st, es[0], (fuel - 1) as nat);
        match r {
            EvalOut::Val(v) => {
                let (st2, rest) = s_expr_list(st1, es.drop_first(), (fuel - 1) as nat);
                match rest {
                    ListOut::Vals(vs) => (st2, ListOut::Vals(seq![v] + vs)),
                    _ => (st2, rest),
                }
            },
            EvalOut::Fail(f) => (st1, ListOut::Fail(f)),
            EvalOut::Out => (st1, ListOut::Out),
        }
    }
}

/// Resolving a call's arguments: an absent list is no arguments.
pub open spec fn s_args(st: SState, args: Args, fuel: nat) -> (SState, ListOut)
    decreases fuel,
{
    if fuel == 0 {
        (st, ListOut::Out)
    } else {
        match args {
            Args::ExpressionList(None) => (st, ListOut::Vals(Seq::empty())),
            Args::ExpressionList(Some(el)) => s_expr_list(st, el.expressions@, (fuel - 1) as nat),
        }
    }
}

/// The call protocol. Arguments resolve first; then the callee is looked up
/// (so an unknown name is reported after argument effects). A user-defined
/// callee checks the argument count against its declared parameters exactly,
/// binds them positionally as fresh cells in the one flat environment, runs
/// the body, and removes the parameter names again on any completed run; a
/// plain completion yields nil, a return yields its value, and a `break`
/// escaping the body is an error. A native callee checks its own arguments.
pub open spec fn s_call(st: SState, f: Var, args: Args, fuel: nat) -> (SState, EvalOut)
    decreases fuel,
{
    if fuel == 0 {
        (st, EvalOut::Out)
    } else {
        let (st1, ar) = s_args(st, args, (fuel - 1) as nat);
        match ar {
            ListOut::Fail(e) => (st1, EvalOut::Fail(e)),
            ListOut::Out => (st1, EvalOut::Out),
            ListOut::Vals(vals) => match f {
                Var::VarName(name) => match assoc_lookup(st1.funcs, name@) {
                    None => (st1, EvalOut::Fail(Failure::FuncNotFound(name@, st1.line))),
                    Some(FunctionKind::Internal(InternalFunctionTypes::TakesOneStr(op))) => s_native(st1, op, vals),
                    Some(FunctionKind::External(body)) => match body.parameters {
                        None => if vals.len() != 0 {
                            (st1, EvalOut::Fail(Failure::InvalidArgs("Number of args passed are invalid"@, st1.line)))
                        } else {
                            let (st2, flow) = s_block(st1, body.block, (fuel - 1) as nat);
                            match flow {
                                FlowOut::Normal => (st2, EvalOut::Val(Val::Nil)),
                                FlowOut::Ret(v) => (st2, EvalOut::Val(v)),
                                FlowOut::Brk => (st2, EvalOut::Fail(Failure::InvalidArgs("'break' outside a loop"@, st2.line))),
                                FlowOut::Fail(e) => (st2, EvalOut::Fail(e)),
                                FlowOut::Out => (st2, EvalOut::Out),
                            }
                        },
                        Some(Parameters::Normal(name_list, None)) => if name_list.names.len() != vals.len() {
                            (st1, EvalOut::Fail(Failure::InvalidArgs("Number of args passed are invalid"@, st1.line)))
                        } else {
                            let st2 = s_bind_params(st1, name_list.names@, vals);
                            let (st3, flow) = s_block(st2, body.block, (fuel - 1) as nat);
                            match flow {
                                FlowOut::Normal => (s_remove_params(st3, name_list.names@), EvalOut::Val(Val::Nil)),
                                FlowOut::Ret(v) => (s_remove_params(st3, name_list.names@), EvalOut::Val(v)),
                                FlowOut::Brk => {
                                    let st4 = s_remove_params(st3, name_list.names@);
                                    (st4, EvalOut::Fail(Failure::InvalidArgs("'break' outside a loop"@, st4.line)))
                                },
                                FlowOut::Fail(e) => (st3, EvalOut::Fail(e)),
                                FlowOut::Out => (st3, EvalOut::Out),
                            }
                        },
                        Some(Parameters::Normal(_, Some(_))) => (st1, EvalOut::Fail(Failure::InvalidArgs("variadic parameters are not supported"@, st1.line))),
                        Some(Parameters::Expanded(_)) => (st1, EvalOut::Fail(Failure::InvalidArgs("variadic parameters are not supported"@, st1.line))),
                    },
                },
                Var::NestedAccess(_) => (st1, EvalOut::Fail(Failure::InvalidArgs("nested access is not supported"@, st1.line))),
                Var::TableAccess(_, _) => (st1, EvalOut::Fail(Failure::InvalidArgs("table access is not supported"@, st1.line))),
            },
        }
    }
}

/// Executing a block: the statements in order; when they fall through, the
/// trailing return (if any) decides the block's outcome.
pub open spec fn s_block(st: SState, b: Block, fuel: nat) -> (SState, FlowOut)
    decreases fuel,
{
    if fuel == 0 {
        (st, FlowOut::Out)
    } else {
        let (st1, flow) = s_stmt_seq(st, b.statements@, (fuel - 1) as nat);
        match flow {
            FlowOut::Normal => match b.return_statement {
                None => (st1, FlowOut::Normal),
                Some(rs) => s_return(st1, rs, (fuel - 1) as nat),
            },
            _ => (st1, flow),
        }
    }
}

/// Executing a statement sequence: any outcome other than falling through
/// aborts the remainder and propagates.
pub open spec fn s_stmt_seq(st: SState, ss: Seq<Statement>, fuel: nat) -> (SState, FlowOut)
    decreases fuel,
{
    if fuel == 0 {
        (st, FlowOut::Out)
    } else if ss.len() == 0 {
        (st, FlowOut::Normal)
    } else {
        let (st1, flow) = s_statement(st, ss[0], (fuel - 1) as nat);
        match flow {
            FlowOut::Normal => s_stmt_seq(st1, ss.drop_first(), (fuel - 1) as nat),
            _ => (st1, flow),
        }
    }
}

/// Executing a return statement: no list or an empty list returns nil, one
/// expression returns its value; several are not resolved by this engine.
pub open spec fn s_return(st: SState, rs: ReturnStatement, fuel: nat) -> (SState, FlowOut)
    decreases fuel,
{
    if fuel == 0 {
        (st, FlowOut::Out)
    } else {
        match rs.expression_list {
            None => (st, FlowOut::Ret(Val::Nil)),
            Some(el) => if el.expressions@.len() == 0 {
                (st, FlowOut::Ret(Val::Nil))
            } else if el.expressions@.len() != 1 {
                (st, FlowOut::Fail(Failure::InternalError("resolving return statement"@)))
            } else {
                let (st1, r) = s_expression(st, el.expressions@[0], (fuel - 1) as nat);
                match r {
                    EvalOut::Val(v) => (st1, FlowOut::Ret(v)),
                    EvalOut::Fail(f) => (st1, FlowOut::Fail(f)),
                    EvalOut::Out => (st1, FlowOut::Out),
                }
            },
        }
    }
}

/// A while loop: condition, then body, repeatedly; a falsy condition stops
/// it normally, `break` in the body stops it, a return propagates.
pub open spec fn s_while(st: SState, cond: Expression, body: Block, fuel: nat) -> (SState, FlowOut)
    decreases fuel,
{
    if fuel == 0 {
        (st, FlowOut::Out)
    } else {
        let (st1, r) = s_expression(st, cond, (fuel - 1) as nat);
        match r {
            EvalOut::Val(v) => if !truthy(v) {
                (st1, FlowOut::Normal)
            } else {
                let (st2, flow) = s_block(st1, body, (fuel - 1) as nat);
                match flow {
                    FlowOut::Normal => s_while(st2, cond, body, (fuel - 1) as nat),
                    FlowOut::Brk => (st2, FlowOut::Normal),
                    _ => (st2, flow),
                }
            },
            EvalOut::Fail(f) => (st1, FlowOut::Fail(f)),
            EvalOut::Out => (st1, FlowOut::Out),
        }
    }
}

/// A repeat-until loop: the body always runs at least once; a truthy
/// condition stops it.
pub open spec fn s_repeat(st: SState, body: Block, cond: Expression, fuel: nat) -> (SState, FlowOut)
    decreases fuel,
{
    if fuel == 0 {
        (st, FlowOut::Out)
    } else {
        let (st1, flow) = s_block(st, body, (fuel - 1) as nat);
        match flow {
            FlowOut::Normal => {
                let (st2, r) = s_expression(st1, cond, (fuel - 1) as nat);
                match r {
                    EvalOut::Val(v) => if truthy(v) {
                        (st2, FlowOut::Normal)
                    } else {
                        s_repeat(st2, body, cond, (fuel - 1) as nat)
                    },
                    EvalOut::Fail(f) => (st2, FlowOut::Fail(f)),
                    EvalOut::Out => (st2, FlowOut::Out),
                }
            },
            FlowOut::Brk => (st1, FlowOut::Normal),
            _ => (st1, flow),
        }
    }
}

/// The elseif chain of an if statement: conditions in order, the first
/// truthy branch runs, later conditions are never resolved; with none truthy
/// the else block (if any) runs.
pub open spec fn s_elseifs(st: SState, chain: Seq<(Expression, Block)>, else_b: Option<Block>, fuel: nat) -> (SState, FlowOut)
    decreases fuel,
{
    if fuel == 0 {
        (st, FlowOut::Out)
    } else if chain.len() == 0 {
        match else_b {
            Some(b) => s_block(st, b, (fuel - 1) as nat),
            None => (st, FlowOut::Normal),
        }
    } else {
        let (st1, r) = s_expression(st, chain[0].0, (fuel - 1) as nat);
        match r {
            EvalOut::Val(v) => if truthy(v) {
                s_block(st1, chain[0].1, (fuel - 1) as nat)
            } else {
                s_elseifs(st1, chain.drop_first(), else_b, (fuel - 1) as nat)
            },
            EvalOut::Fail(f) => (st1, FlowOut::Fail(f)),
            EvalOut::Out => (st1, FlowOut::Out),
        }
    }
}

/// A numeric for loop over integers: while the loop variable has not passed
/// the stop value in the direction of the step's sign, bind it (a fresh cell
/// each round), run the body, and advance with wraparound.
pub open spec fn s_for(st: SState, name: Seq<char>, cur: i64, stop: i64, step: i64, body: Block, fuel: nat) -> (SState, FlowOut)
    decreases fuel,
{
    if fuel == 0 {
        (st, FlowOut::Out)
    } else {
        let done = if step > 0 { cur > stop } else { cur < stop };
        if done {
            (st, FlowOut::Normal)
        } else {
            let st1 = st_bind(st, name, Val::Int(cur));
            let (st2, flow) = s_block(st1, body, (fuel - 1) as nat);
            match flow {
                FlowOut::Normal => s_for(st2, name, cur.wrapping_add(step), stop, step, body, (fuel - 1) as nat),
                FlowOut::Brk => (st2, FlowOut::Normal),
                _ => (st2, flow),
            }
        }
    }
}

/// The header of a numeric for loop: start, stop, and step resolve in
/// order and must be integer numbers; a zero step is a defined error.
pub open spec fn s_for_stmt(st: SState, name: Seq<char>, start_e: Expression, stop_e: Expression, step_e: Option<Expression>, body: Block, fuel: nat) -> (SState, FlowOut)
    decreases fuel,
{
    if fuel == 0 {
        (st, FlowOut::Out)
    } else {
        let (st1, r1) = s_expression(st, start_e, (fuel - 1) as nat);
        match r1 {
            EvalOut::Val(v1) => {
                let (st2, r2) = s_expression(st1, stop_e, (fuel - 1) as nat);
                match r2 {
                    EvalOut::Val(v2) => {
                        let (st3, r3) = match step_e {
                            Some(e) => s_expression(st2, e, (fuel - 1) as nat),
                            None => (st2, EvalOut::Val(Val::Int(1))),
                        };
                        match r3 {
                            EvalOut::Val(v3) => match (v1, v2, v3) {
                                (Val::Int(start), Val::Int(stop), Val::Int(step)) => if step == 0 {
                                    (st3, FlowOut::Fail(Failure::InvalidArgs("'for' step is zero"@, st3.line)))
                                } else {
                                    s_for(st3, name, start, stop, step, body, (fuel - 1) as nat)
                                },
                                (Val::Float(_), _, _) => (st3, FlowOut::Fail(Failure::WrongType("Integer"@, st3.line))),
                                (_, Val::Float(_), _) => (st3, FlowOut::Fail(Failure::WrongType("Integer"@, st3.line))),
                                (_, _, Val::Float(_)) => (st3, FlowOut::Fail(Failure::WrongType("Integer"@, st3.line))),
                                _ => (st3, FlowOut::Fail(Failure::WrongType("Number"@, st3.line))),
                            },
                            EvalOut::Fail(f) => (st3, FlowOut::Fail(f)),
                            EvalOut::Out => (st3, FlowOut::Out),
                        }
                    },
                    EvalOut::Fail(f) => (st2, FlowOut::Fail(f)),
                    EvalOut::Out => (st2, FlowOut::Out),
                }
            },
            EvalOut::Fail(f) => (st1, FlowOut::Fail(f)),
            EvalOut::Out => (st1, FlowOut::Out),
        }
    }
}

/// Registering a function definition under a plain name: the first
/// registration wins and a duplicate is a hard error. A qualified name
/// (`a.b.c` or `a:m`) is not supported.
pub open spec fn s_register(st: SState, name: Seq<char>, body: std::rc::Rc<FunctionBody>) -> (SState, FlowOut) {
    match assoc_lookup(st.funcs, name) {
        Some(_) => (st, FlowOut::Fail(Failure::DuplicateFunction(name))),
        None => (
            SState { funcs: assoc_insert(st.funcs, name, FunctionKind::External(body)), ..st },
            FlowOut::Normal,
        ),
    }
}

/// Executing one statement.
pub open spec fn s_statement(st: SState, s: Statement, fuel: nat) -> (SState, FlowOut)
    decreases fuel,
{
    if fuel == 0 {
        (st, FlowOut::Out)
    } else {
        match s {
            Statement::Empty => (st, FlowOut::Normal),
            Statement::MultipleAssignment(var_list, expr_list) => {
                let (st1, lr) = s_expr_list(st, expr_list.expressions@, (fuel - 1) as nat);
                match lr {
                    ListOut::Vals(vals) => {
                        let (st2, br) = s_assign_binds(st1, var_list.vars@, vals);
                        match br {
                            Ok(()) => (st2, FlowOut::Normal),
                            Err(f) => (st2, FlowOut::Fail(f)),
                        }
                    },
                    ListOut::Fail(f) => (st1, FlowOut::Fail(f)),
                    ListOut::Out => (st1, FlowOut::Out),
                }
            },
            Statement::FunctionCall(f, args) => {
                let (st1, r) = s_call(st, f, args, (fuel - 1) as nat);
                match r {
                    EvalOut::Val(_) => (st1, FlowOut::Normal),
                    EvalOut::Fail(e) => (st1, FlowOut::Fail(e)),
                    EvalOut::Out => (st1, FlowOut::Out),
                }
            },
            Statement::Label(_) => (st, FlowOut::Normal),
            Statement::Break => (st, FlowOut::Brk),
            Statement::GoTo(_) => (st, FlowOut::Fail(Failure::InvalidArgs("goto is not supported"@, st.line))),
            Statement::DoBlockEnd(b) => s_block(st, b, (fuel - 1) as nat),
            Statement::WhileExprDoBlockEnd(cond, body) => s_while(st, cond, body, (fuel - 1) as nat),
            Statement::RepeatBlockUntilExpr(body, cond) => s_repeat(st, body, cond, (fuel - 1) as nat),
            Statement::IfBlock(first, elseifs, else_b) => {
                let (st1, r) = s_expression(st, first.0, (fuel - 1) as nat);
                match r {
                    EvalOut::Val(v) => if truthy(v) {
                        s_block(st1, first.1, (fuel - 1) as nat)
                    } else {
                        s_elseifs(st1, elseifs@, else_b, (fuel - 1) as nat)
                    },
                    EvalOut::Fail(f) => (st1, FlowOut::Fail(f)),
                    EvalOut::Out => (st1, FlowOut::Out),
                }
            },
            Statement::ForEach(name, start_e, stop_e, step_e, body) => s_for_stmt(st, name@, start_e, stop_e, step_e, body, (fuel - 1) as nat),
            Statement::ForList(_, _, _) => (st, FlowOut::Fail(Failure::InvalidArgs("the generic for statement is not supported"@, st.line))),
            Statement::Function(name, body) => if name.accessors@.len() != 0 || name.pass_self is Some {
                (st, FlowOut::Fail(Failure::InvalidArgs("a qualified function name is not supported"@, st.line)))
            } else {
                s_register(st, name.outer_name@, body)
            },
            Statement::LocalFunction(name, body) => s_register(st, name@, body),
        }
    }
}

/// The state a program run starts from: empty environment and cells, the
/// standard library (just `print`) registered, nothing printed, line zero.
pub open spec fn init_state() -> SState {
    SState {
        cells: Seq::empty(),
        vars: Seq::empty(),
        funcs: assoc_insert(Seq::empty(), "print"@, FunctionKind::Internal(InternalFunctionTypes::TakesOneStr(OneStrFn::PrintLine))),
        out: Seq::empty(),
        line: 0,
    }
}

/// What a whole program yields: the top-level block's value — its return
/// value, or nil when it falls through — or its failure. A `break` escaping
/// the top level is an error, and exhausted fuel is its own outcome.
pub open spec fn s_program(st: SState, p: LuaProgram, fuel: nat) -> (SState, EvalOut) {
    let (st1, flow) = s_block(st, p.block, fuel);
    match flow {
        FlowOut::Normal => (st1, EvalOut::Val(Val::Nil)),
        FlowOut::Ret(v) => (st1, EvalOut::Val(v)),
        FlowOut::Brk => (st1, EvalOut::Fail(Failure::InvalidArgs("'break' outside a loop"@, st1.line))),
        FlowOut::Fail(f) => (st1, EvalOut::Fail(f)),
        FlowOut::Out => (st1, EvalOut::Out),
    }
}

// Fuel is benign: whenever evaluation completes within some budget, any
// larger budget produces the identical state and outcome. The lemmas below
// prove this by one mutual induction over the interpreter, so the budget
// decides only how much runs, never what.

/// More fuel never changes a completed expression resolution.
pub proof fn mono_expression(st: SState, e: Expression, f1: nat, f2: nat)
    requires
        f1 <= f2,
        s_expression(st, e, f1).1 != EvalOut::Out,
    ensures
        s_expression(st, e, f2) == s_expression(st, e, f1),
    decreases f1,
{
    let g1 = (f1 - 1) as nat;
    let g2 = (f2 - 1) as nat;
    match e {
        Expression::Expr(x) => {
            mono_expr(st, x, g1, g2);
        },
        Expression::Binary(op, l, r) => {
            let (st1, lr) = s_expr(st, l, g1);
            if lr != EvalOut::Out {
                mono_expr(st, l, g1, g2);
                let rhs_runs = match op {
                    BinaryOperator::BooleanOperator(BooleanOperator::And) => match lr {
                        EvalOut::Val(v) => truthy(v),
                        _ => false,
                    },
                    BinaryOperator::BooleanOperator(BooleanOperator::Or) => match lr {
                        EvalOut::Val(v) => !truthy(v),
                        _ => false,
                    },
                    _ => lr matches EvalOut::Val(_),
                };
                if rhs_runs && s_expr(st1, r, g1).1 != EvalOut::Out {
                    mono_expr(st1, r, g1, g2);
                }
            }
        },
    }
}

/// More fuel never changes a completed inner-expression resolution.
pub proof fn mono_expr(st: SState, x: Expr, f1: nat, f2: nat)
    requires
        f1 <= f2,
        s_expr(st, x, f1).1 != EvalOut::Out,
    ensures
        s_expr(st, x, f2) == s_expr(st, x, f1),
    decreases f1,
{
    let g1 = (f1 - 1) as nat;
    let g2 = (f2 - 1) as nat;
    match x {
        Expr::Prefix(p) => {
            mono_prefix(st, *p, g1, g2);
        },
        Expr::Unary(_, e) => {
            mono_expression(st, *e, g1, g2);
        },
        _ => {
        },
    }
}

/// More fuel never changes a completed prefix resolution.
pub proof fn mono_prefix(st: SState, p: PrefixExpression, f1: nat, f2: nat)
    requires
        f1 <= f2,
        s_prefix(st, p, f1).1 != EvalOut::Out,
    ensures
        s_prefix(st, p, f2) == s_prefix(st, p, f1),
    decreases f1,
{
    let g1 = (f1 - 1) as nat;
    let g2 = (f2 - 1) as nat;
    match p {
        PrefixExpression::Var(_) => {
        },
        PrefixExpression::FunctionCall(f, args) => {
            mono_call(st, f, args, g1, g2);
        },
        PrefixExpression::Expression(e) => {
            mono_expression(st, e, g1, g2);
        },
    }
}

/// More fuel never changes a completed expression-list resolution.
pub proof fn mono_expr_list(st: SState, es: Seq<Expression>, f1: nat, f2: nat)
    requires
        f1 <= f2,
        s_expr_list(st, es, f1).1 != ListOut::Out,
    ensures
        s_expr_list(st, es, f2) == s_expr_list(st, es, f1),
    decreases f1,
{
    let g1 = (f1 - 1) as nat;
    let g2 = (f2 - 1) as nat;
    if es.len() != 0 {
        let (st1, r) = s_expression(st, es[0], g1);
        if r != EvalOut::Out {
            mono_expression(st, es[0], g1, g2);
            if (r matches EvalOut::Val(_)) && s_expr_list(st1, es.drop_first(), g1).1 != ListOut::Out {
                mono_expr_list(st1, es.drop_first(), g1, g2);
            }
        }
    }
}

/// More fuel never changes a completed argument resolution.
pub proof fn mono_args(st: SState, args: Args, f1: nat, f2: nat)
    requires
        f1 <= f2,
        s_args(st, args, f1).1 != ListOut::Out,
    ensures
        s_args(st, args, f2) == s_args(st, args, f1),
    decreases f1,
{
    let g1 = (f1 - 1) as nat;
    let g2 = (f2 - 1) as nat;
    match args {
        Args::ExpressionList(Some(el)) => {
            mono_expr_list(st, el.expressions@, g1, g2);
        },
        Args::ExpressionList(None) => {
        },
    }
}

/// The parameter list of a shared function body.
pub open spec fn body_params(b: std::rc::Rc<FunctionBody>) -> Option<Parameters> {
    b.parameters
}

/// The block of a shared function body.
pub open spec fn body_block(b: std::rc::Rc<FunctionBody>) -> Block {
    b.block
}

/// More fuel never changes a completed call.
pub proof fn mono_call(st: SState, f: Var, args: Args, f1: nat, f2: nat)
    requires
        f1 <= f2,
        s_call(st, f, args, f1).1 != EvalOut::Out,
    ensures
        s_call(st, f, args, f2) == s_call(st, f, args, f1),
    decreases f1,
{
    let g1 = (f1 - 1) as nat;
    let g2 = (f2 - 1) as nat;
    let (st1, ar) = s_args(st, args, g1);
    if ar != ListOut::Out {
        mono_args(st, args, g1, g2);
        match (ar, f) {
            (ListOut::Vals(vals), Var::VarName(name)) => match assoc_lookup(st1.funcs, name@) {
                Some(FunctionKind::External(body)) => match body_params(body) {
                    None => {
                        if vals.len() == 0 && s_block(st1, body_block(body), g1).1 != FlowOut::Out {
                            mono_block(st1, body_block(body), g1, g2);
                        }
                    },
                    Some(Parameters::Normal(name_list, None)) => {
                        if name_list.names.len() == vals.len() {
                            let st2 = s_bind_params(st1, name_list.names@, vals);
                            if s_block(st2, body_block(body), g1).1 != FlowOut::Out {
                                mono_block(st2, body_block(body), g1, g2);
                            }
                        }
                    },
                    _ => {
                    },
                },
                _ => {
                },
            },
            _ => {
            },
        }
    }
}

/// More fuel never changes a completed block.
pub proof fn mono_block(st: SState, b: Block, f1: nat, f2: nat)
    requires
        f1 <= f2,
        s_block(st, b, f1).1 != FlowOut::Out,
    ensures
        s_block(st, b, f2) == s_block(st, b, f1),
    decreases f1,
{
    let g1 = (f1 - 1) as nat;
    let g2 = (f2 - 1) as nat;
    let (st1, flow) = s_stmt_seq(st, b.statements@, g1);
    if flow != FlowOut::Out {
        mono_stmt_seq(st, b.statements@, g1, g2);
        if flow == FlowOut::Normal {
            match b.return_statement {
                Some(rs) => {
                    if s_return(st1, rs, g1).1 != FlowOut::Out {
                        mono_return(st1, rs, g1, g2);
                    }
                },
                None => {
                },
            }
        }
    }
}

/// More fuel never changes a completed statement sequence.
pub proof fn mono_stmt_seq(st: SState, ss: Seq<Statement>, f1: nat, f2: nat)
    requires
        f1 <= f2,
        s_stmt_seq(st, ss, f1).1 != FlowOut::Out,
    ensures
        s_stmt_seq(st, ss, f2) == s_stmt_seq(st, ss, f1),
    decreases f1,
{
    let g1 = (f1 - 1) as nat;
    let g2 = (f2 - 1) as nat;
    if ss.len() != 0 {
        let (st1, flow) = s_statement(st, ss[0], g1);
        if flow != FlowOut::Out {
            mono_statement(st, ss[0], g1, g2);
            if flow == FlowOut::Normal && s_stmt_seq(st1, ss.drop_first(), g1).1 != FlowOut::Out {
                mono_stmt_seq(st1, ss.drop_first(), g1, g2);
            }
        }
    }
}

/// More fuel never changes a completed return statement.
pub proof fn mono_return(st: SState, rs: ReturnStatement, f1: nat, f2: nat)
    requires
        f1 <= f2,
        s_return(st, rs, f1).1 != FlowOut::Out,
    ensures
        s_return(st, rs, f2) == s_return(st, rs, f1),
    decreases f1,
{
    let g1 = (f1 - 1) as nat;
    let g2 = (f2 - 1) as nat;
    match rs.expression_list {
        Some(el) => {
            if el.expressions@.len() == 1 {
                mono_expression(st, el.expressions@[0], g1, g2);
            }
        },
        None => {
        },
    }
}

/// More fuel never changes a completed while loop.
pub proof fn mono_while(st: SState, cond: Expression, body: Block, f1: nat, f2: nat)
    requires
        f1 <= f2,
        s_while(st, cond, body, f1).1 != FlowOut::Out,
    ensures
        s_while(st, cond, body, f2) == s_while(st, cond, body, f1),
    decreases f1,
{
    let g1 = (f1 - 1) as nat;
    let g2 = (f2 - 1) as nat;
    let (st1, r) = s_expression(st, cond, g1);
    if r != EvalOut::Out {
        mono_expression(st, cond, g1, g2);
        match r {
            EvalOut::Val(v) => {
                if truthy(v) {
                    let (st2, flow) = s_block(st1, body, g1);
                    if flow != FlowOut::Out {
                        mono_block(st1, body, g1, g2);
                        if flow == FlowOut::Normal && s_while(st2, cond, body, g1).1 != FlowOut::Out {
                            mono_while(st2, cond, body, g1, g2);
                        }
                    }
                }
            },
            _ => {
            },
        }
    }
}

/// More fuel never changes a completed repeat loop.
pub proof fn mono_repeat(st: SState, body: Block, cond: Expression, f1: nat, f2: nat)
    requires
        f1 <= f2,
        s_repeat(st, body, cond, f1).1 != FlowOut::Out,
    ensures
        s_repeat(st, body, cond, f2) == s_repeat(st, body, cond, f1),
    decreases f1,
{
    let g1 = (f1 - 1) as nat;
    let g2 = (f2 - 1) as nat;
    let (st1, flow) = s_block(st, body, g1);
    if flow != FlowOut::Out {
        mono_block(st, body, g1, g2);
        if flow == FlowOut::Normal {
            let (st2, r) = s_expression(st1, cond, g1);
            if r != EvalOut::Out {
                mono_expression(st1, cond, g1, g2);
                match r {
                    EvalOut::Val(v) => {
                        if !truthy(v) && s_repeat(st2, body, cond, g1).1 != FlowOut::Out {
                            mono_repeat(st2, body, cond, g1, g2);
                        }
                    },
                    _ => {
                    },
                }
            }
        }
    }
}

/// More fuel never changes a completed elseif chain.
pub proof fn mono_elseifs(st: SState, chain: Seq<(Expression, Block)>, else_b: Option<Block>, f1: nat, f2: nat)
    requires
        f1 <= f2,
        s_elseifs(st, chain, else_b, f1).1 != FlowOut::Out,
    ensures
        s_elseifs(st, chain, else_b, f2) == s_elseifs(st, chain, else_b, f1),
    decreases f1,
{
    let g1 = (f1 - 1) as nat;
    let g2 = (f2 - 1) as nat;
    if chain.len() == 0 {
        match else_b {
            Some(b) => {
                mono_block(st, b, g1, g2);
            },
            None => {
            },
        }
    } else {
        let (st1, r) = s_expression(st, chain[0].0, g1);
        if r != EvalOut::Out {
            mono_expression(st, chain[0].0, g1, g2);
            match r {
                EvalOut::Val(v) => {
                    if truthy(v) {
                        mono_block(st1, chain[0].1, g1, g2);
                    } else if s_elseifs(st1, chain.drop_first(), else_b, g1).1 != FlowOut::Out {
                        mono_elseifs(st1, chain.drop_first(), else_b, g1, g2);
                    }
                },
                _ => {
                },
            }
        }
    }
}

/// More fuel never changes completed numeric-for iterations.
pub proof fn mono_for(st: SState, name: Seq<char>, cur: i64, stop: i64, step: i64, body: Block, f1: nat, f2: nat)
    requires
        f1 <= f2,
        s_for(st, name, cur, stop, step, body, f1).1 != FlowOut::Out,
    ensures
        s_for(st, name, cur, stop, step, body, f2) == s_for(st, name, cur, stop, step, body, f1),
    decreases f1,
{
    let g1 = (f1 - 1) as nat;
    let g2 = (f2 - 1) as nat;
    let done = if step > 0 { cur > stop } else { cur < stop };
    if !done {
        let st1 = st_bind(st, name, Val::Int(cur));
        let (st2, flow) = s_block(st1, body, g1);
        if flow != FlowOut::Out {
            mono_block(st1, body, g1, g2);
            if flow == FlowOut::Normal && s_for(st2, name, cur.wrapping_add(step), stop, step, body, g1).1 != FlowOut::Out {
                mono_for(st2, name, cur.wrapping_add(step), stop, step, body, g1, g2);
            }
        }
    }
}

/// More fuel never changes a completed numeric-for header.
pub proof fn mono_for_stmt(st: SState, name: Seq<char>, start_e: Expression, stop_e: Expression, step_e: Option<Expression>, body: Block, f1: nat, f2: nat)
    requires
        f1 <= f2,
        s_for_stmt(st, name, start_e, stop_e, step_e, body, f1).1 != FlowOut::Out,
    ensures
        s_for_stmt(st, name, start_e, stop_e, step_e, body, f2) == s_for_stmt(st, name, start_e, stop_e, step_e, body, f1),
    decreases f1,
{
    let g1 = (f1 - 1) as nat;
    let g2 = (f2 - 1) as nat;
    let (st1, r1) = s_expression(st, start_e, g1);
    if r1 != EvalOut::Out {
        mono_expression(st, start_e, g1, g2);
        match r1 {
            EvalOut::Val(v1) => {
                let (st2, r2) = s_expression(st1, stop_e, g1);
                if r2 != EvalOut::Out {
                    mono_expression(st1, stop_e, g1, g2);
                    match r2 {
                        EvalOut::Val(v2) => {
                            let (st3, r3) = match step_e {
                                Some(e) => s_expression(st2, e, g1),
                                None => (st2, EvalOut::Val(Val::Int(1))),
                            };
                            if r3 != EvalOut::Out {
                                match step_e {
                                    Some(e) => {
                                        mono_expression(st2, e, g1, g2);
                                    },
                                    None => {
                                    },
                                }
                                match (r3, v1, v2) {
                                    (EvalOut::Val(Val::Int(step)), Val::Int(start), Val::Int(stop)) => {
                                        if step != 0 && s_for(st3, name, start, stop, step, body, g1).1 != FlowOut::Out {
                                            mono_for(st3, name, start, stop, step, body, g1, g2);
                                        }
                                    },
                                    _ => {
                                    },
                                }
                            }
                        },
                        _ => {
                        },
                    }
                }
            },
            _ => {
            },
        }
    }
}

/// More fuel never changes a completed statement.
pub proof fn mono_statement(st: SState, s: Statement, f1: nat, f2: nat)
    requires
        f1 <= f2,
        s_statement(st, s, f1).1 != FlowOut::Out,
    ensures
        s_statement(st, s, f2) == s_statement(st, s, f1),
    decreases f1,
{
    let g1 = (f1 - 1) as nat;
    let g2 = (f2 - 1) as nat;
    match s {
        Statement::MultipleAssignment(_, expr_list) => {
            mono_expr_list(st, expr_list.expressions@, g1, g2);
        },
        Statement::FunctionCall(f, args) => {
            mono_call(st, f, args, g1, g2);
        },
        Statement::DoBlockEnd(b) => {
            mono_block(st, b, g1, g2);
        },
        Statement::WhileExprDoBlockEnd(cond, body) => {
            mono_while(st, cond, body, g1, g2);
        },
        Statement::RepeatBlockUntilExpr(body, cond) => {
            mono_repeat(st, body, cond, g1, g2);
        },
        Statement::IfBlock(first, elseifs, else_b) => {
            let (st1, r) = s_expression(st, first.0, g1);
            if r != EvalOut::Out {
                mono_expression(st, first.0, g1, g2);
                match r {
                    EvalOut::Val(v) => {
                        if truthy(v) {
                            mono_block(st1, first.1, g1, g2);
                        } else if s_elseifs(st1, elseifs@, else_b, g1).1 != FlowOut::Out {
                            mono_elseifs(st1, elseifs@, else_b, g1, g2);
                        }
                    },
                    _ => {
                    },
                }
            }
        },
        Statement::ForEach(name, start_e, stop_e, step_e, body) => {
            mono_for_stmt(st, name@, start_e, stop_e, step_e, body, g1, g2);
        },
        _ => {
        },
    }
}

/// More fuel never changes a completed program run: the budget decides only
/// how much runs, never what.
pub proof fn mono_program(st: SState, p: LuaProgram, f1: nat, f2: nat)
    requires
        f1 <= f2,
        s_program(st, p, f1).1 != EvalOut::Out,
    ensures
        s_program(st, p, f2) == s_program(st, p, f1),
{
    mono_block(st, p.block, f1, f2);
}

} // verus!
