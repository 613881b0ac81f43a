//! End-to-end runs of whole programs through the evaluator.

use lua_core::ast::lua_program::{
    Args, BinaryOperator, Block, BooleanOperator, Expr, Expression, ExpressionList, FunctionBody,
    FunctionName, LuaProgram, MathOperator, NameList, NumberKind as AstNumber, Parameters,
    PrefixExpression, ReturnStatement, Statement, Var, VarList,
};
use lua_core::err_handle::RuntimeFailure;
use lua_core::frontend::data::{DataKind, NumberKind};
use lua_core::frontend::{enter_program, enter_program_in, run_block, Context, Control, ProgramOutcome};
use std::rc::Rc;

const FUEL: u64 = 400;

fn int_value(i: i64) -> DataKind {
    DataKind::Number(NumberKind::Integer(i))
}

fn num(i: i64) -> Expr {
    Expr::Numerical(AstNumber::Int(i))
}

fn lit(s: &str) -> Expr {
    Expr::LiteralString(s.to_string())
}

fn var(n: &str) -> Expr {
    Expr::Prefix(Box::new(PrefixExpression::Var(Var::VarName(n.to_string()))))
}

fn call_expr(f: &str, args: Vec<Expression>) -> Expr {
    Expr::Prefix(Box::new(PrefixExpression::FunctionCall(
        Var::VarName(f.to_string()),
        Args::ExpressionList(Some(ExpressionList { expressions: args })),
    )))
}

fn plain(x: Expr) -> Expression {
    Expression::Expr(x)
}

fn binary(op: BinaryOperator, l: Expr, r: Expr) -> Expression {
    Expression::Binary(op, l, r)
}

fn assign(n: &str, e: Expression) -> Statement {
    Statement::MultipleAssignment(
        VarList { vars: vec![Var::VarName(n.to_string())] },
        ExpressionList { expressions: vec![e] },
    )
}

fn call_stmt(f: &str, args: Vec<Expression>) -> Statement {
    Statement::FunctionCall(
        Var::VarName(f.to_string()),
        Args::ExpressionList(Some(ExpressionList { expressions: args })),
    )
}

fn returning(e: Expression) -> Option<ReturnStatement> {
    Some(ReturnStatement { expression_list: Some(ExpressionList { expressions: vec![e] }) })
}

fn block(statements: Vec<Statement>, ret: Option<ReturnStatement>) -> Block {
    Block { statements, return_statement: ret }
}

fn program(statements: Vec<Statement>, ret: Option<ReturnStatement>) -> LuaProgram {
    LuaProgram { block: block(statements, ret) }
}

fn define(f: &str, params: Vec<&str>, body: Block) -> Statement {
    Statement::Function(
        FunctionName { outer_name: f.to_string(), accessors: Vec::new(), pass_self: None },
        Rc::new(FunctionBody {
            parameters: Some(Parameters::Normal(
                NameList { names: params.iter().map(|p| p.to_string()).collect() },
                None,
            )),
            block: body,
        }),
    )
}

#[test]
fn assignment_then_read_returns_the_value() {
    let p = program(vec![assign("x", plain(num(1)))], returning(plain(var("x"))));
    assert_eq!(enter_program(&p, FUEL), ProgramOutcome::Finished(int_value(1)));
}

#[test]
fn a_function_returns_its_argument() {
    let body = block(Vec::new(), returning(plain(var("a"))));
    let p = program(
        vec![define("f", vec!["a"], body)],
        returning(plain(call_expr("f", vec![plain(num(5))]))),
    );
    assert_eq!(enter_program(&p, FUEL), ProgramOutcome::Finished(int_value(5)));
}

#[test]
fn an_if_statement_selects_the_truthy_branch() {
    let cond = binary(BinaryOperator::BooleanOperator(BooleanOperator::Equal), num(1), num(1));
    let p = program(
        vec![Statement::IfBlock(
            (cond, block(Vec::new(), returning(plain(num(2))))),
            Vec::new(),
            Some(block(Vec::new(), returning(plain(num(3))))),
        )],
        None,
    );
    assert_eq!(enter_program(&p, FUEL), ProgramOutcome::Finished(int_value(2)));
}

#[test]
fn elseif_chains_pick_the_first_truthy_condition() {
    let falsy = plain(Expr::Boolean(false));
    let truthy = plain(Expr::Boolean(true));
    let p = program(
        vec![Statement::IfBlock(
            (falsy, block(Vec::new(), returning(plain(num(1))))),
            vec![
                (plain(Expr::Nil), block(Vec::new(), returning(plain(num(2))))),
                (truthy, block(Vec::new(), returning(plain(num(3))))),
            ],
            Some(block(Vec::new(), returning(plain(num(4))))),
        )],
        None,
    );
    assert_eq!(enter_program(&p, FUEL), ProgramOutcome::Finished(int_value(3)));
}

#[test]
fn print_writes_one_line_and_the_block_result_is_nil() {
    let mut context = Context::new();
    let p = program(vec![call_stmt("print", vec![plain(lit("hi"))])], None);
    let outcome = enter_program_in(&mut context, &p, FUEL);
    assert_eq!(outcome, ProgramOutcome::Finished(DataKind::Null));
    assert_eq!(context.printed().len(), 1);
    assert_eq!(context.printed()[0], "hi");
}

#[test]
fn print_rejects_wrong_arguments() {
    let p = program(vec![call_stmt("print", vec![plain(num(1))])], None);
    assert_eq!(
        enter_program(&p, FUEL),
        ProgramOutcome::Failed(RuntimeFailure::BadFunctionArgs("Function expected a string".to_string(), 0))
    );
    let q = program(vec![call_stmt("print", vec![])], None);
    assert_eq!(
        enter_program(&q, FUEL),
        ProgramOutcome::Failed(RuntimeFailure::BadFunctionArgs("Function should have 1 arg".to_string(), 0))
    );
}

#[test]
fn concatenation_of_two_numbers_makes_a_string() {
    let p = program(
        vec![assign("x", binary(BinaryOperator::Concat, num(1), num(2)))],
        returning(plain(var("x"))),
    );
    assert_eq!(enter_program(&p, FUEL), ProgramOutcome::Finished(DataKind::String("12".to_string())));
}

#[test]
fn calling_an_unknown_name_fails_with_func_not_found() {
    let p = program(vec![call_stmt("foo", vec![])], None);
    assert_eq!(
        enter_program(&p, FUEL),
        ProgramOutcome::Failed(RuntimeFailure::FuncNotFound("foo".to_string(), 0))
    );
}

#[test]
fn reading_an_unknown_variable_fails_with_var_not_found() {
    let p = program(Vec::new(), returning(plain(var("y"))));
    assert_eq!(
        enter_program(&p, FUEL),
        ProgramOutcome::Failed(RuntimeFailure::VarNotFound("y".to_string(), 0))
    );
}

#[test]
fn and_short_circuits_so_the_right_side_never_runs() {
    // b = false and print("side"); the call must not happen.
    let mut context = Context::new();
    let e = binary(
        BinaryOperator::BooleanOperator(BooleanOperator::And),
        Expr::Boolean(false),
        call_expr("print", vec![plain(lit("side"))]),
    );
    let p = program(vec![assign("b", e)], returning(plain(var("b"))));
    let outcome = enter_program_in(&mut context, &p, FUEL);
    assert_eq!(outcome, ProgramOutcome::Finished(DataKind::Bool(false)));
    assert_eq!(context.printed().len(), 0);
}

#[test]
fn or_short_circuits_and_yields_the_left_operand() {
    let mut context = Context::new();
    let e = binary(
        BinaryOperator::BooleanOperator(BooleanOperator::Or),
        num(0),
        call_expr("print", vec![plain(lit("side"))]),
    );
    let p = program(vec![assign("b", e)], returning(plain(var("b"))));
    let outcome = enter_program_in(&mut context, &p, FUEL);
    // 0 is truthy, so `or` yields it unchanged.
    assert_eq!(outcome, ProgramOutcome::Finished(int_value(0)));
    assert_eq!(context.printed().len(), 0);
}

#[test]
fn and_yields_the_right_operand_when_the_left_is_truthy() {
    let e = binary(BinaryOperator::BooleanOperator(BooleanOperator::And), num(1), lit("yes"));
    let p = program(vec![assign("b", e)], returning(plain(var("b"))));
    assert_eq!(enter_program(&p, FUEL), ProgramOutcome::Finished(DataKind::String("yes".to_string())));
}

#[test]
fn duplicate_function_definition_fails_and_keeps_the_first() {
    let first = block(Vec::new(), returning(plain(num(1))));
    let p = program(
        vec![
            define("f", vec![], first),
            define("f", vec![], block(Vec::new(), returning(plain(num(2))))),
        ],
        None,
    );
    assert_eq!(
        enter_program(&p, FUEL),
        ProgramOutcome::Failed(RuntimeFailure::DuplicateFunction("f".to_string()))
    );
    // Without the second definition the first is callable.
    let q = program(
        vec![define("g", vec![], block(Vec::new(), returning(plain(num(1)))))],
        returning(plain(call_expr("g", vec![]))),
    );
    assert_eq!(enter_program(&q, FUEL), ProgramOutcome::Finished(int_value(1)));
}

#[test]
fn wrong_argument_count_fails_with_invalid_args() {
    let body = block(Vec::new(), returning(plain(var("a"))));
    let def = define("f", vec!["a"], body);
    let none = program(
        vec![def, call_stmt("f", vec![])],
        None,
    );
    assert_eq!(
        enter_program(&none, FUEL),
        ProgramOutcome::Failed(RuntimeFailure::InvalidArgs("Number of args passed are invalid".to_string(), 0))
    );
    let body2 = block(Vec::new(), returning(plain(var("a"))));
    let two = program(
        vec![define("f", vec!["a"], body2), call_stmt("f", vec![plain(num(1)), plain(num(2))])],
        None,
    );
    assert_eq!(
        enter_program(&two, FUEL),
        ProgramOutcome::Failed(RuntimeFailure::InvalidArgs("Number of args passed are invalid".to_string(), 0))
    );
}

#[test]
fn parameters_vanish_after_the_call_returns() {
    // function f(a) return a end; f(5); return a  -- a is gone afterwards
    let body = block(Vec::new(), returning(plain(var("a"))));
    let p = program(
        vec![define("f", vec!["a"], body), call_stmt("f", vec![plain(num(5))])],
        returning(plain(var("a"))),
    );
    assert_eq!(
        enter_program(&p, FUEL),
        ProgramOutcome::Failed(RuntimeFailure::VarNotFound("a".to_string(), 0))
    );
}

#[test]
fn a_while_loop_runs_until_its_condition_is_falsy() {
    // x = 0; while x < 3 do x = x + 1 end; return x
    let cond = binary(BinaryOperator::BooleanOperator(BooleanOperator::LessThan), var("x"), num(3));
    let step = assign("x", binary(BinaryOperator::MathOperator(MathOperator::Plus), var("x"), num(1)));
    let p = program(
        vec![assign("x", plain(num(0))), Statement::WhileExprDoBlockEnd(cond, block(vec![step], None))],
        returning(plain(var("x"))),
    );
    assert_eq!(enter_program(&p, FUEL), ProgramOutcome::Finished(int_value(3)));
}

#[test]
fn break_exits_the_nearest_loop() {
    // while true do break end; return 7
    let p = program(
        vec![Statement::WhileExprDoBlockEnd(
            plain(Expr::Boolean(true)),
            block(vec![Statement::Break], None),
        )],
        returning(plain(num(7))),
    );
    assert_eq!(enter_program(&p, FUEL), ProgramOutcome::Finished(int_value(7)));
}

#[test]
fn a_return_inside_a_loop_leaves_the_function() {
    // while true do return 9 end
    let p = program(
        vec![Statement::WhileExprDoBlockEnd(
            plain(Expr::Boolean(true)),
            block(Vec::new(), returning(plain(num(9)))),
        )],
        None,
    );
    assert_eq!(enter_program(&p, FUEL), ProgramOutcome::Finished(int_value(9)));
}

#[test]
fn repeat_runs_its_body_at_least_once() {
    // x = 0; repeat x = x + 1 until x == 3; return x
    let body = block(
        vec![assign("x", binary(BinaryOperator::MathOperator(MathOperator::Plus), var("x"), num(1)))],
        None,
    );
    let until = binary(BinaryOperator::BooleanOperator(BooleanOperator::Equal), var("x"), num(3));
    let p = program(
        vec![assign("x", plain(num(0))), Statement::RepeatBlockUntilExpr(body, until)],
        returning(plain(var("x"))),
    );
    assert_eq!(enter_program(&p, FUEL), ProgramOutcome::Finished(int_value(3)));
}

#[test]
fn a_numeric_for_loop_sums_its_range() {
    // s = 0; for i = 1, 4 do s = s + i end; return s
    let body = block(
        vec![assign("s", binary(BinaryOperator::MathOperator(MathOperator::Plus), var("s"), var("i")))],
        None,
    );
    let p = program(
        vec![
            assign("s", plain(num(0))),
            Statement::ForEach("i".to_string(), plain(num(1)), plain(num(4)), None, body),
        ],
        returning(plain(var("s"))),
    );
    assert_eq!(enter_program(&p, FUEL), ProgramOutcome::Finished(int_value(10)));
}

#[test]
fn a_numeric_for_loop_can_step_downward() {
    // s = 0; for i = 3, 1, -1 do s = s + i end; return s
    let body = block(
        vec![assign("s", binary(BinaryOperator::MathOperator(MathOperator::Plus), var("s"), var("i")))],
        None,
    );
    let p = program(
        vec![
            assign("s", plain(num(0))),
            Statement::ForEach("i".to_string(), plain(num(3)), plain(num(1)), Some(plain(num(-1))), body),
        ],
        returning(plain(var("s"))),
    );
    assert_eq!(enter_program(&p, FUEL), ProgramOutcome::Finished(int_value(6)));
}

#[test]
fn a_zero_for_step_is_a_defined_error() {
    let p = program(
        vec![Statement::ForEach(
            "i".to_string(),
            plain(num(1)),
            plain(num(2)),
            Some(plain(num(0))),
            block(Vec::new(), None),
        )],
        None,
    );
    assert_eq!(
        enter_program(&p, FUEL),
        ProgramOutcome::Failed(RuntimeFailure::InvalidArgs("'for' step is zero".to_string(), 0))
    );
}

#[test]
fn a_return_in_a_nested_block_ends_the_program() {
    // do return 4 end
    let p = program(
        vec![Statement::DoBlockEnd(block(Vec::new(), returning(plain(num(4)))))],
        None,
    );
    assert_eq!(enter_program(&p, FUEL), ProgramOutcome::Finished(int_value(4)));
}

#[test]
fn an_endless_loop_runs_out_of_fuel() {
    let p = program(
        vec![Statement::WhileExprDoBlockEnd(plain(Expr::Boolean(true)), block(Vec::new(), None))],
        None,
    );
    assert_eq!(enter_program(&p, 150), ProgramOutcome::OutOfFuel);
}

#[test]
fn a_program_with_no_return_yields_nil() {
    let p = program(vec![Statement::Empty, Statement::Label("here".to_string())], None);
    assert_eq!(enter_program(&p, FUEL), ProgramOutcome::Finished(DataKind::Null));
}

#[test]
fn multiple_assignment_binds_positionally_and_pads_with_nil() {
    // x, y, z = 1, 2; return y  (z gets nil)
    let stmt = Statement::MultipleAssignment(
        VarList {
            vars: vec![
                Var::VarName("x".to_string()),
                Var::VarName("y".to_string()),
                Var::VarName("z".to_string()),
            ],
        },
        ExpressionList { expressions: vec![plain(num(1)), plain(num(2))] },
    );
    let p = program(vec![stmt], returning(plain(var("y"))));
    assert_eq!(enter_program(&p, FUEL), ProgramOutcome::Finished(int_value(2)));
    let stmt2 = Statement::MultipleAssignment(
        VarList { vars: vec![Var::VarName("x".to_string()), Var::VarName("z".to_string())] },
        ExpressionList { expressions: vec![plain(num(1))] },
    );
    let q = program(vec![stmt2], returning(plain(var("z"))));
    assert_eq!(enter_program(&q, FUEL), ProgramOutcome::Finished(DataKind::Null));
}

#[test]
fn goto_and_generic_for_are_reported_as_unsupported() {
    let p = program(vec![Statement::GoTo("l".to_string())], None);
    assert!(matches!(enter_program(&p, FUEL), ProgramOutcome::Failed(RuntimeFailure::InvalidArgs(_, 0))));
    let q = program(
        vec![Statement::ForList(
            NameList { names: vec!["k".to_string()] },
            ExpressionList { expressions: vec![plain(num(1))] },
            block(Vec::new(), None),
        )],
        None,
    );
    assert!(matches!(enter_program(&q, FUEL), ProgramOutcome::Failed(RuntimeFailure::InvalidArgs(_, 0))));
}

#[test]
fn aliased_names_see_writes_through_either_handle() {
    let mut context = Context::new();
    let cell = context.new_cell(int_value(1));
    context.store_data("a".to_string(), cell);
    context.store_data("b".to_string(), cell);
    context.write_cell(cell, int_value(42)).unwrap();
    let p = program(Vec::new(), returning(plain(var("b"))));
    assert_eq!(enter_program_in(&mut context, &p, FUEL), ProgramOutcome::Finished(int_value(42)));
    let q = program(Vec::new(), returning(plain(var("a"))));
    assert_eq!(enter_program_in(&mut context, &q, FUEL), ProgramOutcome::Finished(int_value(42)));
}

#[test]
fn global_state_is_visible_inside_function_bodies() {
    // x = 1; function f() x = 2 end; f(); return x
    let body = block(vec![assign("x", plain(num(2)))], None);
    let p = program(
        vec![
            assign("x", plain(num(1))),
            Statement::Function(
                FunctionName { outer_name: "f".to_string(), accessors: Vec::new(), pass_self: None },
                Rc::new(FunctionBody { parameters: None, block: body }),
            ),
            call_stmt("f", vec![]),
        ],
        returning(plain(var("x"))),
    );
    assert_eq!(enter_program(&p, FUEL), ProgramOutcome::Finished(int_value(2)));
}

#[test]
fn run_block_reports_how_a_block_finished() {
    let mut context = Context::new();
    let fall_through = block(vec![assign("x", plain(num(1)))], None);
    assert_eq!(run_block(&mut context, &fall_through, FUEL), Ok(Control::Proceed));
    let returns = block(Vec::new(), returning(plain(var("x"))));
    assert_eq!(run_block(&mut context, &returns, FUEL), Ok(Control::Return(int_value(1))));
    let breaks = block(vec![Statement::Break], None);
    assert_eq!(run_block(&mut context, &breaks, FUEL), Ok(Control::Break));
}

#[test]
fn a_multi_value_return_is_not_resolved() {
    let ret = Some(ReturnStatement {
        expression_list: Some(ExpressionList { expressions: vec![plain(num(1)), plain(num(2))] }),
    });
    let p = program(Vec::new(), ret);
    assert_eq!(
        enter_program(&p, FUEL),
        ProgramOutcome::Failed(RuntimeFailure::InternalError("resolving return statement".to_string()))
    );
}

#[test]
fn an_empty_return_yields_nil() {
    let p = program(
        Vec::new(),
        Some(ReturnStatement { expression_list: None }),
    );
    assert_eq!(enter_program(&p, FUEL), ProgramOutcome::Finished(DataKind::Null));
}

#[test]
fn reentrant_calls_collide_on_shared_parameter_names() {
    // The environment is one flat map: a callee that binds the same
    // parameter name removes it on return, so the caller's binding is gone
    // afterwards. This is the documented consequence of dynamic scope with
    // call-local cleanup, not an accident.
    let g_body = block(Vec::new(), returning(plain(var("n"))));
    let f_body = block(
        vec![call_stmt("g", vec![plain(num(99))])],
        returning(plain(var("n"))),
    );
    let p = program(
        vec![
            define("g", vec!["n"], g_body),
            define("f", vec!["n"], f_body),
            call_stmt("f", vec![plain(num(5))]),
        ],
        None,
    );
    assert_eq!(
        enter_program(&p, FUEL),
        ProgramOutcome::Failed(RuntimeFailure::VarNotFound("n".to_string(), 0))
    );
}
