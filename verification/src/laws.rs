//! The laws the engine obeys, stated and proved over the mathematical
//! semantics: arithmetic on integer operands, truthiness, short-circuit of
//! the logical operators, assignment visibility, single registration, the
//! call protocol's failures, and the floored sign convention of division
//! and modulo.

use vstd::prelude::*;
use crate::ast::lua_program::{Args, BinaryOperator, BooleanOperator, Expr, Expression, FunctionBody, MathOperator, NumberKind, Parameters, Var};
use crate::err_handle::Failure;
use crate::frontend::data::{NumVal, Val, flo_div_i64, flo_mod_i64, spec_math_op, truthy, val_eq};
use crate::frontend::function::FunctionKind;
use crate::frontend::semantics::{EvalOut, ListOut, SState, s_args, s_call, s_expr, s_expression, s_register, s_var_read, st_bind};
use crate::frontend::semantics::s_remove_params;
use crate::frontend::variable_map::{assoc_lookup, lemma_assoc_insert_same, lemma_assoc_insert_other, lemma_assoc_remove_other};

verus! {

/// For all integer pairs, `a + b` resolves to the integer `a + b` and
/// `a - b` to the integer `a - b` (64-bit wraparound), with the state
/// untouched: arithmetic on values has no side effect.
pub proof fn law_integer_add_sub(st: SState, a: i64, b: i64, fuel: nat)
    requires
        fuel >= 2,
    ensures
        s_expression(st, Expression::Binary(BinaryOperator::MathOperator(MathOperator::Plus), Expr::Numerical(NumberKind::Int(a)), Expr::Numerical(NumberKind::Int(b))), fuel)
            == (st, EvalOut::Val(Val::Int(a.wrapping_add(b)))),
        s_expression(st, Expression::Binary(BinaryOperator::MathOperator(MathOperator::Minus), Expr::Numerical(NumberKind::Int(a)), Expr::Numerical(NumberKind::Int(b))), fuel)
            == (st, EvalOut::Val(Val::Int(a.wrapping_sub(b)))),
{
    assert(s_expr(st, Expr::Numerical(NumberKind::Int(a)), (fuel - 1) as nat) == (st, EvalOut::Val(Val::Int(a))));
    assert(s_expr(st, Expr::Numerical(NumberKind::Int(b)), (fuel - 1) as nat) == (st, EvalOut::Val(Val::Int(b))));
}

/// Truthiness: `nil` and `false` are falsy; zero, the float zero, the empty
/// string, and `true` are all truthy.
pub proof fn law_truthiness()
    ensures
        !truthy(Val::Nil),
        !truthy(Val::Bool(false)),
        truthy(Val::Int(0)),
        truthy(Val::Float(0)),
        truthy(Val::Str(Seq::<char>::empty())),
        truthy(Val::Bool(true)),
{
}

/// `and` short-circuits: when the left operand resolves to a falsy value,
/// the whole expression yields that value and the right operand is never
/// resolved — the state after the expression is exactly the state after the
/// left operand, so no effect of the right operand (a print, a call) can
/// occur.
pub proof fn law_and_short_circuit(st: SState, l: Expr, r: Expr, st1: SState, v: Val, fuel: nat)
    requires
        fuel >= 1,
        s_expr(st, l, (fuel - 1) as nat) == (st1, EvalOut::Val(v)),
        !truthy(v),
    ensures
        s_expression(st, Expression::Binary(BinaryOperator::BooleanOperator(BooleanOperator::And), l, r), fuel) == (st1, EvalOut::Val(v)),
{
}

/// `or` short-circuits: when the left operand resolves to a truthy value,
/// the whole expression yields that value and the right operand is never
/// resolved.
pub proof fn law_or_short_circuit(st: SState, l: Expr, r: Expr, st1: SState, v: Val, fuel: nat)
    requires
        fuel >= 1,
        s_expr(st, l, (fuel - 1) as nat) == (st1, EvalOut::Val(v)),
        truthy(v),
    ensures
        s_expression(st, Expression::Binary(BinaryOperator::BooleanOperator(BooleanOperator::Or), l, r), fuel) == (st1, EvalOut::Val(v)),
{
}

/// Assignment then read returns the same logical value: after binding a
/// name to a value, resolving that name yields exactly that value.
pub proof fn law_assign_then_read(st: SState, name: String, v: Val)
    ensures
        s_var_read(st_bind(st, name@, v), Var::VarName(name)) == Ok::<Val, Failure>(v),
{
    lemma_assoc_insert_same(st.vars, name@, st.cells.len() as int);
}

/// Binding one name disturbs no other: after an assignment to `name`,
/// every other name still reads exactly the value it read before.
pub proof fn law_assign_preserves_others(st: SState, name: Seq<char>, v: Val, other: String)
    requires
        other@ != name,
        // the other name's handle, if any, points inside the arena, as every
        // handle the engine hands out does
        assoc_lookup(st.vars, other@) matches Some(idx) ==> 0 <= idx < st.cells.len(),
    ensures
        s_var_read(st_bind(st, name, v), Var::VarName(other)) == s_var_read(st, Var::VarName(other)),
{
    lemma_assoc_insert_other(st.vars, name, st.cells.len() as int, other@);
    let st2 = st_bind(st, name, v);
    match assoc_lookup(st.vars, other@) {
        None => {
        },
        Some(idx) => {
            if 0 <= idx < st.cells.len() {
                assert(st2.cells[idx] == st.cells[idx]);
            }
        },
    }
}

/// Removing a call's parameters restores prior visibility for every name
/// that is not a parameter: reading it afterwards is reading it before.
pub proof fn law_param_removal_preserves_others(st: SState, names: Seq<String>, other: String)
    requires
        forall|i: int| 0 <= i < names.len() ==> names[i]@ != other@,
    ensures
        s_var_read(s_remove_params(st, names), Var::VarName(other)) == s_var_read(st, Var::VarName(other)),
    decreases names.len(),
{
    if names.len() != 0 {
        lemma_assoc_remove_other(st.vars, names[0]@, other@);
        let st1 = SState { vars: crate::frontend::variable_map::assoc_remove(st.vars, names[0]@), ..st };
        assert(s_var_read(st1, Var::VarName(other)) == s_var_read(st, Var::VarName(other)));
        assert(forall|i: int| 0 <= i < names.drop_first().len() ==> names.drop_first()[i]@ != other@);
        law_param_removal_preserves_others(st1, names.drop_first(), other);
    }
}

/// Registering the same name twice fails with `DuplicateFunction`, and the
/// first definition remains the registered one.
pub proof fn law_duplicate_registration(st: SState, name: Seq<char>, body1: std::rc::Rc<FunctionBody>, body2: std::rc::Rc<FunctionBody>, st1: SState)
    requires
        assoc_lookup(st.funcs, name) is None,
        st1 == s_register(st, name, body1).0,
    ensures
        s_register(st, name, body1).1 is Normal,
        s_register(st1, name, body2) == (st1, crate::frontend::semantics::FlowOut::Fail(Failure::DuplicateFunction(name))),
        assoc_lookup(st1.funcs, name) == Some(FunctionKind::External(body1)),
{
    lemma_assoc_insert_same(st.funcs, name, FunctionKind::External(body1));
}

/// Calling a name that is not registered fails with `FuncNotFound` naming
/// that identifier, once the arguments have resolved.
pub proof fn law_unregistered_call(st: SState, name: String, args: Args, st1: SState, vals: Seq<Val>, fuel: nat)
    requires
        fuel >= 1,
        s_args(st, args, (fuel - 1) as nat) == (st1, ListOut::Vals(vals)),
        assoc_lookup(st1.funcs, name@) is None,
    ensures
        s_call(st, Var::VarName(name), args, fuel) == (st1, EvalOut::Fail(Failure::FuncNotFound(name@, st1.line))),
{
}

/// Calling a registered user-defined function with the wrong argument count
/// fails with `InvalidArgs`: the declared parameter count must be matched
/// exactly, with no defaulting and no dropping of extras.
pub proof fn law_wrong_arity(st: SState, name: String, args: Args, st1: SState, vals: Seq<Val>, body: std::rc::Rc<FunctionBody>, names: crate::ast::lua_program::NameList, fuel: nat)
    requires
        fuel >= 1,
        s_args(st, args, (fuel - 1) as nat) == (st1, ListOut::Vals(vals)),
        assoc_lookup(st1.funcs, name@) == Some(FunctionKind::External(body)),
        body.parameters == Some(Parameters::Normal(names, None::<crate::ast::lua_program::Expansion>)),
        names.names.len() != vals.len(),
    ensures
        s_call(st, Var::VarName(name), args, fuel) == (st1, EvalOut::Fail(Failure::InvalidArgs("Number of args passed are invalid"@, st1.line))),
{
}

/// `==` and `~=` never fail and are total across kinds: values of different
/// kinds are simply unequal, and `~=` is the exact negation of `==`.
pub proof fn law_equality_total(a: Val, b: Val, line: int)
    ensures
        crate::frontend::data::spec_bool_op(BooleanOperator::Equal, a, b, line) == Ok::<bool, Failure>(val_eq(a, b)),
        crate::frontend::data::spec_bool_op(BooleanOperator::Unequal, a, b, line) == Ok::<bool, Failure>(!val_eq(a, b)),
        val_eq(a, b) == val_eq(b, a),
{
}

/// Floored division and modulo follow the floored sign convention: the
/// quotient and remainder reconstruct the dividend, and a nonzero remainder
/// takes the divisor's sign. The one excluded pair is `i64::MIN, -1`, whose
/// quotient wraps.
pub proof fn law_floored_div_mod(a: i64, b: i64)
    requires
        b != 0,
        !(a == i64::MIN && b == -1),
    ensures
        a as int == flo_div_i64(a, b) * b + flo_mod_i64(a, b),
        b > 0 ==> 0 <= flo_mod_i64(a, b) < b,
        b < 0 ==> b < flo_mod_i64(a, b) <= 0,
        spec_math_op(MathOperator::FloorDivision, Val::Int(a), Val::Int(b), 0) == Ok::<NumVal, Failure>(NumVal::Int(flo_div_i64(a, b))),
        spec_math_op(MathOperator::Mod, Val::Int(a), Val::Int(b), 0) == Ok::<NumVal, Failure>(NumVal::Int(flo_mod_i64(a, b))),
{
    crate::frontend::data::lemma_trunc_div_in_range(a, b);
    if crate::frontend::data::trunc_div(a as int, b as int) == i64::MIN {
        crate::frontend::data::lemma_trunc_div_min_has_rem_zero(a, b);
    }
    let x = a as int;
    let d = b as int;
    let m = if x >= 0 { x } else { -x };
    let n = if d >= 0 { d } else { -d };
    if x != 0 {
        vstd::arithmetic::div_mod::lemma_fundamental_div_mod(m, n);
        vstd::arithmetic::div_mod::lemma_div_pos_is_pos(m, n);
        assert(0 <= m % n < n);
        assert(m == n * (m / n) + m % n);
        let q = crate::frontend::data::trunc_div(x, d);
        let rr = crate::frontend::data::trunc_rem(x, d);
        assert(x == q * d + rr) by (nonlinear_arith)
            requires
                m == n * (m / n) + m % n,
                (x >= 0 ==> m == x) && (x < 0 ==> m == -x),
                (d >= 0 ==> n == d) && (d < 0 ==> n == -d),
                x != 0 && d != 0,
                q == crate::frontend::data::trunc_div(x, d),
                rr == crate::frontend::data::trunc_rem(x, d),
                q == if x > 0 && d > 0 { m / n } else if x < 0 && d < 0 { m / n } else { (m / n) * -1 },
                rr == if x > 0 && d > 0 { m % n } else if x < 0 { (m % n) * -1 } else { m % n },
        {
        }
        assert(-n < rr < n);
        if rr != 0 && ((rr < 0) != (d < 0)) {
            let fd = flo_div_i64(a, b) as int;
            assert(fd == q - 1);
            assert(fd * d == q * d - d) by (nonlinear_arith)
                requires
                    fd == q - 1,
            {
            }
        }
    }
}

} // verus!
