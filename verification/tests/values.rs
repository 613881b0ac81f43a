//! Value-level behavior: arithmetic, truthiness, equality, concatenation,
//! and decimal formatting.

use lua_core::ast::lua_program::{BooleanOperator, MathOperator, UnaryOperator};
use lua_core::err_handle::{CompileError, RuntimeFailure};
use lua_core::frontend::Context;
use lua_core::frontend::data::{
    bool_op_on, concat_on, int_to_string, math_op_on, unary_op_on, u64_to_string, DataKind,
    NumberKind,
};

fn int_v(i: i64) -> DataKind {
    DataKind::Number(NumberKind::Integer(i))
}

fn float_bits(bits: u64) -> DataKind {
    DataKind::Number(NumberKind::Float(bits))
}

fn text(s: &str) -> DataKind {
    DataKind::String(s.to_string())
}

#[test]
fn integer_addition_and_subtraction() {
    assert_eq!(math_op_on(&int_v(2), &int_v(3), MathOperator::Plus, 0), Ok(NumberKind::Integer(5)));
    assert_eq!(math_op_on(&int_v(2), &int_v(3), MathOperator::Minus, 0), Ok(NumberKind::Integer(-1)));
    assert_eq!(math_op_on(&int_v(-4), &int_v(9), MathOperator::Plus, 0), Ok(NumberKind::Integer(5)));
}

#[test]
fn integer_arithmetic_wraps_at_64_bits() {
    assert_eq!(
        math_op_on(&int_v(i64::MAX), &int_v(1), MathOperator::Plus, 0),
        Ok(NumberKind::Integer(i64::MIN))
    );
    assert_eq!(
        math_op_on(&int_v(i64::MIN), &int_v(1), MathOperator::Minus, 0),
        Ok(NumberKind::Integer(i64::MAX))
    );
    assert_eq!(
        math_op_on(&int_v(i64::MAX), &int_v(2), MathOperator::Multiply, 0),
        Ok(NumberKind::Integer(-2))
    );
}

#[test]
fn floor_division_rounds_toward_negative_infinity() {
    assert_eq!(math_op_on(&int_v(7), &int_v(2), MathOperator::FloorDivision, 0), Ok(NumberKind::Integer(3)));
    assert_eq!(math_op_on(&int_v(-7), &int_v(2), MathOperator::FloorDivision, 0), Ok(NumberKind::Integer(-4)));
    assert_eq!(math_op_on(&int_v(7), &int_v(-2), MathOperator::FloorDivision, 0), Ok(NumberKind::Integer(-4)));
    assert_eq!(math_op_on(&int_v(-7), &int_v(-2), MathOperator::FloorDivision, 0), Ok(NumberKind::Integer(3)));
    assert_eq!(
        math_op_on(&int_v(i64::MIN), &int_v(-1), MathOperator::FloorDivision, 0),
        Ok(NumberKind::Integer(i64::MIN))
    );
}

#[test]
fn modulo_takes_the_divisor_sign() {
    assert_eq!(math_op_on(&int_v(7), &int_v(2), MathOperator::Mod, 0), Ok(NumberKind::Integer(1)));
    assert_eq!(math_op_on(&int_v(-7), &int_v(2), MathOperator::Mod, 0), Ok(NumberKind::Integer(1)));
    assert_eq!(math_op_on(&int_v(7), &int_v(-2), MathOperator::Mod, 0), Ok(NumberKind::Integer(-1)));
    assert_eq!(math_op_on(&int_v(-7), &int_v(-2), MathOperator::Mod, 0), Ok(NumberKind::Integer(-1)));
    assert_eq!(math_op_on(&int_v(6), &int_v(3), MathOperator::Mod, 0), Ok(NumberKind::Integer(0)));
}

#[test]
fn division_by_zero_is_reported() {
    assert_eq!(
        math_op_on(&int_v(1), &int_v(0), MathOperator::FloorDivision, 7),
        Err(RuntimeFailure::InvalidArgs("attempt to perform floor division by zero".to_string(), 7))
    );
    assert_eq!(
        math_op_on(&int_v(1), &int_v(0), MathOperator::Mod, 7),
        Err(RuntimeFailure::InvalidArgs("attempt to perform modulo by zero".to_string(), 7))
    );
}

#[test]
fn float_valued_operators_are_not_defined() {
    assert!(matches!(
        math_op_on(&int_v(1), &int_v(2), MathOperator::FloatDivision, 0),
        Err(RuntimeFailure::InvalidArgs(_, 0))
    ));
    assert!(matches!(
        math_op_on(&int_v(2), &int_v(3), MathOperator::Exponent, 0),
        Err(RuntimeFailure::InvalidArgs(_, 0))
    ));
}

#[test]
fn arithmetic_on_non_numbers_is_a_type_error() {
    assert_eq!(
        math_op_on(&text("a"), &int_v(1), MathOperator::Plus, 3),
        Err(RuntimeFailure::WrongType("Number".to_string(), 3))
    );
    assert_eq!(
        math_op_on(&int_v(1), &float_bits(0x3FF0000000000000), MathOperator::Plus, 3),
        Err(RuntimeFailure::WrongType("Integer".to_string(), 3))
    );
}

#[test]
fn truthiness_follows_the_value_kinds() {
    assert!(!DataKind::Null.is_true());
    assert!(!DataKind::Bool(false).is_true());
    assert!(DataKind::Bool(true).is_true());
    assert!(int_v(0).is_true());
    assert!(float_bits(0).is_true());
    assert!(text("").is_true());
    assert!(text("x").is_true());
}

#[test]
fn equality_is_structural_and_total() {
    assert_eq!(bool_op_on(&int_v(2), &int_v(2), BooleanOperator::Equal, 0), Ok(true));
    assert_eq!(bool_op_on(&int_v(2), &int_v(3), BooleanOperator::Equal, 0), Ok(false));
    assert_eq!(bool_op_on(&text("ab"), &text("ab"), BooleanOperator::Equal, 0), Ok(true));
    // Cross-kind comparison never fails; it is simply unequal.
    assert_eq!(bool_op_on(&int_v(0), &DataKind::Null, BooleanOperator::Equal, 0), Ok(false));
    assert_eq!(bool_op_on(&int_v(0), &text("0"), BooleanOperator::Unequal, 0), Ok(true));
    // An integer is never structurally equal to a float.
    assert_eq!(
        bool_op_on(&int_v(1), &float_bits(0x3FF0000000000000), BooleanOperator::Equal, 0),
        Ok(false)
    );
}

#[test]
fn ordering_requires_integer_numbers() {
    assert_eq!(bool_op_on(&int_v(2), &int_v(3), BooleanOperator::LessThan, 0), Ok(true));
    assert_eq!(bool_op_on(&int_v(3), &int_v(3), BooleanOperator::LessThanEqualTo, 0), Ok(true));
    assert_eq!(bool_op_on(&int_v(4), &int_v(3), BooleanOperator::GreaterThan, 0), Ok(true));
    assert_eq!(bool_op_on(&int_v(2), &int_v(3), BooleanOperator::GreaterThanEqualTo, 0), Ok(false));
    assert_eq!(
        bool_op_on(&text("a"), &int_v(3), BooleanOperator::LessThan, 5),
        Err(RuntimeFailure::WrongType("Number".to_string(), 5))
    );
}

#[test]
fn concatenation_joins_strings_and_integers() {
    assert_eq!(concat_on(&int_v(1), &int_v(2), 0), Ok(DataKind::String("12".to_string())));
    assert_eq!(concat_on(&text("v="), &int_v(-7), 0), Ok(DataKind::String("v=-7".to_string())));
    assert_eq!(
        concat_on(&DataKind::Bool(true), &int_v(1), 2),
        Err(RuntimeFailure::WrongType("String or Number".to_string(), 2))
    );
    assert_eq!(
        concat_on(&DataKind::Null, &text("x"), 2),
        Err(RuntimeFailure::WrongType("String or Number".to_string(), 2))
    );
}

#[test]
fn unary_operators() {
    assert_eq!(unary_op_on(UnaryOperator::UnaryMinus, &int_v(5), 0), Ok(int_v(-5)));
    assert_eq!(unary_op_on(UnaryOperator::UnaryMinus, &int_v(i64::MIN), 0), Ok(int_v(i64::MIN)));
    assert_eq!(unary_op_on(UnaryOperator::Not, &int_v(0), 0), Ok(DataKind::Bool(false)));
    assert_eq!(unary_op_on(UnaryOperator::Not, &DataKind::Null, 0), Ok(DataKind::Bool(true)));
    assert!(matches!(unary_op_on(UnaryOperator::Length, &text("abc"), 0), Err(RuntimeFailure::WrongType(_, 0))));
    assert!(matches!(unary_op_on(UnaryOperator::BitwiseUnaryNot, &int_v(1), 0), Err(RuntimeFailure::WrongType(_, 0))));
}

#[test]
fn decimal_formatting_is_exact() {
    assert_eq!(int_to_string(0), "0");
    assert_eq!(int_to_string(42), "42");
    assert_eq!(int_to_string(-1), "-1");
    assert_eq!(int_to_string(i64::MAX), "9223372036854775807");
    assert_eq!(int_to_string(i64::MIN), "-9223372036854775808");
    assert_eq!(u64_to_string(u64::MAX), "18446744073709551615");
    assert_eq!(u64_to_string(10), "10");
}

#[test]
fn failures_describe_themselves() {
    assert_eq!(
        RuntimeFailure::VarNotFound("x".to_string(), 3).describe(),
        "Error on line 3: Variable 'x' not found"
    );
    assert_eq!(
        RuntimeFailure::FuncNotFound("foo".to_string(), -1).describe(),
        "Error on line -1: Function 'foo' not found"
    );
    assert_eq!(
        RuntimeFailure::DuplicateFunction("f".to_string()).describe(),
        "Error: Function 'f' defined multiple times"
    );
    assert_eq!(
        RuntimeFailure::WrongType("Number".to_string(), 0).describe(),
        "Error on line 0: Expected type 'Number'"
    );
}

#[test]
fn compile_errors_carry_position_and_describe_themselves() {
    let e = CompileError::new("Invalid Lua", (3, 7));
    assert_eq!(e.message(), "Invalid Lua");
    assert_eq!(e.position(), (3, 7));
    assert_eq!(
        e.describe(),
        "Failed to compile Lua with error 'Invalid Lua' on line 3 column 7"
    );
}

#[test]
fn the_value_methods_attach_the_context_line() {
    let mut context = Context::new();
    context.current_line = 9;
    assert_eq!(
        int_v(2).math_binary_op(&text("x"), MathOperator::Plus, &context),
        Err(RuntimeFailure::WrongType("Number".to_string(), 9))
    );
    assert_eq!(
        int_v(2).math_binary_op(&int_v(3), MathOperator::Multiply, &context),
        Ok(NumberKind::Integer(6))
    );
    assert_eq!(
        int_v(2).boolean_binary_op(&int_v(3), BooleanOperator::LessThan, &context),
        Ok(true)
    );
    // The value-level `and` combines truthiness of resolved operands.
    assert_eq!(
        DataKind::Null.boolean_binary_op(&int_v(1), BooleanOperator::And, &context),
        Ok(false)
    );
    assert_eq!(
        int_v(0).boolean_binary_op(&DataKind::Bool(false), BooleanOperator::Or, &context),
        Ok(true)
    );
}

#[test]
fn values_duplicate_and_compare_structurally() {
    let v = text("abc");
    let w = v.duplicate();
    assert!(v.equals(&w));
    assert_eq!(v, w);
    assert!(!int_v(1).equals(&float_bits(1)));
    assert_eq!(int_v(5).stringify(0), Ok("5".to_string()));
    assert!(matches!(float_bits(0).stringify(0), Err(RuntimeFailure::WrongType(_, 0))));
}
