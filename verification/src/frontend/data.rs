//! Runtime values and the shared cell that gives a value aliasable, mutable
//! identity.
//!
//! Values are immutable once constructed; mutation happens only by replacing
//! the contents of a cell. Cells live in an arena owned by the execution
//! context; a `Data` handle is an index into that arena, so several names may
//! hold handles to the same cell. Each cell carries an explicit read/write
//! access state, and an access that would conflict fails immediately with a
//! `BorrowError` rather than corrupting state.
//!
//! Number semantics: integers are 64-bit with wraparound on `+ - *` and on
//! unary minus; floor division and modulo follow the floored sign convention
//! (the remainder takes the divisor's sign) and report division by zero as a
//! runtime failure. A float is carried as the bit pattern of an IEEE-754
//! double: it can be stored, read and compared structurally, but the engine
//! defines no arithmetic, ordering, or formatting on floats, nor the two
//! operators whose result is always a float (`/` and `^`); those uses fail
//! with a typed runtime error.

use vstd::prelude::*;
use crate::ast::lua_program::{BooleanOperator, MathOperator, UnaryOperator};
use crate::err_handle::{Failure, RuntimeFailure};
use crate::frontend::Context;

verus! {

/// A runtime value: string, number, boolean, or nil.
#[derive(Debug, Clone, PartialEq)]
pub enum DataKind {
    String(String),
    Number(NumberKind),
    Bool(bool),
    Null,
}

/// A number: a 64-bit integer, or an IEEE-754 double carried as its bit
/// pattern (see the module note).
#[derive(Debug, Clone, Copy, PartialEq, Eq, Structural)]
pub enum NumberKind {
    Integer(i64),
    Float(u64),
}

/// The mathematical form of a runtime value.
pub enum Val {
    Str(Seq<char>),
    Int(i64),
    Float(u64),
    Bool(bool),
    Nil,
}

/// The mathematical form of a number.
pub enum NumVal {
    Int(i64),
    Float(u64),
}

impl View for NumberKind {
    type V = NumVal;

    open spec fn view(&self) -> NumVal {
        match self {
            NumberKind::Integer(i) => NumVal::Int(*i),
            NumberKind::Float(bits) => NumVal::Float(*bits),
        }
    }
}

impl View for DataKind {
    type V = Val;

    open spec fn view(&self) -> Val {
        match self {
            DataKind::String(s) => Val::Str(s@),
            DataKind::Number(NumberKind::Integer(i)) => Val::Int(*i),
            DataKind::Number(NumberKind::Float(bits)) => Val::Float(*bits),
            DataKind::Bool(b) => Val::Bool(*b),
            DataKind::Null => Val::Nil,
        }
    }
}

/// The mathematical values of a sequence of runtime values.
pub open spec fn vals_of(s: Seq<DataKind>) -> Seq<Val> {
    s.map(|i: int, d: DataKind| d@)
}

/// Truthiness: only `nil` and `false` are falsy; every other value, including
/// zero, the float zero, and the empty string, is truthy.
pub open spec fn truthy(v: Val) -> bool {
    match v {
        Val::Nil => false,
        Val::Bool(b) => b,
        _ => true,
    }
}

/// Structural equality per kind, total across kinds: two values of different
/// kinds are simply unequal, an integer is never equal to a float, and floats
/// compare by bit pattern.
pub open spec fn val_eq(a: Val, b: Val) -> bool {
    match (a, b) {
        (Val::Str(x), Val::Str(y)) => x == y,
        (Val::Int(x), Val::Int(y)) => x == y,
        (Val::Float(x), Val::Float(y)) => x == y,
        (Val::Bool(x), Val::Bool(y)) => x == y,
        (Val::Nil, Val::Nil) => true,
        _ => false,
    }
}

/// The decimal digits of a natural number, most significant first.
pub open spec fn dec_digits(n: nat) -> Seq<char>
    decreases n,
{
    if n < 10 {
        seq![digit_char(n)]
    } else {
        dec_digits(n / 10).push(digit_char(n % 10))
    }
}

/// The character for one decimal digit.
pub open spec fn digit_char(d: nat) -> char {
    if d == 0 { '0' }
    else if d == 1 { '1' }
    else if d == 2 { '2' }
    else if d == 3 { '3' }
    else if d == 4 { '4' }
    else if d == 5 { '5' }
    else if d == 6 { '6' }
    else if d == 7 { '7' }
    else if d == 8 { '8' }
    else { '9' }
}

/// The natural base-10 form of a signed integer.
pub open spec fn int_str(i: int) -> Seq<char> {
    if i < 0 {
        seq!['-'] + dec_digits((-i) as nat)
    } else {
        dec_digits(i as nat)
    }
}

/// Truncating (round-toward-zero) quotient, as machine division computes it.
pub open spec fn trunc_div(a: int, b: int) -> int {
    if a == 0 {
        0
    } else if a > 0 && b > 0 {
        a / b
    } else if a < 0 && b < 0 {
        (a * -1) / (b * -1)
    } else if a < 0 {
        ((a * -1) / b) * -1
    } else {
        (a / (b * -1)) * -1
    }
}

/// Truncating remainder: `a - trunc_div(a, b) * b`, which takes the
/// dividend's sign.
pub open spec fn trunc_rem(a: int, b: int) -> int {
    if a == 0 {
        0
    } else if a > 0 && b > 0 {
        a % b
    } else if a < 0 && b < 0 {
        ((a * -1) % (b * -1)) * -1
    } else if a < 0 {
        ((a * -1) % b) * -1
    } else {
        a % (b * -1)
    }
}

/// Floored quotient of two 64-bit integers: rounds toward negative infinity.
/// The one overflowing case, `i64::MIN // -1`, wraps to `i64::MIN`.
pub open spec fn flo_div_i64(a: i64, b: i64) -> i64
    recommends
        b != 0,
{
    if a == i64::MIN && b == -1 {
        i64::MIN
    } else {
        let q = trunc_div(a as int, b as int);
        let r = trunc_rem(a as int, b as int);
        if r != 0 && ((r < 0) != (b < 0)) {
            (q - 1) as i64
        } else {
            q as i64
        }
    }
}

/// Floored remainder of two 64-bit integers: zero, or a value with the
/// divisor's sign. `i64::MIN % -1` is zero.
pub open spec fn flo_mod_i64(a: i64, b: i64) -> i64
    recommends
        b != 0,
{
    if a == i64::MIN && b == -1 {
        0
    } else {
        let r = trunc_rem(a as int, b as int);
        if r != 0 && ((r < 0) != (b < 0)) {
            (r + b) as i64
        } else {
            r as i64
        }
    }
}

/// What an arithmetic binary operator yields on two values: both operands
/// must be integer numbers; `+ - *` wrap at 64 bits; `//` and `%` are floored
/// and report a zero divisor; `/` and `^`, whose results are floats by
/// definition, are not defined by this engine, nor is any arithmetic on a
/// float operand.
pub open spec fn spec_math_op(op: MathOperator, a: Val, b: Val, line: int) -> Result<NumVal, Failure> {
    match (a, b) {
        (Val::Int(x), Val::Int(y)) => match op {
            MathOperator::Plus => Ok(NumVal::Int(x.wrapping_add(y))),
            MathOperator::Minus => Ok(NumVal::Int(x.wrapping_sub(y))),
            MathOperator::Multiply => Ok(NumVal::Int(x.wrapping_mul(y))),
            MathOperator::FloorDivision => if y == 0 {
                Err(Failure::InvalidArgs("attempt to perform floor division by zero"@, line))
            } else {
                Ok(NumVal::Int(flo_div_i64(x, y)))
            },
            MathOperator::Mod => if y == 0 {
                Err(Failure::InvalidArgs("attempt to perform modulo by zero"@, line))
            } else {
                Ok(NumVal::Int(flo_mod_i64(x, y)))
            },
            MathOperator::FloatDivision => Err(Failure::InvalidArgs("the division operator yields a float, which this engine does not define"@, line)),
            MathOperator::Exponent => Err(Failure::InvalidArgs("the exponent operator yields a float, which this engine does not define"@, line)),
        },
        (Val::Int(_), Val::Float(_)) => Err(Failure::WrongType("Integer"@, line)),
        (Val::Float(_), Val::Int(_)) => Err(Failure::WrongType("Integer"@, line)),
        (Val::Float(_), Val::Float(_)) => Err(Failure::WrongType("Integer"@, line)),
        _ => Err(Failure::WrongType("Number"@, line)),
    }
}

/// What a relational, equality, or truthiness-combining operator yields.
/// Ordering requires two integer numbers; `==`/`~=` never fail and use
/// structural equality; `and`/`or` here combine the truthiness of two
/// already-resolved values (the evaluator's own `and`/`or` instead
/// short-circuits and yields the operand values, per the expression rules).
pub open spec fn spec_bool_op(op: BooleanOperator, a: Val, b: Val, line: int) -> Result<bool, Failure> {
    match op {
        BooleanOperator::Equal => Ok(val_eq(a, b)),
        BooleanOperator::Unequal => Ok(!val_eq(a, b)),
        BooleanOperator::And => Ok(truthy(a) && truthy(b)),
        BooleanOperator::Or => Ok(truthy(a) || truthy(b)),
        _ => match (a, b) {
            (Val::Int(x), Val::Int(y)) => match op {
                BooleanOperator::LessThan => Ok(x < y),
                BooleanOperator::LessThanEqualTo => Ok(x <= y),
                BooleanOperator::GreaterThan => Ok(x > y),
                _ => Ok(x >= y),
            },
            (Val::Int(_), Val::Float(_)) => Err(Failure::WrongType("Integer"@, line)),
            (Val::Float(_), Val::Int(_)) => Err(Failure::WrongType("Integer"@, line)),
            (Val::Float(_), Val::Float(_)) => Err(Failure::WrongType("Integer"@, line)),
            _ => Err(Failure::WrongType("Number"@, line)),
        },
    }
}

/// The text a value contributes to a concatenation: a string is itself, an
/// integer is its natural base-10 form; every other kind fails (floats
/// because the engine defines no float formatting).
pub open spec fn spec_stringify(v: Val, line: int) -> Result<Seq<char>, Failure> {
    match v {
        Val::Str(s) => Ok(s),
        Val::Int(i) => Ok(int_str(i as int)),
        Val::Float(_) => Err(Failure::WrongType("Integer"@, line)),
        _ => Err(Failure::WrongType("String or Number"@, line)),
    }
}

/// What `..` yields on two values: the concatenation of the operands' texts,
/// or the first failure that `spec_stringify` reports, left operand first.
pub open spec fn spec_concat(a: Val, b: Val, line: int) -> Result<Seq<char>, Failure> {
    match spec_stringify(a, line) {
        Err(e) => Err(e),
        Ok(sa) => match spec_stringify(b, line) {
            Err(e) => Err(e),
            Ok(sb) => Ok(sa + sb),
        },
    }
}

/// What a unary operator yields: `-` negates an integer number (wrapping),
/// `not` negates truthiness of any value, and `#`/`~` are not defined for
/// this value set.
pub open spec fn spec_unary_op(op: UnaryOperator, v: Val, line: int) -> Result<Val, Failure> {
    match op {
        UnaryOperator::UnaryMinus => match v {
            Val::Int(x) => Ok(Val::Int((0 as i64).wrapping_sub(x))),
            Val::Float(_) => Err(Failure::WrongType("Integer"@, line)),
            _ => Err(Failure::WrongType("Number"@, line)),
        },
        UnaryOperator::Not => Ok(Val::Bool(!truthy(v))),
        UnaryOperator::Length => Err(Failure::WrongType("a length-bearing value"@, line)),
        UnaryOperator::BitwiseUnaryNot => Err(Failure::WrongType("a bitwise-capable value"@, line)),
    }
}

impl DataKind {
    /// Truthiness of this value (see `truthy`).
    pub fn is_true(&self) -> (r: bool)
        ensures
            r == truthy(self@),
    {
        match self {
            DataKind::Bool(b) => *b,
            DataKind::Null => false,
            _ => true,
        }
    }

    /// An equal value, freshly owned. Cloning is how a read of a cell hands
    /// the value out without keeping the read access alive.
    pub fn duplicate(&self) -> (r: DataKind)
        ensures
            r == *self,
    {
        match self {
            DataKind::String(s) => DataKind::String(s.clone()),
            DataKind::Number(n) => DataKind::Number(*n),
            DataKind::Bool(b) => DataKind::Bool(*b),
            DataKind::Null => DataKind::Null,
        }
    }

    /// An arithmetic binary operator applied to this value and another,
    /// with the current line attached to any failure (see `spec_math_op`).
    pub fn math_binary_op(&self, other: &Self, op: MathOperator, context: &Context) -> (r: Result<NumberKind, RuntimeFailure>)
        ensures
            match r {
                Ok(n) => spec_math_op(op, self@, other@, context@.line) == Ok::<NumVal, Failure>(n@),
                Err(e) => spec_math_op(op, self@, other@, context@.line) == Err::<NumVal, Failure>(e@),
            },
    {
        math_op_on(self, other, op, context.current_line)
    }

    /// A relational, equality, or truthiness-combining operator applied to
    /// this value and another (see `spec_bool_op`). The evaluator's own
    /// `and`/`or` short-circuit instead and never reach this method.
    pub fn boolean_binary_op(&self, other: &Self, op: BooleanOperator, context: &Context) -> (r: Result<bool, RuntimeFailure>)
        ensures
            match r {
                Ok(v) => spec_bool_op(op, self@, other@, context@.line) == Ok::<bool, Failure>(v),
                Err(e) => spec_bool_op(op, self@, other@, context@.line) == Err::<bool, Failure>(e@),
            },
    {
        bool_op_on(self, other, op, context.current_line)
    }

    /// The text this value contributes to a concatenation (see
    /// `spec_stringify`).
    pub fn stringify(&self, line: i32) -> (r: Result<String, RuntimeFailure>)
        ensures
            match r {
                Ok(s) => spec_stringify(self@, line as int) == Ok::<Seq<char>, Failure>(s@),
                Err(e) => spec_stringify(self@, line as int) == Err::<Seq<char>, Failure>(e@),
            },
    {
        match self {
            DataKind::String(s) => Ok(s.clone()),
            DataKind::Number(NumberKind::Integer(i)) => Ok(int_to_string(*i)),
            DataKind::Number(NumberKind::Float(_)) => Err(RuntimeFailure::WrongType("Integer".to_owned(), line)),
            _ => Err(RuntimeFailure::WrongType("String or Number".to_owned(), line)),
        }
    }

    /// Structural equality of two values (see `val_eq`).
    pub fn equals(&self, other: &Self) -> (r: bool)
        ensures
            r == val_eq(self@, other@),
    {
        match (self, other) {
            (DataKind::String(x), DataKind::String(y)) => x.eq(y),
            (DataKind::Number(NumberKind::Integer(x)), DataKind::Number(NumberKind::Integer(y))) => x == y,
            (DataKind::Number(NumberKind::Float(x)), DataKind::Number(NumberKind::Float(y))) => x == y,
            (DataKind::Bool(x), DataKind::Bool(y)) => x == y,
            (DataKind::Null, DataKind::Null) => true,
            _ => false,
        }
    }
}

/// An arithmetic binary operator applied to two values (see `spec_math_op`).
pub fn math_op_on(a: &DataKind, b: &DataKind, op: MathOperator, line: i32) -> (r: Result<NumberKind, RuntimeFailure>)
    ensures
        match r {
            Ok(n) => spec_math_op(op, a@, b@, line as int) == Ok::<NumVal, Failure>(n@),
            Err(e) => spec_math_op(op, a@, b@, line as int) == Err::<NumVal, Failure>(e@),
        },
{
    match (a, b) {
        (DataKind::Number(NumberKind::Integer(x)), DataKind::Number(NumberKind::Integer(y))) => {
            let x = *x;
            let y = *y;
            match op {
                MathOperator::Plus => Ok(NumberKind::Integer(x.wrapping_add(y))),
                MathOperator::Minus => Ok(NumberKind::Integer(x.wrapping_sub(y))),
                MathOperator::Multiply => Ok(NumberKind::Integer(x.wrapping_mul(y))),
                MathOperator::FloorDivision => if y == 0 {
                    Err(RuntimeFailure::InvalidArgs("attempt to perform floor division by zero".to_owned(), line))
                } else {
                    Ok(NumberKind::Integer(floor_div_exec(x, y)))
                },
                MathOperator::Mod => if y == 0 {
                    Err(RuntimeFailure::InvalidArgs("attempt to perform modulo by zero".to_owned(), line))
                } else {
                    Ok(NumberKind::Integer(floor_mod_exec(x, y)))
                },
                MathOperator::FloatDivision => Err(RuntimeFailure::InvalidArgs("the division operator yields a float, which this engine does not define".to_owned(), line)),
                MathOperator::Exponent => Err(RuntimeFailure::InvalidArgs("the exponent operator yields a float, which this engine does not define".to_owned(), line)),
            }
        },
        (DataKind::Number(_), DataKind::Number(_)) => Err(RuntimeFailure::WrongType("Integer".to_owned(), line)),
        _ => Err(RuntimeFailure::WrongType("Number".to_owned(), line)),
    }
}

/// A relational, equality, or truthiness-combining operator applied to two
/// values (see `spec_bool_op`).
pub fn bool_op_on(a: &DataKind, b: &DataKind, op: BooleanOperator, line: i32) -> (r: Result<bool, RuntimeFailure>)
    ensures
        match r {
            Ok(v) => spec_bool_op(op, a@, b@, line as int) == Ok::<bool, Failure>(v),
            Err(e) => spec_bool_op(op, a@, b@, line as int) == Err::<bool, Failure>(e@),
        },
{
    match op {
        BooleanOperator::Equal => Ok(a.equals(b)),
        BooleanOperator::Unequal => Ok(!a.equals(b)),
        BooleanOperator::And => Ok(a.is_true() && b.is_true()),
        BooleanOperator::Or => Ok(a.is_true() || b.is_true()),
        _ => match (a, b) {
            (DataKind::Number(NumberKind::Integer(x)), DataKind::Number(NumberKind::Integer(y))) => match op {
                BooleanOperator::LessThan => Ok(*x < *y),
                BooleanOperator::LessThanEqualTo => Ok(*x <= *y),
                BooleanOperator::GreaterThan => Ok(*x > *y),
                _ => Ok(*x >= *y),
            },
            (DataKind::Number(_), DataKind::Number(_)) => Err(RuntimeFailure::WrongType("Integer".to_owned(), line)),
            _ => Err(RuntimeFailure::WrongType("Number".to_owned(), line)),
        },
    }
}

/// A unary operator applied to one value (see `spec_unary_op`).
pub fn unary_op_on(op: UnaryOperator, v: &DataKind, line: i32) -> (r: Result<DataKind, RuntimeFailure>)
    ensures
        match r {
            Ok(out) => spec_unary_op(op, v@, line as int) == Ok::<Val, Failure>(out@),
            Err(e) => spec_unary_op(op, v@, line as int) == Err::<Val, Failure>(e@),
        },
{
    match op {
        UnaryOperator::UnaryMinus => match v {
            DataKind::Number(NumberKind::Integer(x)) => Ok(DataKind::Number(NumberKind::Integer((0 as i64).wrapping_sub(*x)))),
            DataKind::Number(NumberKind::Float(_)) => Err(RuntimeFailure::WrongType("Integer".to_owned(), line)),
            _ => Err(RuntimeFailure::WrongType("Number".to_owned(), line)),
        },
        UnaryOperator::Not => Ok(DataKind::Bool(!v.is_true())),
        UnaryOperator::Length => Err(RuntimeFailure::WrongType("a length-bearing value".to_owned(), line)),
        UnaryOperator::BitwiseUnaryNot => Err(RuntimeFailure::WrongType("a bitwise-capable value".to_owned(), line)),
    }
}

/// `..` applied to two values (see `spec_concat`).
pub fn concat_on(a: &DataKind, b: &DataKind, line: i32) -> (r: Result<DataKind, RuntimeFailure>)
    ensures
        match r {
            Ok(out) => out@ matches Val::Str(s) && spec_concat(a@, b@, line as int) == Ok::<Seq<char>, Failure>(s),
            Err(e) => spec_concat(a@, b@, line as int) == Err::<Seq<char>, Failure>(e@),
        },
{
    let sa = match a.stringify(line) {
        Ok(s) => s,
        Err(e) => {
            return Err(e);
        },
    };
    let sb = match b.stringify(line) {
        Ok(s) => s,
        Err(e) => {
            return Err(e);
        },
    };
    Ok(DataKind::String(sa.concat(sb.as_str())))
}

/// The string of one decimal digit.
fn digit_str(d: u64) -> (r: &'static str)
    requires
        d < 10,
    ensures
        r@ == seq![digit_char(d as nat)],
{
    let r: &'static str = if d == 0 { "0" }
    else if d == 1 { "1" }
    else if d == 2 { "2" }
    else if d == 3 { "3" }
    else if d == 4 { "4" }
    else if d == 5 { "5" }
    else if d == 6 { "6" }
    else if d == 7 { "7" }
    else if d == 8 { "8" }
    else { "9" };
    proof {
        reveal_strlit("0");
        reveal_strlit("1");
        reveal_strlit("2");
        reveal_strlit("3");
        reveal_strlit("4");
        reveal_strlit("5");
        reveal_strlit("6");
        reveal_strlit("7");
        reveal_strlit("8");
        reveal_strlit("9");
        assert(r@ =~= seq![digit_char(d as nat)]);
    }
    r
}

/// The decimal form of an unsigned 64-bit number.
pub fn u64_to_string(n: u64) -> (r: String)
    ensures
        r@ == dec_digits(n as nat),
    decreases n,
{
    if n < 10 {
        digit_str(n).to_owned()
    } else {
        let mut s = u64_to_string(n / 10);
        s.append(digit_str(n % 10));
        proof {
            assert(s@ =~= dec_digits(n as nat));
        }
        s
    }
}

/// The natural base-10 form of a signed 64-bit integer.
pub fn int_to_string(i: i64) -> (r: String)
    ensures
        r@ == int_str(i as int),
{
    if i >= 0 {
        u64_to_string(i as u64)
    } else {
        let m: u64 = if i == i64::MIN { 9223372036854775808u64 } else { (-i) as u64 };
        let mut s = "-".to_owned();
        s.append(u64_to_string(m).as_str());
        proof {
            reveal_strlit("-");
            assert(s@ =~= int_str(i as int));
        }
        s
    }
}

/// Truncating quotient and remainder, as `i64` machine division computes
/// them.
fn trunc_parts(a: i64, b: i64) -> (qr: (i64, i64))
    requires
        b != 0,
        !(a == i64::MIN && b == -1),
    ensures
        qr.0 as int == trunc_div(a as int, b as int),
        qr.1 as int == trunc_rem(a as int, b as int),
{
    proof {
        lemma_trunc_div_in_range(a, b);
    }
    let q = match a.checked_div(b) {
        Some(q) => q,
        None => 0,
    };
    let r = match a.checked_rem(b) {
        Some(r) => r,
        None => 0,
    };
    (q, r)
}

/// The truncating quotient of two `i64` values fits in `i64`, except for
/// `i64::MIN / -1`; the remainder always fits.
pub(crate) proof fn lemma_trunc_div_in_range(a: i64, b: i64)
    requires
        b != 0,
        !(a == i64::MIN && b == -1),
    ensures
        i64::MIN <= trunc_div(a as int, b as int) <= i64::MAX,
        i64::MIN <= trunc_rem(a as int, b as int) <= i64::MAX,
{
    let x = a as int;
    let d = b as int;
    let m = if x >= 0 { x } else { -x };
    let n = if d >= 0 { d } else { -d };
    if x != 0 {
        vstd::arithmetic::div_mod::lemma_div_pos_is_pos(m, n);
        vstd::arithmetic::div_mod::lemma_div_nonincreasing(m, n);
        vstd::arithmetic::div_mod::lemma_fundamental_div_mod(m, n);
        assert(0 <= m / n <= m);
        assert(0 <= m % n < n);
        if n == 1 {
            assert(m % 1 == 0);
            assert(m / n == m) by {
                vstd::arithmetic::div_mod::lemma_div_basics(m);
            }
        } else {
            assert(m / n <= m / 2) by {
                vstd::arithmetic::div_mod::lemma_div_is_ordered_by_denominator(m, 2, n);
            }
            assert(m / 2 <= 0x8000_0000_0000_0000int / 2) by {
                vstd::arithmetic::div_mod::lemma_div_is_ordered(m, 0x8000_0000_0000_0000int, 2);
            }
        }
    }
}

/// Floored quotient (see `flo_div_i64`).
fn floor_div_exec(a: i64, b: i64) -> (r: i64)
    requires
        b != 0,
    ensures
        r == flo_div_i64(a, b),
{
    if a == i64::MIN && b == -1 {
        return i64::MIN;
    }
    let (q, rem) = trunc_parts(a, b);
    if rem != 0 && ((rem < 0) != (b < 0)) {
        proof {
            if q == i64::MIN {
                lemma_trunc_div_min_has_rem_zero(a, b);
            }
        }
        q - 1
    } else {
        q
    }
}

/// Floored remainder (see `flo_mod_i64`).
fn floor_mod_exec(a: i64, b: i64) -> (r: i64)
    requires
        b != 0,
    ensures
        r == flo_mod_i64(a, b),
{
    if a == i64::MIN && b == -1 {
        return 0;
    }
    let (_, rem) = trunc_parts(a, b);
    if rem != 0 && ((rem < 0) != (b < 0)) {
        proof {
            lemma_trunc_rem_bound(a, b);
        }
        rem + b
    } else {
        rem
    }
}

/// A truncating quotient of `i64::MIN` can only arise from an exact division
/// (`i64::MIN / 1`), so the floored adjustment `q - 1` never underflows.
pub(crate) proof fn lemma_trunc_div_min_has_rem_zero(a: i64, b: i64)
    requires
        b != 0,
        !(a == i64::MIN && b == -1),
        trunc_div(a as int, b as int) == i64::MIN,
    ensures
        trunc_rem(a as int, b as int) == 0,
{
    let x = a as int;
    let d = b as int;
    let m = if x >= 0 { x } else { -x };
    let n = if d >= 0 { d } else { -d };
    vstd::arithmetic::div_mod::lemma_div_pos_is_pos(m, n);
    vstd::arithmetic::div_mod::lemma_div_nonincreasing(m, n);
    if n >= 2 {
        assert(m / n <= m / 2) by {
            vstd::arithmetic::div_mod::lemma_div_is_ordered_by_denominator(m, 2, n);
        }
        assert(m / 2 <= 0x8000_0000_0000_0000int / 2) by {
            vstd::arithmetic::div_mod::lemma_div_is_ordered(m, 0x8000_0000_0000_0000int, 2);
        }
        assert(0x8000_0000_0000_0000int / 2 == 0x4000_0000_0000_0000) by {
            vstd::arithmetic::div_mod::lemma_div_by_multiple(0x4000_0000_0000_0000, 2);
        }
        assert(false);
    } else {
        assert(m % 1 == 0);
    }
}

/// The truncating remainder is strictly smaller than the divisor in
/// magnitude, so `rem + b` stays within `i64` whenever the signs differ.
proof fn lemma_trunc_rem_bound(a: i64, b: i64)
    requires
        b != 0,
    ensures
        trunc_rem(a as int, b as int) < (if b as int >= 0 { b as int } else { -(b as int) }),
        trunc_rem(a as int, b as int) > -(if b as int >= 0 { b as int } else { -(b as int) }),
{
    let x = a as int;
    let d = b as int;
    let m = if x >= 0 { x } else { -x };
    let n = if d >= 0 { d } else { -d };
    if x != 0 {
        assert(0 <= m % n < n);
    }
}

/// One cell: a value together with its current access state.
pub struct Slot {
    value: DataKind,
    readers: u64,
    writer: bool,
}

/// The mathematical form of a cell.
pub struct SlotView {
    pub value: Val,
    pub readers: int,
    pub writer: bool,
}

impl View for Slot {
    type V = SlotView;

    closed spec fn view(&self) -> SlotView {
        SlotView { value: self.value@, readers: self.readers as int, writer: self.writer }
    }
}

/// The arena that owns every cell of one program run. Cells are created when
/// a value is first bound to a name and live until the run ends, so a handle
/// index never dangles.
pub struct CellArena {
    slots: Vec<Slot>,
}

impl View for CellArena {
    type V = Seq<SlotView>;

    closed spec fn view(&self) -> Seq<SlotView> {
        self.slots@.map(|i: int, s: Slot| s@)
    }
}

impl CellArena {
    /// An arena with no cells yet.
    pub fn new() -> (r: CellArena)
        ensures
            r@ == Seq::<SlotView>::empty(),
    {
        let r = CellArena { slots: Vec::new() };
        proof {
            assert(r@ =~= Seq::<SlotView>::empty());
        }
        r
    }

    /// Whether a handle points inside this arena. Every handle the arena
    /// itself hands out does.
    pub fn contains(&self, d: &Data) -> (r: bool)
        ensures
            r == data_valid(d@, self@),
    {
        d.idx < self.slots.len()
    }
}

/// A free cell holding the given value.
pub open spec fn fresh_slot(v: Val) -> SlotView {
    SlotView { value: v, readers: 0, writer: false }
}

/// A handle to one cell: a plain index into the arena. Copying the handle
/// aliases the cell, it does not copy the value.
#[derive(Debug, Clone, Copy)]
pub struct Data {
    idx: usize,
}

impl View for Data {
    type V = int;

    closed spec fn view(&self) -> int {
        self.idx as int
    }
}

/// A handle is valid when it points inside the arena.
pub open spec fn data_valid(d: int, cells: Seq<SlotView>) -> bool {
    0 <= d < cells.len()
}

impl Data {
    /// A fresh, uniquely owned cell holding `value`, with no access live.
    pub fn new(arena: &mut CellArena, value: DataKind) -> (r: Data)
        ensures
            final(arena)@ == old(arena)@.push(fresh_slot(value@)),
            r@ == old(arena)@.len(),
    {
        let idx = arena.slots.len();
        arena.slots.push(Slot { value, readers: 0, writer: false });
        proof {
            assert(arena@ =~= old(arena)@.push(fresh_slot(value@)));
        }
        Data { idx }
    }

    /// A read access scoped to this call: hands out a copy of the cell's
    /// value. It succeeds whenever no write access is live; the conflict is
    /// reported, not waited out.
    pub fn borrow(&self, arena: &CellArena, line: i32) -> (r: Result<DataKind, RuntimeFailure>)
        requires
            data_valid(self@, arena@),
        ensures
            match r {
                Ok(v) => !arena@[self@].writer && v@ == arena@[self@].value,
                Err(e) => arena@[self@].writer && e@ == Failure::BorrowError("Cannot borrow a variable when it has a mutable reference in use"@, line as int),
            },
    {
        let slot = &arena.slots[self.idx];
        if slot.writer {
            Err(RuntimeFailure::BorrowError("Cannot borrow a variable when it has a mutable reference in use".to_owned(), line))
        } else {
            Ok(slot.value.duplicate())
        }
    }

    /// A write access scoped to this call: replaces the cell's value. It
    /// succeeds only when no other access, read or write, is live.
    pub fn borrow_mut(&self, arena: &mut CellArena, value: DataKind, line: i32) -> (r: Result<(), RuntimeFailure>)
        requires
            data_valid(self@, old(arena)@),
        ensures
            match r {
                Ok(()) => {
                    &&& !old(arena)@[self@].writer
                    &&& old(arena)@[self@].readers == 0
                    &&& final(arena)@ == old(arena)@.update(self@, SlotView { value: value@, ..old(arena)@[self@] })
                },
                Err(e) => {
                    &&& old(arena)@[self@].writer || old(arena)@[self@].readers != 0
                    &&& final(arena)@ == old(arena)@
                    &&& e@ == Failure::BorrowError("Cannot borrow a variable mutably when it already has a reference in use"@, line as int)
                },
            },
    {
        let slot = &arena.slots[self.idx];
        if slot.writer || slot.readers != 0 {
            Err(RuntimeFailure::BorrowError("Cannot borrow a variable mutably when it already has a reference in use".to_owned(), line))
        } else {
            let readers = slot.readers;
            arena.slots.set(self.idx, Slot { value, readers: 0, writer: false });
            proof {
                assert(arena@ =~= old(arena)@.update(self@, SlotView { value: value@, ..old(arena)@[self@] }));
            }
            Ok(())
        }
    }

    /// Takes a lasting read access (a handle in the contract's sense): it
    /// succeeds whenever no write access is live, and must be paired with
    /// `release_read`.
    pub fn acquire_read(&self, arena: &mut CellArena, line: i32) -> (r: Result<(), RuntimeFailure>)
        requires
            data_valid(self@, old(arena)@),
            old(arena)@[self@].readers < u64::MAX,
        ensures
            match r {
                Ok(()) => {
                    &&& !old(arena)@[self@].writer
                    &&& final(arena)@ == old(arena)@.update(self@, SlotView { readers: old(arena)@[self@].readers + 1, ..old(arena)@[self@] })
                },
                Err(e) => {
                    &&& old(arena)@[self@].writer
                    &&& final(arena)@ == old(arena)@
                    &&& e@ == Failure::BorrowError("Cannot borrow a variable when it has a mutable reference in use"@, line as int)
                },
            },
    {
        let slot = &arena.slots[self.idx];
        if slot.writer {
            Err(RuntimeFailure::BorrowError("Cannot borrow a variable when it has a mutable reference in use".to_owned(), line))
        } else {
            let value = slot.value.duplicate();
            let readers = slot.readers;
            let writer = slot.writer;
            arena.slots.set(self.idx, Slot { value, readers: readers + 1, writer });
            proof {
                assert(arena@ =~= old(arena)@.update(self@, SlotView { readers: old(arena)@[self@].readers + 1, ..old(arena)@[self@] }));
            }
            Ok(())
        }
    }

    /// Releases one read access taken by `acquire_read`.
    pub fn release_read(&self, arena: &mut CellArena)
        requires
            data_valid(self@, old(arena)@),
            old(arena)@[self@].readers > 0,
        ensures
            final(arena)@ == old(arena)@.update(self@, SlotView { readers: old(arena)@[self@].readers - 1, ..old(arena)@[self@] }),
    {
        let slot = &arena.slots[self.idx];
        let value = slot.value.duplicate();
        let readers = slot.readers;
        let writer = slot.writer;
        arena.slots.set(self.idx, Slot { value, readers: readers - 1, writer });
        proof {
            assert(arena@ =~= old(arena)@.update(self@, SlotView { readers: old(arena)@[self@].readers - 1, ..old(arena)@[self@] }));
        }
    }

    /// Takes the lasting write access: it succeeds only when no other access
    /// is live, and must be paired with `release_write`.
    pub fn acquire_write(&self, arena: &mut CellArena, line: i32) -> (r: Result<(), RuntimeFailure>)
        requires
            data_valid(self@, old(arena)@),
        ensures
            match r {
                Ok(()) => {
                    &&& !old(arena)@[self@].writer
                    &&& old(arena)@[self@].readers == 0
                    &&& final(arena)@ == old(arena)@.update(self@, SlotView { writer: true, ..old(arena)@[self@] })
                },
                Err(e) => {
                    &&& old(arena)@[self@].writer || old(arena)@[self@].readers != 0
                    &&& final(arena)@ == old(arena)@
                    &&& e@ == Failure::BorrowError("Cannot borrow a variable mutably when it already has a reference in use"@, line as int)
                },
            },
    {
        let slot = &arena.slots[self.idx];
        if slot.writer || slot.readers != 0 {
            Err(RuntimeFailure::BorrowError("Cannot borrow a variable mutably when it already has a reference in use".to_owned(), line))
        } else {
            let value = slot.value.duplicate();
            arena.slots.set(self.idx, Slot { value, readers: 0, writer: true });
            proof {
                assert(arena@ =~= old(arena)@.update(self@, SlotView { writer: true, ..old(arena)@[self@] }));
            }
            Ok(())
        }
    }

    /// Releases the write access taken by `acquire_write`, leaving the given
    /// value in the cell.
    pub fn release_write(&self, arena: &mut CellArena, value: DataKind)
        requires
            data_valid(self@, old(arena)@),
            old(arena)@[self@].writer,
        ensures
            final(arena)@ == old(arena)@.update(self@, SlotView { value: value@, readers: old(arena)@[self@].readers, writer: false }),
    {
        let slot = &arena.slots[self.idx];
        let readers = slot.readers;
        arena.slots.set(self.idx, Slot { value, readers, writer: false });
        proof {
            assert(arena@ =~= old(arena)@.update(self@, SlotView { value: value@, readers: old(arena)@[self@].readers, writer: false }));
        }
    }
}

} // verus!
