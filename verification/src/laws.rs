//! Laws of the library, stated over its mathematical models.
//!
//! The contracts of [`crate::accumulator::Calc`] say that each method computes
//! the function of [`crate::register`] that it is named after, and that of
//! [`crate::file_content::FileContent::common_lines`] that it computes
//! [`common`]; the laws here say what those functions do.

use vstd::prelude::*;
use crate::error::Fault;
use crate::file_content::common;
use crate::register::{fits, magnitude, truncated_quotient, Operation, Register};

verus! {

/// Absorption: once a register holds an error, every operation with every
/// operand leaves the error as it is, kind and context.
pub proof fn absorption(op: Operation, reg: Register, rhs: int)
    requires
        reg is Err,
    ensures
        op.step(reg, rhs) == reg,
{
}

/// Overflow detection: an addition, a subtraction or a multiplication on a
/// valid register gives the mathematical result where that is a signed 32-bit
/// value, and an overflow that names the operation where it is not.
pub proof fn overflow_detection(x: int, rhs: int)
    ensures
        Operation::Add.step(Ok(x), rhs) == (if fits(x + rhs) {
            Register::Ok(x + rhs)
        } else {
            Register::Err(Fault::IntegerOverflow("Occurred in 'add'"@))
        }),
        Operation::Sub.step(Ok(x), rhs) == (if fits(x - rhs) {
            Register::Ok(x - rhs)
        } else {
            Register::Err(Fault::IntegerOverflow("Occurred in 'sub'"@))
        }),
        Operation::Mul.step(Ok(x), rhs) == (if fits(x * rhs) {
            Register::Ok(x * rhs)
        } else {
            Register::Err(Fault::IntegerOverflow("Occurred in 'mul'"@))
        }),
{
}

/// Division rules: on a valid register, a division by zero is reported as
/// such; the smallest value divided by minus one overflows; every other
/// division gives the quotient rounded toward zero.
pub proof fn division_rules(x: int, rhs: int)
    requires
        fits(x),
        fits(rhs),
    ensures
        Operation::Div.step(Ok(x), rhs) == (if rhs == 0 {
            Register::Err(Fault::DivisionByZero("Occurred in 'div'"@))
        } else if x == -2147483648 && rhs == -1 {
            Register::Err(Fault::IntegerOverflow("Occurred in 'div'"@))
        } else {
            Register::Ok(truncated_quotient(x, rhs))
        }),
{
    if rhs != 0 {
        let a = magnitude(x);
        let b = magnitude(rhs);
        assert(0 <= a / b <= a) by (nonlinear_arith)
            requires
                a >= 0,
                b >= 1,
        ;
        if b >= 2 {
            assert(a / b <= a / 2) by (nonlinear_arith)
                requires
                    a >= 0,
                    b >= 2,
            ;
        } else {
            assert(a / b == a) by (nonlinear_arith)
                requires
                    b == 1,
            ;
        }
    }
}

/// Rounding toward zero: the quotient times the divisor differs from the
/// dividend by a remainder that is smaller in magnitude than the divisor and,
/// unless it is zero, has the sign of the dividend.
pub proof fn quotient_rounds_toward_zero(x: int, y: int)
    requires
        y != 0,
    ensures
        ({
            let r = x - truncated_quotient(x, y) * y;
            &&& magnitude(r) < magnitude(y)
            &&& r != 0 ==> (r < 0) == (x < 0)
        }),
{
    let a = magnitude(x);
    let b = magnitude(y);
    let q = a / b;
    assert(0 <= a - q * b < b) by (nonlinear_arith)
        requires
            a >= 0,
            b >= 1,
            q == a / b,
    ;
    assert(truncated_quotient(x, y) * y == (if x < 0 {
        -(q * b)
    } else {
        q * b
    })) by (nonlinear_arith)
        requires
            q == magnitude(x) / magnitude(y),
            b == magnitude(y),
            y != 0,
    ;
}

/// Merge precedence: where the left register is valid and the right one holds
/// an error, the merged register holds the right one's error.
pub proof fn merge_takes_right_error(op: Operation, lhs: Register, rhs: Register)
    requires
        lhs is Ok,
        rhs is Err,
    ensures
        op.merge(lhs, rhs) == rhs,
{
}

/// Merge precedence: an error in the left register stays, whatever the right
/// register holds.
pub proof fn merge_keeps_left_error(op: Operation, lhs: Register, rhs: Register)
    requires
        lhs is Err,
    ensures
        op.merge(lhs, rhs) == lhs,
{
}

/// Merging a register with a valid one is one step of a chain with the
/// right register's value as the operand.
pub proof fn merge_with_value_is_step(op: Operation, lhs: Register, y: int)
    ensures
        op.merge(lhs, Ok(y)) == op.step(lhs, y),
{
}

/// A sequence with one more item holds what it held before, and that item.
proof fn push_contains<A>(items: Seq<A>, item: A, needle: A)
    ensures
        items.push(item).contains(needle) <==> (items.contains(needle) || item == needle),
{
    let longer = items.push(item);
    if items.contains(needle) {
        let k = choose|k: int| 0 <= k < items.len() && items[k] == needle;
        assert(longer[k] == needle);
    }
    if item == needle {
        assert(longer[items.len() as int] == needle);
    }
}

/// The shared lines are those that occur in both sequences.
pub proof fn common_holds_the_shared_lines(
    first: Seq<Seq<char>>,
    second: Seq<Seq<char>>,
    line: Seq<char>,
)
    ensures
        common(first, second).contains(line) <==> (first.contains(line) && second.contains(line)),
    decreases second.len(),
{
    if second.len() > 0 {
        let init = second.drop_last();
        common_holds_the_shared_lines(first, init, line);
        assert(second =~= init.push(second.last()));
        push_contains(init, second.last(), line);
        push_contains(common(first, init), second.last(), line);
    }
}

/// No line occurs twice among the shared lines.
pub proof fn common_has_no_repeats(first: Seq<Seq<char>>, second: Seq<Seq<char>>)
    ensures
        common(first, second).no_duplicates(),
    decreases second.len(),
{
    if second.len() > 0 {
        common_has_no_repeats(first, second.drop_last());
    }
}

} // verus!
