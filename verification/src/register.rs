//! The mathematical model of the calculator: what a register holds, and what
//! each operation makes of it.

use vstd::prelude::*;
use crate::error::Fault;

verus! {

/// The four arithmetic operations.
pub enum Operation {
    Add,
    Sub,
    Mul,
    Div,
}

/// What a register holds: a valid integer, or the fault that ended the
/// calculation.
pub type Register = Result<int, Fault>;

impl Operation {
    /// The context that an error carries when it arises in this operation.
    pub open spec fn context(self) -> Seq<char> {
        match self {
            Operation::Add => "Occurred in 'add'"@,
            Operation::Sub => "Occurred in 'sub'"@,
            Operation::Mul => "Occurred in 'mul'"@,
            Operation::Div => "Occurred in 'div'"@,
        }
    }

    /// The mathematical result of the operation on `x` and `y`. For a
    /// division, `y` is not zero.
    pub open spec fn exact(self, x: int, y: int) -> int {
        match self {
            Operation::Add => x + y,
            Operation::Sub => x - y,
            Operation::Mul => x * y,
            Operation::Div => truncated_quotient(x, y),
        }
    }

    /// What the operation makes of a valid `x` and an operand `y`: a division
    /// by zero, an overflow where the mathematical result does not fit in 32
    /// bits, and that result otherwise.
    pub open spec fn outcome(self, x: int, y: int) -> Register {
        if self is Div && y == 0 {
            Err(Fault::DivisionByZero(self.context()))
        } else if !fits(self.exact(x, y)) {
            Err(Fault::IntegerOverflow(self.context()))
        } else {
            Ok(self.exact(x, y))
        }
    }

    /// One step of a chain: an error in the register stays as it is, a valid
    /// value is replaced by the outcome of the operation.
    pub open spec fn step(self, reg: Register, y: int) -> Register {
        match reg {
            Ok(x) => self.outcome(x, y),
            Err(fault) => Err(fault),
        }
    }

    /// The operation on two registers. An error on the left stays; failing
    /// that, an error on the right is taken over; failing that, the operation
    /// is applied to the two values.
    pub open spec fn merge(self, lhs: Register, rhs: Register) -> Register {
        match lhs {
            Err(fault) => Err(fault),
            Ok(_) => match rhs {
                Err(fault) => Err(fault),
                Ok(y) => self.step(lhs, y),
            },
        }
    }
}

/// Whether `v` is a signed 32-bit value.
pub open spec fn fits(v: int) -> bool {
    -2147483648 <= v <= 2147483647
}

/// The absolute value of `v`.
pub open spec fn magnitude(v: int) -> int {
    if v < 0 {
        -v
    } else {
        v
    }
}

/// The quotient of `x` by a nonzero `y`, rounded toward zero: the quotient of
/// the magnitudes, negated where the signs of `x` and `y` differ.
pub open spec fn truncated_quotient(x: int, y: int) -> int
    recommends
        y != 0,
{
    let q = magnitude(x) / magnitude(y);
    if (x < 0) == (y < 0) {
        q
    } else {
        -q
    }
}

/// The text shown for a register.
pub open spec fn rendering(reg: Register) -> Seq<char> {
    match reg {
        Ok(v) => "Result: "@ + crate::decimal::decimal(v),
        Err(fault) => fault.rendering(),
    }
}

} // verus!
