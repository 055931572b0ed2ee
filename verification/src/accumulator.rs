//! The calculator itself.

use vstd::prelude::*;
use crate::decimal::push_decimal;
use crate::error::CalculationError;
use crate::register::{fits, rendering, Operation, Register};

verus! {

/// A chainable calculator. Its register holds a valid integer or the error
/// that ended the calculation; each operation consumes the calculator and
/// gives the next one.
pub struct Calc {
    reg: Result<i32, CalculationError>,
}

impl View for Calc {
    type V = Register;

    closed spec fn view(&self) -> Register {
        match self.reg {
            Ok(x) => Ok(x as int),
            Err(e) => Err(e@),
        }
    }
}

impl Calc {
    /// A valid value in the register is a signed 32-bit integer.
    pub proof fn lemma_value_fits(&self)
        ensures
            self@ matches Ok(v) ==> fits(v),
    {
    }

    /// A calculator whose register holds `x`.
    pub fn new(x: i32) -> (calc: Calc)
        ensures
            calc@ == Register::Ok(x as int),
    {
        Calc { reg: Ok(x) }
    }

    /// Adds `rhs` to the register.
    pub fn add(self, rhs: i32) -> (calc: Calc)
        ensures
            calc@ == Operation::Add.step(self@, rhs as int),
    {
        match self.reg {
            Ok(x) => match x.checked_add(rhs) {
                Some(sum) => Calc { reg: Ok(sum) },
                None => Calc {
                    reg: Err(
                        CalculationError::IntegerOverflow(String::from_str("Occurred in 'add'")),
                    ),
                },
            },
            Err(e) => Calc { reg: Err(e) },
        }
    }

    /// Subtracts `rhs` from the register.
    pub fn sub(self, rhs: i32) -> (calc: Calc)
        ensures
            calc@ == Operation::Sub.step(self@, rhs as int),
    {
        match self.reg {
            Ok(x) => match x.checked_sub(rhs) {
                Some(difference) => Calc { reg: Ok(difference) },
                None => Calc {
                    reg: Err(
                        CalculationError::IntegerOverflow(String::from_str("Occurred in 'sub'")),
                    ),
                },
            },
            Err(e) => Calc { reg: Err(e) },
        }
    }

    /// Multiplies the register by `rhs`.
    pub fn mul(self, rhs: i32) -> (calc: Calc)
        ensures
            calc@ == Operation::Mul.step(self@, rhs as int),
    {
        match self.reg {
            Ok(x) => match x.checked_mul(rhs) {
                Some(product) => Calc { reg: Ok(product) },
                None => Calc {
                    reg: Err(
                        CalculationError::IntegerOverflow(String::from_str("Occurred in 'mul'")),
                    ),
                },
            },
            Err(e) => Calc { reg: Err(e) },
        }
    }

    /// Divides the register by `rhs`, rounding toward zero.
    pub fn div(self, rhs: i32) -> (calc: Calc)
        ensures
            calc@ == Operation::Div.step(self@, rhs as int),
    {
        match self.reg {
            Ok(x) => match x.checked_div(rhs) {
                Some(quotient) => Calc { reg: Ok(quotient) },
                None => {
                    let msg = "Occurred in 'div'";
                    if rhs == 0 {
                        Calc { reg: Err(CalculationError::DivisionByZero(String::from_str(msg))) }
                    } else {
                        Calc { reg: Err(CalculationError::IntegerOverflow(String::from_str(msg))) }
                    }
                },
            },
            Err(e) => Calc { reg: Err(e) },
        }
    }

    /// Combines two calculators by `op`, which is applied to `self` and the
    /// value of `rhs` where `rhs` holds one. Where `rhs` holds an error, the
    /// result holds the error of `self` if there is one, else that of `rhs`.
    fn self_op<F: FnOnce(Calc, i32) -> Calc>(self, rhs: Calc, op: F) -> (calc: Calc)
        requires
            forall|lhs: Calc, y: i32| op.requires((lhs, y)),
        ensures
            rhs.reg matches Ok(y) ==> op.ensures((self, y), calc),
            rhs.reg matches Err(e) ==> calc@ == Register::Err(
                match self@ {
                    Ok(_) => e@,
                    Err(fault) => fault,
                },
            ),
    {
        match rhs.reg {
            Ok(x) => op(self, x),
            Err(rhs_err) => Calc {
                reg: match self.reg {
                    Ok(_) => Err(rhs_err),
                    Err(self_err) => Err(self_err),
                },
            },
        }
    }

    /// The sum of two calculators.
    pub fn plus(self, rhs: Calc) -> (calc: Calc)
        ensures
            calc@ == Operation::Add.merge(self@, rhs@),
    {
        self.self_op(rhs, Calc::add)
    }

    /// The difference of two calculators.
    pub fn minus(self, rhs: Calc) -> (calc: Calc)
        ensures
            calc@ == Operation::Sub.merge(self@, rhs@),
    {
        self.self_op(rhs, Calc::sub)
    }

    /// The product of two calculators.
    pub fn times(self, rhs: Calc) -> (calc: Calc)
        ensures
            calc@ == Operation::Mul.merge(self@, rhs@),
    {
        self.self_op(rhs, Calc::mul)
    }

    /// The quotient of two calculators, rounded toward zero.
    pub fn divided_by(self, rhs: Calc) -> (calc: Calc)
        ensures
            calc@ == Operation::Div.merge(self@, rhs@),
    {
        self.self_op(rhs, Calc::div)
    }

    /// Renders the register as text.
    pub fn to_string(&self) -> (text: String)
        ensures
            text@ == rendering(self@),
    {
        match &self.reg {
            Ok(r) => {
                let mut text = String::from_str("Result: ");
                push_decimal(&mut text, *r);
                text
            },
            Err(e) => e.to_string(),
        }
    }
}

impl Default for Calc {
    /// A calculator whose register holds zero.
    fn default() -> (calc: Calc)
        ensures
            calc@ == Register::Ok(0),
    {
        Calc { reg: Ok(0) }
    }
}

/// The operator `+` promises nothing by itself: two calculators with the
/// same register are not the same value, so its result is stated over the
/// view, on [`Calc::plus`].
impl vstd::std_specs::ops::AddSpecImpl for Calc {
    open spec fn obeys_add_spec() -> bool {
        false
    }

    open spec fn add_req(self, rhs: Calc) -> bool {
        true
    }

    open spec fn add_spec(self, rhs: Calc) -> Calc {
        self
    }
}

impl core::ops::Add for Calc {
    type Output = Calc;

    /// The operator `+` on two calculators: a call of [`Calc::plus`].
    fn add(self, rhs: Calc) -> Calc {
        self.plus(rhs)
    }
}

/// The operator `-` promises nothing by itself: two calculators with the
/// same register are not the same value, so its result is stated over the
/// view, on [`Calc::minus`].
impl vstd::std_specs::ops::SubSpecImpl for Calc {
    open spec fn obeys_sub_spec() -> bool {
        false
    }

    open spec fn sub_req(self, rhs: Calc) -> bool {
        true
    }

    open spec fn sub_spec(self, rhs: Calc) -> Calc {
        self
    }
}

impl core::ops::Sub for Calc {
    type Output = Calc;

    /// The operator `-` on two calculators: a call of [`Calc::minus`].
    fn sub(self, rhs: Calc) -> Calc {
        self.minus(rhs)
    }
}

/// The operator `*` promises nothing by itself: two calculators with the
/// same register are not the same value, so its result is stated over the
/// view, on [`Calc::times`].
impl vstd::std_specs::ops::MulSpecImpl for Calc {
    open spec fn obeys_mul_spec() -> bool {
        false
    }

    open spec fn mul_req(self, rhs: Calc) -> bool {
        true
    }

    open spec fn mul_spec(self, rhs: Calc) -> Calc {
        self
    }
}

impl core::ops::Mul for Calc {
    type Output = Calc;

    /// The operator `*` on two calculators: a call of [`Calc::times`].
    fn mul(self, rhs: Calc) -> Calc {
        self.times(rhs)
    }
}

/// The operator `/` promises nothing by itself: two calculators with the
/// same register are not the same value, so its result is stated over the
/// view, on [`Calc::divided_by`].
impl vstd::std_specs::ops::DivSpecImpl for Calc {
    open spec fn obeys_div_spec() -> bool {
        false
    }

    open spec fn div_req(self, rhs: Calc) -> bool {
        true
    }

    open spec fn div_spec(self, rhs: Calc) -> Calc {
        self
    }
}

impl core::ops::Div for Calc {
    type Output = Calc;

    /// The operator `/` on two calculators: a call of [`Calc::divided_by`].
    fn div(self, rhs: Calc) -> Calc {
        self.divided_by(rhs)
    }
}

} // verus!
