//! The classified errors that a calculation can end in.

use vstd::prelude::*;

verus! {

/// Why a calculation failed. Each variant carries a context: free text that
/// names the operation in which the failure occurred.
#[derive(Debug)]
pub enum CalculationError {
    IntegerOverflow(String),
    DivisionByZero(String),
}

/// The mathematical value of a [`CalculationError`]: its kind, and its
/// context as a sequence of characters.
pub enum Fault {
    IntegerOverflow(Seq<char>),
    DivisionByZero(Seq<char>),
}

impl Fault {
    /// The text shown for the fault: a fixed sentence for its kind, followed
    /// by its context.
    pub open spec fn rendering(self) -> Seq<char> {
        match self {
            Fault::IntegerOverflow(ctx) => "Error! Integer overflow. "@ + ctx,
            Fault::DivisionByZero(ctx) => "Error! Division by zero. "@ + ctx,
        }
    }
}

impl View for CalculationError {
    type V = Fault;

    open spec fn view(&self) -> Fault {
        match self {
            CalculationError::IntegerOverflow(ctx) => Fault::IntegerOverflow(ctx@),
            CalculationError::DivisionByZero(ctx) => Fault::DivisionByZero(ctx@),
        }
    }
}

impl CalculationError {
    /// Renders the error as text.
    pub fn to_string(&self) -> (text: String)
        ensures
            text@ == self@.rendering(),
    {
        match self {
            CalculationError::IntegerOverflow(ctx) => {
                String::from_str("Error! Integer overflow. ").concat(ctx.as_str())
            },
            CalculationError::DivisionByZero(ctx) => {
                String::from_str("Error! Division by zero. ").concat(ctx.as_str())
            },
        }
    }
}

} // verus!
