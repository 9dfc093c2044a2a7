use vstd::prelude::*;

verus! {

/// The closed set of failures an evaluation can report.
///
/// Every failure is plain data returned to the caller; the engine never
/// panics and never aborts. `InvalidToken` carries either the offending
/// token text or a human-readable domain-violation message.
#[derive(Debug)]
pub enum CalcError {
    /// An operator needed more operands than the stack holds.
    NotEnoughOperands,
    /// A division whose divisor is zero.
    DivisionByZero,
    /// The token is not a number, constant, command or operator name,
    /// or a recognized operator's domain precondition was violated.
    InvalidToken(String),
}

} // verus!
