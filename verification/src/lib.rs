//! A Reverse Polish Notation calculator engine with a verified core.
//!
//! The engine owns a stack of 64-bit values, each holding the bit pattern of
//! an IEEE 754 double-precision number. One token at a time, [`engine::KubikEngine::eval`]
//! classifies the token as a number, a named constant, a stack command, or a
//! unary or binary operator, enforces arity and domain constraints, and either
//! updates the stack itself or hands the caller a fully-checked arithmetic
//! request to carry out. Everything except the floating-point arithmetic
//! itself — classification, arity policy, the division-by-zero restore, the
//! factorial domain check and its saturation policy — is stated in contracts
//! and proved.

pub mod bits;
pub mod engine;
pub mod errors;
pub mod laws;
