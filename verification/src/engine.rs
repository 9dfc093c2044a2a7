//! The evaluation engine: token classification and the stack machine.

use crate::bits::{
    is_negative, is_negative_bits, is_whole, is_whole_bits, is_zero, is_zero_bits, magnitude,
    MAGNITUDE_MASK, POS_INFINITY_BITS,
};
use crate::errors::CalcError;
use vstd::prelude::*;
use vstd::string::StringExecFns;

verus! {

/// The bit pattern of the double-precision value closest to the circle
/// constant pi.
pub const PI_BITS: u64 = 0x4009_21FB_5444_2D18;

/// The bit pattern of the double-precision value closest to Euler's number.
pub const E_BITS: u64 = 0x4005_BF0A_8B14_5769;

/// The bit pattern of the value 170, the largest argument whose factorial
/// still fits in a double; factorials of larger whole numbers saturate to
/// positive infinity.
pub const FACTORIAL_LIMIT_BITS: u64 = 0x4065_4000_0000_0000;

/// The unary operators: each pops one operand and pushes one result.
#[derive(Clone, Copy, Debug, PartialEq, Eq, Structural)]
pub enum UnaryOp {
    Sqrt,
    Sin,
    Cos,
    Tan,
    Asin,
    Acos,
    Atan,
    Sinh,
    Cosh,
    Tanh,
    Ln,
    Log10,
    Deg,
    Rad,
    Abs,
    Round,
    Ceil,
    Floor,
    Recip,
    Factorial,
}

/// The binary operators: each pops two operands and pushes one result.
#[derive(Clone, Copy, Debug, PartialEq, Eq, Structural)]
pub enum BinaryOp {
    Add,
    Sub,
    Mul,
    Div,
    Pow,
    Root,
    LogBase,
}

/// What a token asks the engine to do, decided before any stack access.
/// Every recognized name falls in exactly one category; classification
/// tries numbers first, then constants, commands, unary names and binary
/// names, so this enum is the dispatch table of the evaluator.
#[derive(Clone, Copy, Debug, PartialEq, Eq, Structural)]
pub enum Class {
    /// Push this bit pattern: a numeric literal or a named constant.
    Push(u64),
    /// The `clear` command: empty the stack.
    ClearAll,
    /// The `drop` command: remove the top element if present.
    DropTop,
    /// A unary operator name.
    Unary(UnaryOp),
    /// A binary operator name.
    Binary(BinaryOp),
    /// No category matched.
    Unknown,
}

/// The unary operator, if any, that a token names.
pub open spec fn unary_op_of(t: Seq<char>) -> Option<UnaryOp> {
    if t == "sqrt"@ {
        Some(UnaryOp::Sqrt)
    } else if t == "sin"@ {
        Some(UnaryOp::Sin)
    } else if t == "cos"@ {
        Some(UnaryOp::Cos)
    } else if t == "tan"@ {
        Some(UnaryOp::Tan)
    } else if t == "asin"@ {
        Some(UnaryOp::Asin)
    } else if t == "acos"@ {
        Some(UnaryOp::Acos)
    } else if t == "atan"@ {
        Some(UnaryOp::Atan)
    } else if t == "sinh"@ {
        Some(UnaryOp::Sinh)
    } else if t == "cosh"@ {
        Some(UnaryOp::Cosh)
    } else if t == "tanh"@ {
        Some(UnaryOp::Tanh)
    } else if t == "ln"@ {
        Some(UnaryOp::Ln)
    } else if t == "log"@ {
        Some(UnaryOp::Log10)
    } else if t == "deg"@ {
        Some(UnaryOp::Deg)
    } else if t == "rad"@ {
        Some(UnaryOp::Rad)
    } else if t == "abs"@ {
        Some(UnaryOp::Abs)
    } else if t == "round"@ {
        Some(UnaryOp::Round)
    } else if t == "ceil"@ {
        Some(UnaryOp::Ceil)
    } else if t == "floor"@ {
        Some(UnaryOp::Floor)
    } else if t == "recip"@ {
        Some(UnaryOp::Recip)
    } else if t == "!"@ {
        Some(UnaryOp::Factorial)
    } else {
        None
    }
}

/// The binary operator, if any, that a token names. `^` and `pow` are two
/// names for the same power operator.
pub open spec fn binary_op_of(t: Seq<char>) -> Option<BinaryOp> {
    if t == "+"@ {
        Some(BinaryOp::Add)
    } else if t == "-"@ {
        Some(BinaryOp::Sub)
    } else if t == "*"@ {
        Some(BinaryOp::Mul)
    } else if t == "/"@ {
        Some(BinaryOp::Div)
    } else if t == "^"@ {
        Some(BinaryOp::Pow)
    } else if t == "pow"@ {
        Some(BinaryOp::Pow)
    } else if t == "root"@ {
        Some(BinaryOp::Root)
    } else if t == "log_base"@ {
        Some(BinaryOp::LogBase)
    } else {
        None
    }
}

/// How a token is classified, first match wins: a numeric literal (the
/// caller reports its parse as `number`), then the constants `pi` and `e`,
/// then the stack commands, then unary and binary operator names; anything
/// else is unknown.
pub open spec fn spec_class(t: Seq<char>, number: Option<u64>) -> Class {
    match number {
        Some(b) => Class::Push(b),
        None => if t == "pi"@ {
            Class::Push(PI_BITS)
        } else if t == "e"@ {
            Class::Push(E_BITS)
        } else if t == "clear"@ {
            Class::ClearAll
        } else if t == "drop"@ {
            Class::DropTop
        } else {
            match unary_op_of(t) {
                Some(op) => Class::Unary(op),
                None => match binary_op_of(t) {
                    Some(op) => Class::Binary(op),
                    None => Class::Unknown,
                },
            }
        },
    }
}

/// Relies on `str`'s `==` (its `PartialEq` implementation): the result is
/// true exactly when the two strings hold the same characters.
#[verifier::external_body]
fn str_eq(a: &str, b: &str) -> (r: bool)
    ensures
        r == (a@ == b@),
{
    a == b
}

/// Looks a token up in the unary operator table.
fn lookup_unary(token: &str) -> (r: Option<UnaryOp>)
    ensures
        r == unary_op_of(token@),
{
    if str_eq(token, "sqrt") {
        Some(UnaryOp::Sqrt)
    } else if str_eq(token, "sin") {
        Some(UnaryOp::Sin)
    } else if str_eq(token, "cos") {
        Some(UnaryOp::Cos)
    } else if str_eq(token, "tan") {
        Some(UnaryOp::Tan)
    } else if str_eq(token, "asin") {
        Some(UnaryOp::Asin)
    } else if str_eq(token, "acos") {
        Some(UnaryOp::Acos)
    } else if str_eq(token, "atan") {
        Some(UnaryOp::Atan)
    } else if str_eq(token, "sinh") {
        Some(UnaryOp::Sinh)
    } else if str_eq(token, "cosh") {
        Some(UnaryOp::Cosh)
    } else if str_eq(token, "tanh") {
        Some(UnaryOp::Tanh)
    } else if str_eq(token, "ln") {
        Some(UnaryOp::Ln)
    } else if str_eq(token, "log") {
        Some(UnaryOp::Log10)
    } else if str_eq(token, "deg") {
        Some(UnaryOp::Deg)
    } else if str_eq(token, "rad") {
        Some(UnaryOp::Rad)
    } else if str_eq(token, "abs") {
        Some(UnaryOp::Abs)
    } else if str_eq(token, "round") {
        Some(UnaryOp::Round)
    } else if str_eq(token, "ceil") {
        Some(UnaryOp::Ceil)
    } else if str_eq(token, "floor") {
        Some(UnaryOp::Floor)
    } else if str_eq(token, "recip") {
        Some(UnaryOp::Recip)
    } else if str_eq(token, "!") {
        Some(UnaryOp::Factorial)
    } else {
        None
    }
}

/// Looks a token up in the binary operator table.
fn lookup_binary(token: &str) -> (r: Option<BinaryOp>)
    ensures
        r == binary_op_of(token@),
{
    if str_eq(token, "+") {
        Some(BinaryOp::Add)
    } else if str_eq(token, "-") {
        Some(BinaryOp::Sub)
    } else if str_eq(token, "*") {
        Some(BinaryOp::Mul)
    } else if str_eq(token, "/") {
        Some(BinaryOp::Div)
    } else if str_eq(token, "^") {
        Some(BinaryOp::Pow)
    } else if str_eq(token, "pow") {
        Some(BinaryOp::Pow)
    } else if str_eq(token, "root") {
        Some(BinaryOp::Root)
    } else if str_eq(token, "log_base") {
        Some(BinaryOp::LogBase)
    } else {
        None
    }
}

/// Classifies one token. `number` reports the caller's attempt to parse the
/// token as a finite numeric literal: `Some` carries the parsed value's bit
/// pattern and is tried before any name lookup, as [`spec_class`] states.
pub fn classify(token: &str, number: Option<u64>) -> (c: Class)
    ensures
        c == spec_class(token@, number),
{
    match number {
        Some(b) => Class::Push(b),
        None => if str_eq(token, "pi") {
            Class::Push(PI_BITS)
        } else if str_eq(token, "e") {
            Class::Push(E_BITS)
        } else if str_eq(token, "clear") {
            Class::ClearAll
        } else if str_eq(token, "drop") {
            Class::DropTop
        } else {
            match lookup_unary(token) {
                Some(op) => Class::Unary(op),
                None => match lookup_binary(token) {
                    Some(op) => Class::Binary(op),
                    None => Class::Unknown,
                },
            }
        },
    }
}

/// An arithmetic request the engine hands back to its caller: an operation
/// whose arity and domain constraints have already been checked and whose
/// operands have already been popped. The caller computes the floating-point
/// result and returns it through [`KubikEngine::push_result`].
#[derive(Clone, Copy, Debug, PartialEq, Eq, Structural)]
pub enum OpCall {
    /// Apply this unary operator to the operand's bit pattern.
    Unary(UnaryOp, u64),
    /// Apply this binary operator; the first operand was pushed before the
    /// second.
    Binary(BinaryOp, u64, u64),
}

/// The factorial's domain: a value that is not negative and is a whole
/// number. Everything else — fractions, negative values, infinities,
/// NaNs — is rejected.
pub open spec fn factorial_in_domain(b: u64) -> bool {
    !is_negative_bits(b) && is_whole_bits(b)
}

/// Whether a factorial argument in the domain lies above the largest value
/// whose factorial a double can hold, so that the result saturates to
/// positive infinity. For the non-negative patterns the domain admits,
/// magnitude order coincides with numeric order.
pub open spec fn factorial_saturates(b: u64) -> bool {
    magnitude(b) > FACTORIAL_LIMIT_BITS
}

/// What one evaluation step does when the token names a unary operator:
/// an empty stack fails with an arity shortfall and no mutation; otherwise
/// the top is popped, a negative square-root operand or a factorial operand
/// outside its domain fails with the operand left popped, a factorial
/// operand above the saturation limit pushes positive infinity, and every
/// remaining case hands the popped operand out for computation.
pub open spec fn unary_step(
    pre: Seq<u64>,
    op: UnaryOp,
    post: Seq<u64>,
    r: Result<Option<OpCall>, CalcError>,
) -> bool {
    if pre.len() == 0 {
        post == pre && r == Err::<Option<OpCall>, CalcError>(CalcError::NotEnoughOperands)
    } else {
        let a = pre.last();
        if op == UnaryOp::Sqrt && is_negative_bits(a) {
            post == pre.drop_last() && (r matches Err(CalcError::InvalidToken(s)) && s@
                == "Sqrt of negative"@)
        } else if op == UnaryOp::Factorial && !factorial_in_domain(a) {
            post == pre.drop_last() && (r matches Err(CalcError::InvalidToken(s)) && s@
                == "Factorial requires positive integer"@)
        } else if op == UnaryOp::Factorial && factorial_saturates(a) {
            post == pre.drop_last().push(POS_INFINITY_BITS) && r == Ok::<
                Option<OpCall>,
                CalcError,
            >(None)
        } else {
            post == pre.drop_last() && r == Ok::<Option<OpCall>, CalcError>(
                Some(OpCall::Unary(op, a)),
            )
        }
    }
}

/// What one evaluation step does when the token names a binary operator:
/// fewer than two elements fail with an arity shortfall and no mutation; a
/// division by zero restores both popped operands in their original order,
/// leaving the stack exactly as before the call; every other case pops both
/// operands and hands them out for computation.
pub open spec fn binary_step(
    pre: Seq<u64>,
    op: BinaryOp,
    post: Seq<u64>,
    r: Result<Option<OpCall>, CalcError>,
) -> bool {
    if pre.len() < 2 {
        post == pre && r == Err::<Option<OpCall>, CalcError>(CalcError::NotEnoughOperands)
    } else {
        let b = pre.last();
        let a = pre[pre.len() - 2];
        if op == BinaryOp::Div && is_zero_bits(b) {
            post == pre && r == Err::<Option<OpCall>, CalcError>(CalcError::DivisionByZero)
        } else {
            post == pre.drop_last().drop_last() && r == Ok::<Option<OpCall>, CalcError>(
                Some(OpCall::Binary(op, a, b)),
            )
        }
    }
}

/// The full contract of one evaluation step, by the token's class: numbers
/// and constants push their value and always succeed; `clear` empties the
/// stack and always succeeds; `drop` removes the top if present and always
/// succeeds; operators follow [`unary_step`] and [`binary_step`]; an
/// unrecognized token fails carrying its own text, with the stack unchanged.
pub open spec fn eval_step(
    pre: Seq<u64>,
    token: Seq<char>,
    number: Option<u64>,
    post: Seq<u64>,
    r: Result<Option<OpCall>, CalcError>,
) -> bool {
    match spec_class(token, number) {
        Class::Push(b) => post == pre.push(b) && r == Ok::<Option<OpCall>, CalcError>(None),
        Class::ClearAll => post == Seq::<u64>::empty() && r == Ok::<Option<OpCall>, CalcError>(
            None,
        ),
        Class::DropTop => post == (if pre.len() == 0 {
            pre
        } else {
            pre.drop_last()
        }) && r == Ok::<Option<OpCall>, CalcError>(None),
        Class::Unary(op) => unary_step(pre, op, post, r),
        Class::Binary(op) => binary_step(pre, op, post, r),
        Class::Unknown => post == pre && (r matches Err(CalcError::InvalidToken(s)) && s@ == token),
    }
}

/// The evaluator: one stack of IEEE 754 bit patterns, transformed one token
/// at a time. There is no other state: each call is an independent
/// transformation of the current stack given one token.
pub struct KubikEngine {
    stack: Vec<u64>,
}

impl View for KubikEngine {
    type V = Seq<u64>;

    closed spec fn view(&self) -> Seq<u64> {
        self.stack@
    }
}

impl KubikEngine {
    /// A fresh evaluator with an empty stack.
    pub fn new() -> (r: Self)
        ensures
            r@ == Seq::<u64>::empty(),
    {
        KubikEngine { stack: Vec::new() }
    }

    /// A read-only view of the stack, bottom first; each element is the bit
    /// pattern of one double-precision value.
    pub fn get_stack(&self) -> (r: &Vec<u64>)
        ensures
            r@ == self@,
    {
        &self.stack
    }

    /// Evaluates one token against the current stack, exactly as
    /// [`eval_step`] states. `number` is the caller's parse of the token as
    /// a finite numeric literal (`None` when it is not one); everything else
    /// about the token is decided here. A returned [`OpCall`] asks the
    /// caller to compute the named operation on the already-popped operands
    /// and push the result back with [`Self::push_result`].
    pub fn eval(&mut self, token: &str, number: Option<u64>) -> (r: Result<
        Option<OpCall>,
        CalcError,
    >)
        ensures
            eval_step(old(self)@, token@, number, final(self)@, r),
    {
        match classify(token, number) {
            Class::Push(b) => {
                self.stack.push(b);
                Ok(None)
            },
            Class::ClearAll => {
                self.stack.clear();
                Ok(None)
            },
            Class::DropTop => {
                if self.stack.len() > 0 {
                    self.stack.pop();
                }
                Ok(None)
            },
            Class::Unary(op) => {
                if self.stack.len() == 0 {
                    return Err(CalcError::NotEnoughOperands);
                }
                let a: u64 = self.stack.pop().unwrap();
                if op == UnaryOp::Sqrt && is_negative(a) {
                    return Err(
                        CalcError::InvalidToken(String::from_str("Sqrt of negative")),
                    );
                }
                if op == UnaryOp::Factorial {
                    if is_negative(a) || !is_whole(a) {
                        return Err(
                            CalcError::InvalidToken(
                                String::from_str("Factorial requires positive integer"),
                            ),
                        );
                    }
                    if (a & MAGNITUDE_MASK) > FACTORIAL_LIMIT_BITS {
                        self.stack.push(POS_INFINITY_BITS);
                        return Ok(None);
                    }
                }
                Ok(Some(OpCall::Unary(op, a)))
            },
            Class::Binary(op) => {
                if self.stack.len() < 2 {
                    return Err(CalcError::NotEnoughOperands);
                }
                let b: u64 = self.stack.pop().unwrap();
                let a: u64 = self.stack.pop().unwrap();
                if op == BinaryOp::Div && is_zero(b) {
                    self.stack.push(a);
                    self.stack.push(b);
                    proof {
                        assert(self.stack@ =~= old(self)@);
                    }
                    return Err(CalcError::DivisionByZero);
                }
                Ok(Some(OpCall::Binary(op, a, b)))
            },
            Class::Unknown => Err(CalcError::InvalidToken(String::from_str(token))),
        }
    }

    /// Pushes a computed result back onto the stack: the second half of an
    /// [`OpCall`] round trip.
    pub fn push_result(&mut self, value: u64)
        ensures
            final(self)@ == old(self)@.push(value),
    {
        self.stack.push(value);
    }
}

} // verus!
