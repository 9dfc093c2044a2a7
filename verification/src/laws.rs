//! The engine's laws: consequences of [`crate::engine::eval_step`] stated
//! and proved once, for every stack and every token of the given shape.

use crate::bits::{is_zero_bits, POS_INFINITY_BITS};
use crate::engine::{
    binary_op_of, eval_step, factorial_in_domain, factorial_saturates, spec_class, unary_op_of,
    BinaryOp, Class, OpCall, UnaryOp,
};
use crate::errors::CalcError;
use vstd::prelude::*;

verus! {

/// A token that parses as a finite numeric literal always succeeds and
/// leaves exactly one new element, equal to that literal, on top of the
/// stack.
pub proof fn lemma_literal_pushes(
    pre: Seq<u64>,
    token: Seq<char>,
    b: u64,
    post: Seq<u64>,
    r: Result<Option<OpCall>, CalcError>,
)
    requires
        eval_step(pre, token, Some(b), post, r),
    ensures
        post == pre.push(b),
        post.len() == pre.len() + 1,
        post.last() == b,
        r == Ok::<Option<OpCall>, CalcError>(None),
{
}

/// `clear` always succeeds and results in an empty stack, regardless of
/// prior contents.
pub proof fn lemma_clear_empties(pre: Seq<u64>, post: Seq<u64>, r: Result<Option<OpCall>, CalcError>)
    requires
        eval_step(pre, "clear"@, None, post, r),
    ensures
        post == Seq::<u64>::empty(),
        r == Ok::<Option<OpCall>, CalcError>(None),
{
    reveal_strlit("clear");
    reveal_strlit("pi");
    reveal_strlit("e");
    assert("clear"@.len() == 5);
    assert("pi"@.len() == 2);
    assert("e"@.len() == 1);
}

/// `drop` on an empty stack succeeds and leaves the stack empty: an empty
/// pop is a no-op, not an error.
pub proof fn lemma_drop_on_empty(post: Seq<u64>, r: Result<Option<OpCall>, CalcError>)
    requires
        eval_step(Seq::<u64>::empty(), "drop"@, None, post, r),
    ensures
        post == Seq::<u64>::empty(),
        r == Ok::<Option<OpCall>, CalcError>(None),
{
    reveal_strlit("drop");
    reveal_strlit("clear");
    reveal_strlit("pi");
    reveal_strlit("e");
    assert("drop"@.len() == 4);
    assert("clear"@.len() == 5);
    assert("pi"@.len() == 2);
    assert("e"@.len() == 1);
}

/// An operator that finds fewer operands than its arity asks for fails with
/// an arity shortfall, and the stack is wholly unchanged: the check comes
/// before any pop.
pub proof fn lemma_arity_shortfall(
    pre: Seq<u64>,
    token: Seq<char>,
    post: Seq<u64>,
    r: Result<Option<OpCall>, CalcError>,
)
    requires
        eval_step(pre, token, None, post, r),
        (spec_class(token, None) matches Class::Unary(_) && pre.len() == 0) || (spec_class(
            token,
            None,
        ) matches Class::Binary(_) && pre.len() < 2),
    ensures
        post == pre,
        r == Err::<Option<OpCall>, CalcError>(CalcError::NotEnoughOperands),
{
}

/// Division by zero fails with the distinguished division error and leaves
/// the stack exactly as before the call: both popped operands are restored
/// in their original order.
pub proof fn lemma_division_by_zero_restores(
    pre: Seq<u64>,
    token: Seq<char>,
    post: Seq<u64>,
    r: Result<Option<OpCall>, CalcError>,
)
    requires
        eval_step(pre, token, None, post, r),
        spec_class(token, None) == Class::Binary(BinaryOp::Div),
        pre.len() >= 2,
        is_zero_bits(pre.last()),
    ensures
        post == pre,
        r == Err::<Option<OpCall>, CalcError>(CalcError::DivisionByZero),
{
}

/// A factorial whose operand is negative or not a whole number fails with
/// the domain message, and the operand stays popped — unlike division, this
/// failure path does not restore what it consumed.
pub proof fn lemma_factorial_domain_failure(
    pre: Seq<u64>,
    token: Seq<char>,
    post: Seq<u64>,
    r: Result<Option<OpCall>, CalcError>,
)
    requires
        eval_step(pre, token, None, post, r),
        spec_class(token, None) == Class::Unary(UnaryOp::Factorial),
        pre.len() > 0,
        !factorial_in_domain(pre.last()),
    ensures
        post == pre.drop_last(),
        r matches Err(CalcError::InvalidToken(s)) && s@ == "Factorial requires positive integer"@,
{
}

/// A factorial of a whole number above the largest representable argument
/// saturates: the call succeeds and pushes positive infinity in place of
/// the operand, rather than failing.
pub proof fn lemma_factorial_saturates(
    pre: Seq<u64>,
    token: Seq<char>,
    post: Seq<u64>,
    r: Result<Option<OpCall>, CalcError>,
)
    requires
        eval_step(pre, token, None, post, r),
        spec_class(token, None) == Class::Unary(UnaryOp::Factorial),
        pre.len() > 0,
        factorial_in_domain(pre.last()),
        factorial_saturates(pre.last()),
    ensures
        post == pre.drop_last().push(POS_INFINITY_BITS),
        r == Ok::<Option<OpCall>, CalcError>(None),
{
}

/// The recognized names form a fixed partition: no token names both a
/// unary and a binary operator, and no constant or command name names an
/// operator. Classification therefore never depends on its first-match
/// order for recognized names.
#[verifier::rlimit(50)]
pub proof fn lemma_operator_sets_disjoint(t: Seq<char>)
    ensures
        !(unary_op_of(t) is Some && binary_op_of(t) is Some),
        (t == "pi"@ || t == "e"@ || t == "clear"@ || t == "drop"@) ==> unary_op_of(t) is None
            && binary_op_of(t) is None,
{
    reveal_strlit("pi");
    reveal_strlit("e");
    reveal_strlit("clear");
    reveal_strlit("drop");
    reveal_strlit("sqrt");
    reveal_strlit("sin");
    reveal_strlit("cos");
    reveal_strlit("tan");
    reveal_strlit("asin");
    reveal_strlit("acos");
    reveal_strlit("atan");
    reveal_strlit("sinh");
    reveal_strlit("cosh");
    reveal_strlit("tanh");
    reveal_strlit("ln");
    reveal_strlit("log");
    reveal_strlit("deg");
    reveal_strlit("rad");
    reveal_strlit("abs");
    reveal_strlit("round");
    reveal_strlit("ceil");
    reveal_strlit("floor");
    reveal_strlit("recip");
    reveal_strlit("!");
    reveal_strlit("+");
    reveal_strlit("-");
    reveal_strlit("*");
    reveal_strlit("/");
    reveal_strlit("^");
    reveal_strlit("pow");
    reveal_strlit("root");
    reveal_strlit("log_base");
    assert("pi"@.len() == 2 && "pi"@[0] == 'p');
    assert("e"@.len() == 1 && "e"@[0] == 'e');
    assert("clear"@.len() == 5 && "clear"@[0] == 'c');
    assert("drop"@.len() == 4 && "drop"@[0] == 'd');
    assert("sqrt"@.len() == 4 && "sqrt"@[0] == 's');
    assert("sin"@.len() == 3 && "sin"@[0] == 's');
    assert("cos"@.len() == 3 && "cos"@[0] == 'c');
    assert("tan"@.len() == 3 && "tan"@[0] == 't');
    assert("asin"@.len() == 4 && "asin"@[0] == 'a');
    assert("acos"@.len() == 4 && "acos"@[0] == 'a');
    assert("atan"@.len() == 4 && "atan"@[0] == 'a');
    assert("sinh"@.len() == 4 && "sinh"@[0] == 's');
    assert("cosh"@.len() == 4 && "cosh"@[0] == 'c');
    assert("tanh"@.len() == 4 && "tanh"@[0] == 't');
    assert("ln"@.len() == 2 && "ln"@[0] == 'l');
    assert("log"@.len() == 3 && "log"@[0] == 'l');
    assert("deg"@.len() == 3 && "deg"@[0] == 'd');
    assert("rad"@.len() == 3 && "rad"@[0] == 'r');
    assert("abs"@.len() == 3 && "abs"@[0] == 'a');
    assert("round"@.len() == 5 && "round"@[0] == 'r');
    assert("ceil"@.len() == 4 && "ceil"@[0] == 'c');
    assert("floor"@.len() == 5 && "floor"@[0] == 'f');
    assert("recip"@.len() == 5 && "recip"@[0] == 'r');
    assert("!"@.len() == 1 && "!"@[0] == '!');
    assert("+"@.len() == 1 && "+"@[0] == '+');
    assert("-"@.len() == 1 && "-"@[0] == '-');
    assert("*"@.len() == 1 && "*"@[0] == '*');
    assert("/"@.len() == 1 && "/"@[0] == '/');
    assert("^"@.len() == 1 && "^"@[0] == '^');
    assert("pow"@.len() == 3 && "pow"@[0] == 'p');
    assert("root"@.len() == 4 && "root"@[0] == 'r');
    assert("log_base"@.len() == 8);
}

/// A token that matches no category fails with an invalid-token error
/// carrying the token's own text, and the stack is unchanged.
pub proof fn lemma_unknown_token(
    pre: Seq<u64>,
    token: Seq<char>,
    post: Seq<u64>,
    r: Result<Option<OpCall>, CalcError>,
)
    requires
        eval_step(pre, token, None, post, r),
        spec_class(token, None) == Class::Unknown,
    ensures
        post == pre,
        r matches Err(CalcError::InvalidToken(s)) && s@ == token,
{
}

} // verus!
