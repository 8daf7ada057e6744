//! Applying an operator to truth values.

use crate::error::{outcome, Error, ErrorView};
use crate::op::Op;
use crate::parse::{parse_bool, parse_bool_spec};
use vstd::prelude::*;

verus! {

/// What an operator makes of `a` and `b`. `Not` looks at `a` alone.
pub open spec fn truth(op: Op, a: bool, b: bool) -> bool {
    match op {
        Op::Not => !a,
        Op::And => a && b,
        Op::Or => a || b,
        Op::Xor => a != b,
        Op::Nand => !(a && b),
        Op::Nor => !(a || b),
        Op::Xnor => a == b,
        Op::Imp => a ==> b,
    }
}

/// The results of an operator over the inputs (F,F), (F,T), (T,F), (T,T), in
/// that order.
pub open spec fn column(op: Op) -> Seq<bool> {
    seq![
        truth(op, false, false),
        truth(op, false, true),
        truth(op, true, false),
        truth(op, true, true),
    ]
}

/// The outcome of applying `op` to `a` and an optional `b`: `Not` negates `a`
/// whatever `b` is; every other operator needs `b` and fails without it.
pub open spec fn apply_spec(op: Op, a: bool, b: Option<bool>) -> Result<bool, ErrorView> {
    if op == Op::Not {
        Ok(!a)
    } else {
        match b {
            Some(b) => Ok(truth(op, a, b)),
            None => Err(ErrorView::MissingOperand(op)),
        }
    }
}

/// The outcome of evaluating `op` on operands given as text. The first
/// operand is read first; the second is read only if the operator takes one.
pub open spec fn eval_spec(op: Op, a: Seq<char>, b: Option<Seq<char>>) -> Result<bool, ErrorView> {
    match parse_bool_spec(a) {
        Err(e) => Err(e),
        Ok(a) => if op == Op::Not {
            Ok(!a)
        } else {
            match b {
                None => Err(ErrorView::MissingOperand(op)),
                Some(b) => match parse_bool_spec(b) {
                    Err(e) => Err(e),
                    Ok(b) => Ok(truth(op, a, b)),
                },
            }
        },
    }
}

/// The view of an optional token.
pub open spec fn token_view(t: Option<&str>) -> Option<Seq<char>> {
    match t {
        Some(s) => Some(s@),
        None => None,
    }
}

/// The digit that stands for a truth value: 1 for true, 0 for false.
pub open spec fn bit_spec(x: bool) -> u8 {
    if x {
        1
    } else {
        0
    }
}

/// The connective of `op` on two truth values; `Not` negates the first.
pub fn combine(op: Op, a: bool, b: bool) -> (r: bool)
    ensures
        r == truth(op, a, b),
{
    match op {
        Op::Not => !a,
        Op::And => a && b,
        Op::Or => a || b,
        Op::Xor => a != b,
        Op::Nand => !(a && b),
        Op::Nor => !(a || b),
        Op::Xnor => a == b,
        Op::Imp => !a || b,
    }
}

/// Applies `op` to `a` and, for a binary operator, `b`.
pub fn apply(op: Op, a: bool, b: Option<bool>) -> (r: Result<bool, Error>)
    ensures
        outcome(r) == apply_spec(op, a, b),
{
    match op {
        Op::Not => Ok(!a),
        _ => match b {
            Some(b) => Ok(combine(op, a, b)),
            None => Err(Error::MissingOperand(op)),
        },
    }
}

/// Evaluates `op` on operands given as text.
pub fn eval(op: Op, a: &str, b: Option<&str>) -> (r: Result<bool, Error>)
    ensures
        outcome(r) == eval_spec(op, a@, token_view(b)),
{
    let a = match parse_bool(a) {
        Ok(a) => a,
        Err(e) => {
            return Err(e);
        },
    };
    let b = if op.is_unary() {
        None
    } else {
        match b {
            None => None,
            Some(b) => match parse_bool(b) {
                Ok(b) => Some(b),
                Err(e) => {
                    return Err(e);
                },
            },
        }
    };
    apply(op, a, b)
}

/// The digit that stands for a truth value.
pub fn bit(x: bool) -> (d: u8)
    ensures
        d == bit_spec(x),
{
    if x {
        1
    } else {
        0
    }
}

/// Negation ignores the second operand: the result is `!a` whether `b` is
/// absent or present, and whatever it is.
pub proof fn lemma_not_ignores_second_operand(a: bool, b: Option<bool>)
    ensures
        apply_spec(Op::Not, a, b) == Ok::<bool, ErrorView>(!a),
        apply_spec(Op::Not, a, b) == apply_spec(Op::Not, a, None),
{
}

/// With both operands present, each binary operator computes its connective.
pub proof fn lemma_binary_operators(a: bool, b: bool)
    ensures
        apply_spec(Op::And, a, Some(b)) == Ok::<bool, ErrorView>(a && b),
        apply_spec(Op::Or, a, Some(b)) == Ok::<bool, ErrorView>(a || b),
        apply_spec(Op::Xor, a, Some(b)) == Ok::<bool, ErrorView>((a || b) && !(a && b)),
        apply_spec(Op::Nand, a, Some(b)) == Ok::<bool, ErrorView>(!(a && b)),
        apply_spec(Op::Nor, a, Some(b)) == Ok::<bool, ErrorView>(!(a || b)),
        apply_spec(Op::Xnor, a, Some(b)) == Ok::<bool, ErrorView>(!((a || b) && !(a && b))),
        apply_spec(Op::Imp, a, Some(b)) == Ok::<bool, ErrorView>(!a || b),
{
}

/// The truth table of each binary operator, row by row over the inputs
/// (F,F), (F,T), (T,F), (T,T).
pub proof fn lemma_truth_tables()
    ensures
        column(Op::And) == seq![false, false, false, true],
        column(Op::Or) == seq![false, true, true, true],
        column(Op::Xor) == seq![false, true, true, false],
        column(Op::Nand) == seq![true, true, true, false],
        column(Op::Nor) == seq![true, false, false, false],
        column(Op::Xnor) == seq![true, false, false, true],
        column(Op::Imp) == seq![true, true, false, true],
{
    assert(column(Op::And) =~= seq![false, false, false, true]);
    assert(column(Op::Or) =~= seq![false, true, true, true]);
    assert(column(Op::Xor) =~= seq![false, true, true, false]);
    assert(column(Op::Nand) =~= seq![true, true, true, false]);
    assert(column(Op::Nor) =~= seq![true, false, false, false]);
    assert(column(Op::Xnor) =~= seq![true, false, false, true]);
    assert(column(Op::Imp) =~= seq![true, true, false, true]);
}

/// A binary operator fails exactly when its second operand is absent, and
/// the failure names the operator.
pub proof fn lemma_missing_operand(op: Op, a: bool, b: Option<bool>)
    requires
        op != Op::Not,
    ensures
        apply_spec(op, a, b) is Err <==> b is None,
        b is None ==> apply_spec(op, a, b)
            == Err::<bool, ErrorView>(ErrorView::MissingOperand(op)),
{
}

/// Evaluation on text is reading the operands and then applying the
/// operator: when the first operand reads as `x`, and the second, where the
/// operator takes one and it is present, reads as `y`, the outcome is that of
/// `apply` on `x` and `y`.
pub proof fn lemma_eval_is_apply(op: Op, a: Seq<char>, b: Option<Seq<char>>, x: bool)
    requires
        parse_bool_spec(a) == Ok::<bool, ErrorView>(x),
    ensures
        op == Op::Not ==> eval_spec(op, a, b) == apply_spec(op, x, None),
        b is None ==> eval_spec(op, a, b) == apply_spec(op, x, None),
        op != Op::Not && b is Some ==> (match parse_bool_spec(b->0) {
            Ok(y) => eval_spec(op, a, b) == apply_spec(op, x, Some(y)),
            Err(e) => eval_spec(op, a, b) == Err::<bool, ErrorView>(e),
        }),
{
}

} // verus!
