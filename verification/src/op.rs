//! The closed set of operators and their names.

use vstd::prelude::*;

verus! {

/// A Boolean operator. `Not` takes one operand; every other operator takes two.
#[derive(Clone, Copy, Debug, PartialEq, Eq, Structural)]
pub enum Op {
    And,
    Or,
    Not,
    Xor,
    Nand,
    Nor,
    Xnor,
    /// Material implication, `A -> B`.
    Imp,
}

/// Every operator, in the order in which the tables of all operators are listed.
pub open spec fn operators() -> Seq<Op> {
    seq![Op::Not, Op::And, Op::Or, Op::Xor, Op::Nand, Op::Nor, Op::Xnor, Op::Imp]
}

/// Every operator, in listing order.
pub fn all_ops() -> (ops: [Op; 8])
    ensures
        ops@ == operators(),
{
    let ops = [Op::Not, Op::And, Op::Or, Op::Xor, Op::Nand, Op::Nor, Op::Xnor, Op::Imp];
    assert(ops@ =~= operators());
    ops
}

impl Op {
    /// The number of operands the operator takes.
    pub open spec fn arity(self) -> nat {
        if self == Op::Not {
            1
        } else {
            2
        }
    }

    /// The token that selects the operator on a command line.
    pub open spec fn token_spec(self) -> Seq<char> {
        match self {
            Op::And => "and"@,
            Op::Or => "or"@,
            Op::Not => "not"@,
            Op::Xor => "xor"@,
            Op::Nand => "nand"@,
            Op::Nor => "nor"@,
            Op::Xnor => "xnor"@,
            Op::Imp => "imp"@,
        }
    }

    /// The operator's name as a table heading shows it.
    pub open spec fn name_spec(self) -> Seq<char> {
        match self {
            Op::And => "And"@,
            Op::Or => "Or"@,
            Op::Not => "Not"@,
            Op::Xor => "Xor"@,
            Op::Nand => "Nand"@,
            Op::Nor => "Nor"@,
            Op::Xnor => "Xnor"@,
            Op::Imp => "Imp"@,
        }
    }

    /// The operator's name in capitals, as diagnostics show it.
    pub open spec fn upper_name_spec(self) -> Seq<char> {
        match self {
            Op::And => "AND"@,
            Op::Or => "OR"@,
            Op::Not => "NOT"@,
            Op::Xor => "XOR"@,
            Op::Nand => "NAND"@,
            Op::Nor => "NOR"@,
            Op::Xnor => "XNOR"@,
            Op::Imp => "IMP"@,
        }
    }

    /// Whether the operator takes a single operand.
    pub fn is_unary(self) -> (r: bool)
        ensures
            r == (self.arity() == 1),
    {
        match self {
            Op::Not => true,
            _ => false,
        }
    }

    /// The token that selects the operator on a command line.
    pub fn token(self) -> (s: &'static str)
        ensures
            s@ == self.token_spec(),
    {
        match self {
            Op::And => "and",
            Op::Or => "or",
            Op::Not => "not",
            Op::Xor => "xor",
            Op::Nand => "nand",
            Op::Nor => "nor",
            Op::Xnor => "xnor",
            Op::Imp => "imp",
        }
    }

    /// The operator's name as a table heading shows it.
    pub fn name(self) -> (s: &'static str)
        ensures
            s@ == self.name_spec(),
    {
        match self {
            Op::And => "And",
            Op::Or => "Or",
            Op::Not => "Not",
            Op::Xor => "Xor",
            Op::Nand => "Nand",
            Op::Nor => "Nor",
            Op::Xnor => "Xnor",
            Op::Imp => "Imp",
        }
    }

    /// The operator's name in capitals, as diagnostics show it.
    pub fn upper_name(self) -> (s: &'static str)
        ensures
            s@ == self.upper_name_spec(),
    {
        match self {
            Op::And => "AND",
            Op::Or => "OR",
            Op::Not => "NOT",
            Op::Xor => "XOR",
            Op::Nand => "NAND",
            Op::Nor => "NOR",
            Op::Xnor => "XNOR",
            Op::Imp => "IMP",
        }
    }
}

} // verus!
