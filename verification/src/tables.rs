//! Truth tables as text.

use crate::error::ErrorView;
use crate::eval::{apply_spec, bit_spec, combine, truth};
use crate::op::{all_ops, operators, Op};
use vstd::prelude::*;

verus! {

/// A truth value as a table shows it: `1` for true, `0` for false.
pub open spec fn digit(x: bool) -> Seq<char> {
    if x {
        "1"@
    } else {
        "0"@
    }
}

/// A line of text with its line end.
pub open spec fn line(s: Seq<char>) -> Seq<char> {
    s + "\n"@
}

/// The heading of an operator's table.
pub open spec fn heading(op: Op) -> Seq<char> {
    if op == Op::Not {
        "A | NOT"@
    } else {
        "A B | "@ + op.name_spec()
    }
}

/// The rule under the heading.
pub open spec fn rule(op: Op) -> Seq<char> {
    if op == Op::Not {
        "--------"@
    } else {
        "-------------"@
    }
}

/// The row of the negation table for the input `a`.
pub open spec fn unary_row(a: bool) -> Seq<char> {
    digit(a) + " |   "@ + digit(!a)
}

/// The row of a binary operator's table for the inputs `a` and `b`.
pub open spec fn binary_row(op: Op, a: bool, b: bool) -> Seq<char> {
    digit(a) + " "@ + digit(b) + " |   "@ + digit(truth(op, a, b))
}

/// The truth table of `op`: heading, rule, then one row for each input, `A`
/// ascending and, within it, `B` ascending, false before true.
pub open spec fn table_text(op: Op) -> Seq<char> {
    if op == Op::Not {
        line(heading(op)) + line(rule(op)) + line(unary_row(false)) + line(unary_row(true))
    } else {
        line(heading(op)) + line(rule(op))
            + line(binary_row(op, false, false))
            + line(binary_row(op, false, true))
            + line(binary_row(op, true, false))
            + line(binary_row(op, true, true))
    }
}

/// The tables of `ops` in order, each followed by an empty line.
pub open spec fn tables_text(ops: Seq<Op>) -> Seq<char>
    decreases ops.len(),
{
    if ops.len() == 0 {
        Seq::empty()
    } else {
        tables_text(ops.drop_last()) + line(table_text(ops.last()))
    }
}

/// The tables of all eight operators, in listing order.
pub open spec fn all_tables_text() -> Seq<char> {
    tables_text(operators())
}

fn digit_str(x: bool) -> (s: &'static str)
    ensures
        s@ == digit(x),
{
    if x {
        "1"
    } else {
        "0"
    }
}

fn push_unary_row(text: &mut String, a: bool)
    ensures
        final(text)@ == old(text)@ + line(unary_row(a)),
{
    text.append(digit_str(a));
    text.append(" |   ");
    text.append(digit_str(!a));
    text.append("\n");
    assert(text@ =~= old(text)@ + line(unary_row(a)));
}

fn push_binary_row(text: &mut String, op: Op, a: bool, b: bool)
    ensures
        final(text)@ == old(text)@ + line(binary_row(op, a, b)),
{
    text.append(digit_str(a));
    text.append(" ");
    text.append(digit_str(b));
    text.append(" |   ");
    text.append(digit_str(combine(op, a, b)));
    text.append("\n");
    assert(text@ =~= old(text)@ + line(binary_row(op, a, b)));
}

/// Renders the truth table of `op`.
pub fn table(op: Op) -> (text: String)
    ensures
        text@ == table_text(op),
{
    let mut text = String::new();
    if op.is_unary() {
        text.append("A | NOT");
        text.append("\n");
        text.append("--------");
        text.append("\n");
        assert(text@ =~= line(heading(op)) + line(rule(op)));
        push_unary_row(&mut text, false);
        push_unary_row(&mut text, true);
    } else {
        text.append("A B | ");
        text.append(op.name());
        text.append("\n");
        text.append("-------------");
        text.append("\n");
        assert(text@ =~= line(heading(op)) + line(rule(op)));
        push_binary_row(&mut text, op, false, false);
        push_binary_row(&mut text, op, false, true);
        push_binary_row(&mut text, op, true, false);
        push_binary_row(&mut text, op, true, true);
    }
    text
}

/// Renders the tables of all eight operators in listing order. Each table is
/// followed by an empty line, which sets it off from the next.
pub fn all_tables() -> (text: String)
    ensures
        text@ == all_tables_text(),
{
    let ops = all_ops();
    let mut text = String::new();
    let mut i: usize = 0;
    while i < 8
        invariant
            i <= 8,
            ops@ == operators(),
            text@ == tables_text(operators().take(i as int)),
        decreases 8 - i,
    {
        let one = table(ops[i]);
        text.append(one.as_str());
        text.append("\n");
        i += 1;
        proof {
            let done = operators().take(i as int);
            assert(done.drop_last() =~= operators().take(i - 1));
            assert(done.last() == ops@[i - 1]);
            assert(text@ =~= tables_text(done.drop_last()) + line(table_text(done.last())));
        }
    }
    assert(operators().take(8) =~= operators());
    text
}

/// The listing of all tables is the eight tables in the order `Not`, `And`,
/// `Or`, `Xor`, `Nand`, `Nor`, `Xnor`, `Imp`, each exactly as rendered alone
/// and each followed by an empty line.
pub proof fn lemma_all_tables_in_order()
    ensures
        all_tables_text() == line(table_text(Op::Not))
            + line(table_text(Op::And))
            + line(table_text(Op::Or))
            + line(table_text(Op::Xor))
            + line(table_text(Op::Nand))
            + line(table_text(Op::Nor))
            + line(table_text(Op::Xnor))
            + line(table_text(Op::Imp)),
{
    let ops = operators();
    assert(ops.take(0).len() == 0);
    assert(tables_text(ops.take(0)) =~= Seq::<char>::empty());
    assert forall|i: int| 0 < i <= 8 implies #[trigger] tables_text(ops.take(i))
        == tables_text(ops.take(i - 1)) + line(table_text(ops[i - 1])) by {
        assert(ops.take(i).drop_last() =~= ops.take(i - 1));
    }
    assert(ops.take(8) =~= ops);
    assert(tables_text(ops.take(1)) =~= line(table_text(Op::Not)));
}

/// A truth value is shown as the decimal digit of its bit: the character `0`
/// for false and `1` for true.
pub proof fn lemma_digit_is_bit(x: bool)
    ensures
        digit(x) == seq![(('0' as u8) + bit_spec(x)) as char],
        digit(false) == seq!['0'],
        digit(true) == seq!['1'],
{
    reveal_strlit("0");
    reveal_strlit("1");
    assert(digit(x) =~= seq![(('0' as u8) + bit_spec(x)) as char]);
    assert(digit(false) =~= seq!['0']);
    assert(digit(true) =~= seq!['1']);
}

/// Each row of a table shows the operands and then the result that applying
/// the operator to them gives.
pub proof fn lemma_rows_show_apply(op: Op, a: bool, b: bool, r: bool)
    requires
        apply_spec(op, a, Some(b)) == Ok::<bool, ErrorView>(r),
    ensures
        op == Op::Not ==> unary_row(a) == digit(a) + " |   "@ + digit(r),
        op != Op::Not ==> binary_row(op, a, b)
            == digit(a) + " "@ + digit(b) + " |   "@ + digit(r),
{
}

/// The characters of a table, written out: a binary operator's rows read
/// `0 0`, `0 1`, `1 0`, `1 1` before the bar, in that order, and the negation
/// table's rows read `0` and `1`.
pub proof fn lemma_table_chars(op: Op)
    ensures
        op == Op::Not ==> table_text(op) == "A | NOT\n--------\n0 |   1\n1 |   0\n"@,
        op != Op::Not ==> table_text(op) == "A B | "@ + op.name_spec() + "\n-------------\n"@
            + "0 0 |   "@ + digit(truth(op, false, false))
            + "\n0 1 |   "@ + digit(truth(op, false, true))
            + "\n1 0 |   "@ + digit(truth(op, true, false))
            + "\n1 1 |   "@ + digit(truth(op, true, true))
            + "\n"@,
{
    reveal_strlit("0");
    reveal_strlit("1");
    reveal_strlit(" ");
    reveal_strlit(" |   ");
    reveal_strlit("\n");
    if op == Op::Not {
        reveal_strlit("A | NOT");
        reveal_strlit("--------");
        reveal_strlit("A | NOT\n--------\n0 |   1\n1 |   0\n");
        assert(table_text(op) =~= "A | NOT\n--------\n0 |   1\n1 |   0\n"@);
    } else {
        reveal_strlit("A B | ");
        reveal_strlit("-------------");
        reveal_strlit("\n-------------\n");
        reveal_strlit("0 0 |   ");
        reveal_strlit("\n0 1 |   ");
        reveal_strlit("\n1 0 |   ");
        reveal_strlit("\n1 1 |   ");
        assert(table_text(op) =~= "A B | "@ + op.name_spec() + "\n-------------\n"@
            + "0 0 |   "@ + digit(truth(op, false, false))
            + "\n0 1 |   "@ + digit(truth(op, false, true))
            + "\n1 0 |   "@ + digit(truth(op, true, false))
            + "\n1 1 |   "@ + digit(truth(op, true, true))
            + "\n"@);
    }
}

proof fn lemma_table_of_and()
    ensures
        table_text(Op::And) == "A B | And\n-------------\n0 0 |   0\n0 1 |   0\n1 0 |   0\n1 1 |   1\n"@,
{
    lemma_table_chars(Op::And);
    reveal_strlit("0");
    reveal_strlit("1");
    reveal_strlit("A B | ");
    reveal_strlit("And");
    reveal_strlit("\n-------------\n");
    reveal_strlit("0 0 |   ");
    reveal_strlit("\n0 1 |   ");
    reveal_strlit("\n1 0 |   ");
    reveal_strlit("\n1 1 |   ");
    reveal_strlit("\n");
    reveal_strlit("A B | And\n-------------\n0 0 |   0\n0 1 |   0\n1 0 |   0\n1 1 |   1\n");
    assert(table_text(Op::And) =~= "A B | And\n-------------\n0 0 |   0\n0 1 |   0\n1 0 |   0\n1 1 |   1\n"@);
}

proof fn lemma_table_of_or()
    ensures
        table_text(Op::Or) == "A B | Or\n-------------\n0 0 |   0\n0 1 |   1\n1 0 |   1\n1 1 |   1\n"@,
{
    lemma_table_chars(Op::Or);
    reveal_strlit("0");
    reveal_strlit("1");
    reveal_strlit("A B | ");
    reveal_strlit("Or");
    reveal_strlit("\n-------------\n");
    reveal_strlit("0 0 |   ");
    reveal_strlit("\n0 1 |   ");
    reveal_strlit("\n1 0 |   ");
    reveal_strlit("\n1 1 |   ");
    reveal_strlit("\n");
    reveal_strlit("A B | Or\n-------------\n0 0 |   0\n0 1 |   1\n1 0 |   1\n1 1 |   1\n");
    assert(table_text(Op::Or) =~= "A B | Or\n-------------\n0 0 |   0\n0 1 |   1\n1 0 |   1\n1 1 |   1\n"@);
}

proof fn lemma_table_of_xor()
    ensures
        table_text(Op::Xor) == "A B | Xor\n-------------\n0 0 |   0\n0 1 |   1\n1 0 |   1\n1 1 |   0\n"@,
{
    lemma_table_chars(Op::Xor);
    reveal_strlit("0");
    reveal_strlit("1");
    reveal_strlit("A B | ");
    reveal_strlit("Xor");
    reveal_strlit("\n-------------\n");
    reveal_strlit("0 0 |   ");
    reveal_strlit("\n0 1 |   ");
    reveal_strlit("\n1 0 |   ");
    reveal_strlit("\n1 1 |   ");
    reveal_strlit("\n");
    reveal_strlit("A B | Xor\n-------------\n0 0 |   0\n0 1 |   1\n1 0 |   1\n1 1 |   0\n");
    assert(table_text(Op::Xor) =~= "A B | Xor\n-------------\n0 0 |   0\n0 1 |   1\n1 0 |   1\n1 1 |   0\n"@);
}

proof fn lemma_table_of_nand()
    ensures
        table_text(Op::Nand) == "A B | Nand\n-------------\n0 0 |   1\n0 1 |   1\n1 0 |   1\n1 1 |   0\n"@,
{
    lemma_table_chars(Op::Nand);
    reveal_strlit("0");
    reveal_strlit("1");
    reveal_strlit("A B | ");
    reveal_strlit("Nand");
    reveal_strlit("\n-------------\n");
    reveal_strlit("0 0 |   ");
    reveal_strlit("\n0 1 |   ");
    reveal_strlit("\n1 0 |   ");
    reveal_strlit("\n1 1 |   ");
    reveal_strlit("\n");
    reveal_strlit("A B | Nand\n-------------\n0 0 |   1\n0 1 |   1\n1 0 |   1\n1 1 |   0\n");
    assert(table_text(Op::Nand) =~= "A B | Nand\n-------------\n0 0 |   1\n0 1 |   1\n1 0 |   1\n1 1 |   0\n"@);
}

proof fn lemma_table_of_nor()
    ensures
        table_text(Op::Nor) == "A B | Nor\n-------------\n0 0 |   1\n0 1 |   0\n1 0 |   0\n1 1 |   0\n"@,
{
    lemma_table_chars(Op::Nor);
    reveal_strlit("0");
    reveal_strlit("1");
    reveal_strlit("A B | ");
    reveal_strlit("Nor");
    reveal_strlit("\n-------------\n");
    reveal_strlit("0 0 |   ");
    reveal_strlit("\n0 1 |   ");
    reveal_strlit("\n1 0 |   ");
    reveal_strlit("\n1 1 |   ");
    reveal_strlit("\n");
    reveal_strlit("A B | Nor\n-------------\n0 0 |   1\n0 1 |   0\n1 0 |   0\n1 1 |   0\n");
    assert(table_text(Op::Nor) =~= "A B | Nor\n-------------\n0 0 |   1\n0 1 |   0\n1 0 |   0\n1 1 |   0\n"@);
}

proof fn lemma_table_of_xnor()
    ensures
        table_text(Op::Xnor) == "A B | Xnor\n-------------\n0 0 |   1\n0 1 |   0\n1 0 |   0\n1 1 |   1\n"@,
{
    lemma_table_chars(Op::Xnor);
    reveal_strlit("0");
    reveal_strlit("1");
    reveal_strlit("A B | ");
    reveal_strlit("Xnor");
    reveal_strlit("\n-------------\n");
    reveal_strlit("0 0 |   ");
    reveal_strlit("\n0 1 |   ");
    reveal_strlit("\n1 0 |   ");
    reveal_strlit("\n1 1 |   ");
    reveal_strlit("\n");
    reveal_strlit("A B | Xnor\n-------------\n0 0 |   1\n0 1 |   0\n1 0 |   0\n1 1 |   1\n");
    assert(table_text(Op::Xnor) =~= "A B | Xnor\n-------------\n0 0 |   1\n0 1 |   0\n1 0 |   0\n1 1 |   1\n"@);
}

proof fn lemma_table_of_imp()
    ensures
        table_text(Op::Imp) == "A B | Imp\n-------------\n0 0 |   1\n0 1 |   1\n1 0 |   0\n1 1 |   1\n"@,
{
    lemma_table_chars(Op::Imp);
    reveal_strlit("0");
    reveal_strlit("1");
    reveal_strlit("A B | ");
    reveal_strlit("Imp");
    reveal_strlit("\n-------------\n");
    reveal_strlit("0 0 |   ");
    reveal_strlit("\n0 1 |   ");
    reveal_strlit("\n1 0 |   ");
    reveal_strlit("\n1 1 |   ");
    reveal_strlit("\n");
    reveal_strlit("A B | Imp\n-------------\n0 0 |   1\n0 1 |   1\n1 0 |   0\n1 1 |   1\n");
    assert(table_text(Op::Imp) =~= "A B | Imp\n-------------\n0 0 |   1\n0 1 |   1\n1 0 |   0\n1 1 |   1\n"@);
}

/// The eight tables, written out in full.
pub proof fn lemma_tables_written_out()
    ensures
        table_text(Op::Not) == "A | NOT\n--------\n0 |   1\n1 |   0\n"@,
        table_text(Op::And) == "A B | And\n-------------\n0 0 |   0\n0 1 |   0\n1 0 |   0\n1 1 |   1\n"@,
        table_text(Op::Or) == "A B | Or\n-------------\n0 0 |   0\n0 1 |   1\n1 0 |   1\n1 1 |   1\n"@,
        table_text(Op::Xor) == "A B | Xor\n-------------\n0 0 |   0\n0 1 |   1\n1 0 |   1\n1 1 |   0\n"@,
        table_text(Op::Nand) == "A B | Nand\n-------------\n0 0 |   1\n0 1 |   1\n1 0 |   1\n1 1 |   0\n"@,
        table_text(Op::Nor) == "A B | Nor\n-------------\n0 0 |   1\n0 1 |   0\n1 0 |   0\n1 1 |   0\n"@,
        table_text(Op::Xnor) == "A B | Xnor\n-------------\n0 0 |   1\n0 1 |   0\n1 0 |   0\n1 1 |   1\n"@,
        table_text(Op::Imp) == "A B | Imp\n-------------\n0 0 |   1\n0 1 |   1\n1 0 |   0\n1 1 |   1\n"@,
{
    lemma_table_chars(Op::Not);
    lemma_table_of_and();
    lemma_table_of_or();
    lemma_table_of_xor();
    lemma_table_of_nand();
    lemma_table_of_nor();
    lemma_table_of_xnor();
    lemma_table_of_imp();
}

} // verus!
