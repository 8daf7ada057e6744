//! Reading truth values and operator names from text.

use crate::error::{outcome, Error, ErrorView};
use crate::op::Op;
use crate::text::{
    ascii_lowercase, chars_of, lemma_lowercase_idempotent, lowercase_chars, spells,
};
use vstd::prelude::*;

verus! {

/// The spellings of `true`, in lower case.
pub open spec fn is_true_form(t: Seq<char>) -> bool {
    t == "1"@ || t == "t"@ || t == "true"@ || t == "y"@ || t == "yes"@
}

/// The spellings of `false`, in lower case.
pub open spec fn is_false_form(t: Seq<char>) -> bool {
    t == "0"@ || t == "f"@ || t == "false"@ || t == "n"@ || t == "no"@
}

/// The truth value a token stands for. Spellings are matched without regard
/// to ASCII case; a token that matches none is the error's token, as given.
pub open spec fn parse_bool_spec(s: Seq<char>) -> Result<bool, ErrorView> {
    let folded = ascii_lowercase(s);
    if is_true_form(folded) {
        Ok(true)
    } else if is_false_form(folded) {
        Ok(false)
    } else {
        Err(ErrorView::InvalidBoolean(s))
    }
}

/// The operator a token names. Names are matched exactly, in lower case.
pub open spec fn parse_op_spec(s: Seq<char>) -> Result<Op, ErrorView> {
    if s == Op::And.token_spec() {
        Ok(Op::And)
    } else if s == Op::Or.token_spec() {
        Ok(Op::Or)
    } else if s == Op::Not.token_spec() {
        Ok(Op::Not)
    } else if s == Op::Xor.token_spec() {
        Ok(Op::Xor)
    } else if s == Op::Nand.token_spec() {
        Ok(Op::Nand)
    } else if s == Op::Nor.token_spec() {
        Ok(Op::Nor)
    } else if s == Op::Xnor.token_spec() {
        Ok(Op::Xnor)
    } else if s == Op::Imp.token_spec() {
        Ok(Op::Imp)
    } else {
        Err(ErrorView::UnknownOperator(s))
    }
}

fn spells_true(folded: &Vec<char>) -> (r: bool)
    ensures
        r == is_true_form(folded@),
{
    spells(folded, "1") || spells(folded, "t") || spells(folded, "true") || spells(folded, "y")
        || spells(folded, "yes")
}

fn spells_false(folded: &Vec<char>) -> (r: bool)
    ensures
        r == is_false_form(folded@),
{
    spells(folded, "0") || spells(folded, "f") || spells(folded, "false") || spells(folded, "n")
        || spells(folded, "no")
}

/// Reads a truth value: `1`, `t`, `true`, `y`, `yes` for true and `0`, `f`,
/// `false`, `n`, `no` for false, in any mix of upper and lower case.
pub fn parse_bool(s: &str) -> (r: Result<bool, Error>)
    ensures
        outcome(r) == parse_bool_spec(s@),
{
    let folded = lowercase_chars(s);
    if spells_true(&folded) {
        Ok(true)
    } else if spells_false(&folded) {
        Ok(false)
    } else {
        Err(Error::InvalidBoolean(s.to_owned()))
    }
}

/// Reads an operator name: one of `and`, `or`, `not`, `xor`, `nand`, `nor`,
/// `xnor`, `imp`.
pub fn parse_op(s: &str) -> (r: Result<Op, Error>)
    ensures
        outcome(r) == parse_op_spec(s@),
{
    let chars = chars_of(s);
    if spells(&chars, Op::And.token()) {
        Ok(Op::And)
    } else if spells(&chars, Op::Or.token()) {
        Ok(Op::Or)
    } else if spells(&chars, Op::Not.token()) {
        Ok(Op::Not)
    } else if spells(&chars, Op::Xor.token()) {
        Ok(Op::Xor)
    } else if spells(&chars, Op::Nand.token()) {
        Ok(Op::Nand)
    } else if spells(&chars, Op::Nor.token()) {
        Ok(Op::Nor)
    } else if spells(&chars, Op::Xnor.token()) {
        Ok(Op::Xnor)
    } else if spells(&chars, Op::Imp.token()) {
        Ok(Op::Imp)
    } else {
        Err(Error::UnknownOperator(s.to_owned()))
    }
}

/// Every accepted spelling stands for exactly one truth value: the spellings of
/// `true` give `true`, those of `false` give `false`, and a token is rejected,
/// with itself as the offending token, exactly when it is neither.
pub proof fn lemma_parse_bool_cases(s: Seq<char>)
    ensures
        is_true_form(ascii_lowercase(s)) <==> parse_bool_spec(s) == Ok::<bool, ErrorView>(true),
        is_false_form(ascii_lowercase(s)) <==> parse_bool_spec(s) == Ok::<bool, ErrorView>(false),
        !is_true_form(ascii_lowercase(s)) && !is_false_form(ascii_lowercase(s))
            <==> parse_bool_spec(s) == Err::<bool, ErrorView>(ErrorView::InvalidBoolean(s)),
{
    lemma_forms_disjoint(ascii_lowercase(s));
}

/// No token spells both `true` and `false`.
pub proof fn lemma_forms_disjoint(t: Seq<char>)
    ensures
        !(is_true_form(t) && is_false_form(t)),
{
    reveal_strlit("1");
    reveal_strlit("t");
    reveal_strlit("true");
    reveal_strlit("y");
    reveal_strlit("yes");
    reveal_strlit("0");
    reveal_strlit("f");
    reveal_strlit("false");
    reveal_strlit("n");
    reveal_strlit("no");
    if is_true_form(t) && is_false_form(t) {
        assert(t.len() >= 1);
        assert(t[0] == '1' || t[0] == 't' || t[0] == 'y');
        assert(t[0] == '0' || t[0] == 'f' || t[0] == 'n');
    }
}

/// Tokens that differ only in the case of ASCII letters are read alike: both
/// are accepted with the same truth value, or both are rejected.
pub proof fn lemma_parse_bool_ignores_case(s: Seq<char>, t: Seq<char>)
    requires
        ascii_lowercase(s) == ascii_lowercase(t),
    ensures
        parse_bool_spec(s) is Ok <==> parse_bool_spec(t) is Ok,
        parse_bool_spec(s) is Ok ==> parse_bool_spec(s) == parse_bool_spec(t),
{
}

/// Folding a token to lower case before reading it changes nothing but the
/// token that a rejection carries.
pub proof fn lemma_parse_bool_of_folded(s: Seq<char>)
    ensures
        parse_bool_spec(ascii_lowercase(s)) is Ok <==> parse_bool_spec(s) is Ok,
        parse_bool_spec(s) is Ok ==> parse_bool_spec(ascii_lowercase(s)) == parse_bool_spec(s),
{
    lemma_lowercase_idempotent(s);
    lemma_parse_bool_ignores_case(ascii_lowercase(s), s);
}

/// Reading an operator's own token gives that operator back.
pub proof fn lemma_parse_op_of_token(op: Op)
    ensures
        parse_op_spec(op.token_spec()) == Ok::<Op, ErrorView>(op),
{
    reveal_strlit("and");
    reveal_strlit("or");
    reveal_strlit("not");
    reveal_strlit("xor");
    reveal_strlit("nand");
    reveal_strlit("nor");
    reveal_strlit("xnor");
    reveal_strlit("imp");
    // Any two tokens differ within their first three characters.
    assert("and"@[0] == 'a' && "or"@[0] == 'o' && "imp"@[0] == 'i');
    assert("not"@[0] == 'n' && "nand"@[0] == 'n' && "nor"@[0] == 'n');
    assert("nand"@[1] == 'a' && "not"@[2] == 't' && "nor"@[2] == 'r');
    assert("xor"@[0] == 'x' && "xnor"@[0] == 'x');
    assert("xor"@[1] == 'o' && "xnor"@[1] == 'n');
}

/// A token is accepted as an operator exactly when it is that operator's token.
pub proof fn lemma_parse_op_accepts(s: Seq<char>, op: Op)
    ensures
        parse_op_spec(s) == Ok::<Op, ErrorView>(op) <==> s == op.token_spec(),
{
    lemma_parse_op_of_token(op);
}

} // verus!
