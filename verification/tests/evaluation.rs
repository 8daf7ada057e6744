use bool_algebra::{apply, bit, eval, parse_bool, parse_op, Error, Op};

/// What the `eval` command prints for operands given as text.
fn eval_output(op: &str, a: &str, b: Option<&str>) -> Result<String, Error> {
    let op = parse_op(op)?;
    let value = eval(op, a, b)?;
    Ok(bit(value).to_string())
}

#[test]
fn eval_and_true_false() {
    assert_eq!(eval(Op::And, "true", Some("false")), Ok(false));
    assert_eq!(eval_output("and", "true", Some("false")), Ok("0".to_string()));
}

#[test]
fn eval_xor_yes_no() {
    assert_eq!(eval(Op::Xor, "yes", Some("no")), Ok(true));
    assert_eq!(eval_output("xor", "yes", Some("no")), Ok("1".to_string()));
}

#[test]
fn eval_not_one() {
    assert_eq!(eval(Op::Not, "1", None), Ok(false));
    assert_eq!(eval_output("not", "1", None), Ok("0".to_string()));
}

#[test]
fn eval_and_without_second_operand() {
    let err = eval(Op::And, "1", None).unwrap_err();
    assert_eq!(err, Error::MissingOperand(Op::And));
    assert_eq!(err.message(), "AND needs B");
    assert_eq!(eval_output("and", "1", None), Err(Error::MissingOperand(Op::And)));
}

#[test]
fn eval_or_maybe_true() {
    let err = eval(Op::Or, "maybe", Some("true")).unwrap_err();
    assert_eq!(err, Error::InvalidBoolean("maybe".to_string()));
    assert!(err.message().contains("maybe"));
    assert_eq!(err.message(), "invalid bool: maybe");
}

#[test]
fn eval_with_unknown_operator() {
    assert_eq!(
        eval_output("implies", "1", Some("0")),
        Err(Error::UnknownOperator("implies".to_string()))
    );
}

#[test]
fn eval_with_invalid_second_operand() {
    assert_eq!(
        eval(Op::Or, "true", Some("perhaps")),
        Err(Error::InvalidBoolean("perhaps".to_string()))
    );
}

#[test]
fn first_operand_is_read_first() {
    assert_eq!(
        eval(Op::And, "bad-a", Some("bad-b")),
        Err(Error::InvalidBoolean("bad-a".to_string()))
    );
    assert_eq!(
        eval(Op::And, "bad-a", None),
        Err(Error::InvalidBoolean("bad-a".to_string()))
    );
    assert_eq!(
        eval(Op::Not, "bad-a", None),
        Err(Error::InvalidBoolean("bad-a".to_string()))
    );
}

#[test]
fn not_does_not_read_second_operand() {
    assert_eq!(eval(Op::Not, "0", Some("1")), Ok(true));
    assert_eq!(eval(Op::Not, "yes", Some("no")), Ok(false));
    assert_eq!(eval(Op::Not, "T", Some("maybe")), Ok(false));
    assert_eq!(eval(Op::Not, "f", Some("")), Ok(true));
}

#[test]
fn eval_is_parse_then_apply() {
    let tokens = ["0", "1", "Yes", "NO", "t", "F", "maybe", ""];
    let ops = [Op::Not, Op::And, Op::Or, Op::Xor, Op::Nand, Op::Nor, Op::Xnor, Op::Imp];
    for op in ops {
        for a in tokens {
            for b in tokens.iter().map(|t| Some(*t)).chain([None]) {
                let expected = match parse_bool(a) {
                    Err(e) => Err(e),
                    Ok(x) => match (op, b) {
                        (Op::Not, _) => apply(op, x, None),
                        (_, None) => apply(op, x, None),
                        (_, Some(b)) => match parse_bool(b) {
                            Err(e) => Err(e),
                            Ok(y) => apply(op, x, Some(y)),
                        },
                    },
                };
                assert_eq!(eval(op, a, b), expected, "{op:?} {a:?} {b:?}");
            }
        }
    }
}

#[test]
fn eval_in_any_case() {
    assert_eq!(eval(Op::Imp, "TRUE", Some("False")), Ok(false));
    assert_eq!(eval(Op::Imp, "N", Some("Y")), Ok(true));
    assert_eq!(eval(Op::Nor, "F", Some("nO")), Ok(true));
    assert_eq!(eval(Op::Xnor, "YES", Some("T")), Ok(true));
    assert_eq!(eval(Op::Nand, "1", Some("tRuE")), Ok(false));
}
