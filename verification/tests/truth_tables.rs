use bool_algebra::{all_ops, all_tables, apply, bit, table, Op};

#[test]
fn table_nand() {
    let text = table(Op::Nand);
    let lines: Vec<&str> = text.lines().collect();
    assert_eq!(lines.len(), 6);
    assert_eq!(&lines[2..], ["0 0 |   1", "0 1 |   1", "1 0 |   1", "1 1 |   0"]);
    assert_eq!(
        text,
        "A B | Nand\n-------------\n0 0 |   1\n0 1 |   1\n1 0 |   1\n1 1 |   0\n"
    );
}

#[test]
fn table_not() {
    assert_eq!(table(Op::Not), "A | NOT\n--------\n0 |   1\n1 |   0\n");
}

#[test]
fn table_and() {
    assert_eq!(
        table(Op::And),
        "A B | And\n-------------\n0 0 |   0\n0 1 |   0\n1 0 |   0\n1 1 |   1\n"
    );
}

#[test]
fn table_or() {
    assert_eq!(
        table(Op::Or),
        "A B | Or\n-------------\n0 0 |   0\n0 1 |   1\n1 0 |   1\n1 1 |   1\n"
    );
}

#[test]
fn table_xor() {
    assert_eq!(
        table(Op::Xor),
        "A B | Xor\n-------------\n0 0 |   0\n0 1 |   1\n1 0 |   1\n1 1 |   0\n"
    );
}

#[test]
fn table_nor() {
    assert_eq!(
        table(Op::Nor),
        "A B | Nor\n-------------\n0 0 |   1\n0 1 |   0\n1 0 |   0\n1 1 |   0\n"
    );
}

#[test]
fn table_xnor() {
    assert_eq!(
        table(Op::Xnor),
        "A B | Xnor\n-------------\n0 0 |   1\n0 1 |   0\n1 0 |   0\n1 1 |   1\n"
    );
}

#[test]
fn table_imp() {
    assert_eq!(
        table(Op::Imp),
        "A B | Imp\n-------------\n0 0 |   1\n0 1 |   1\n1 0 |   0\n1 1 |   1\n"
    );
}

#[test]
fn binary_rows_are_in_fixed_order_and_show_apply() {
    let inputs = [(false, false), (false, true), (true, false), (true, true)];
    for op in all_ops() {
        if op.is_unary() {
            continue;
        }
        let text = table(op);
        let lines: Vec<&str> = text.lines().collect();
        assert_eq!(lines.len(), 6, "{op:?}");
        assert_eq!(lines[0], format!("A B | {op:?}"));
        assert_eq!(lines[1], "-".repeat(13));
        for (row, (a, b)) in lines[2..].iter().zip(inputs) {
            let r = apply(op, a, Some(b)).unwrap();
            assert_eq!(*row, format!("{} {} |   {}", bit(a), bit(b), bit(r)));
        }
        assert!(text.ends_with('\n'));
    }
}

#[test]
fn unary_rows_are_in_fixed_order_and_show_apply() {
    let text = table(Op::Not);
    let lines: Vec<&str> = text.lines().collect();
    assert_eq!(lines.len(), 4);
    assert_eq!(lines[0], "A | NOT");
    assert_eq!(lines[1], "-".repeat(8));
    for (row, a) in lines[2..].iter().zip([false, true]) {
        let r = apply(Op::Not, a, None).unwrap();
        assert_eq!(*row, format!("{:>1} | {:>3}", bit(a), bit(r)));
    }
}

#[test]
fn tables_use_only_binary_digits() {
    for op in all_ops() {
        let text = table(op);
        for row in text.lines().skip(2) {
            assert!(row.chars().all(|c| matches!(c, '0' | '1' | ' ' | '|')), "{row:?}");
        }
    }
}

#[test]
fn all_tables_is_each_table_then_an_empty_line() {
    let mut expected = String::new();
    for op in [Op::Not, Op::And, Op::Or, Op::Xor, Op::Nand, Op::Nor, Op::Xnor, Op::Imp] {
        expected.push_str(&table(op));
        expected.push('\n');
    }
    assert_eq!(all_tables(), expected);
}

#[test]
fn all_tables_has_eight_tables_in_order() {
    let text = all_tables();
    let blocks: Vec<&str> = text.split("\n\n").collect();
    // Eight tables, and the empty remainder after the last empty line.
    assert_eq!(blocks.len(), 9);
    assert_eq!(blocks[8], "");
    let headings: Vec<&str> = blocks[..8].iter().map(|b| b.lines().next().unwrap()).collect();
    assert_eq!(
        headings,
        [
            "A | NOT", "A B | And", "A B | Or", "A B | Xor", "A B | Nand", "A B | Nor",
            "A B | Xnor", "A B | Imp",
        ]
    );
    for (block, op) in blocks[..8].iter().zip(all_ops()) {
        assert_eq!(format!("{block}\n"), table(op));
    }
}

#[test]
fn all_tables_text() {
    let expected = "\
A | NOT
--------
0 |   1
1 |   0

A B | And
-------------
0 0 |   0
0 1 |   0
1 0 |   0
1 1 |   1

A B | Or
-------------
0 0 |   0
0 1 |   1
1 0 |   1
1 1 |   1

A B | Xor
-------------
0 0 |   0
0 1 |   1
1 0 |   1
1 1 |   0

A B | Nand
-------------
0 0 |   1
0 1 |   1
1 0 |   1
1 1 |   0

A B | Nor
-------------
0 0 |   1
0 1 |   0
1 0 |   0
1 1 |   0

A B | Xnor
-------------
0 0 |   1
0 1 |   0
1 0 |   0
1 1 |   1

A B | Imp
-------------
0 0 |   1
0 1 |   1
1 0 |   0
1 1 |   1

";
    assert_eq!(all_tables(), expected);
}
