use asm6502::expression::{Expr, Operator};
use asm6502::labels::LabelTable;
use asm6502::pseudo_commands::{pass1, pass2};
use asm6502::statement::{Line, Statement};

#[test]
fn test_pass1_command_data_fill() {
    let statement = Statement::new(
        "$",
        Expr::BinOp(
            Box::new(Expr::ByteNum(0xff)),
            Operator::Comma,
            Box::new(Expr::DecimalNum(12)),
        ),
    );
    let mut labels = LabelTable::new();
    let mut pc = 0;
    let mut is_address_set = false;
    let statement_clone = statement.clone();
    let result = pass1(
        &Line::new(0, 0, None, vec![statement], vec![]),
        &statement_clone,
        &mut labels,
        &mut pc,
        &mut is_address_set,
    );
    assert!(result.is_ok());
    assert_eq!(pc, 12);
}

#[test]
fn test_pass2_command_data_fill() {
    let statement = Statement::new(
        "$",
        Expr::BinOp(
            Box::new(Expr::ByteNum(0xff)),
            Operator::Comma,
            Box::new(Expr::DecimalNum(12)),
        ),
    );
    let labels = LabelTable::new();
    let pc = 0;
    let result = pass2(&statement, &labels, &pc);
    assert!(result.is_ok());
    let objects = result.unwrap();
    assert_eq!(objects.len(), 12);
    assert_eq!(objects[0], 0xff);
}

#[test]
fn test_pass1_command_data_fill_word() {
    let statement = Statement::new(
        "$",
        Expr::BinOp(
            Box::new(Expr::WordNum(0xff00)),
            Operator::Comma,
            Box::new(Expr::DecimalNum(12)),
        ),
    );
    let mut labels = LabelTable::new();
    let mut pc = 0;
    let mut is_address_set = false;
    let statement_clone = statement.clone();
    let result = pass1(
        &Line::new(0, 0, None, vec![statement], vec![]),
        &statement_clone,
        &mut labels,
        &mut pc,
        &mut is_address_set,
    );
    assert!(result.is_ok());
    assert_eq!(pc, 12 * 2);
}

#[test]
fn test_pass2_command_data_fill_word() {
    let statement = Statement::new(
        "$",
        Expr::BinOp(
            Box::new(Expr::WordNum(0x1234)),
            Operator::Comma,
            Box::new(Expr::DecimalNum(12)),
        ),
    );
    let labels = LabelTable::new();
    let pc = 0;
    let result = pass2(&statement, &labels, &pc);
    assert!(result.is_ok());
    let objects = result.unwrap();
    assert_eq!(objects.len(), 12 * 2);

    assert_eq!(objects[0], 0x34);
    assert_eq!(objects[1], 0x12);

    for i in 0..12 {
        assert_eq!(objects[i * 2], 0x34);
        assert_eq!(objects[i * 2 + 1], 0x12);
    }
}

fn data_statement(items: Vec<Expr>) -> Statement {
    let mut iter = items.into_iter().rev();
    let mut expr = iter.next().unwrap();
    for item in iter {
        expr = Expr::BinOp(Box::new(item), Operator::Comma, Box::new(expr));
    }
    Statement::new("?", expr)
}

#[test]
fn data_definition_sizes_and_bytes() {
    let statement = data_statement(vec![
        Expr::DecimalNum(7),
        Expr::ByteNum(0x20),
        Expr::WordNum(0xABCD),
        Expr::StringLiteral("hi".to_string()),
    ]);
    let mut labels = LabelTable::new();
    let mut pc: usize = 0x8000;
    let mut is_address_set = true;
    let line = Line::new(1, 0, None, vec![statement.clone()], vec![]);
    assert!(pass1(&line, &statement, &mut labels, &mut pc, &mut is_address_set).is_ok());
    assert_eq!(pc, 0x8000 + 1 + 1 + 2 + 2);
    let bytes = pass2(&statement, &labels, &0x8000).unwrap();
    assert_eq!(bytes, vec![7, 0x20, 0xCD, 0xAB, b'h', b'i']);
}

#[test]
fn fill_count_may_use_the_current_address() {
    // `$=$EA,*-$8000` at $8003 fills three bytes
    let expr = Expr::BinOp(
        Box::new(Expr::ByteNum(0xEA)),
        Operator::Comma,
        Box::new(Expr::BinOp(
            Box::new(Expr::SystemOperator("*".to_string())),
            Operator::Sub,
            Box::new(Expr::WordNum(0x8000)),
        )),
    );
    let statement = Statement::new("$", expr);
    let labels = LabelTable::new();
    assert_eq!(pass2(&statement, &labels, &0x8003).unwrap(), vec![0xEA, 0xEA, 0xEA]);
}

#[test]
fn origin_sets_the_program_counter() {
    let statement = Statement::new("*", Expr::WordNum(0xC000));
    let mut labels = LabelTable::new();
    let mut pc: usize = 0;
    let mut is_address_set = false;
    let line = Line::new(1, 0, None, vec![statement.clone()], vec![]);
    assert!(pass1(&line, &statement, &mut labels, &mut pc, &mut is_address_set).is_ok());
    assert_eq!(pc, 0xC000);
    assert!(is_address_set);
    let bad = Statement::new("*", Expr::ByteNum(0x10));
    let err = pass1(&line, &bad, &mut labels, &mut pc, &mut is_address_set).unwrap_err();
    assert!(matches!(err, asm6502::error::AssemblyError::Program(_)));
}

#[test]
fn fill_past_the_address_space_fails() {
    let statement = Statement::new(
        "$",
        Expr::BinOp(
            Box::new(Expr::WordNum(0)),
            Operator::Comma,
            Box::new(Expr::DecimalNum(40000)),
        ),
    );
    let mut labels = LabelTable::new();
    let mut pc: usize = 0;
    let mut is_address_set = true;
    let line = Line::new(1, 0, None, vec![statement.clone()], vec![]);
    let err = pass1(&line, &statement, &mut labels, &mut pc, &mut is_address_set).unwrap_err();
    assert!(matches!(err, asm6502::error::AssemblyError::Program(_)));
}

#[test]
fn data_with_a_zero_page_label_fails() {
    let mut labels = LabelTable::new();
    labels.insert(
        "zp".to_string(),
        asm6502::labels::LabelEntry {
            name: "zp".to_string(),
            line: 1,
            address: asm6502::labels::Address::ZeroPage(0x10),
        },
    );
    let statement = Statement::new("?", Expr::Identifier("zp".to_string()));
    assert!(pass2(&statement, &labels, &0).is_err());
}
