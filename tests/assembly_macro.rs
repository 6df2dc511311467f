use asm6502::assembly_macro::transform_statement;
use asm6502::expression::{Expr, Operator};
use asm6502::statement::Statement;

#[test]
fn test_transform_add_statement() {
    let statement = Statement::new(
        "A",
        Expr::BinOp(
            Box::new(Expr::Identifier("A".to_string())),
            Operator::Add,
            Box::new(Expr::DecimalNum(1)),
        ),
    );
    let result = transform_statement(&statement).unwrap();
    assert_eq!(result.len(), 2);
    assert_eq!(result[0].command, Expr::Identifier("C".to_string()));
    assert_eq!(result[0].expression, Expr::DecimalNum(0));
    assert_eq!(result[1].command, Expr::Identifier("A".to_string()));
    assert_eq!(
        result[1].expression,
        Expr::BinOp(
            Box::new(Expr::Identifier("AC".to_string())),
            Operator::Add,
            Box::new(Expr::DecimalNum(1))
        )
    );
}

#[test]
fn test_transform_inxx_statement() {
    let statement = Statement::new("X", Expr::SystemOperator("++".to_string()));
    let result = transform_statement(&statement).unwrap();
    assert_eq!(result.len(), 2);
    assert_eq!(result[0].command, Expr::Identifier("X".to_string()));
    assert_eq!(result[0].expression, Expr::SystemOperator("+".to_string()));
    assert_eq!(result[1].command, Expr::Identifier("X".to_string()));
    assert_eq!(result[1].expression, Expr::SystemOperator("+".to_string()));
}

#[test]
fn test_transform_inxxxx_statement() {
    let statement = Statement::new("X", Expr::SystemOperator("++++".to_string()));
    let result = transform_statement(&statement).unwrap();
    assert_eq!(result.len(), 4);
    assert_eq!(result[0].command, Expr::Identifier("X".to_string()));
    assert_eq!(result[0].expression, Expr::SystemOperator("+".to_string()));
    assert_eq!(result[1].command, Expr::Identifier("X".to_string()));
    assert_eq!(result[1].expression, Expr::SystemOperator("+".to_string()));
    assert_eq!(result[2].command, Expr::Identifier("X".to_string()));
    assert_eq!(result[2].expression, Expr::SystemOperator("+".to_string()));
    assert_eq!(result[3].command, Expr::Identifier("X".to_string()));
    assert_eq!(result[3].expression, Expr::SystemOperator("+".to_string()));
}

#[test]
fn test_transform_dexx_statement() {
    let statement = Statement::new("X", Expr::SystemOperator("--".to_string()));
    let result = transform_statement(&statement).unwrap();
    assert_eq!(result.len(), 2);
    assert_eq!(result[0].command, Expr::Identifier("X".to_string()));
    assert_eq!(result[0].expression, Expr::SystemOperator("-".to_string()));
    assert_eq!(result[1].command, Expr::Identifier("X".to_string()));
    assert_eq!(result[1].expression, Expr::SystemOperator("-".to_string()));
}

#[test]
fn test_transform_dexxxx_statement() {
    let statement = Statement::new("X", Expr::SystemOperator("----".to_string()));
    let result = transform_statement(&statement).unwrap();
    assert_eq!(result.len(), 4);
    assert_eq!(result[0].command, Expr::Identifier("X".to_string()));
    assert_eq!(result[0].expression, Expr::SystemOperator("-".to_string()));
    assert_eq!(result[1].command, Expr::Identifier("X".to_string()));
    assert_eq!(result[1].expression, Expr::SystemOperator("-".to_string()));
    assert_eq!(result[2].command, Expr::Identifier("X".to_string()));
    assert_eq!(result[2].expression, Expr::SystemOperator("-".to_string()));
    assert_eq!(result[3].command, Expr::Identifier("X".to_string()));
    assert_eq!(result[3].expression, Expr::SystemOperator("-".to_string()));
}

#[test]
fn test_transform_inyy_statement() {
    let statement = Statement::new("Y", Expr::SystemOperator("++".to_string()));
    let result = transform_statement(&statement).unwrap();
    assert_eq!(result.len(), 2);
    assert_eq!(result[0].command, Expr::Identifier("Y".to_string()));
    assert_eq!(result[0].expression, Expr::SystemOperator("+".to_string()));
    assert_eq!(result[1].command, Expr::Identifier("Y".to_string()));
    assert_eq!(result[1].expression, Expr::SystemOperator("+".to_string()));
}

#[test]
fn test_transform_inyyyy_statement() {
    let statement = Statement::new("Y", Expr::SystemOperator("++++".to_string()));
    let result = transform_statement(&statement).unwrap();
    assert_eq!(result.len(), 4);
    assert_eq!(result[0].command, Expr::Identifier("Y".to_string()));
    assert_eq!(result[0].expression, Expr::SystemOperator("+".to_string()));
    assert_eq!(result[1].command, Expr::Identifier("Y".to_string()));
    assert_eq!(result[1].expression, Expr::SystemOperator("+".to_string()));
    assert_eq!(result[2].command, Expr::Identifier("Y".to_string()));
    assert_eq!(result[2].expression, Expr::SystemOperator("+".to_string()));
    assert_eq!(result[3].command, Expr::Identifier("Y".to_string()));
    assert_eq!(result[3].expression, Expr::SystemOperator("+".to_string()));
}

#[test]
fn test_transform_deyy_statement() {
    let statement = Statement::new("Y", Expr::SystemOperator("--".to_string()));
    let result = transform_statement(&statement).unwrap();
    assert_eq!(result.len(), 2);
    assert_eq!(result[0].command, Expr::Identifier("Y".to_string()));
    assert_eq!(result[0].expression, Expr::SystemOperator("-".to_string()));
    assert_eq!(result[1].command, Expr::Identifier("Y".to_string()));
    assert_eq!(result[1].expression, Expr::SystemOperator("-".to_string()));
}

#[test]
fn test_transform_deyyyy_statement() {
    let statement = Statement::new("Y", Expr::SystemOperator("----".to_string()));
    let result = transform_statement(&statement).unwrap();
    assert_eq!(result.len(), 4);
    assert_eq!(result[0].command, Expr::Identifier("Y".to_string()));
    assert_eq!(result[0].expression, Expr::SystemOperator("-".to_string()));
    assert_eq!(result[1].command, Expr::Identifier("Y".to_string()));
    assert_eq!(result[1].expression, Expr::SystemOperator("-".to_string()));
    assert_eq!(result[2].command, Expr::Identifier("Y".to_string()));
    assert_eq!(result[2].expression, Expr::SystemOperator("-".to_string()));
    assert_eq!(result[3].command, Expr::Identifier("Y".to_string()));
    assert_eq!(result[3].expression, Expr::SystemOperator("-".to_string()));
}
