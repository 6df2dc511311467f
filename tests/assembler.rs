use asm6502::assembler::Assembler;
use asm6502::assembly_macro::expand;
use asm6502::error::AssemblyError;
use asm6502::expression::{Expr, Operator};
use asm6502::hex_output::render_ihex;
use asm6502::labels::{Address, LabelEntry};
use asm6502::statement::{Line, Statement};
use asm6502::text::number_text;

fn ident(s: &str) -> Expr {
    Expr::Identifier(s.to_string())
}

fn sysop(s: &str) -> Expr {
    Expr::SystemOperator(s.to_string())
}

fn binop(l: Expr, op: Operator, r: Expr) -> Expr {
    Expr::BinOp(Box::new(l), op, Box::new(r))
}

fn stmt(command: Expr, expression: Expr) -> Statement {
    Statement {
        command,
        expression,
    }
}

fn line(n: usize, label: Option<&str>, statements: Vec<Statement>) -> Line {
    Line::new(n, 0, label.map(|s| s.to_string()), statements, vec![])
}

fn origin(n: usize) -> Line {
    line(n, None, vec![stmt(sysop("*"), Expr::WordNum(0x8000))])
}

fn object_code(lines: &[Line]) -> Vec<u8> {
    lines.iter().flat_map(|l| l.object_codes.clone()).collect()
}

fn address_of(assembler: &Assembler, name: &str) -> Option<Address> {
    assembler.labels.get(name).map(|e: &LabelEntry| e.address)
}

// *=$8000 / MAIN X=$05 / A=X / !=SUB / #=! / SUB A=A+1 / #=!
fn sample_program() -> Vec<Line> {
    vec![
        origin(1),
        line(2, Some("MAIN"), vec![stmt(ident("X"), Expr::ByteNum(5))]),
        line(3, None, vec![stmt(ident("A"), ident("X"))]),
        line(4, None, vec![stmt(sysop("!"), ident("SUB"))]),
        line(5, None, vec![stmt(sysop("#"), sysop("!"))]),
        line(
            6,
            Some("SUB"),
            vec![stmt(ident("A"), binop(ident("A"), Operator::Add, Expr::DecimalNum(1)))],
        ),
        line(7, None, vec![stmt(sysop("#"), sysop("!"))]),
    ]
}

#[test]
fn end_to_end_program() {
    let mut lines = expand(&sample_program()).unwrap();
    let mut assembler = Assembler::new();
    let size = assembler.assemble(&mut lines).unwrap();
    let code = object_code(&lines);
    assert_eq!(size, code.len());
    assert_eq!(
        code,
        vec![0xA2, 0x05, 0x8A, 0x20, 0x07, 0x80, 0x60, 0x18, 0x69, 0x01, 0x60]
    );
    assert_eq!(code[0], 0xA2);
    assert_eq!(assembler.labels.entries.len(), 2);
    assert_eq!(address_of(&assembler, "MAIN"), Some(Address::Full(0x8000)));
    assert_eq!(address_of(&assembler, "SUB"), Some(Address::Full(0x8007)));
}

#[test]
fn if_statement_expansion() {
    // ;=X>10 A=A+1 Y=Y+1
    let source = vec![line(
        1,
        None,
        vec![
            stmt(sysop(";"), binop(ident("X"), Operator::Greater, Expr::DecimalNum(10))),
            stmt(ident("A"), binop(ident("A"), Operator::Add, Expr::DecimalNum(1))),
            stmt(ident("Y"), binop(ident("Y"), Operator::Add, Expr::DecimalNum(1))),
        ],
    )];
    let expanded = expand(&source).unwrap();
    assert_eq!(expanded.len(), 5);
    assert_eq!(expanded[0].label, Some("#macro_0".to_string()));
    assert!(expanded[0].statements.is_empty());
    assert_eq!(expanded[1].statements.len(), 1);
    assert_eq!(expanded[1].statements[0].command, ident("T"));
    assert_eq!(
        expanded[1].statements[0].expression,
        binop(ident("X"), Operator::Sub, Expr::DecimalNum(10))
    );
    assert_eq!(expanded[2].statements[0].command, sysop(";"));
    assert_eq!(
        expanded[2].statements[0].expression,
        binop(sysop("<"), Operator::Comma, ident("#macro_0.1"))
    );
    assert_eq!(expanded[3].statements.len(), 3);
    assert_eq!(expanded[3].statements[0].command, ident("C"));
    assert_eq!(expanded[4].label, Some("#macro_0.1".to_string()));

    // the same control flow as a branch over the then-statements written by hand
    let mut program = vec![origin(0)];
    program.extend(expanded);
    let mut assembler = Assembler::new();
    assembler.assemble(&mut program).unwrap();
    let by_macro = object_code(&program);

    let mut hand = vec![
        origin(0),
        line(1, None, vec![stmt(ident("T"), binop(ident("X"), Operator::Sub, Expr::DecimalNum(10)))]),
        line(2, None, vec![stmt(sysop(";"), binop(sysop("<"), Operator::Comma, ident("SKIP")))]),
        line(
            3,
            None,
            vec![
                stmt(ident("C"), Expr::DecimalNum(0)),
                stmt(ident("A"), binop(ident("AC"), Operator::Add, Expr::DecimalNum(1))),
                stmt(ident("Y"), sysop("+")),
            ],
        ),
        line(4, Some("SKIP"), vec![]),
    ];
    let mut hand_assembler = Assembler::new();
    hand_assembler.assemble(&mut hand).unwrap();
    assert_eq!(by_macro, object_code(&hand));
    assert_eq!(by_macro, vec![0xE0, 0x0A, 0x90, 0x04, 0x18, 0x69, 0x01, 0xC8]);
}

#[test]
fn do_loop_expansion() {
    // @ / X=+ / @=X<5
    let source = vec![
        origin(1),
        line(2, Some("MAIN"), vec![stmt(sysop("@"), Expr::Empty)]),
        line(3, None, vec![stmt(ident("X"), sysop("++"))]),
        line(4, None, vec![stmt(sysop("@"), binop(ident("X"), Operator::Less, Expr::DecimalNum(5)))]),
    ];
    let mut lines = expand(&source).unwrap();
    let mut assembler = Assembler::new();
    assembler.assemble(&mut lines).unwrap();
    // INX INX / CPX #5 / BCS +3 / JMP loop
    assert_eq!(
        object_code(&lines),
        vec![0xE8, 0xE8, 0xE0, 0x05, 0xB0, 0x03, 0x4C, 0x00, 0x80]
    );
}

#[test]
fn unmatched_loop_close_is_a_macro_error() {
    let source = vec![line(1, None, vec![stmt(sysop("@"), binop(ident("X"), Operator::Less, Expr::DecimalNum(5)))])];
    assert!(matches!(expand(&source), Err(AssemblyError::Macro(_))));
}

#[test]
fn local_labels_belong_to_the_global_label() {
    let mut lines = vec![
        origin(1),
        line(2, Some("MAIN"), vec![stmt(ident("X"), Expr::ByteNum(3))]),
        line(3, Some(".loop"), vec![stmt(ident("X"), sysop("-"))]),
        line(4, None, vec![stmt(sysop(";"), binop(sysop("\\"), Operator::Comma, ident(".loop")))]),
    ];
    let mut assembler = Assembler::new();
    assembler.assemble(&mut lines).unwrap();
    assert_eq!(address_of(&assembler, "MAIN.loop"), Some(Address::Full(0x8002)));
    assert_eq!(object_code(&lines), vec![0xA2, 0x03, 0xCA, 0xD0, 0xFD]);
}

#[test]
fn local_label_without_global_label_fails() {
    let mut lines = vec![origin(1), line(2, Some(".loop"), vec![])];
    let mut assembler = Assembler::new();
    let err = assembler.assemble(&mut lines).unwrap_err();
    assert!(matches!(err, AssemblyError::Program(_)));
    assert!(err.message().contains("global label not found"));
}

#[test]
fn duplicate_labels_fail() {
    let mut lines = vec![origin(1), line(2, Some("MAIN"), vec![]), line(3, Some("MAIN"), vec![])];
    let mut assembler = Assembler::new();
    assert!(matches!(assembler.assemble(&mut lines), Err(AssemblyError::Label(_))));
    let mut lines = vec![
        origin(1),
        line(2, Some("MAIN"), vec![]),
        line(3, Some(".a"), vec![]),
        line(4, Some(".a"), vec![]),
    ];
    let mut assembler = Assembler::new();
    assert!(matches!(assembler.assemble(&mut lines), Err(AssemblyError::Label(_))));
}

#[test]
fn instruction_before_origin_fails() {
    let mut lines = vec![line(1, None, vec![stmt(sysop("#"), sysop("!"))])];
    let mut assembler = Assembler::new();
    let err = assembler.assemble(&mut lines).unwrap_err();
    assert!(err.message().contains("address not set"));
}

#[test]
fn label_address_definition() {
    // SCREEN :=$0400 and ZP :=$FB, then A=(ZP) and (SCREEN)=A
    let mut lines = vec![
        origin(1),
        line(2, Some("SCREEN"), vec![stmt(sysop(":"), Expr::WordNum(0x0400))]),
        line(3, Some("ZP"), vec![stmt(sysop(":"), Expr::ByteNum(0xFB))]),
        line(4, None, vec![stmt(ident("A"), Expr::Parenthesized(Box::new(ident("ZP"))))]),
        line(5, None, vec![stmt(Expr::Parenthesized(Box::new(ident("SCREEN"))), ident("A"))]),
    ];
    let mut assembler = Assembler::new();
    assembler.assemble(&mut lines).unwrap();
    assert_eq!(address_of(&assembler, "ZP"), Some(Address::ZeroPage(0xFB)));
    assert_eq!(object_code(&lines), vec![0xA5, 0xFB, 0x8D, 0x00, 0x04]);
}

#[test]
fn intel_hex_records() {
    let objects: Vec<u8> = (0..41).map(|i| i as u8).collect();
    let text = render_ihex(&objects, 0x8000).unwrap();
    let records: Vec<&str> = text.lines().collect();
    assert_eq!(records.len(), 3);
    assert!(records[0].starts_with(":28800000000102"));
    assert!(records[1].starts_with(":0180280028"));
    assert_eq!(records[2], ":00000001FF");
}

#[test]
fn decimal_text() {
    assert_eq!(number_text(0), "0");
    assert_eq!(number_text(1907), "1907");
}

#[test]
fn label_listing_shows_cartridge_globals_by_address() {
    let mut lines = vec![
        origin(1),
        line(2, Some("start"), vec![stmt(sysop("#"), sysop("!"))]),
        line(3, Some("Upper"), vec![stmt(sysop("#"), sysop("!"))]),
        line(4, Some(".local"), vec![stmt(sysop("#"), sysop("!"))]),
        line(5, Some("zp"), vec![stmt(sysop(":"), Expr::ByteNum(0x10))]),
        line(6, Some("irq"), vec![stmt(sysop("#"), sysop("~"))]),
        line(7, Some("low"), vec![stmt(sysop(":"), Expr::WordNum(0x1000))]),
    ];
    let mut assembler = Assembler::new();
    assembler.assemble(&mut lines).unwrap();
    assert_eq!(
        asm6502::label_listing::debug_labels(&assembler.labels),
        vec![(0x0000, "start".to_string()), (0x0003, "irq".to_string())]
    );
}

#[test]
fn non_comparison_conditions_are_macro_errors() {
    let if_line = vec![line(1, None, vec![stmt(sysop(";"), ident("X")), stmt(ident("A"), sysop("<"))])];
    assert!(matches!(expand(&if_line), Err(AssemblyError::Macro(_))));
    let do_lines = vec![
        line(1, None, vec![stmt(sysop("@"), Expr::Empty)]),
        line(2, None, vec![stmt(sysop("@"), ident("X"))]),
    ];
    assert!(matches!(expand(&do_lines), Err(AssemblyError::Macro(_))));
    let bad_op = vec![line(1, None, vec![stmt(sysop(";"), binop(ident("X"), Operator::Add, Expr::DecimalNum(1)))])];
    assert!(matches!(expand(&bad_op), Err(AssemblyError::Macro(_))));
}

#[test]
fn pass_sizes_must_agree() {
    // `zp` is used before `:` makes it a zero-page label: three bytes in pass 1, two in pass 2
    let mut lines = vec![
        origin(1),
        line(2, None, vec![stmt(ident("A"), Expr::Parenthesized(Box::new(ident("zp"))))]),
        line(3, Some("zp"), vec![stmt(sysop(":"), Expr::ByteNum(0x10))]),
    ];
    let mut assembler = Assembler::new();
    let err = assembler.assemble(&mut lines).unwrap_err();
    assert!(matches!(err, AssemblyError::Program(_)));
    assert!(err.message().contains("code size differs between passes"));
}

#[test]
fn address_overflow_is_a_program_error() {
    let mut lines = vec![
        line(1, None, vec![stmt(sysop("*"), Expr::WordNum(0xFFFF))]),
        line(2, None, vec![stmt(sysop("#"), Expr::WordNum(0x1234))]),
    ];
    let mut assembler = Assembler::new();
    let err = assembler.assemble(&mut lines).unwrap_err();
    assert_eq!(err.message(), "program error: address overflow");
    assert!(lines.iter().all(|l| l.object_codes.is_empty()));
}

#[test]
fn intel_hex_text_is_exact() {
    assert_eq!(
        render_ihex(&vec![0x01], 0x8000).unwrap(),
        ":01800000017E\n:00000001FF\n"
    );
}
