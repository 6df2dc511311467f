//! The statement decoder: for each shape of operand, the instruction and addressing mode it
//! denotes. Every decoder tries its alternatives in a fixed order and takes the first that
//! matches; the spec functions below state that order.
use crate::error::AssemblyError;
use crate::expression::{address_of, Expr, Operator};
use crate::labels::{Address, LabelTable};
use crate::matcher::{
    agrees, is_register, is_sysop, num16_of, num16bit, num8_of, num8bit, operands, register_a,
    register_x, register_y,
};
use crate::opcode::{AddressingMode, AssemblyInstruction, Mnemonic, OperandValue};
use crate::text::same_text;
use vstd::prelude::*;

verus! {

/// The first of two alternatives that matches.
pub open spec fn first<T>(a: Option<T>, b: Option<T>) -> Option<T> {
    if a is Some {
        a
    } else {
        b
    }
}

pub open spec fn instr(m: Mnemonic, mode: AddressingMode, v: OperandValue) -> AssemblyInstruction {
    AssemblyInstruction { mnemonic: m, addressing_mode: mode, value: v }
}

/// `m` in `mode` with a one-byte operand, where the operand matched.
pub open spec fn with_byte(m: Mnemonic, mode: AddressingMode, v: Option<u8>) -> Option<
    AssemblyInstruction,
> {
    match v {
        Some(n) => Some(instr(m, mode, OperandValue::Byte(n))),
        None => None,
    }
}

/// `m` in `mode` with a two-byte operand, where the operand matched.
pub open spec fn with_word(m: Mnemonic, mode: AddressingMode, v: Option<u16>) -> Option<
    AssemblyInstruction,
> {
    match v {
        Some(n) => Some(instr(m, mode, OperandValue::Word(n))),
        None => None,
    }
}

/// `m` in `mode` without an operand, where `matched` holds.
pub open spec fn bare(m: Mnemonic, mode: AddressingMode, matched: bool) -> Option<
    AssemblyInstruction,
> {
    if matched {
        Some(instr(m, mode, OperandValue::NoOperand))
    } else {
        None
    }
}

/// The address of the label `e` names, where it is a zero-page label.
pub open spec fn plain_zeropage_label_of(e: Expr, labels: Map<Seq<char>, Address>) -> Option<
    u8,
> {
    match e {
        Expr::Identifier(name) => if labels.contains_key(name@) {
            match labels[name@] {
                Address::ZeroPage(a) => Some(a),
                _ => None,
            }
        } else {
            None
        },
        _ => None,
    }
}

/// `label+n` with a zero-page label: the sum modulo 256.
pub open spec fn offset_zeropage_label_of(e: Expr, labels: Map<Seq<char>, Address>) -> Option<
    u8,
> {
    match operands(e, Operator::Add) {
        Some((l, r)) => match (plain_zeropage_label_of(l, labels), num8_of(r)) {
            (Some(a), Some(o)) => Some(((a + o) % 256) as u8),
            _ => None,
        },
        None => None,
    }
}

pub open spec fn zeropage_label_of(e: Expr, labels: Map<Seq<char>, Address>) -> Option<u8> {
    first(offset_zeropage_label_of(e, labels), plain_zeropage_label_of(e, labels))
}

/// The value of the label `name`, or 0 while it is not yet defined.
pub open spec fn label_value_or_zero(name: Seq<char>, labels: Map<Seq<char>, Address>) -> u16 {
    if labels.contains_key(name) {
        labels[name].value()
    } else {
        0
    }
}

/// `>label`: the high byte of the label's address.
pub open spec fn hi_label_of(e: Expr, labels: Map<Seq<char>, Address>) -> Option<u8> {
    match e {
        Expr::HiByte(inner) => match *inner {
            Expr::Identifier(name) => Some((label_value_or_zero(name@, labels) / 256) as u8),
            _ => None,
        },
        _ => None,
    }
}

/// `<label`: the low byte of the label's address.
pub open spec fn lo_label_of(e: Expr, labels: Map<Seq<char>, Address>) -> Option<u8> {
    match e {
        Expr::LoByte(inner) => match *inner {
            Expr::Identifier(name) => Some((label_value_or_zero(name@, labels) % 256) as u8),
            _ => None,
        },
        _ => None,
    }
}

/// An immediate operand: a number, a zero-page label, or a byte of a label.
pub open spec fn immediate_of(e: Expr, labels: Map<Seq<char>, Address>) -> Option<u8> {
    first(
        num8_of(e),
        first(zeropage_label_of(e, labels), first(hi_label_of(e, labels), lo_label_of(e, labels))),
    )
}

/// `(n)` or `(label)` in the zero page.
pub open spec fn zeropage_of(e: Expr, labels: Map<Seq<char>, Address>) -> Option<u8> {
    match e {
        Expr::Parenthesized(inner) => first(num8_of(*inner), zeropage_label_of(*inner, labels)),
        _ => None,
    }
}

/// A label with a full address; 0 while it is not yet defined or is in the zero page.
pub open spec fn full_label_of(e: Expr, labels: Map<Seq<char>, Address>) -> Option<u16> {
    match e {
        Expr::Identifier(name) => Some(
            if labels.contains_key(name@) && labels[name@] is Full {
                labels[name@].value()
            } else {
                0
            },
        ),
        _ => None,
    }
}

/// An address expression that resolves to a full address.
pub open spec fn offset_label_of(e: Expr, labels: Map<Seq<char>, Address>) -> Option<u16> {
    match address_of(e, labels) {
        Some(Address::Full(a)) => Some(a),
        _ => None,
    }
}

pub open spec fn absolute_label_of(e: Expr, labels: Map<Seq<char>, Address>) -> Option<u16> {
    first(offset_label_of(e, labels), full_label_of(e, labels))
}

/// `(n)` or `(label)` as a full address.
pub open spec fn absolute_of(e: Expr, labels: Map<Seq<char>, Address>) -> Option<u16> {
    match e {
        Expr::Parenthesized(inner) => first(num16_of(*inner), absolute_label_of(*inner, labels)),
        _ => None,
    }
}

/// The base of `(base+reg)`.
pub open spec fn indexed_base(e: Expr, reg: Seq<char>) -> Option<Expr> {
    match e {
        Expr::Parenthesized(inner) => match operands(*inner, Operator::Add) {
            Some((l, r)) => if is_register(r, reg) {
                Some(l)
            } else {
                None
            },
            None => None,
        },
        _ => None,
    }
}

/// `(base+reg)` with a zero-page base.
pub open spec fn zeropage_indexed_of(e: Expr, labels: Map<Seq<char>, Address>, reg: Seq<char>) -> Option<u8> {
    match indexed_base(e, reg) {
        Some(b) => first(num8_of(b), zeropage_label_of(b, labels)),
        None => None,
    }
}

/// `(base+reg)` with a full base.
pub open spec fn absolute_indexed_of(e: Expr, labels: Map<Seq<char>, Address>, reg: Seq<char>) -> Option<u16> {
    match indexed_base(e, reg) {
        Some(b) => first(num16_of(b), absolute_label_of(b, labels)),
        None => None,
    }
}

/// `[base+X]`.
pub open spec fn indirect_x_of(e: Expr, labels: Map<Seq<char>, Address>) -> Option<u8> {
    match e {
        Expr::Bracketed(inner) => match operands(*inner, Operator::Add) {
            Some((l, r)) => if is_register(r, "X"@) {
                first(num8_of(l), zeropage_label_of(l, labels))
            } else {
                None
            },
            None => None,
        },
        _ => None,
    }
}

/// `[base]+Y`.
pub open spec fn indirect_y_of(e: Expr, labels: Map<Seq<char>, Address>) -> Option<u8> {
    match operands(e, Operator::Add) {
        Some((l, r)) => if is_register(r, "Y"@) {
            match l {
                Expr::Bracketed(b) => first(num8_of(*b), zeropage_label_of(*b, labels)),
                _ => None,
            }
        } else {
            None
        },
        None => None,
    }
}

/// `R=R+1` / `R=R-1` for the register `reg`, or the short forms `+` / `-`.
pub open spec fn step_of(e: Expr, reg: Seq<char>) -> Option<Operator> {
    match e {
        Expr::BinOp(l, op, r) => if is_register(*l, reg) && *r == Expr::DecimalNum(1) && (op
            is Add || op is Sub) {
            Some(op)
        } else {
            None
        },
        Expr::SystemOperator(s) => if s@ == "+"@ {
            Some(Operator::Add)
        } else if s@ == "-"@ {
            Some(Operator::Sub)
        } else {
            None
        },
        _ => None,
    }
}

/// The eight modes of the accumulator instructions (load, arithmetic, logic, compare).
pub open spec fn group_one_of(m: Mnemonic, e: Expr, labels: Map<Seq<char>, Address>) -> Option<
    AssemblyInstruction,
> {
    first(
        with_byte(m, AddressingMode::Immediate, immediate_of(e, labels)),
        first(
            with_byte(m, AddressingMode::ZeroPage, zeropage_of(e, labels)),
            first(
                with_byte(m, AddressingMode::ZeroPageX, zeropage_indexed_of(e, labels, "X"@)),
                first(
                    with_word(m, AddressingMode::Absolute, absolute_of(e, labels)),
                    first(
                        with_word(
                            m,
                            AddressingMode::AbsoluteX,
                            absolute_indexed_of(e, labels, "X"@),
                        ),
                        first(
                            with_word(
                                m,
                                AddressingMode::AbsoluteY,
                                absolute_indexed_of(e, labels, "Y"@),
                            ),
                            first(
                                with_byte(m, AddressingMode::IndirectX, indirect_x_of(e, labels)),
                                with_byte(m, AddressingMode::IndirectY, indirect_y_of(e, labels)),
                            ),
                        ),
                    ),
                ),
            ),
        ),
    )
}

/// Loads of an index register: immediate, zero page, zero page indexed by `index`, absolute,
/// absolute indexed by `index`.
pub open spec fn load_index_of(
    m: Mnemonic,
    index: Seq<char>,
    e: Expr,
    labels: Map<Seq<char>, Address>,
) -> Option<AssemblyInstruction> {
    let zpi = if index == "X"@ {
        AddressingMode::ZeroPageX
    } else {
        AddressingMode::ZeroPageY
    };
    let absi = if index == "X"@ {
        AddressingMode::AbsoluteX
    } else {
        AddressingMode::AbsoluteY
    };
    first(
        with_byte(m, AddressingMode::Immediate, immediate_of(e, labels)),
        first(
            with_byte(m, AddressingMode::ZeroPage, zeropage_of(e, labels)),
            first(
                with_byte(m, zpi, zeropage_indexed_of(e, labels, index)),
                first(
                    with_word(m, AddressingMode::Absolute, absolute_of(e, labels)),
                    with_word(m, absi, absolute_indexed_of(e, labels, index)),
                ),
            ),
        ),
    )
}

/// `X=...` (with `index` Y and the X instructions) or `Y=...` (with `index` X).
pub open spec fn index_register_of(
    reg: Seq<char>,
    e: Expr,
    labels: Map<Seq<char>, Address>,
) -> Option<AssemblyInstruction> {
    let x = reg == "X"@;
    first(
        load_index_of(
            if x {
                Mnemonic::LDX
            } else {
                Mnemonic::LDY
            },
            if x {
                "Y"@
            } else {
                "X"@
            },
            e,
            labels,
        ),
        first(
            bare(
                if x {
                    Mnemonic::INX
                } else {
                    Mnemonic::INY
                },
                AddressingMode::Implied,
                step_of(e, reg) == Some(Operator::Add),
            ),
            first(
                bare(
                    if x {
                        Mnemonic::DEX
                    } else {
                        Mnemonic::DEY
                    },
                    AddressingMode::Implied,
                    step_of(e, reg) == Some(Operator::Sub),
                ),
                bare(
                    if x {
                        Mnemonic::TAX
                    } else {
                        Mnemonic::TAY
                    },
                    AddressingMode::Implied,
                    is_register(e, "A"@),
                ),
            ),
        ),
    )
}

pub open spec fn x_of(e: Expr, labels: Map<Seq<char>, Address>) -> Option<AssemblyInstruction> {
    index_register_of("X"@, e, labels)
}

pub open spec fn y_of(e: Expr, labels: Map<Seq<char>, Address>) -> Option<AssemblyInstruction> {
    index_register_of("Y"@, e, labels)
}

/// `left op right` where `left` is the register `reg`: the accumulator instruction `m` on
/// `right`.
pub open spec fn accumulator_op_of(
    m: Mnemonic,
    op: Operator,
    reg: Seq<char>,
    e: Expr,
    labels: Map<Seq<char>, Address>,
) -> Option<AssemblyInstruction> {
    match operands(e, op) {
        Some((l, r)) => if is_register(l, reg) {
            group_one_of(m, r, labels)
        } else {
            None
        },
        None => None,
    }
}

pub open spec fn lda_of(e: Expr, labels: Map<Seq<char>, Address>) -> Option<AssemblyInstruction> {
    first(
        group_one_of(Mnemonic::LDA, e, labels),
        first(
            bare(Mnemonic::TXA, AddressingMode::Implied, is_register(e, "X"@)),
            bare(Mnemonic::TYA, AddressingMode::Implied, is_register(e, "Y"@)),
        ),
    )
}

/// The shift or rotate that a one-character system operator stands for.
pub open spec fn shift_mnemonic(s: Seq<char>) -> Option<Mnemonic> {
    if s == "<"@ {
        Some(Mnemonic::ASL)
    } else if s == ">"@ {
        Some(Mnemonic::LSR)
    } else if s == "("@ {
        Some(Mnemonic::ROL)
    } else if s == ")"@ {
        Some(Mnemonic::ROR)
    } else {
        None
    }
}

pub open spec fn shift_a_of(e: Expr) -> Option<AssemblyInstruction> {
    match e {
        Expr::SystemOperator(s) => match shift_mnemonic(s@) {
            Some(m) => Some(instr(m, AddressingMode::Accumulator, OperandValue::NoOperand)),
            None => None,
        },
        _ => None,
    }
}

/// `A=...`.
pub open spec fn a_of(e: Expr, labels: Map<Seq<char>, Address>) -> Option<AssemblyInstruction> {
    first(
        lda_of(e, labels),
        first(
            accumulator_op_of(Mnemonic::ADC, Operator::Add, "AC"@, e, labels),
            first(
                accumulator_op_of(Mnemonic::SBC, Operator::Sub, "AC"@, e, labels),
                first(
                    accumulator_op_of(Mnemonic::ORA, Operator::Or, "A"@, e, labels),
                    first(
                        accumulator_op_of(Mnemonic::AND, Operator::And, "A"@, e, labels),
                        first(
                            accumulator_op_of(Mnemonic::EOR, Operator::Xor, "A"@, e, labels),
                            first(
                                bare(Mnemonic::PLA, AddressingMode::Implied, is_sysop(e, "]"@)),
                                shift_a_of(e),
                            ),
                        ),
                    ),
                ),
            ),
        ),
    )
}

/// Compares of an index register: immediate, zero page, absolute.
pub open spec fn compare_index_of(m: Mnemonic, e: Expr, labels: Map<Seq<char>, Address>) -> Option<
    AssemblyInstruction,
> {
    first(
        with_byte(m, AddressingMode::Immediate, immediate_of(e, labels)),
        first(
            with_byte(m, AddressingMode::ZeroPage, zeropage_of(e, labels)),
            with_word(m, AddressingMode::Absolute, absolute_of(e, labels)),
        ),
    )
}

pub open spec fn bit_of(e: Expr, labels: Map<Seq<char>, Address>) -> Option<AssemblyInstruction> {
    first(
        with_byte(Mnemonic::BIT, AddressingMode::ZeroPage, zeropage_of(e, labels)),
        with_word(Mnemonic::BIT, AddressingMode::Absolute, absolute_of(e, labels)),
    )
}

/// `T=...`: the comparisons.
pub open spec fn t_of(e: Expr, labels: Map<Seq<char>, Address>) -> Option<AssemblyInstruction> {
    match e {
        Expr::BinOp(l, Operator::Sub, r) => if is_register(*l, "A"@) {
            group_one_of(Mnemonic::CMP, *r, labels)
        } else if is_register(*l, "X"@) {
            compare_index_of(Mnemonic::CPX, *r, labels)
        } else if is_register(*l, "Y"@) {
            compare_index_of(Mnemonic::CPY, *r, labels)
        } else {
            None
        },
        Expr::BinOp(l, Operator::And, r) => if is_register(*l, "A"@) {
            bit_of(*r, labels)
        } else {
            None
        },
        _ => None,
    }
}

/// `C=0`, `C=1`, `I=0`, `I=1`, `V=0`, `D=0`, `D=1`.
pub open spec fn flag_mnemonic(flag: Seq<char>, value: u16) -> Option<Mnemonic> {
    if flag == "C"@ && value == 0 {
        Some(Mnemonic::CLC)
    } else if flag == "C"@ && value == 1 {
        Some(Mnemonic::SEC)
    } else if flag == "I"@ && value == 0 {
        Some(Mnemonic::CLI)
    } else if flag == "I"@ && value == 1 {
        Some(Mnemonic::SEI)
    } else if flag == "V"@ && value == 0 {
        Some(Mnemonic::CLV)
    } else if flag == "D"@ && value == 0 {
        Some(Mnemonic::CLD)
    } else if flag == "D"@ && value == 1 {
        Some(Mnemonic::SED)
    } else {
        None
    }
}

pub open spec fn flags_of(command: Expr, e: Expr) -> Option<AssemblyInstruction> {
    match (command, e) {
        (Expr::Identifier(flag), Expr::DecimalNum(n)) => match flag_mnemonic(flag@, n) {
            Some(m) => Some(instr(m, AddressingMode::Implied, OperandValue::NoOperand)),
            None => None,
        },
        _ => None,
    }
}

/// `!=label` or `!=$addr`; `#=label` or `#=$addr` (with `m` the jump).
pub open spec fn transfer_of(m: Mnemonic, e: Expr) -> Option<AssemblyInstruction> {
    match e {
        Expr::Identifier(name) => Some(
            instr(m, AddressingMode::Absolute, OperandValue::UnresolvedLabel(name)),
        ),
        _ => with_word(m, AddressingMode::Absolute, num16_of(e)),
    }
}

pub open spec fn goto_of(e: Expr) -> Option<AssemblyInstruction> {
    first(
        transfer_of(Mnemonic::JMP, e),
        first(
            bare(Mnemonic::RTS, AddressingMode::Implied, is_sysop(e, "!"@)),
            bare(Mnemonic::RTI, AddressingMode::Implied, is_sysop(e, "~"@)),
        ),
    )
}

/// The branch that a condition symbol or name stands for.
pub open spec fn branch_mnemonic(s: Seq<char>) -> Option<Mnemonic> {
    if s == "\\"@ || s == "/"@ || s == "NE"@ {
        Some(Mnemonic::BNE)
    } else if s == "="@ || s == "EQ"@ {
        Some(Mnemonic::BEQ)
    } else if s == ">"@ || s == "CS"@ {
        Some(Mnemonic::BCS)
    } else if s == "<"@ || s == "CC"@ {
        Some(Mnemonic::BCC)
    } else if s == "-"@ || s == "MI"@ {
        Some(Mnemonic::BMI)
    } else if s == "+"@ || s == "PL"@ {
        Some(Mnemonic::BPL)
    } else if s == "_"@ || s == "VC"@ {
        Some(Mnemonic::BVC)
    } else if s == "^"@ || s == "VS"@ {
        Some(Mnemonic::BVS)
    } else {
        None
    }
}

/// `;=cond,target`: a branch to a literal address or to a label.
pub open spec fn if_of(e: Expr) -> Option<AssemblyInstruction> {
    match e {
        Expr::BinOp(l, Operator::Comma, r) => {
            let cond = match *l {
                Expr::SystemOperator(s) => Some(s@),
                Expr::Identifier(s) => Some(s@),
                _ => None,
            };
            match cond {
                Some(c) => match branch_mnemonic(c) {
                    Some(m) => match num16_of(*r) {
                        Some(a) => Some(
                            instr(m, AddressingMode::Relative, OperandValue::UnresolvedRelative(a)),
                        ),
                        None => match *r {
                            Expr::Identifier(name) => Some(
                                instr(
                                    m,
                                    AddressingMode::Relative,
                                    OperandValue::UnresolvedLabel(name),
                                ),
                            ),
                            _ => None,
                        },
                    },
                    None => None,
                },
                None => None,
            }
        },
        _ => None,
    }
}

/// The memory modes of increment, decrement, shift and rotate.
pub open spec fn memory_of(m: Mnemonic, e: Expr, labels: Map<Seq<char>, Address>) -> Option<
    AssemblyInstruction,
> {
    first(
        with_byte(m, AddressingMode::ZeroPage, zeropage_of(e, labels)),
        first(
            with_byte(m, AddressingMode::ZeroPageX, zeropage_indexed_of(e, labels, "X"@)),
            first(
                with_word(m, AddressingMode::Absolute, absolute_of(e, labels)),
                with_word(m, AddressingMode::AbsoluteX, absolute_indexed_of(e, labels, "X"@)),
            ),
        ),
    )
}

/// A shift or rotate of the accumulator (`A`) or of memory.
pub open spec fn shift_target_of(m: Mnemonic, e: Expr, labels: Map<Seq<char>, Address>) -> Option<
    AssemblyInstruction,
> {
    first(bare(m, AddressingMode::Accumulator, is_register(e, "A"@)), memory_of(m, e, labels))
}

pub open spec fn sta_of(e: Expr, labels: Map<Seq<char>, Address>) -> Option<AssemblyInstruction> {
    let m = Mnemonic::STA;
    first(
        with_byte(m, AddressingMode::ZeroPage, zeropage_of(e, labels)),
        first(
            with_byte(m, AddressingMode::ZeroPageX, zeropage_indexed_of(e, labels, "X"@)),
            first(
                with_word(m, AddressingMode::Absolute, absolute_of(e, labels)),
                first(
                    with_word(m, AddressingMode::AbsoluteX, absolute_indexed_of(e, labels, "X"@)),
                    first(
                        with_word(
                            m,
                            AddressingMode::AbsoluteY,
                            absolute_indexed_of(e, labels, "Y"@),
                        ),
                        first(
                            with_byte(m, AddressingMode::IndirectX, indirect_x_of(e, labels)),
                            with_byte(m, AddressingMode::IndirectY, indirect_y_of(e, labels)),
                        ),
                    ),
                ),
            ),
        ),
    )
}

/// Stores of an index register: zero page, zero page indexed by `index`, absolute.
pub open spec fn store_index_of(
    m: Mnemonic,
    index: Seq<char>,
    e: Expr,
    labels: Map<Seq<char>, Address>,
) -> Option<AssemblyInstruction> {
    let zpi = if index == "X"@ {
        AddressingMode::ZeroPageX
    } else {
        AddressingMode::ZeroPageY
    };
    first(
        with_byte(m, AddressingMode::ZeroPage, zeropage_of(e, labels)),
        first(
            with_byte(m, zpi, zeropage_indexed_of(e, labels, index)),
            with_word(m, AddressingMode::Absolute, absolute_of(e, labels)),
        ),
    )
}

/// `target=A`, `target=X`, `target=Y`, `target=+`, `target=-` and the shifts of memory.
pub open spec fn store_of(command: Expr, e: Expr, labels: Map<Seq<char>, Address>) -> Option<
    AssemblyInstruction,
> {
    if is_register(e, "A"@) {
        sta_of(command, labels)
    } else if is_register(e, "X"@) {
        store_index_of(Mnemonic::STX, "Y"@, command, labels)
    } else if is_register(e, "Y"@) {
        store_index_of(Mnemonic::STY, "X"@, command, labels)
    } else {
        match e {
            Expr::SystemOperator(s) => if s@ == "+"@ {
                memory_of(Mnemonic::INC, command, labels)
            } else if s@ == "-"@ {
                memory_of(Mnemonic::DEC, command, labels)
            } else {
                match shift_mnemonic(s@) {
                    Some(m) => shift_target_of(m, command, labels),
                    None => None,
                }
            },
            _ => None,
        }
    }
}

// ---------------------------------------------------------------------------------------
// executable decoders
fn decode_error<T>(_expr: &Expr) -> (r: Result<T, AssemblyError>)
    ensures
        r matches Err(e) && e is Decode,
{
    Err(AssemblyError::decode_failed("bad expression"))
}

fn ok_byte(m: Mnemonic, mode: AddressingMode, num: u8) -> (r: Result<AssemblyInstruction, AssemblyError>)
    ensures
        r == Ok::<AssemblyInstruction, AssemblyError>(instr(m, mode, OperandValue::Byte(num))),
{
    Ok(AssemblyInstruction::new(m, mode, OperandValue::Byte(num)))
}

fn ok_word(m: Mnemonic, mode: AddressingMode, num: u16) -> (r: Result<AssemblyInstruction, AssemblyError>)
    ensures
        r == Ok::<AssemblyInstruction, AssemblyError>(instr(m, mode, OperandValue::Word(num))),
{
    Ok(AssemblyInstruction::new(m, mode, OperandValue::Word(num)))
}

fn ok_none(m: Mnemonic, mode: AddressingMode) -> (r: Result<AssemblyInstruction, AssemblyError>)
    ensures
        r == Ok::<AssemblyInstruction, AssemblyError>(instr(m, mode, OperandValue::NoOperand)),
{
    Ok(AssemblyInstruction::new(m, mode, OperandValue::NoOperand))
}

fn lookup_address(name: &String, labels: &LabelTable) -> (r: Option<Address>)
    ensures
        r == if labels@.contains_key(name@) {
            Some(labels@[name@])
        } else {
            None::<Address>
        },
{
    match labels.get(name.as_str()) {
        Some(entry) => Some(entry.address),
        None => None,
    }
}

fn normal_zeropage_label(expr: &Expr, labels: &LabelTable) -> (r: Result<u8, AssemblyError>)
    ensures
        r matches Err(e) ==> e is Decode,
        agrees(r, plain_zeropage_label_of(*expr, labels@)),
{
    if let Expr::Identifier(name) = expr {
        if let Some(Address::ZeroPage(a)) = lookup_address(name, labels) {
            return Ok(a);
        }
    }
    decode_error(expr)
}

fn offset_zeropage_label(expr: &Expr, labels: &LabelTable) -> (r: Result<u8, AssemblyError>)
    ensures
        r matches Err(e) ==> e is Decode,
        agrees(r, offset_zeropage_label_of(*expr, labels@)),
{
    if let Expr::BinOp(left, Operator::Add, right) = expr {
        if let Ok(a) = normal_zeropage_label(left, labels) {
            if let Ok(o) = num8bit(right) {
                return Ok(((a as u16 + o as u16) % 256) as u8);
            }
        }
    }
    decode_error(expr)
}

fn zeropage_label(expr: &Expr, labels: &LabelTable) -> (r: Result<u8, AssemblyError>)
    ensures
        r matches Err(e) ==> e is Decode,
        agrees(r, zeropage_label_of(*expr, labels@)),
{
    match offset_zeropage_label(expr, labels) {
        Ok(a) => Ok(a),
        Err(_) => normal_zeropage_label(expr, labels),
    }
}

fn value_or_zero(name: &String, labels: &LabelTable) -> (r: u16)
    ensures
        r == label_value_or_zero(name@, labels@),
{
    match lookup_address(name, labels) {
        Some(a) => a.value_of(),
        None => 0,
    }
}

pub fn hi_label(expr: &Expr, labels: &LabelTable) -> (r: Result<u8, AssemblyError>)
    ensures
        r matches Err(e) ==> e is Decode,
        agrees(r, hi_label_of(*expr, labels@)),
{
    if let Expr::HiByte(inner) = expr {
        if let Expr::Identifier(name) = &**inner {
            return Ok((value_or_zero(name, labels) / 256) as u8);
        }
    }
    decode_error(expr)
}

pub fn lo_label(expr: &Expr, labels: &LabelTable) -> (r: Result<u8, AssemblyError>)
    ensures
        r matches Err(e) ==> e is Decode,
        agrees(r, lo_label_of(*expr, labels@)),
{
    if let Expr::LoByte(inner) = expr {
        if let Expr::Identifier(name) = &**inner {
            return Ok((value_or_zero(name, labels) % 256) as u8);
        }
    }
    decode_error(expr)
}

/// `decoder` applied inside parentheses; fails on any other shape.
pub fn parenthesized_within<T, F: Fn(&Expr) -> Result<T, AssemblyError>>(expr: &Expr, decoder: F) -> (r:
    Result<T, AssemblyError>)
    requires
        forall|e: &Expr| decoder.requires((e,)),
    ensures
        match *expr {
            Expr::Parenthesized(inner) => decoder.ensures((&*inner,), r),
            _ => r is Err,
        },
{
    match expr {
        Expr::Parenthesized(inner) => decoder(&**inner),
        _ => decode_error(expr),
    }
}

/// `decoder` applied inside brackets; fails on any other shape.
pub fn bracketed_within<T, F: Fn(&Expr) -> Result<T, AssemblyError>>(expr: &Expr, decoder: F) -> (r:
    Result<T, AssemblyError>)
    requires
        forall|e: &Expr| decoder.requires((e,)),
    ensures
        match *expr {
            Expr::Bracketed(inner) => decoder.ensures((&*inner,), r),
            _ => r is Err,
        },
{
    match expr {
        Expr::Bracketed(inner) => decoder(&**inner),
        _ => decode_error(expr),
    }
}

/// `A=1`, `A=$10`, `A=label` (zero page), `A=<label`, `A=>label`.
pub fn immediate(expr: &Expr, labels: &LabelTable) -> (r: Result<u8, AssemblyError>)
    ensures
        r matches Err(e) ==> e is Decode,
        agrees(r, immediate_of(*expr, labels@)),
{
    if let Ok(n) = num8bit(expr) {
        return Ok(n);
    }
    if let Ok(n) = zeropage_label(expr, labels) {
        return Ok(n);
    }
    if let Ok(n) = hi_label(expr, labels) {
        return Ok(n);
    }
    if let Ok(n) = lo_label(expr, labels) {
        return Ok(n);
    }
    decode_error(expr)
}

/// `($1F)`, `(31)` or `(label)` in the zero page.
pub fn zeropage(expr: &Expr, labels: &LabelTable) -> (r: Result<u8, AssemblyError>)
    ensures
        r matches Err(e) ==> e is Decode,
        agrees(r, zeropage_of(*expr, labels@)),
{
    if let Expr::Parenthesized(inner) = expr {
        if let Ok(n) = num8bit(inner) {
            return Ok(n);
        }
        return zeropage_label(inner, labels);
    }
    decode_error(expr)
}

fn full_label(expr: &Expr, labels: &LabelTable) -> (r: Result<u16, AssemblyError>)
    ensures
        r matches Err(e) ==> e is Decode,
        agrees(r, full_label_of(*expr, labels@)),
{
    if let Expr::Identifier(name) = expr {
        return match lookup_address(name, labels) {
            Some(Address::Full(a)) => Ok(a),
            _ => Ok(0),
        };
    }
    decode_error(expr)
}

fn offset_label(expr: &Expr, labels: &LabelTable) -> (r: Result<u16, AssemblyError>)
    ensures
        r matches Err(e) ==> e is Decode,
        agrees(r, offset_label_of(*expr, labels@)),
{
    match expr.calculate_address(labels) {
        Ok(Address::Full(a)) => Ok(a),
        _ => decode_error(expr),
    }
}

fn absolute_label(expr: &Expr, labels: &LabelTable) -> (r: Result<u16, AssemblyError>)
    ensures
        r matches Err(e) ==> e is Decode,
        agrees(r, absolute_label_of(*expr, labels@)),
{
    match offset_label(expr, labels) {
        Ok(a) => Ok(a),
        Err(_) => full_label(expr, labels),
    }
}

/// `($1234)`, `(4660)` or `(label)` as a full address.
pub fn absolute(expr: &Expr, labels: &LabelTable) -> (r: Result<u16, AssemblyError>)
    ensures
        r matches Err(e) ==> e is Decode,
        agrees(r, absolute_of(*expr, labels@)),
{
    if let Expr::Parenthesized(inner) = expr {
        if let Ok(n) = num16bit(inner) {
            return Ok(n);
        }
        return absolute_label(inner, labels);
    }
    decode_error(expr)
}

/// The base of `(base+reg)`.
fn indexed<'a>(expr: &'a Expr, reg: &str) -> (r: Option<&'a Expr>)
    ensures
        r matches Some(b) ==> indexed_base(*expr, reg@) == Some(*b),
        r is None ==> indexed_base(*expr, reg@) is None,
{
    if let Expr::Parenthesized(inner) = expr {
        if let Expr::BinOp(left, Operator::Add, right) = &**inner {
            if let Expr::Identifier(s) = &**right {
                if same_text(s.as_str(), reg) {
                    return Some(&**left);
                }
            }
        }
    }
    None
}

fn zeropage_indexed(expr: &Expr, labels: &LabelTable, reg: &str) -> (r: Result<u8, AssemblyError>)
    ensures
        r matches Err(e) ==> e is Decode,
        agrees(r, zeropage_indexed_of(*expr, labels@, reg@)),
{
    match indexed(expr, reg) {
        Some(base) => match num8bit(base) {
            Ok(n) => Ok(n),
            Err(_) => zeropage_label(base, labels),
        },
        None => decode_error(expr),
    }
}

fn absolute_indexed(expr: &Expr, labels: &LabelTable, reg: &str) -> (r: Result<u16, AssemblyError>)
    ensures
        r matches Err(e) ==> e is Decode,
        agrees(r, absolute_indexed_of(*expr, labels@, reg@)),
{
    match indexed(expr, reg) {
        Some(base) => match num16bit(base) {
            Ok(n) => Ok(n),
            Err(_) => absolute_label(base, labels),
        },
        None => decode_error(expr),
    }
}

/// `($1F+Y)`, `(31+Y)` or `(label+Y)`.
pub fn zeropage_y(expr: &Expr, labels: &LabelTable) -> (r: Result<u8, AssemblyError>)
    ensures
        r matches Err(e) ==> e is Decode,
        agrees(r, zeropage_indexed_of(*expr, labels@, "Y"@)),
{
    zeropage_indexed(expr, labels, "Y")
}

/// `($1F+X)`, `(31+X)` or `(label+X)`.
pub fn zeropage_x(expr: &Expr, labels: &LabelTable) -> (r: Result<u8, AssemblyError>)
    ensures
        r matches Err(e) ==> e is Decode,
        agrees(r, zeropage_indexed_of(*expr, labels@, "X"@)),
{
    zeropage_indexed(expr, labels, "X")
}

/// `($1234+Y)` or `(label+Y)`.
pub fn absolute_y(expr: &Expr, labels: &LabelTable) -> (r: Result<u16, AssemblyError>)
    ensures
        r matches Err(e) ==> e is Decode,
        agrees(r, absolute_indexed_of(*expr, labels@, "Y"@)),
{
    absolute_indexed(expr, labels, "Y")
}

/// `($1234+X)` or `(label+X)`.
pub fn absolute_x(expr: &Expr, labels: &LabelTable) -> (r: Result<u16, AssemblyError>)
    ensures
        r matches Err(e) ==> e is Decode,
        agrees(r, absolute_indexed_of(*expr, labels@, "X"@)),
{
    absolute_indexed(expr, labels, "X")
}

/// `[$44+X]` or `[label+X]`.
pub fn indirect_x(expr: &Expr, labels: &LabelTable) -> (r: Result<u8, AssemblyError>)
    ensures
        r matches Err(e) ==> e is Decode,
        agrees(r, indirect_x_of(*expr, labels@)),
{
    if let Expr::Bracketed(inner) = expr {
        if let Expr::BinOp(left, Operator::Add, right) = &**inner {
            if register_x(right).is_ok() {
                return match num8bit(left) {
                    Ok(n) => Ok(n),
                    Err(_) => zeropage_label(left, labels),
                };
            }
        }
    }
    decode_error(expr)
}

/// `[$44]+Y` or `[label]+Y`.
pub fn indirect_y(expr: &Expr, labels: &LabelTable) -> (r: Result<u8, AssemblyError>)
    ensures
        r matches Err(e) ==> e is Decode,
        agrees(r, indirect_y_of(*expr, labels@)),
{
    if let Expr::BinOp(left, Operator::Add, right) = expr {
        if register_y(right).is_ok() {
            if let Expr::Bracketed(inner) = &**left {
                return match num8bit(inner) {
                    Ok(n) => Ok(n),
                    Err(_) => zeropage_label(inner, labels),
                };
            }
        }
    }
    decode_error(expr)
}

/// `X=X+1`, `X=X-1`, `X=+` or `X=-` (for `register_left` X): the operator of the step.
pub fn incr_decrement(expr: &Expr, register_left: &str) -> (r: Result<Operator, AssemblyError>)
    ensures
        r matches Err(e) ==> e is Decode,
        agrees(r, step_of(*expr, register_left@)),
{
    match expr {
        Expr::BinOp(left, op, right) => {
            if let Expr::Identifier(name) = &**left {
                if let Expr::DecimalNum(n) = &**right {
                    if *n == 1 && same_text(name.as_str(), register_left) && (*op == Operator::Add
                        || *op == Operator::Sub) {
                        return Ok(*op);
                    }
                }
            }
            decode_error(expr)
        },
        Expr::SystemOperator(s) => if same_text(s.as_str(), "+") {
            Ok(Operator::Add)
        } else if same_text(s.as_str(), "-") {
            Ok(Operator::Sub)
        } else {
            decode_error(expr)
        },
        _ => decode_error(expr),
    }
}

pub fn increment(expr: &Expr, register_left: &str) -> (r: Result<(), AssemblyError>)
    ensures
        r matches Err(e) ==> e is Decode,
        r is Ok <==> step_of(*expr, register_left@) == Some(Operator::Add),
{
    match incr_decrement(expr, register_left) {
        Ok(Operator::Add) => Ok(()),
        _ => decode_error(expr),
    }
}

pub fn decrement(expr: &Expr, register_left: &str) -> (r: Result<(), AssemblyError>)
    ensures
        r matches Err(e) ==> e is Decode,
        r is Ok <==> step_of(*expr, register_left@) == Some(Operator::Sub),
{
    match incr_decrement(expr, register_left) {
        Ok(Operator::Sub) => Ok(()),
        _ => decode_error(expr),
    }
}

/// The accumulator instruction `m` in the first of its eight modes that `expr` matches.
fn group_one(m: Mnemonic, expr: &Expr, labels: &LabelTable) -> (r: Result<AssemblyInstruction, AssemblyError>)
    ensures
        r matches Err(e) ==> e is Decode,
        agrees(r, group_one_of(m, *expr, labels@)),
{
    if let Ok(n) = immediate(expr, labels) {
        return ok_byte(m, AddressingMode::Immediate, n);
    }
    if let Ok(n) = zeropage(expr, labels) {
        return ok_byte(m, AddressingMode::ZeroPage, n);
    }
    if let Ok(n) = zeropage_x(expr, labels) {
        return ok_byte(m, AddressingMode::ZeroPageX, n);
    }
    if let Ok(n) = absolute(expr, labels) {
        return ok_word(m, AddressingMode::Absolute, n);
    }
    if let Ok(n) = absolute_x(expr, labels) {
        return ok_word(m, AddressingMode::AbsoluteX, n);
    }
    if let Ok(n) = absolute_y(expr, labels) {
        return ok_word(m, AddressingMode::AbsoluteY, n);
    }
    if let Ok(n) = indirect_x(expr, labels) {
        return ok_byte(m, AddressingMode::IndirectX, n);
    }
    if let Ok(n) = indirect_y(expr, labels) {
        return ok_byte(m, AddressingMode::IndirectY, n);
    }
    decode_error(expr)
}

fn load_index(m: Mnemonic, index: &str, expr: &Expr, labels: &LabelTable) -> (r: Result<
    AssemblyInstruction,
    AssemblyError,
>)
    ensures
        r matches Err(e) ==> e is Decode,
        agrees(r, load_index_of(m, index@, *expr, labels@)),
{
    let x = same_text(index, "X");
    if let Ok(n) = immediate(expr, labels) {
        return ok_byte(m, AddressingMode::Immediate, n);
    }
    if let Ok(n) = zeropage(expr, labels) {
        return ok_byte(m, AddressingMode::ZeroPage, n);
    }
    if let Ok(n) = zeropage_indexed(expr, labels, index) {
        return ok_byte(
            m,
            if x {
                AddressingMode::ZeroPageX
            } else {
                AddressingMode::ZeroPageY
            },
            n,
        );
    }
    if let Ok(n) = absolute(expr, labels) {
        return ok_word(m, AddressingMode::Absolute, n);
    }
    if let Ok(n) = absolute_indexed(expr, labels, index) {
        return ok_word(
            m,
            if x {
                AddressingMode::AbsoluteX
            } else {
                AddressingMode::AbsoluteY
            },
            n,
        );
    }
    decode_error(expr)
}

/// `X=...`: loads of X, its increment and decrement, and `X=A`.
pub fn decode_x(expr: &Expr, labels: &LabelTable) -> (r: Result<AssemblyInstruction, AssemblyError>)
    ensures
        r matches Err(e) ==> e is Decode,
        agrees(r, x_of(*expr, labels@)),
{
    proof {
        reveal_strlit("X");
        reveal_strlit("Y");
    }
    if let Ok(i) = load_index(Mnemonic::LDX, "Y", expr, labels) {
        return Ok(i);
    }
    if increment(expr, "X").is_ok() {
        return ok_none(Mnemonic::INX, AddressingMode::Implied);
    }
    if decrement(expr, "X").is_ok() {
        return ok_none(Mnemonic::DEX, AddressingMode::Implied);
    }
    if register_a(expr).is_ok() {
        return ok_none(Mnemonic::TAX, AddressingMode::Implied);
    }
    decode_error(expr)
}

/// `Y=...`: loads of Y, its increment and decrement, and `Y=A`.
pub fn decode_y(expr: &Expr, labels: &LabelTable) -> (r: Result<AssemblyInstruction, AssemblyError>)
    ensures
        r matches Err(e) ==> e is Decode,
        agrees(r, y_of(*expr, labels@)),
{
    proof {
        reveal_strlit("X");
        reveal_strlit("Y");
        assert("Y"@[0] != "X"@[0]);
    }
    if let Ok(i) = load_index(Mnemonic::LDY, "X", expr, labels) {
        return Ok(i);
    }
    if increment(expr, "Y").is_ok() {
        return ok_none(Mnemonic::INY, AddressingMode::Implied);
    }
    if decrement(expr, "Y").is_ok() {
        return ok_none(Mnemonic::DEY, AddressingMode::Implied);
    }
    if register_a(expr).is_ok() {
        return ok_none(Mnemonic::TAY, AddressingMode::Implied);
    }
    decode_error(expr)
}

fn decode_lda(expr: &Expr, labels: &LabelTable) -> (r: Result<AssemblyInstruction, AssemblyError>)
    ensures
        r matches Err(e) ==> e is Decode,
        agrees(r, lda_of(*expr, labels@)),
{
    if let Ok(i) = group_one(Mnemonic::LDA, expr, labels) {
        return Ok(i);
    }
    if register_x(expr).is_ok() {
        return ok_none(Mnemonic::TXA, AddressingMode::Implied);
    }
    if register_y(expr).is_ok() {
        return ok_none(Mnemonic::TYA, AddressingMode::Implied);
    }
    decode_error(expr)
}

/// `reg op operand`: the accumulator instruction `m` on the operand.
fn accumulator_op(
    m: Mnemonic,
    op: Operator,
    reg: &str,
    expr: &Expr,
    labels: &LabelTable,
) -> (r: Result<AssemblyInstruction, AssemblyError>)
    ensures
        r matches Err(e) ==> e is Decode,
        agrees(r, accumulator_op_of(m, op, reg@, *expr, labels@)),
{
    if let Expr::BinOp(left, o, right) = expr {
        if *o == op {
            if let Expr::Identifier(name) = &**left {
                if same_text(name.as_str(), reg) {
                    return group_one(m, right, labels);
                }
            }
        }
    }
    decode_error(expr)
}

/// `A=AC+n`: add with carry.
fn decode_adc(expr: &Expr, labels: &LabelTable) -> (r: Result<AssemblyInstruction, AssemblyError>)
    ensures
        r matches Err(e) ==> e is Decode,
        agrees(r, accumulator_op_of(Mnemonic::ADC, Operator::Add, "AC"@, *expr, labels@)),
{
    accumulator_op(Mnemonic::ADC, Operator::Add, "AC", expr, labels)
}

/// `A=AC-n`: subtract with carry.
fn decode_sbc(expr: &Expr, labels: &LabelTable) -> (r: Result<AssemblyInstruction, AssemblyError>)
    ensures
        r matches Err(e) ==> e is Decode,
        agrees(r, accumulator_op_of(Mnemonic::SBC, Operator::Sub, "AC"@, *expr, labels@)),
{
    accumulator_op(Mnemonic::SBC, Operator::Sub, "AC", expr, labels)
}

/// `A=A|n`.
fn decode_ora(expr: &Expr, labels: &LabelTable) -> (r: Result<AssemblyInstruction, AssemblyError>)
    ensures
        r matches Err(e) ==> e is Decode,
        agrees(r, accumulator_op_of(Mnemonic::ORA, Operator::Or, "A"@, *expr, labels@)),
{
    accumulator_op(Mnemonic::ORA, Operator::Or, "A", expr, labels)
}

/// `A=A&n`.
fn decode_and(expr: &Expr, labels: &LabelTable) -> (r: Result<AssemblyInstruction, AssemblyError>)
    ensures
        r matches Err(e) ==> e is Decode,
        agrees(r, accumulator_op_of(Mnemonic::AND, Operator::And, "A"@, *expr, labels@)),
{
    accumulator_op(Mnemonic::AND, Operator::And, "A", expr, labels)
}

/// `A=A^n`.
fn decode_eor(expr: &Expr, labels: &LabelTable) -> (r: Result<AssemblyInstruction, AssemblyError>)
    ensures
        r matches Err(e) ==> e is Decode,
        agrees(r, accumulator_op_of(Mnemonic::EOR, Operator::Xor, "A"@, *expr, labels@)),
{
    accumulator_op(Mnemonic::EOR, Operator::Xor, "A", expr, labels)
}

/// Succeeds where `expr` is the system operator `symbol`.
fn sysop_is(expr: &Expr, symbol: &str) -> (r: bool)
    ensures
        r == is_sysop(*expr, symbol@),
{
    match expr {
        Expr::SystemOperator(s) => same_text(s.as_str(), symbol),
        _ => false,
    }
}

/// `A=]`: pull the accumulator from the stack.
fn decode_pop(expr: &Expr, _labels: &LabelTable) -> (r: Result<AssemblyInstruction, AssemblyError>)
    ensures
        r matches Err(e) ==> e is Decode,
        agrees(r, bare(Mnemonic::PLA, AddressingMode::Implied, is_sysop(*expr, "]"@))),
{
    if sysop_is(expr, "]") {
        ok_none(Mnemonic::PLA, AddressingMode::Implied)
    } else {
        decode_error(expr)
    }
}

fn shift_symbol(s: &str) -> (r: Option<Mnemonic>)
    ensures
        r == shift_mnemonic(s@),
{
    if same_text(s, "<") {
        Some(Mnemonic::ASL)
    } else if same_text(s, ">") {
        Some(Mnemonic::LSR)
    } else if same_text(s, "(") {
        Some(Mnemonic::ROL)
    } else if same_text(s, ")") {
        Some(Mnemonic::ROR)
    } else {
        None
    }
}

/// `A=<`, `A=>`, `A=(`, `A=)`: shifts and rotates of the accumulator.
fn decode_shift_a(expr: &Expr) -> (r: Result<AssemblyInstruction, AssemblyError>)
    ensures
        r matches Err(e) ==> e is Decode,
        agrees(r, shift_a_of(*expr)),
{
    if let Expr::SystemOperator(s) = expr {
        if let Some(m) = shift_symbol(s.as_str()) {
            return ok_none(m, AddressingMode::Accumulator);
        }
    }
    decode_error(expr)
}

/// `A=...`: loads and transfers, arithmetic and logic, pull, shifts.
pub fn decode_a(expr: &Expr, labels: &LabelTable) -> (r: Result<AssemblyInstruction, AssemblyError>)
    ensures
        r matches Err(e) ==> e is Decode,
        agrees(r, a_of(*expr, labels@)),
{
    if let Ok(i) = decode_lda(expr, labels) {
        return Ok(i);
    }
    if let Ok(i) = decode_adc(expr, labels) {
        return Ok(i);
    }
    if let Ok(i) = decode_sbc(expr, labels) {
        return Ok(i);
    }
    if let Ok(i) = decode_ora(expr, labels) {
        return Ok(i);
    }
    if let Ok(i) = decode_and(expr, labels) {
        return Ok(i);
    }
    if let Ok(i) = decode_eor(expr, labels) {
        return Ok(i);
    }
    if let Ok(i) = decode_pop(expr, labels) {
        return Ok(i);
    }
    decode_shift_a(expr)
}

fn compare_index(m: Mnemonic, expr: &Expr, labels: &LabelTable) -> (r: Result<AssemblyInstruction, AssemblyError>)
    ensures
        r matches Err(e) ==> e is Decode,
        agrees(r, compare_index_of(m, *expr, labels@)),
{
    if let Ok(n) = immediate(expr, labels) {
        return ok_byte(m, AddressingMode::Immediate, n);
    }
    if let Ok(n) = zeropage(expr, labels) {
        return ok_byte(m, AddressingMode::ZeroPage, n);
    }
    if let Ok(n) = absolute(expr, labels) {
        return ok_word(m, AddressingMode::Absolute, n);
    }
    decode_error(expr)
}

/// `T=A-n`.
fn decode_cmp(expr: &Expr, labels: &LabelTable) -> (r: Result<AssemblyInstruction, AssemblyError>)
    ensures
        r matches Err(e) ==> e is Decode,
        agrees(r, group_one_of(Mnemonic::CMP, *expr, labels@)),
{
    group_one(Mnemonic::CMP, expr, labels)
}

/// `T=X-n`.
fn decode_cpx(expr: &Expr, labels: &LabelTable) -> (r: Result<AssemblyInstruction, AssemblyError>)
    ensures
        r matches Err(e) ==> e is Decode,
        agrees(r, compare_index_of(Mnemonic::CPX, *expr, labels@)),
{
    compare_index(Mnemonic::CPX, expr, labels)
}

/// `T=Y-n`.
fn decode_cpy(expr: &Expr, labels: &LabelTable) -> (r: Result<AssemblyInstruction, AssemblyError>)
    ensures
        r matches Err(e) ==> e is Decode,
        agrees(r, compare_index_of(Mnemonic::CPY, *expr, labels@)),
{
    compare_index(Mnemonic::CPY, expr, labels)
}

/// `T=A&n`.
fn decode_bit(expr: &Expr, labels: &LabelTable) -> (r: Result<AssemblyInstruction, AssemblyError>)
    ensures
        r matches Err(e) ==> e is Decode,
        agrees(r, bit_of(*expr, labels@)),
{
    if let Ok(n) = zeropage(expr, labels) {
        return ok_byte(Mnemonic::BIT, AddressingMode::ZeroPage, n);
    }
    if let Ok(n) = absolute(expr, labels) {
        return ok_word(Mnemonic::BIT, AddressingMode::Absolute, n);
    }
    decode_error(expr)
}

/// `T=...`: compares and bit test.
pub fn decode_t(expr: &Expr, labels: &LabelTable) -> (r: Result<AssemblyInstruction, AssemblyError>)
    ensures
        r matches Err(e) ==> e is Decode,
        agrees(r, t_of(*expr, labels@)),
{
    match expr {
        Expr::BinOp(left, Operator::Sub, right) => {
            if register_a(left).is_ok() {
                decode_cmp(right, labels)
            } else if register_x(left).is_ok() {
                decode_cpx(right, labels)
            } else if register_y(left).is_ok() {
                decode_cpy(right, labels)
            } else {
                decode_error(expr)
            }
        },
        Expr::BinOp(left, Operator::And, right) => {
            if register_a(left).is_ok() {
                decode_bit(right, labels)
            } else {
                decode_error(expr)
            }
        },
        _ => decode_error(expr),
    }
}

fn flag_instruction(flag: &str, value: u16) -> (r: Option<Mnemonic>)
    ensures
        r == flag_mnemonic(flag@, value),
{
    let c = same_text(flag, "C");
    let i = same_text(flag, "I");
    let v = same_text(flag, "V");
    let d = same_text(flag, "D");
    if c && value == 0 {
        Some(Mnemonic::CLC)
    } else if c && value == 1 {
        Some(Mnemonic::SEC)
    } else if i && value == 0 {
        Some(Mnemonic::CLI)
    } else if i && value == 1 {
        Some(Mnemonic::SEI)
    } else if v && value == 0 {
        Some(Mnemonic::CLV)
    } else if d && value == 0 {
        Some(Mnemonic::CLD)
    } else if d && value == 1 {
        Some(Mnemonic::SED)
    } else {
        None
    }
}

/// `C=0`, `C=1`, `I=0`, `I=1`, `V=0`, `D=0`, `D=1`: clear and set the flags.
pub fn decode_flags(command: &Expr, expr: &Expr, _labels: &LabelTable) -> (r: Result<
    AssemblyInstruction,
    AssemblyError,
>)
    ensures
        r matches Err(e) ==> e is Decode,
        agrees(r, flags_of(*command, *expr)),
{
    if let Expr::Identifier(flag) = command {
        if let Expr::DecimalNum(n) = expr {
            if let Some(m) = flag_instruction(flag.as_str(), *n) {
                return ok_none(m, AddressingMode::Implied);
            }
        }
    }
    decode_error(expr)
}

/// `S=X`: transfer X to the stack pointer.
pub fn decode_stack(expr: &Expr, _labels: &LabelTable) -> (r: Result<AssemblyInstruction, AssemblyError>)
    ensures
        r matches Err(e) ==> e is Decode,
        agrees(r, bare(Mnemonic::TXS, AddressingMode::Implied, is_register(*expr, "X"@))),
{
    if register_x(expr).is_ok() {
        ok_none(Mnemonic::TXS, AddressingMode::Implied)
    } else {
        decode_error(expr)
    }
}

/// `_`: no operation.
pub fn decode_nop(expr: &Expr) -> (r: Result<AssemblyInstruction, AssemblyError>)
    ensures
        r matches Err(e) ==> e is Decode,
        agrees(r, bare(Mnemonic::NOP, AddressingMode::Implied, *expr is Empty)),
{
    match expr {
        Expr::Empty => ok_none(Mnemonic::NOP, AddressingMode::Implied),
        _ => decode_error(expr),
    }
}

fn transfer(m: Mnemonic, expr: &Expr) -> (r: Result<AssemblyInstruction, AssemblyError>)
    ensures
        r matches Err(e) ==> e is Decode,
        agrees(r, transfer_of(m, *expr)),
{
    if let Expr::Identifier(name) = expr {
        return Ok(
            AssemblyInstruction::new(
                m,
                AddressingMode::Absolute,
                OperandValue::UnresolvedLabel(name.clone()),
            ),
        );
    }
    match num16bit(expr) {
        Ok(n) => ok_word(m, AddressingMode::Absolute, n),
        Err(_) => decode_error(expr),
    }
}

/// `!=label` or `!=$addr`: call a subroutine.
pub fn decode_call(expr: &Expr, _labels: &LabelTable) -> (r: Result<AssemblyInstruction, AssemblyError>)
    ensures
        r matches Err(e) ==> e is Decode,
        agrees(r, transfer_of(Mnemonic::JSR, *expr)),
{
    transfer(Mnemonic::JSR, expr)
}

fn sysop_bang(expr: &Expr) -> (r: Result<(), AssemblyError>)
    ensures
        r matches Err(e) ==> e is Decode,
        r is Ok <==> is_sysop(*expr, "!"@),
{
    if sysop_is(expr, "!") {
        Ok(())
    } else {
        decode_error(expr)
    }
}

fn sysop_tilda(expr: &Expr) -> (r: Result<(), AssemblyError>)
    ensures
        r matches Err(e) ==> e is Decode,
        r is Ok <==> is_sysop(*expr, "~"@),
{
    if sysop_is(expr, "~") {
        Ok(())
    } else {
        decode_error(expr)
    }
}

/// `#=label` or `#=$addr` jumps; `#=!` returns from a subroutine, `#=~` from an interrupt.
pub fn decode_goto(expr: &Expr, _labels: &LabelTable) -> (r: Result<AssemblyInstruction, AssemblyError>)
    ensures
        r matches Err(e) ==> e is Decode,
        agrees(r, goto_of(*expr)),
{
    if let Ok(i) = transfer(Mnemonic::JMP, expr) {
        return Ok(i);
    }
    if sysop_bang(expr).is_ok() {
        return ok_none(Mnemonic::RTS, AddressingMode::Implied);
    }
    if sysop_tilda(expr).is_ok() {
        return ok_none(Mnemonic::RTI, AddressingMode::Implied);
    }
    decode_error(expr)
}

/// The branch that a condition stands for.
fn if_condition_mnemonic(symbol: &str) -> (r: Result<Mnemonic, AssemblyError>)
    ensures
        r matches Err(e) ==> e is Decode,
        agrees(r, branch_mnemonic(symbol@)),
{
    if same_text(symbol, "\\") || same_text(symbol, "/") || same_text(symbol, "NE") {
        Ok(Mnemonic::BNE)
    } else if same_text(symbol, "=") || same_text(symbol, "EQ") {
        Ok(Mnemonic::BEQ)
    } else if same_text(symbol, ">") || same_text(symbol, "CS") {
        Ok(Mnemonic::BCS)
    } else if same_text(symbol, "<") || same_text(symbol, "CC") {
        Ok(Mnemonic::BCC)
    } else if same_text(symbol, "-") || same_text(symbol, "MI") {
        Ok(Mnemonic::BMI)
    } else if same_text(symbol, "+") || same_text(symbol, "PL") {
        Ok(Mnemonic::BPL)
    } else if same_text(symbol, "_") || same_text(symbol, "VC") {
        Ok(Mnemonic::BVC)
    } else if same_text(symbol, "^") || same_text(symbol, "VS") {
        Ok(Mnemonic::BVS)
    } else {
        Err(AssemblyError::decode_failed("unknown branch condition"))
    }
}

/// `;=cond,target`: a conditional branch, e.g. `;=\\,$12FD` branches if not equal.
pub fn decode_if(expr: &Expr, _labels: &LabelTable) -> (r: Result<AssemblyInstruction, AssemblyError>)
    ensures
        r matches Err(e) ==> e is Decode,
        agrees(r, if_of(*expr)),
{
    if let Expr::BinOp(left, Operator::Comma, right) = expr {
        let cond = match &**left {
            Expr::SystemOperator(s) => Some(s),
            Expr::Identifier(s) => Some(s),
            _ => None,
        };
        if let Some(c) = cond {
            if let Ok(m) = if_condition_mnemonic(c.as_str()) {
                if let Ok(a) = num16bit(right) {
                    return Ok(
                        AssemblyInstruction::new(
                            m,
                            AddressingMode::Relative,
                            OperandValue::UnresolvedRelative(a),
                        ),
                    );
                }
                if let Expr::Identifier(name) = &**right {
                    return Ok(
                        AssemblyInstruction::new(
                            m,
                            AddressingMode::Relative,
                            OperandValue::UnresolvedLabel(name.clone()),
                        ),
                    );
                }
            }
        }
    }
    decode_error(expr)
}

fn memory(m: Mnemonic, expr: &Expr, labels: &LabelTable) -> (r: Result<AssemblyInstruction, AssemblyError>)
    ensures
        r matches Err(e) ==> e is Decode,
        agrees(r, memory_of(m, *expr, labels@)),
{
    if let Ok(n) = zeropage(expr, labels) {
        return ok_byte(m, AddressingMode::ZeroPage, n);
    }
    if let Ok(n) = zeropage_x(expr, labels) {
        return ok_byte(m, AddressingMode::ZeroPageX, n);
    }
    if let Ok(n) = absolute(expr, labels) {
        return ok_word(m, AddressingMode::Absolute, n);
    }
    if let Ok(n) = absolute_x(expr, labels) {
        return ok_word(m, AddressingMode::AbsoluteX, n);
    }
    decode_error(expr)
}

fn shift_target(m: Mnemonic, expr: &Expr, labels: &LabelTable) -> (r: Result<AssemblyInstruction, AssemblyError>)
    ensures
        r matches Err(e) ==> e is Decode,
        agrees(r, shift_target_of(m, *expr, labels@)),
{
    if register_a(expr).is_ok() {
        return ok_none(m, AddressingMode::Accumulator);
    }
    memory(m, expr, labels)
}

fn decode_asl(expr: &Expr, labels: &LabelTable) -> (r: Result<AssemblyInstruction, AssemblyError>)
    ensures
        r matches Err(e) ==> e is Decode,
        agrees(r, shift_target_of(Mnemonic::ASL, *expr, labels@)),
{
    shift_target(Mnemonic::ASL, expr, labels)
}

fn decode_lsr(expr: &Expr, labels: &LabelTable) -> (r: Result<AssemblyInstruction, AssemblyError>)
    ensures
        r matches Err(e) ==> e is Decode,
        agrees(r, shift_target_of(Mnemonic::LSR, *expr, labels@)),
{
    shift_target(Mnemonic::LSR, expr, labels)
}

fn decode_rol(expr: &Expr, labels: &LabelTable) -> (r: Result<AssemblyInstruction, AssemblyError>)
    ensures
        r matches Err(e) ==> e is Decode,
        agrees(r, shift_target_of(Mnemonic::ROL, *expr, labels@)),
{
    shift_target(Mnemonic::ROL, expr, labels)
}

fn decode_ror(expr: &Expr, labels: &LabelTable) -> (r: Result<AssemblyInstruction, AssemblyError>)
    ensures
        r matches Err(e) ==> e is Decode,
        agrees(r, shift_target_of(Mnemonic::ROR, *expr, labels@)),
{
    shift_target(Mnemonic::ROR, expr, labels)
}

/// `<=operand`, `>=operand`, `(=operand`, `)=operand`: shift or rotate the operand.
pub fn decode_shift(command: &Expr, expr: &Expr, labels: &LabelTable) -> (r: Result<
    AssemblyInstruction,
    AssemblyError,
>)
    ensures
        r matches Err(e) ==> e is Decode,
        agrees(
            r,
            match *command {
                Expr::SystemOperator(s) => match shift_mnemonic(s@) {
                    Some(m) => shift_target_of(m, *expr, labels@),
                    None => None,
                },
                _ => None,
            },
        ),
{
    if let Expr::SystemOperator(s) = command {
        if let Some(m) = shift_symbol(s.as_str()) {
            return match m {
                Mnemonic::ASL => decode_asl(expr, labels),
                Mnemonic::LSR => decode_lsr(expr, labels),
                Mnemonic::ROL => decode_rol(expr, labels),
                _ => decode_ror(expr, labels),
            };
        }
    }
    decode_error(command)
}

/// `[=A`: push the accumulator.
pub fn decode_push(expr: &Expr) -> (r: Result<AssemblyInstruction, AssemblyError>)
    ensures
        r matches Err(e) ==> e is Decode,
        agrees(r, bare(Mnemonic::PHA, AddressingMode::Implied, is_register(*expr, "A"@))),
{
    if register_a(expr).is_ok() {
        ok_none(Mnemonic::PHA, AddressingMode::Implied)
    } else {
        decode_error(expr)
    }
}

fn decode_inc(command: &Expr, labels: &LabelTable) -> (r: Result<AssemblyInstruction, AssemblyError>)
    ensures
        r matches Err(e) ==> e is Decode,
        agrees(r, memory_of(Mnemonic::INC, *command, labels@)),
{
    memory(Mnemonic::INC, command, labels)
}

fn decode_dec(command: &Expr, labels: &LabelTable) -> (r: Result<AssemblyInstruction, AssemblyError>)
    ensures
        r matches Err(e) ==> e is Decode,
        agrees(r, memory_of(Mnemonic::DEC, *command, labels@)),
{
    memory(Mnemonic::DEC, command, labels)
}

/// Stores of the accumulator.
pub fn decode_sta(expr: &Expr, labels: &LabelTable) -> (r: Result<AssemblyInstruction, AssemblyError>)
    ensures
        r matches Err(e) ==> e is Decode,
        agrees(r, sta_of(*expr, labels@)),
{
    let m = Mnemonic::STA;
    if let Ok(n) = zeropage(expr, labels) {
        return ok_byte(m, AddressingMode::ZeroPage, n);
    }
    if let Ok(n) = zeropage_x(expr, labels) {
        return ok_byte(m, AddressingMode::ZeroPageX, n);
    }
    if let Ok(n) = absolute(expr, labels) {
        return ok_word(m, AddressingMode::Absolute, n);
    }
    if let Ok(n) = absolute_x(expr, labels) {
        return ok_word(m, AddressingMode::AbsoluteX, n);
    }
    if let Ok(n) = absolute_y(expr, labels) {
        return ok_word(m, AddressingMode::AbsoluteY, n);
    }
    if let Ok(n) = indirect_x(expr, labels) {
        return ok_byte(m, AddressingMode::IndirectX, n);
    }
    if let Ok(n) = indirect_y(expr, labels) {
        return ok_byte(m, AddressingMode::IndirectY, n);
    }
    decode_error(expr)
}

fn store_index(m: Mnemonic, index: &str, expr: &Expr, labels: &LabelTable) -> (r: Result<
    AssemblyInstruction,
    AssemblyError,
>)
    ensures
        r matches Err(e) ==> e is Decode,
        agrees(r, store_index_of(m, index@, *expr, labels@)),
{
    let x = same_text(index, "X");
    if let Ok(n) = zeropage(expr, labels) {
        return ok_byte(m, AddressingMode::ZeroPage, n);
    }
    if let Ok(n) = zeropage_indexed(expr, labels, index) {
        return ok_byte(
            m,
            if x {
                AddressingMode::ZeroPageX
            } else {
                AddressingMode::ZeroPageY
            },
            n,
        );
    }
    if let Ok(n) = absolute(expr, labels) {
        return ok_word(m, AddressingMode::Absolute, n);
    }
    decode_error(expr)
}

/// Stores of X.
pub fn decode_stx(expr: &Expr, labels: &LabelTable) -> (r: Result<AssemblyInstruction, AssemblyError>)
    ensures
        r matches Err(e) ==> e is Decode,
        agrees(r, store_index_of(Mnemonic::STX, "Y"@, *expr, labels@)),
{
    store_index(Mnemonic::STX, "Y", expr, labels)
}

/// Stores of Y.
pub fn decode_sty(expr: &Expr, labels: &LabelTable) -> (r: Result<AssemblyInstruction, AssemblyError>)
    ensures
        r matches Err(e) ==> e is Decode,
        agrees(r, store_index_of(Mnemonic::STY, "X"@, *expr, labels@)),
{
    store_index(Mnemonic::STY, "X", expr, labels)
}

/// A statement whose command is a memory operand: stores, increments, decrements, shifts.
pub fn decode_address(command: &Expr, expr: &Expr, labels: &LabelTable) -> (r: Result<
    AssemblyInstruction,
    AssemblyError,
>)
    ensures
        r matches Err(e) ==> e is Decode,
        agrees(r, store_of(*command, *expr, labels@)),
{
    if register_a(expr).is_ok() {
        return decode_sta(command, labels);
    }
    if register_x(expr).is_ok() {
        return decode_stx(command, labels);
    }
    if register_y(expr).is_ok() {
        return decode_sty(command, labels);
    }
    if let Expr::SystemOperator(s) = expr {
        if same_text(s.as_str(), "+") {
            return decode_inc(command, labels);
        }
        if same_text(s.as_str(), "-") {
            return decode_dec(command, labels);
        }
        if let Some(m) = shift_symbol(s.as_str()) {
            return shift_target(m, command, labels);
        }
    }
    decode_error(expr)
}

/// `X=` with a literal byte always loads it immediately; with a label in parentheses it
/// loads from the zero page when the label resolves to a zero-page address and from a full
/// address when it resolves to one.
pub proof fn lemma_load_mode_follows_address(
    b: u8,
    name: String,
    labels: Map<Seq<char>, Address>,
)
    ensures
        x_of(Expr::ByteNum(b), labels) == Some(
            instr(Mnemonic::LDX, AddressingMode::Immediate, OperandValue::Byte(b)),
        ),
        labels.contains_key(name@) && labels[name@] is ZeroPage ==> x_of(
            Expr::Parenthesized(Box::new(Expr::Identifier(name))),
            labels,
        ) == Some(
            instr(
                Mnemonic::LDX,
                AddressingMode::ZeroPage,
                OperandValue::Byte(labels[name@]->ZeroPage_0),
            ),
        ),
        labels.contains_key(name@) && labels[name@] is Full ==> x_of(
            Expr::Parenthesized(Box::new(Expr::Identifier(name))),
            labels,
        ) == Some(
            instr(
                Mnemonic::LDX,
                AddressingMode::Absolute,
                OperandValue::Word(labels[name@]->Full_0),
            ),
        ),
{
    reveal_strlit("X");
    reveal_strlit("Y");
    let e = Expr::Parenthesized(Box::new(Expr::Identifier(name)));
    if labels.contains_key(name@) && labels[name@] is Full {
        assert(offset_zeropage_label_of(Expr::Identifier(name), labels) is None);
        assert(immediate_of(e, labels) is None);
        assert(zeropage_of(e, labels) is None);
        assert(zeropage_indexed_of(e, labels, "Y"@) is None);
    }
}

} // verus!
