//! A two-pass cross-assembler for a terse register-transfer notation of 6502 code.
//!
//! Source lines are parsed ([`line_parser`], [`operand_parser`]), their control constructs
//! expanded ([`assembly_macro`]), and then assembled in two passes ([`assembler`]): the first
//! assigns addresses and fills the label table ([`labels`]), the second decodes every
//! statement ([`decoder`], [`statement`]) and encodes it ([`opcode`], [`pseudo_commands`]).
pub mod assembler;
pub mod assembly_macro;
pub mod decoder;
pub mod error;
pub mod expression;
pub mod hex_output;
pub mod label_listing;
pub mod labels;
pub mod line_parser;
pub mod matcher;
pub mod opcode;
pub mod operand_parser;
pub mod pseudo_commands;
pub mod source_text;
pub mod statement;
pub mod text;
