//! The errors that end an assembly run.
use crate::opcode::{mnemonic_name, mode_name, AddressingMode, Mnemonic};
use crate::text::{decimal_digits, join, number_text};
use vstd::prelude::*;

verus! {

/// What went wrong, with a message for the user.
#[derive(Debug, PartialEq)]
pub enum AssemblyError {
    Syntax(String),
    Label(String),
    Program(String),
    Macro(String),
    Decode(String),
    Io(String),
}

impl AssemblyError {
    /// The message carried by the error, whatever its kind.
    pub open spec fn details(&self) -> Seq<char> {
        match self {
            AssemblyError::Syntax(d) => d@,
            AssemblyError::Label(d) => d@,
            AssemblyError::Program(d) => d@,
            AssemblyError::Macro(d) => d@,
            AssemblyError::Decode(d) => d@,
            AssemblyError::Io(d) => d@,
        }
    }

    pub fn message(&self) -> (r: &str)
        ensures
            r@ == self.details(),
    {
        match self {
            AssemblyError::Syntax(details) => details.as_str(),
            AssemblyError::Label(details) => details.as_str(),
            AssemblyError::Program(details) => details.as_str(),
            AssemblyError::Macro(details) => details.as_str(),
            AssemblyError::Decode(details) => details.as_str(),
            AssemblyError::Io(details) => details.as_str(),
        }
    }

    pub fn syntax(details: &str) -> (r: Self)
        ensures
            r is Syntax,
            r.details() == "syntax error: "@ + details@,
    {
        AssemblyError::Syntax(join("syntax error: ", details))
    }

    pub fn line(line_num: usize, line: &str) -> (r: Self)
        ensures
            r is Syntax,
            r.details() == "line: "@ + decimal_digits(line_num as nat) + " at: "@ + line@,
    {
        let mut s = join("line: ", number_text(line_num).as_str());
        s.append(" at: ");
        s.append(line);
        AssemblyError::Syntax(s)
    }

    pub fn label_used(line_num: usize, name: &str) -> (r: Self)
        ensures
            r is Label,
            r.details() == "line: "@ + decimal_digits(line_num as nat) + " label <"@ + name@
                + "> already used"@,
    {
        let mut s = join("line: ", number_text(line_num).as_str());
        s.append(" label <");
        s.append(name);
        s.append("> already used");
        AssemblyError::Label(s)
    }

    pub fn token(token: &str) -> (r: Self)
        ensures
            r is Syntax,
            r.details() == "invaled token: "@ + token@,
    {
        AssemblyError::Syntax(join("invaled token: ", token))
    }

    pub fn expression(expr: &str) -> (r: Self)
        ensures
            r is Syntax,
            r.details() == "invalid expression: "@ + expr@,
    {
        AssemblyError::Syntax(join("invalid expression: ", expr))
    }

    pub fn label_not_found(name: &str) -> (r: Self)
        ensures
            r is Label,
            r.details() == "label <"@ + name@ + "> not found"@,
    {
        let mut s = join("label <", name);
        s.append("> not found");
        AssemblyError::Label(s)
    }

    pub fn program(details: &str) -> (r: Self)
        ensures
            r is Program,
            r.details() == "program error: "@ + details@,
    {
        AssemblyError::Program(join("program error: ", details))
    }

    pub fn macro_error(details: &str) -> (r: Self)
        ensures
            r is Macro,
            r.details() == "macro error: "@ + details@,
    {
        AssemblyError::Macro(join("macro error: ", details))
    }

    pub fn opcode_not_found(mnemonic: &Mnemonic, addressing_mode: &AddressingMode) -> (r: Self)
        ensures
            r is Syntax,
            r.details() == "opcode not found: "@ + mnemonic_name(*mnemonic) + " with "@ + mode_name(
                *addressing_mode,
            ),
    {
        let mut s = join("opcode not found: ", mnemonic.name());
        s.append(" with ");
        s.append(addressing_mode.name());
        AssemblyError::Syntax(s)
    }

    pub fn decode_failed(details: &str) -> (r: Self)
        ensures
            r is Decode,
            r.details() == details@,
    {
        AssemblyError::Decode(crate::text::text_of(details))
    }
}

} // verus!
