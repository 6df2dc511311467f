//! Statements and source lines, and how a statement becomes object code.
use crate::decoder::{
    a_of, bare, decode_a, decode_address, decode_call, decode_flags, decode_goto, decode_if,
    decode_nop, decode_push, decode_shift, decode_stack, decode_t, decode_x, decode_y, flags_of,
    goto_of, if_of, shift_mnemonic, shift_target_of, store_of, t_of, transfer_of, x_of, y_of,
};
use crate::error::AssemblyError;
use crate::expression::{Expr, Operator, SpecExpr};
use crate::labels::{Address, LabelTable};
use crate::matcher::{agrees, is_register};
use crate::opcode::{
    opcode_spec, AddressingMode, AssemblyInstruction, Mnemonic, OpcodeTable, OperandValue,
};
use crate::text::{same_text, text_of};
use vstd::prelude::*;

verus! {

/// Whether `c` is alphabetic or numeric in Unicode's sense.
pub uninterp spec fn unicode_alphanumeric(c: char) -> bool;

/// Relies on `char::is_alphanumeric`: Unicode's alphabetic or numeric property, which on
/// ASCII holds of the letters and digits alone.
#[verifier::external_body]
fn char_is_alphanumeric(c: char) -> (r: bool)
    ensures
        r == unicode_alphanumeric(c),
        (c as u32) < 128 ==> (r <==> ('0' <= c <= '9' || 'a' <= c <= 'z' || 'A' <= c <= 'Z')),
{
    c.is_alphanumeric()
}

/// An ASCII letter or digit.
pub open spec fn ascii_alphanumeric(c: char) -> bool {
    ('0' <= c <= '9') || ('a' <= c <= 'z') || ('A' <= c <= 'Z')
}

/// One `command=operand` item of a source line.
#[derive(Debug, PartialEq)]
pub struct Statement {
    pub command: Expr,
    pub expression: Expr,
}

impl Clone for Statement {
    fn clone(&self) -> (r: Self)
        ensures
            r == *self,
    {
        self.duplicate()
    }
}

/// A command written as a word is a register or flag name; otherwise it is a symbol.
pub open spec fn names_register(command: Seq<char>) -> bool {
    forall|i: int| 0 <= i < command.len() ==> unicode_alphanumeric(#[trigger] command[i])
}

/// How the statement's command reads; `None` for a command that no statement has.
pub open spec fn command_text(command: Expr) -> Option<Seq<char>> {
    match command {
        Expr::Identifier(c) => Some(c@),
        Expr::SystemOperator(s) => Some(s@),
        Expr::Parenthesized(_) => Some("(#<Expr>)"@),
        Expr::Bracketed(_) => Some("[#<Expr>]"@),
        Expr::BinOp(_, Operator::Add, _) => Some("#<Expr>+#<Expr>"@),
        _ => None,
    }
}

/// The commands that direct the assembler instead of encoding an instruction: origin, label
/// address, data and fill.
pub open spec fn is_pseudo_command(c: Seq<char>) -> bool {
    c == "*"@ || c == ":"@ || c == "?"@ || c == "$"@
}

/// The instruction that the statement `command=e` denotes.
pub open spec fn decode_spec(command: Expr, e: Expr, labels: Map<Seq<char>, Address>) -> Option<
    AssemblyInstruction,
> {
    match command {
        Expr::Identifier(s) => if s@ == "X"@ {
            x_of(e, labels)
        } else if s@ == "Y"@ {
            y_of(e, labels)
        } else if s@ == "A"@ {
            a_of(e, labels)
        } else if s@ == "T"@ {
            t_of(e, labels)
        } else if s@ == "C"@ || s@ == "I"@ || s@ == "V"@ || s@ == "D"@ {
            flags_of(command, e)
        } else if s@ == "S"@ {
            bare(Mnemonic::TXS, AddressingMode::Implied, is_register(e, "X"@))
        } else if s@ == "_"@ {
            bare(Mnemonic::NOP, AddressingMode::Implied, e is Empty)
        } else {
            store_of(command, e, labels)
        },
        Expr::SystemOperator(s) => if s@ == "!"@ {
            transfer_of(Mnemonic::JSR, e)
        } else if s@ == "#"@ {
            goto_of(e)
        } else if s@ == ";"@ {
            if_of(e)
        } else if shift_mnemonic(s@) is Some {
            shift_target_of(shift_mnemonic(s@)->Some_0, e, labels)
        } else if s@ == "["@ {
            bare(Mnemonic::PHA, AddressingMode::Implied, is_register(e, "A"@))
        } else {
            store_of(command, e, labels)
        },
        _ => store_of(command, e, labels),
    }
}

/// A local name (one that starts with `.`) belongs to the current global label.
pub open spec fn qualified(name: Seq<char>, current_label: Seq<char>) -> Seq<char> {
    if name.len() > 0 && name[0] == '.' {
        current_label + name
    } else {
        name
    }
}

/// The displacement byte of a branch at `pc` to `target`: `target - (pc + 2)` modulo 256.
pub open spec fn relative_byte(target: u16, pc: u16) -> u8 {
    ((target - (pc + 2)) % 256) as u8
}

/// A word, low byte first.
pub open spec fn word_bytes(v: u16) -> Seq<u8> {
    seq![(v % 256) as u8, (v / 256) as u8]
}

/// `r` holds the bytes that `s` holds, or an error where `s` is `None`.
pub open spec fn agrees_bytes(r: Result<Vec<u8>, AssemblyError>, s: Option<Seq<u8>>) -> bool {
    match r {
        Ok(v) => s == Some(v@),
        Err(_) => s is None,
    }
}

/// The operand bytes of a reference to the label `name` in `mode` at `pc`: its address, or
/// the displacement to it for a branch.
pub open spec fn label_bytes_of(
    name: Seq<char>,
    mode: AddressingMode,
    labels: Map<Seq<char>, Address>,
    current_label: Seq<char>,
    pc: u16,
) -> Option<Seq<u8>> {
    let q = qualified(name, current_label);
    if labels.contains_key(q) {
        match labels[q] {
            Address::Full(a) => if mode is Relative {
                Some(seq![relative_byte(a, pc)])
            } else {
                Some(word_bytes(a))
            },
            Address::ZeroPage(a) => if mode is ZeroPage || mode is ZeroPageX || mode is ZeroPageY {
                Some(seq![a])
            } else {
                None
            },
        }
    } else {
        None
    }
}

/// The operand bytes of an instruction in `mode` at `pc`.
pub open spec fn operand_bytes_of(
    value: OperandValue,
    mode: AddressingMode,
    labels: Map<Seq<char>, Address>,
    current_label: Seq<char>,
    pc: u16,
) -> Option<Seq<u8>> {
    match value {
        OperandValue::NoOperand => Some(seq![]),
        OperandValue::Byte(v) => Some(seq![v]),
        OperandValue::Word(v) => Some(word_bytes(v)),
        OperandValue::UnresolvedLabel(name) => label_bytes_of(name@, mode, labels, current_label, pc),
        OperandValue::UnresolvedRelative(t) => Some(seq![relative_byte(t, pc)]),
    }
}

/// The object code of the statement `command=e` at `pc`: opcode, then operand bytes.
pub open spec fn compile_spec(
    command: Expr,
    e: Expr,
    labels: Map<Seq<char>, Address>,
    current_label: Seq<char>,
    pc: u16,
) -> Option<Seq<u8>> {
    match decode_spec(command, e, labels) {
        Some(i) => match opcode_spec(i.mnemonic, i.addressing_mode) {
            Some(b) => match operand_bytes_of(i.value, i.addressing_mode, labels, current_label, pc) {
                Some(ops) => Some(seq![b] + ops),
                None => None,
            },
            None => None,
        },
        None => None,
    }
}

/// Reading the displacement back as a signed offset from the next instruction gives the
/// target again, for every target within branch range.
pub proof fn lemma_relative_round_trip(target: u16, pc: u16)
    requires
        pc + 2 - 128 <= target <= pc + 2 + 127,
    ensures
        relative_byte(target, pc) == ((target - (pc + 2)) % 256) as u8,
        pc + 2 + (if relative_byte(target, pc) < 128 {
            relative_byte(target, pc) as int
        } else {
            relative_byte(target, pc) - 256
        }) == target,
{
    let d = target - (pc + 2);
    if d >= 0 {
        assert(d % 256 == d);
    } else {
        assert(d % 256 == d + 256);
    }
}

fn text_copy(s: &String) -> (r: String)
    ensures
        r == *s,
{
    s.clone()
}

impl Statement {
    /// A copy of the statement.
    pub fn duplicate(&self) -> (r: Statement)
        ensures
            r == *self,
    {
        Statement { command: self.command.duplicate(), expression: self.expression.duplicate() }
    }

    /// A statement whose command is a register or flag name where `command` is alphanumeric,
    /// and a system operator otherwise.
    pub fn new(command: &str, expression: Expr) -> (r: Self)
        ensures
            r.expression == expression,
            names_register(command@) ==> (r.command matches Expr::Identifier(s) && s@
                == command@),
            !names_register(command@) ==> (r.command matches Expr::SystemOperator(s) && s@
                == command@),
            (forall|i: int| 0 <= i < command@.len() ==> ascii_alphanumeric(#[trigger] command@[i]))
                ==> r.command is Identifier,
            (exists|i: int|
                0 <= i < command@.len() && (#[trigger] command@[i] as u32) < 128
                    && !ascii_alphanumeric(command@[i])) ==> r.command is SystemOperator,
    {
        let n = command.unicode_len();
        let mut all = true;
        let mut i: usize = 0;
        while i < n
            invariant
                n == command@.len(),
                i <= n,
                all == forall|j: int| 0 <= j < i ==> unicode_alphanumeric(#[trigger] command@[j]),
                forall|j: int|
                    0 <= j < i && (command@[j] as u32) < 128 ==> (unicode_alphanumeric(
                        #[trigger] command@[j],
                    ) <==> ascii_alphanumeric(command@[j])),
            decreases n - i,
        {
            let c = command.get_char(i);
            if !char_is_alphanumeric(c) {
                all = false;
            }
            i += 1;
        }
        let command = if all {
            Expr::Identifier(text_of(command))
        } else {
            Expr::SystemOperator(text_of(command))
        };
        Self { command, expression }
    }

    pub fn command(&self) -> (r: Result<String, AssemblyError>)
        ensures
            r matches Ok(s) ==> command_text(self.command) == Some(s@),
            r is Err <==> command_text(self.command) is None,
            r matches Err(e) ==> e is Syntax,
    {
        match &self.command {
            Expr::Identifier(command) => Ok(text_copy(command)),
            Expr::SystemOperator(symbol) => Ok(text_copy(symbol)),
            Expr::Parenthesized(_) => Ok(text_of("(#<Expr>)")),
            Expr::Bracketed(_) => Ok(text_of("[#<Expr>]")),
            Expr::BinOp(_, Operator::Add, _) => Ok(text_of("#<Expr>+#<Expr>")),
            _ => Err(AssemblyError::syntax("must be identifier")),
        }
    }

    /// Whether the statement directs the assembler (`*`, `:`, `?`, `$`).
    pub fn is_pseudo(&self) -> (r: bool)
        ensures
            r == (command_text(self.command) matches Some(c) && is_pseudo_command(c)),
    {
        if let Ok(command) = self.command() {
            let c = command.as_str();
            return same_text(c, "*") || same_text(c, ":") || same_text(c, "?") || same_text(c, "$");
        }
        false
    }

    /// `;=symbol,target` is a plain branch; any other operand of `;` makes an if-statement.
    pub fn check_macro_if_statement(&self) -> (r: bool)
        ensures
            r == !(self.expression matches Expr::BinOp(_, Operator::Comma, _)),
    {
        match &self.expression {
            Expr::BinOp(_, Operator::Comma, _) => false,
            _ => true,
        }
    }

    /// How the statement is written: `command=operand`, or the command alone.
    pub fn to_text(&self) -> (r: String)
        ensures
            r@ == statement_text(statement_view(*self)),
    {
        let mut t = self.command.to_text();
        if let Expr::Empty = &self.expression {
        } else {
            t.append("=");
            t.append(self.expression.to_text().as_str());
        }
        t
    }

    /// The instruction that the statement denotes, given the labels known so far; a
    /// statement of no known shape fails with an error that quotes it.
    pub fn decode(&self, labels: &LabelTable) -> (r: Result<AssemblyInstruction, AssemblyError>)
        ensures
            agrees(r, decode_spec(self.command, self.expression, labels@)),
            r matches Err(e) ==> e is Decode && e.details() == "bad statement: "@ + statement_text(
                statement_view(*self),
            ),
    {
        match self.decode_shape(labels) {
            Ok(i) => Ok(i),
            Err(_) => Err(
                AssemblyError::decode_failed(crate::text::join("bad statement: ", self.to_text().as_str()).as_str()),
            ),
        }
    }

    fn decode_shape(&self, labels: &LabelTable) -> (r: Result<AssemblyInstruction, AssemblyError>)
        ensures
            agrees(r, decode_spec(self.command, self.expression, labels@)),
    {
        let expr = &self.expression;
        match &self.command {
            Expr::Identifier(sym) => {
                let s = sym.as_str();
                if same_text(s, "X") {
                    decode_x(expr, labels)
                } else if same_text(s, "Y") {
                    decode_y(expr, labels)
                } else if same_text(s, "A") {
                    decode_a(expr, labels)
                } else if same_text(s, "T") {
                    decode_t(expr, labels)
                } else if same_text(s, "C") || same_text(s, "I") || same_text(s, "V") || same_text(
                    s,
                    "D",
                ) {
                    decode_flags(&self.command, expr, labels)
                } else if same_text(s, "S") {
                    decode_stack(expr, labels)
                } else if same_text(s, "_") {
                    decode_nop(expr)
                } else {
                    decode_address(&self.command, expr, labels)
                }
            },
            Expr::SystemOperator(sym) => {
                let s = sym.as_str();
                if same_text(s, "!") {
                    decode_call(expr, labels)
                } else if same_text(s, "#") {
                    decode_goto(expr, labels)
                } else if same_text(s, ";") {
                    decode_if(expr, labels)
                } else if same_text(s, "<") || same_text(s, ">") || same_text(s, "(") || same_text(
                    s,
                    ")",
                ) {
                    decode_shift(&self.command, expr, labels)
                } else if same_text(s, "[") {
                    decode_push(expr)
                } else {
                    decode_address(&self.command, expr, labels)
                }
            },
            _ => decode_address(&self.command, expr, labels),
        }
    }

    /// The object code of the statement at `pc`: its opcode, then its operand bytes.
    pub fn compile(
        &self,
        opcode_table: &OpcodeTable,
        labels: &LabelTable,
        current_label: &str,
        pc: usize,
    ) -> (r: Result<Vec<u8>, AssemblyError>)
        requires
            opcode_table.wf(),
        ensures
            agrees_bytes(
                r,
                compile_spec(self.command, self.expression, labels@, current_label@, pc as u16),
            ),
    {
        let assembly_instruction = self.decode(labels)?;
        let opcode = opcode_table.find(
            &assembly_instruction.mnemonic,
            &assembly_instruction.addressing_mode,
        )?;
        let operand = Self::operand_bytes(&assembly_instruction, labels, current_label, pc as u16)?;
        let mut bytes = Vec::new();
        bytes.push(opcode.opcode);
        let mut i: usize = 0;
        while i < operand.len()
            invariant
                i <= operand@.len(),
                bytes@ == seq![opcode.opcode] + operand@.subrange(0, i as int),
            decreases operand.len() - i,
        {
            bytes.push(operand[i]);
            i += 1;
            assert(bytes@ =~= seq![opcode.opcode] + operand@.subrange(0, i as int));
        }
        assert(operand@.subrange(0, operand@.len() as int) =~= operand@);
        Ok(bytes)
    }

    fn operand_bytes(
        assembly_instruction: &AssemblyInstruction,
        labels: &LabelTable,
        current_label: &str,
        pc: u16,
    ) -> (r: Result<Vec<u8>, AssemblyError>)
        ensures
            agrees_bytes(
                r,
                operand_bytes_of(
                    assembly_instruction.value,
                    assembly_instruction.addressing_mode,
                    labels@,
                    current_label@,
                    pc,
                ),
            ),
    {
        match &assembly_instruction.value {
            OperandValue::NoOperand => {
                let v = Vec::new();
                assert(v@ =~= seq![]);
                Ok(v)
            },
            OperandValue::Byte(value) => {
                let mut v = Vec::new();
                v.push(*value);
                assert(v@ =~= seq![*value]);
                Ok(v)
            },
            OperandValue::Word(value) => Ok(Self::little_endian(*value)),
            OperandValue::UnresolvedLabel(name) => Self::resolve_label(
                name.as_str(),
                &assembly_instruction.addressing_mode,
                labels,
                current_label,
                pc,
            ),
            OperandValue::UnresolvedRelative(addr) => Ok(Self::absolute_to_relative(*addr, pc)),
        }
    }

    fn little_endian(value: u16) -> (r: Vec<u8>)
        ensures
            r@ == word_bytes(value),
    {
        let mut v = Vec::new();
        v.push((value % 256) as u8);
        v.push((value / 256) as u8);
        assert(v@ =~= word_bytes(value));
        v
    }

    fn resolve_label(
        name: &str,
        mode: &AddressingMode,
        labels: &LabelTable,
        current_label: &str,
        pc: u16,
    ) -> (r: Result<Vec<u8>, AssemblyError>)
        ensures
            agrees_bytes(
                r,
                label_bytes_of(name@, *mode, labels@, current_label@, pc),
            ),
    {
        let name = Self::full_qualify_name(name, current_label);
        if let Some(entry) = labels.get(name.as_str()) {
            match entry.address {
                Address::Full(absolute_address) => {
                    if *mode == AddressingMode::Relative {
                        return Ok(Self::absolute_to_relative(absolute_address, pc));
                    } else {
                        return Ok(Self::little_endian(absolute_address));
                    }
                },
                Address::ZeroPage(address) => {
                    if *mode == AddressingMode::ZeroPage || *mode == AddressingMode::ZeroPageX
                        || *mode == AddressingMode::ZeroPageY {
                        let mut v = Vec::new();
                        v.push(address);
                        assert(v@ =~= seq![address]);
                        return Ok(v);
                    }
                },
            }
        }
        Err(AssemblyError::syntax("unknown label"))
    }

    /// `name`, qualified by `current_label` where it is local.
    pub fn full_qualify_name(name: &str, current_label: &str) -> (r: String)
        ensures
            r@ == qualified(name@, current_label@),
    {
        if name.unicode_len() > 0 && name.get_char(0) == '.' {
            crate::text::join(current_label, name)
        } else {
            text_of(name)
        }
    }

    /// The displacement of a branch at `pc` to `address`.
    pub fn absolute_to_relative(address: u16, pc: u16) -> (r: Vec<u8>)
        ensures
            r@ == seq![relative_byte(address, pc)],
    {
        let next = ((pc as u32 + 2) % 65536) as u16;
        let diff = ((address as u32 + 65536 - next as u32) % 256) as u8;
        let mut v = Vec::new();
        v.push(diff);
        assert(v@ =~= seq![relative_byte(address, pc)]);
        v
    }
}

/// A statement as a mathematical value: command and operand.
pub type SpecStatement = (SpecExpr, SpecExpr);

pub open spec fn statement_view(s: Statement) -> SpecStatement {
    (s.command@, s.expression@)
}

pub open spec fn statements_view(s: Seq<Statement>) -> Seq<SpecStatement> {
    s.map_values(|x: Statement| statement_view(x))
}

/// How a statement is written: `command=operand`, or the command alone.
pub open spec fn statement_text(st: SpecStatement) -> Seq<char> {
    crate::expression::expr_text(st.0) + if st.1 is Empty {
        Seq::<char>::empty()
    } else {
        "="@ + crate::expression::expr_text(st.1)
    }
}

/// A line as a mathematical value.
pub struct SpecLine {
    pub line_number: usize,
    pub address: u16,
    pub label: Option<Seq<char>>,
    pub statements: Seq<SpecStatement>,
    pub object_codes: Seq<u8>,
}

pub open spec fn line_view(l: Line) -> SpecLine {
    SpecLine {
        line_number: l.line_number,
        address: l.address,
        label: match l.label {
            Some(s) => Some(s@),
            None => None,
        },
        statements: statements_view(l.statements@),
        object_codes: l.object_codes@,
    }
}

pub open spec fn lines_view(l: Seq<Line>) -> Seq<SpecLine> {
    l.map_values(|x: Line| line_view(x))
}

/// One logical source line, with the address it starts at and the code it assembles to.
#[derive(Debug)]
pub struct Line {
    pub line_number: usize,
    pub address: u16,
    pub label: Option<String>,
    pub statements: Vec<Statement>,
    pub object_codes: Vec<u8>,
}

impl Clone for Line {
    fn clone(&self) -> (r: Self)
        ensures
            r.line_number == self.line_number,
            r.address == self.address,
            r.label == self.label,
            r.statements@ == self.statements@,
            r.object_codes@ == self.object_codes@,
    {
        self.duplicate()
    }
}

/// A copy of a list of statements.
pub fn copy_statements(s: &Vec<Statement>) -> (r: Vec<Statement>)
    ensures
        r@ == s@,
{
    let mut r: Vec<Statement> = Vec::new();
    let mut i: usize = 0;
    while i < s.len()
        invariant
            i <= s@.len(),
            r@ == s@.subrange(0, i as int),
        decreases s.len() - i,
    {
        r.push(s[i].duplicate());
        i += 1;
        assert(r@ =~= s@.subrange(0, i as int));
    }
    assert(s@.subrange(0, s@.len() as int) =~= s@);
    r
}

fn copy_bytes(s: &Vec<u8>) -> (r: Vec<u8>)
    ensures
        r@ == s@,
{
    let mut r: Vec<u8> = Vec::new();
    let mut i: usize = 0;
    while i < s.len()
        invariant
            i <= s@.len(),
            r@ == s@.subrange(0, i as int),
        decreases s.len() - i,
    {
        r.push(s[i]);
        i += 1;
        assert(r@ =~= s@.subrange(0, i as int));
    }
    assert(s@.subrange(0, s@.len() as int) =~= s@);
    r
}

impl Line {
    pub fn new(
        line_number: usize,
        address: u16,
        label: Option<String>,
        statements: Vec<Statement>,
        object_codes: Vec<u8>,
    ) -> (r: Self)
        ensures
            r == (Line { line_number, address, label, statements, object_codes }),
    {
        Self { line_number, address, label, statements, object_codes }
    }

    /// A line of the same place that holds only the label `label`.
    pub fn new_label(&self, label: &str) -> (r: Self)
        ensures
            r.line_number == self.line_number,
            r.address == self.address,
            r.label matches Some(l) && l@ == label@,
            r.statements@.len() == 0,
            r.object_codes@.len() == 0,
    {
        Self {
            line_number: self.line_number,
            address: self.address,
            label: Some(text_of(label)),
            statements: Vec::new(),
            object_codes: Vec::new(),
        }
    }

    /// A copy of the line.
    pub fn duplicate(&self) -> (r: Line)
        ensures
            r.line_number == self.line_number,
            r.address == self.address,
            r.label == self.label,
            r.statements@ == self.statements@,
            r.object_codes@ == self.object_codes@,
    {
        Line {
            line_number: self.line_number,
            address: self.address,
            label: match &self.label {
                Some(l) => Some(text_copy(l)),
                None => None,
            },
            statements: copy_statements(&self.statements),
            object_codes: copy_bytes(&self.object_codes),
        }
    }
}

} // verus!
