//! The two-pass assembler: the first pass assigns addresses and builds the label table, the
//! second encodes every statement against the complete table.
use crate::error::AssemblyError;
use crate::labels::{Address, LabelEntry, LabelTable};
use crate::opcode::{mode_length, OpcodeTable};
use crate::pseudo_commands::{self, advance, pass1_spec, pass2_spec, ADDRESS_LIMIT};
use crate::statement::{
    command_text, compile_spec, decode_spec, is_pseudo_command, Line, Statement,
};
use crate::text::{join, starts_with, text_of};
use vstd::prelude::*;

verus! {

/// The state the first pass carries from line to line: the labels, the program counter,
/// whether the origin is set, and the current global label.
pub type PassState = (Map<Seq<char>, Address>, usize, bool, Seq<char>);

/// A label that belongs to the preceding global label.
pub open spec fn is_local_label(l: Seq<char>) -> bool {
    l.len() > 0 && l[0] == '.'
}

/// A label that the macro expander made.
pub open spec fn is_macro_label(l: Seq<char>) -> bool {
    7 <= l.len() && l.subrange(0, 7) == "#macro_"@
}

/// The name under which a label is stored: a local label is qualified by the current global
/// label, and there must be one.
pub open spec fn label_key(l: Seq<char>, current: Seq<char>) -> Option<Seq<char>> {
    if is_local_label(l) {
        if current.len() == 0 {
            None
        } else {
            Some(current + l)
        }
    } else {
        Some(l)
    }
}

/// The current global label after a line with `label`.
pub open spec fn track_label(label: Option<String>, current: Seq<char>) -> Seq<char> {
    match label {
        Some(l) => if is_local_label(l@) || is_macro_label(l@) {
            current
        } else {
            l@
        },
        None => current,
    }
}

/// The labels after a line with `label` at `pc`: a new name is entered at `pc`; a name that
/// is already there fails.
pub open spec fn enter_label(
    label: Option<String>,
    labels: Map<Seq<char>, Address>,
    current: Seq<char>,
    pc: usize,
) -> Option<Map<Seq<char>, Address>> {
    match label {
        None => Some(labels),
        Some(l) => match label_key(l@, current) {
            None => None,
            Some(k) => if labels.contains_key(k) {
                None
            } else {
                Some(labels.insert(k, Address::Full(pc as u16)))
            },
        },
    }
}

pub open spec fn is_pseudo_statement(st: Statement) -> bool {
    command_text(st.command) matches Some(c) && is_pseudo_command(c)
}

/// The first pass over one statement: a pseudo-command does its work; an instruction needs
/// the origin set and advances the program counter by its length.
pub open spec fn statement_pass1(
    st: Statement,
    label: Option<String>,
    s: (Map<Seq<char>, Address>, usize, bool),
) -> Option<(Map<Seq<char>, Address>, usize, bool)> {
    if is_pseudo_statement(st) {
        pass1_spec(label, st, s.0, s.1, s.2)
    } else if !s.2 {
        None
    } else {
        match decode_spec(st.command, st.expression, s.0) {
            Some(i) => match advance(s.1, Some(mode_length(i.addressing_mode) as nat)) {
                Some(p) => Some((s.0, p, s.2)),
                None => None,
            },
            None => None,
        }
    }
}

pub open spec fn statements_pass1(
    sts: Seq<Statement>,
    label: Option<String>,
    s: (Map<Seq<char>, Address>, usize, bool),
) -> Option<(Map<Seq<char>, Address>, usize, bool)>
    decreases sts.len(),
{
    if sts.len() == 0 {
        Some(s)
    } else {
        match statements_pass1(sts.drop_last(), label, s) {
            Some(t) => statement_pass1(sts.last(), label, t),
            None => None,
        }
    }
}

/// The first pass over one line.
pub open spec fn line_pass1(line: Line, s: PassState) -> Option<PassState> {
    if s.1 > ADDRESS_LIMIT {
        None
    } else {
        match enter_label(line.label, s.0, s.3, s.1) {
            None => None,
            Some(labels) => match statements_pass1(line.statements@, line.label, (labels, s.1, s.2)) {
                Some(t) => Some((t.0, t.1, t.2, track_label(line.label, s.3))),
                None => None,
            },
        }
    }
}

pub open spec fn lines_pass1(lines: Seq<Line>, s: PassState) -> Option<PassState>
    decreases lines.len(),
{
    if lines.len() == 0 {
        Some(s)
    } else {
        match lines_pass1(lines.drop_last(), s) {
            Some(t) => line_pass1(lines.last(), t),
            None => None,
        }
    }
}

/// The address at which line `k` starts.
pub open spec fn line_address(lines: Seq<Line>, k: int, s: PassState) -> u16 {
    lines_pass1(lines.subrange(0, k), s)->Some_0.1 as u16
}

/// The object code of one statement at `pc`.
pub open spec fn statement_code(
    st: Statement,
    labels: Map<Seq<char>, Address>,
    current: Seq<char>,
    pc: u16,
) -> Option<Seq<u8>> {
    if is_pseudo_statement(st) {
        pass2_spec(st, labels, pc)
    } else {
        compile_spec(st.command, st.expression, labels, current, pc)
    }
}

/// `pc` moved on by `n` bytes, within 16 bits.
pub open spec fn next_pc(pc: u16, n: nat) -> u16 {
    ((pc + n) % 65536) as u16
}

/// The object code of a run of statements from `pc`, and the address after it.
pub open spec fn statements_code(
    sts: Seq<Statement>,
    labels: Map<Seq<char>, Address>,
    current: Seq<char>,
    pc: u16,
) -> Option<(Seq<u8>, u16)>
    decreases sts.len(),
{
    if sts.len() == 0 {
        Some((seq![], pc))
    } else {
        match statements_code(sts.drop_last(), labels, current, pc) {
            Some((b, p)) => match statement_code(sts.last(), labels, current, p) {
                Some(c) => Some((b + c, next_pc(p, c.len()))),
                None => None,
            },
            None => None,
        }
    }
}

/// The object code of each line, and the current global label after them; the current label
/// starts out empty.
pub open spec fn lines_code(lines: Seq<Line>, labels: Map<Seq<char>, Address>) -> Option<
    (Seq<Seq<u8>>, Seq<char>),
>
    decreases lines.len(),
{
    if lines.len() == 0 {
        Some((seq![], seq![]))
    } else {
        match lines_code(lines.drop_last(), labels) {
            Some((codes, current)) => {
                let line = lines.last();
                let cur = track_label(line.label, current);
                match statements_code(line.statements@, labels, cur, line.address) {
                    Some((c, _)) => Some((codes.push(c), cur)),
                    None => None,
                }
            },
            None => None,
        }
    }
}

/// The statement sets the origin.
pub open spec fn is_origin(st: Statement) -> bool {
    command_text(st.command) == Some("*"@)
}

/// The line holds an origin statement.
pub open spec fn has_origin(line: Line) -> bool {
    exists|k: int| 0 <= k < line.statements@.len() && is_origin(#[trigger] line.statements@[k])
}

/// The sizes that the first pass assigned agree with the code of the second: each line without
/// an origin statement ends where the next line starts.
pub open spec fn sizes_agree(lines: Seq<Line>, codes: Seq<Seq<u8>>) -> bool {
    forall|k: int|
        0 <= k < lines.len() - 1 && !#[trigger] has_origin(lines[k]) ==> next_pc(
            lines[k].address,
            codes[k].len(),
        ) == lines[k + 1].address
}

/// The lines with the addresses that the first pass gives them.
pub open spec fn addressed(lines: Seq<Line>, s: PassState) -> Seq<Line> {
    Seq::new(lines.len(), |k: int| Line { address: line_address(lines, k, s), ..lines[k] })
}

/// Why the first pass stops.
pub enum Fault {
    Overflow,
    NoGlobalLabel,
    DuplicateLabel,
    AddressNotSet,
    Other,
}

/// The error that a fault gives.
pub open spec fn fault_error(f: Fault, e: AssemblyError) -> bool {
    match f {
        Fault::Overflow => e is Program && e.details() == "program error: "@ + "address overflow"@,
        Fault::NoGlobalLabel => e is Program && e.details() == "program error: "@
            + "global label not found"@,
        Fault::DuplicateLabel => e is Label,
        Fault::AddressNotSet => e is Program && e.details() == "program error: "@
            + "address not set"@,
        Fault::Other => true,
    }
}

/// Why a label cannot be entered: a local label with no global label, or a name in use.
pub open spec fn label_fault(label: Option<String>, labels: Map<Seq<char>, Address>, current: Seq<char>) -> Option<Fault> {
    match label {
        Some(l) => match label_key(l@, current) {
            None => Some(Fault::NoGlobalLabel),
            Some(k) => if labels.contains_key(k) {
                Some(Fault::DuplicateLabel)
            } else {
                None
            },
        },
        None => None,
    }
}

/// Why a statement stops the first pass.
pub open spec fn statement_fault(st: Statement, s: (Map<Seq<char>, Address>, usize, bool)) -> Fault {
    if is_pseudo_statement(st) {
        Fault::Other
    } else if !s.2 {
        Fault::AddressNotSet
    } else if decode_spec(st.command, st.expression, s.0) is None {
        Fault::Other
    } else {
        Fault::Overflow
    }
}

pub open spec fn statements_fault(
    sts: Seq<Statement>,
    label: Option<String>,
    s: (Map<Seq<char>, Address>, usize, bool),
) -> Fault
    decreases sts.len(),
{
    if sts.len() == 0 {
        Fault::Other
    } else {
        match statements_pass1(sts.drop_last(), label, s) {
            None => statements_fault(sts.drop_last(), label, s),
            Some(t) => statement_fault(sts.last(), t),
        }
    }
}

pub open spec fn line_fault(line: Line, s: PassState) -> Fault {
    if s.1 > ADDRESS_LIMIT {
        Fault::Overflow
    } else {
        match label_fault(line.label, s.0, s.3) {
            Some(f) => f,
            None => statements_fault(
                line.statements@,
                line.label,
                (enter_label(line.label, s.0, s.3, s.1)->Some_0, s.1, s.2),
            ),
        }
    }
}

/// Why the first pass over the lines stops.
pub open spec fn lines_fault(lines: Seq<Line>, s: PassState) -> Fault
    decreases lines.len(),
{
    if lines.len() == 0 {
        Fault::Other
    } else {
        match lines_pass1(lines.drop_last(), s) {
            None => lines_fault(lines.drop_last(), s),
            Some(t) => line_fault(lines.last(), t),
        }
    }
}

/// The number of bytes in all the codes.
pub open spec fn total_size(codes: Seq<Seq<u8>>) -> nat
    decreases codes.len(),
{
    if codes.len() == 0 {
        0
    } else {
        total_size(codes.drop_last()) + codes.last().len()
    }
}

/// A local label defined after the global label `current` is stored under `current` followed
/// by the local name, which is the name that a reference to the local label resolves to, and
/// the name that the full name resolves to wherever it is written; a local label with no
/// global label before it fails.
pub proof fn lemma_local_label_scope(
    local: String,
    current: Seq<char>,
    other: Seq<char>,
    labels: Map<Seq<char>, Address>,
    pc: usize,
)
    requires
        is_local_label(local@),
    ensures
        current.len() > 0 && !is_local_label(current) ==> crate::statement::qualified(
            current + local@,
            other,
        ) == current + local@,
        current.len() > 0 ==> label_key(local@, current) == Some(current + local@),
        current.len() > 0 ==> label_key(local@, current) == Some(
            crate::statement::qualified(local@, current),
        ),
        current.len() > 0 && !labels.contains_key(current + local@) ==> enter_label(
            Some(local),
            labels,
            current,
            pc,
        ) == Some(labels.insert(current + local@, Address::Full(pc as u16))),
        current.len() == 0 ==> enter_label(Some(local), labels, current, pc) is None,
{
}

/// Defining a name that the table already holds fails, whether the label is global, local or
/// made by the macro expander.
pub proof fn lemma_label_unique(
    label: String,
    current: Seq<char>,
    labels: Map<Seq<char>, Address>,
    pc: usize,
)
    requires
        label_key(label@, current) matches Some(k) && labels.contains_key(k),
    ensures
        enter_label(Some(label), labels, current, pc) is None,
{
}

/// The assembler's state for one run.
pub struct Assembler {
    pub pc: usize,
    pub labels: LabelTable,
    pub opcode_table: OpcodeTable,
    pub current_label: String,
    pub is_address_set: bool,
}

impl Assembler {
    pub open spec fn state(&self) -> PassState {
        (self.labels@, self.pc, self.is_address_set, self.current_label@)
    }

    pub fn new() -> (r: Self)
        ensures
            r.state() == (Map::<Seq<char>, Address>::empty(), 0usize, false, Seq::<char>::empty()),
            r.opcode_table.wf(),
    {
        Self {
            pc: 0,
            labels: LabelTable::new(),
            opcode_table: OpcodeTable::new(),
            current_label: String::new(),
            is_address_set: false,
        }
    }

    /// Assembles the lines: fills in each line's address and object code, and returns the
    /// size of the object code.
    pub fn assemble(&mut self, lines: &mut Vec<Line>) -> (r: Result<usize, AssemblyError>)
        requires
            old(self).opcode_table.wf(),
        ensures
            lines_pass1(old(lines)@, old(self).state()) is None ==> ({
                &&& r matches Err(e) && fault_error(lines_fault(old(lines)@, old(self).state()), e)
                &&& forall|k: int|
                    0 <= k < old(lines)@.len() ==> (#[trigger] final(lines)@[k]).object_codes@
                        == old(lines)@[k].object_codes@
            }),
            r is Err ==> ({
                let p1 = lines_pass1(old(lines)@, old(self).state());
                let a = addressed(old(lines)@, old(self).state());
                let c = lines_code(a, p1->Some_0.0);
                ||| p1 is None
                ||| c is None
                ||| !sizes_agree(a, c->Some_0.0)
                ||| total_size(c->Some_0.0) > usize::MAX
            }),
            r is Ok ==> lines_pass1(old(lines)@, old(self).state()) is Some,
            r is Ok ==> final(self).labels@ == lines_pass1(old(lines)@, old(self).state())->Some_0.0,
            final(lines)@.len() == old(lines)@.len(),
            r matches Ok(n) ==> ({
                let codes = lines_code(final(lines)@, final(self).labels@);
                &&& codes is Some
                &&& n == total_size(codes->Some_0.0)
                &&& sizes_agree(final(lines)@, codes->Some_0.0)
                &&& forall|k: int|
                    0 <= k < old(lines)@.len() ==> {
                        &&& (#[trigger] final(lines)@[k]).address == line_address(
                            old(lines)@,
                            k,
                            old(self).state(),
                        )
                        &&& final(lines)@[k].label == old(lines)@[k].label
                        &&& final(lines)@[k].statements@ == old(lines)@[k].statements@
                        &&& final(lines)@[k].object_codes@ == old(lines)@[k].object_codes@
                            + codes->Some_0.0[k]
                    }
            }),
    {
        let ghost start = self.state();
        self.pass1(lines)?;
        let ghost mid = lines@;
        proof {
            let a = addressed(old(lines)@, start);
            assert forall|k: int| 0 <= k < a.len() implies {
                &&& (#[trigger] a[k]).label == mid[k].label
                &&& a[k].statements@ == mid[k].statements@
                &&& a[k].address == mid[k].address
            } by {}
            lemma_lines_code_fields(a, mid, self.labels@);
            lemma_sizes_fields(a, mid);
        }
        let obj_size = self.pass2(lines)?;
        proof {
            lemma_lines_code_fields(mid, lines@, self.labels@);
            lemma_sizes_fields(mid, lines@);
        }
        Ok(obj_size)
    }

    fn pass1(&mut self, lines: &mut Vec<Line>) -> (r: Result<(), AssemblyError>)
        ensures
            final(self).opcode_table == old(self).opcode_table,
            final(lines)@.len() == old(lines)@.len(),
            r is Ok <==> lines_pass1(old(lines)@, old(self).state()) is Some,
            r is Ok ==> lines_pass1(old(lines)@, old(self).state()) == Some(final(self).state()),
            r matches Err(e) ==> fault_error(lines_fault(old(lines)@, old(self).state()), e),
            forall|k: int|
                0 <= k < old(lines)@.len() ==> (#[trigger] final(lines)@[k]).object_codes@
                    == old(lines)@[k].object_codes@,
            r is Ok ==> forall|k: int|
                0 <= k < old(lines)@.len() ==> {
                    &&& (#[trigger] final(lines)@[k]).address == line_address(
                        old(lines)@,
                        k,
                        old(self).state(),
                    )
                    &&& final(lines)@[k].label == old(lines)@[k].label
                    &&& final(lines)@[k].statements@ == old(lines)@[k].statements@
                    &&& final(lines)@[k].object_codes@ == old(lines)@[k].object_codes@
                },
    {
        let ghost start = self.state();
        let mut i: usize = 0;
        while i < lines.len()
            invariant
                self.opcode_table == old(self).opcode_table,
                lines@.len() == old(lines)@.len(),
                i <= lines@.len(),
                start == old(self).state(),
                lines_pass1(old(lines)@.subrange(0, i as int), start) == Some(self.state()),
                forall|k: int|
                    0 <= k < old(lines)@.len() ==> {
                        &&& (#[trigger] lines@[k]).label == old(lines)@[k].label
                        &&& lines@[k].statements@ == old(lines)@[k].statements@
                        &&& lines@[k].object_codes@ == old(lines)@[k].object_codes@
                        &&& k < i ==> lines@[k].address == line_address(old(lines)@, k, start)
                    },
            decreases lines.len() - i,
        {
            assert(old(lines)@.subrange(0, i + 1).drop_last() =~= old(lines)@.subrange(0, i as int));
            let ghost before = self.state();
            let ghost before_lines = lines@;
            let res = self.pass1_process_line(&lines[i]);
            match res {
                Ok(address) => {
                    lines[i].address = address;
                    assert(lines_pass1(old(lines)@.subrange(0, i + 1), start) == Some(self.state()));
                    assert forall|k: int| 0 <= k < old(lines)@.len() implies {
                        &&& (#[trigger] lines@[k]).label == old(lines)@[k].label
                        &&& lines@[k].statements@ == old(lines)@[k].statements@
                        &&& lines@[k].object_codes@ == old(lines)@[k].object_codes@
                        &&& k < i + 1 ==> lines@[k].address == line_address(old(lines)@, k, start)
                    } by {
                        if k == i {
                            assert(old(lines)@.subrange(0, k) =~= old(lines)@.subrange(0, i as int));
                        } else {
                            assert(lines@[k] == before_lines[k]);
                        }
                    }
                },
                Err(e) => {
                    proof {
                        lemma_lines_pass1_prefix(old(lines)@, i as int + 1, start);
                        lemma_lines_fault(old(lines)@, i as int, start);
                    }
                    return Err(e);
                },
            }
            i += 1;
        }
        assert(old(lines)@.subrange(0, i as int) =~= old(lines)@);
        Ok(())
    }

    /// The first pass over one line; returns the address at which the line starts.
    fn pass1_process_line(&mut self, line: &Line) -> (r: Result<u16, AssemblyError>)
        ensures
            final(self).opcode_table == old(self).opcode_table,
            r is Ok <==> line_pass1(*line, old(self).state()) is Some,
            r is Ok ==> line_pass1(*line, old(self).state()) == Some(final(self).state()),
            r matches Ok(a) ==> a == old(self).pc as u16,
            r matches Err(e) ==> fault_error(line_fault(*line, old(self).state()), e),
    {
        if self.pc > ADDRESS_LIMIT {
            return Err(AssemblyError::program("address overflow"));
        }
        let address = self.pc as u16;
        let ghost current = self.current_label@;
        self.entry_label(line)?;
        let ghost entered = self.labels@;
        let mut j: usize = 0;
        assert(line.statements@.subrange(0, 0) =~= Seq::<Statement>::empty());
        while j < line.statements.len()
            invariant
                self.opcode_table == old(self).opcode_table,
                j <= line.statements@.len(),
                self.current_label@ == track_label(line.label, current),
                current == old(self).current_label@,
                old(self).pc <= ADDRESS_LIMIT,
                enter_label(line.label, old(self).labels@, current, old(self).pc) == Some(entered),
                statements_pass1(
                    line.statements@.subrange(0, j as int),
                    line.label,
                    (entered, old(self).pc, old(self).is_address_set),
                ) == Some((self.labels@, self.pc, self.is_address_set)),
            decreases line.statements.len() - j,
        {
            assert(line.statements@.subrange(0, j + 1).drop_last() =~= line.statements@.subrange(
                0,
                j as int,
            ));
            let ghost here = (self.labels@, self.pc, self.is_address_set);
            let res = self.statement_pass1(line, &line.statements[j]);
            if res.is_err() {
                proof {
                    lemma_statements_pass1_prefix(
                        line.statements@,
                        j as int + 1,
                        line.label,
                        (entered, old(self).pc, old(self).is_address_set),
                    );
                    lemma_statements_fault(
                        line.statements@,
                        j as int,
                        line.label,
                        (entered, old(self).pc, old(self).is_address_set),
                    );
                    assert(label_fault(line.label, old(self).labels@, current) is None);
                    assert(statements_pass1(
                        line.statements@.subrange(0, j as int),
                        line.label,
                        (entered, old(self).pc, old(self).is_address_set),
                    ) == Some(here));
                    assert(old(self).pc <= ADDRESS_LIMIT);
                    assert(enter_label(line.label, old(self).labels@, current, old(self).pc)->Some_0 == entered);
                    assert(statements_fault(
                        line.statements@,
                        line.label,
                        (entered, old(self).pc, old(self).is_address_set),
                    ) == statement_fault(line.statements@[j as int], here));
                    assert(line_fault(*line, old(self).state()) == statement_fault(
                        line.statements@[j as int],
                        here,
                    ));
                }
                let e = res.unwrap_err();
                assert(fault_error(statement_fault(line.statements@[j as int], here), e));
                return Err(e);
            }
            j += 1;
        }
        assert(line.statements@.subrange(0, j as int) =~= line.statements@);
        Ok(address)
    }

    fn statement_pass1(&mut self, line: &Line, statement: &Statement) -> (r: Result<(), AssemblyError>)
        ensures
            final(self).opcode_table == old(self).opcode_table,
            final(self).current_label == old(self).current_label,
            r is Ok <==> statement_pass1(
                *statement,
                line.label,
                (old(self).labels@, old(self).pc, old(self).is_address_set),
            ) is Some,
            r is Ok ==> statement_pass1(
                *statement,
                line.label,
                (old(self).labels@, old(self).pc, old(self).is_address_set),
            ) == Some((final(self).labels@, final(self).pc, final(self).is_address_set)),
            r matches Err(e) ==> fault_error(
                statement_fault(
                    *statement,
                    (old(self).labels@, old(self).pc, old(self).is_address_set),
                ),
                e,
            ),
    {
        if statement.is_pseudo() {
            return self.pseudo_command_pass1(line, statement);
        }
        if !self.is_address_set {
            return Err(AssemblyError::program("address not set"));
        }
        let assembly_instruction = statement.decode(&self.labels)?;
        let len = assembly_instruction.addressing_mode.length() as usize;
        if self.pc > ADDRESS_LIMIT - len {
            return Err(AssemblyError::program("address overflow"));
        }
        self.pc = self.pc + len;
        Ok(())
    }

    fn pass2(&mut self, lines: &mut Vec<Line>) -> (r: Result<usize, AssemblyError>)
        requires
            old(self).opcode_table.wf(),
        ensures
            final(self).labels@ == old(self).labels@,
            final(lines)@.len() == old(lines)@.len(),
            lines_code(old(lines)@, old(self).labels@) is None ==> r is Err,
            r is Err ==> ({
                let c = lines_code(old(lines)@, old(self).labels@);
                ||| c is None
                ||| !sizes_agree(old(lines)@, c->Some_0.0)
                ||| total_size(c->Some_0.0) > usize::MAX
            }),
            r matches Ok(n) ==> ({
                let codes = lines_code(old(lines)@, old(self).labels@)->Some_0.0;
                &&& lines_code(old(lines)@, old(self).labels@) is Some
                &&& n == total_size(codes)
                &&& sizes_agree(old(lines)@, codes)
                &&& forall|k: int|
                    0 <= k < old(lines)@.len() ==> {
                        &&& (#[trigger] final(lines)@[k]).address == old(lines)@[k].address
                        &&& final(lines)@[k].label == old(lines)@[k].label
                        &&& final(lines)@[k].statements@ == old(lines)@[k].statements@
                        &&& final(lines)@[k].object_codes@ == old(lines)@[k].object_codes@
                            + codes[k]
                    }
            }),
    {
        self.current_label = String::new();
        let mut objects_size: usize = 0;
        let mut i: usize = 0;
        let ghost mut codes: Seq<Seq<u8>> = seq![];
        while i < lines.len()
            invariant
                self.opcode_table.wf(),
                self.labels@ == old(self).labels@,
                lines@.len() == old(lines)@.len(),
                i <= lines@.len(),
                lines_code(old(lines)@.subrange(0, i as int), self.labels@) == Some(
                    (codes, self.current_label@),
                ),
                objects_size == total_size(codes),
                codes.len() == i,
                forall|k: int|
                    0 <= k < i && k < old(lines)@.len() - 1 && !#[trigger] has_origin(old(lines)@[k])
                        ==> next_pc(old(lines)@[k].address, codes[k].len()) == old(lines)@[k
                        + 1].address,
                forall|k: int|
                    0 <= k < old(lines)@.len() ==> {
                        &&& (#[trigger] lines@[k]).address == old(lines)@[k].address
                        &&& lines@[k].label == old(lines)@[k].label
                        &&& lines@[k].statements@ == old(lines)@[k].statements@
                        &&& k >= i ==> lines@[k].object_codes@ == old(lines)@[k].object_codes@
                        &&& k < i ==> lines@[k].object_codes@ == old(lines)@[k].object_codes@
                            + codes[k]
                    },
            decreases lines.len() - i,
        {
            assert(old(lines)@.subrange(0, i + 1).drop_last() =~= old(lines)@.subrange(0, i as int));
            assert(old(lines)@.subrange(0, i + 1).last() == old(lines)@[i as int]);
            let ghost before_lines = lines@;
            let res = self.pass2_process_line(&lines[i]);
            match res {
                Ok(objects) => {
                    let size = objects.len();
                    let ghost prev = codes;
                    let ghost next = codes.push(objects@);
                    proof {
                        assert(next.drop_last() =~= prev);
                        assert(lines_code(old(lines)@.subrange(0, i + 1), self.labels@) matches Some(
                            (c, _),
                        ) && c == next);
                    }
                    if objects_size > usize::MAX - size {
                        proof {
                            if lines_code(old(lines)@, self.labels@) is Some {
                                lemma_lines_code_len(old(lines)@, self.labels@);
                                lemma_lines_code_prefix_some(old(lines)@, i as int + 1, self.labels@);
                                lemma_total_prefix(
                                    lines_code(old(lines)@, self.labels@)->Some_0.0,
                                    i as int + 1,
                                );
                            }
                        }
                        return Err(AssemblyError::program("object too large"));
                    }
                    if i + 1 < lines.len() && !line_sets_origin(&lines[i]) && advance_pc16(
                        lines[i].address,
                        size,
                    ) != lines[i + 1].address {
                        proof {
                            if lines_code(old(lines)@, self.labels@) is Some {
                                lemma_lines_code_len(old(lines)@, self.labels@);
                                lemma_lines_code_prefix_some(old(lines)@, i as int + 1, self.labels@);
                                let all = lines_code(old(lines)@, self.labels@)->Some_0.0;
                                assert(all.subrange(0, i + 1)[i as int] == all[i as int]);
                                assert(all[i as int] == objects@);
                                assert(has_origin(lines@[i as int]) == has_origin(
                                    old(lines)@[i as int],
                                ));
                                assert(!sizes_agree(old(lines)@, all));
                            }
                        }
                        return Err(AssemblyError::program("code size differs between passes"));
                    }
                    proof {
                        assert(has_origin(lines@[i as int]) == has_origin(old(lines)@[i as int]));
                    }
                    objects_size = objects_size + size;
                    proof {
                        codes = next;
                    }
                    let ghost obj = objects@;
                    let mut objects = objects;
                    lines[i].object_codes.append(&mut objects);
                    assert(lines@[i as int].object_codes@ == before_lines[i as int].object_codes@ + obj);
                    assert(codes[i as int] == obj);
                    assert forall|k: int| 0 <= k < old(lines)@.len() implies {
                        &&& (#[trigger] lines@[k]).address == old(lines)@[k].address
                        &&& lines@[k].label == old(lines)@[k].label
                        &&& lines@[k].statements@ == old(lines)@[k].statements@
                        &&& k >= i + 1 ==> lines@[k].object_codes@ == old(lines)@[k].object_codes@
                        &&& k < i + 1 ==> lines@[k].object_codes@ == old(lines)@[k].object_codes@
                            + codes[k]
                    } by {
                        if k != i {
                            assert(lines@[k] == before_lines[k]);
                        }
                    }
                },
                Err(e) => {
                    proof {
                        lemma_lines_code_prefix(old(lines)@, i as int + 1, self.labels@);
                    }
                    return Err(e);
                },
            }
            i += 1;
        }
        assert(old(lines)@.subrange(0, i as int) =~= old(lines)@);
        assert(sizes_agree(old(lines)@, codes));
        Ok(objects_size)
    }

    /// The object code of one line.
    fn pass2_process_line(&mut self, line: &Line) -> (r: Result<Vec<u8>, AssemblyError>)
        requires
            old(self).opcode_table.wf(),
        ensures
            final(self).labels == old(self).labels,
            final(self).opcode_table == old(self).opcode_table,
            final(self).current_label@ == track_label(line.label, old(self).current_label@),
            ({
                let s = statements_code(
                    line.statements@,
                    old(self).labels@,
                    track_label(line.label, old(self).current_label@),
                    line.address,
                );
                &&& r is Ok <==> s is Some
                &&& r matches Ok(v) ==> v@ == s->Some_0.0
            }),
    {
        let mut objects: Vec<u8> = Vec::new();
        let mut pc: u16 = line.address;
        self.track_global_label(line);
        let mut j: usize = 0;
        assert(line.statements@.subrange(0, 0) =~= Seq::<Statement>::empty());
        while j < line.statements.len()
            invariant
                self.labels == old(self).labels,
                self.opcode_table == old(self).opcode_table,
                self.opcode_table.wf(),
                self.current_label@ == track_label(line.label, old(self).current_label@),
                j <= line.statements@.len(),
                statements_code(
                    line.statements@.subrange(0, j as int),
                    self.labels@,
                    self.current_label@,
                    line.address,
                ) == Some((objects@, pc)),
            decreases line.statements.len() - j,
        {
            assert(line.statements@.subrange(0, j + 1).drop_last() =~= line.statements@.subrange(
                0,
                j as int,
            ));
            let res = self.statement_code(&line.statements[j], pc);
            match res {
                Ok(code) => {
                    let ghost before = objects@;
                    let ghost old_pc = pc;
                    let n = code.len();
                    pc = advance_pc16(pc, n);
                    let mut code = code;
                    let ghost c = code@;
                    objects.append(&mut code);
                    proof {
                        let p = line.statements@.subrange(0, j + 1);
                        assert(p.last() == line.statements@[j as int]);
                        assert(statement_code(p.last(), self.labels@, self.current_label@, old_pc)
                            == Some(c));
                    }
                },
                Err(e) => {
                    proof {
                        lemma_statements_code_prefix(
                            line.statements@,
                            j as int + 1,
                            self.labels@,
                            self.current_label@,
                            line.address,
                        );
                    }
                    return Err(e);
                },
            }
            j += 1;
        }
        assert(line.statements@.subrange(0, j as int) =~= line.statements@);
        Ok(objects)
    }

    /// The object code of one statement at `pc`.
    fn statement_code(&self, statement: &Statement, pc: u16) -> (r: Result<Vec<u8>, AssemblyError>)
        requires
            self.opcode_table.wf(),
        ensures
            crate::statement::agrees_bytes(
                r,
                statement_code(*statement, self.labels@, self.current_label@, pc),
            ),
    {
        if statement.is_pseudo() {
            pseudo_commands::pass2(statement, &self.labels, &pc)
        } else {
            statement.compile(&self.opcode_table, &self.labels, self.current_label.as_str(), pc as usize)
        }
    }

    /// Makes a global label on `line` the current one.
    fn track_global_label(&mut self, line: &Line)
        ensures
            final(self).labels == old(self).labels,
            final(self).opcode_table == old(self).opcode_table,
            final(self).pc == old(self).pc,
            final(self).is_address_set == old(self).is_address_set,
            final(self).current_label@ == track_label(line.label, old(self).current_label@),
    {
        proof {
            reveal_strlit("#macro_");
        }
        if let Some(label) = &line.label {
            if !is_local(label.as_str()) && !starts_with(label.as_str(), "#macro_") {
                self.current_label = text_of(label.as_str());
            }
        }
    }

    /// Enters the label of `line` into the table at the current address.
    fn entry_label(&mut self, line: &Line) -> (r: Result<(), AssemblyError>)
        ensures
            final(self).opcode_table == old(self).opcode_table,
            final(self).pc == old(self).pc,
            final(self).is_address_set == old(self).is_address_set,
            r is Ok <==> enter_label(line.label, old(self).labels@, old(self).current_label@, old(self).pc)
                is Some,
            r is Ok ==> enter_label(
                line.label,
                old(self).labels@,
                old(self).current_label@,
                old(self).pc,
            ) == Some(final(self).labels@),
            r is Ok ==> final(self).current_label@ == track_label(
                line.label,
                old(self).current_label@,
            ),
            r matches Err(e) ==> (label_fault(line.label, old(self).labels@, old(self).current_label@)
                matches Some(f) && fault_error(f, e)),
    {
        proof {
            reveal_strlit("#macro_");
        }
        if let Some(label) = &line.label {
            let local = is_local(label.as_str());
            let key = if local {
                if self.current_label.as_str().unicode_len() == 0 {
                    return Err(AssemblyError::program("global label not found"));
                }
                join(self.current_label.as_str(), label.as_str())
            } else {
                text_of(label.as_str())
            };
            self.add_entry(key.as_str(), line)?;
            if !local && !starts_with(label.as_str(), "#macro_") {
                self.current_label = text_of(label.as_str());
            }
        }
        Ok(())
    }

    fn add_entry(&mut self, label: &str, line: &Line) -> (r: Result<(), AssemblyError>)
        ensures
            final(self).opcode_table == old(self).opcode_table,
            final(self).pc == old(self).pc,
            final(self).is_address_set == old(self).is_address_set,
            final(self).current_label == old(self).current_label,
            r is Ok <==> !old(self).labels@.contains_key(label@),
            r is Ok ==> final(self).labels@ == old(self).labels@.insert(
                label@,
                Address::Full(old(self).pc as u16),
            ),
            r matches Err(e) ==> e is Label,
    {
        if !self.labels.contains_key(label) {
            let pc = self.pc as u16;
            self.add_label(label, line.line_number, pc);
            Ok(())
        } else {
            Err(AssemblyError::label_used(line.line_number, label))
        }
    }

    fn pseudo_command_pass1(&mut self, line: &Line, statement: &Statement) -> (r: Result<
        (),
        AssemblyError,
    >)
        ensures
            final(self).opcode_table == old(self).opcode_table,
            final(self).current_label == old(self).current_label,
            r is Ok <==> pass1_spec(
                line.label,
                *statement,
                old(self).labels@,
                old(self).pc,
                old(self).is_address_set,
            ) is Some,
            r is Ok ==> pass1_spec(
                line.label,
                *statement,
                old(self).labels@,
                old(self).pc,
                old(self).is_address_set,
            ) == Some((final(self).labels@, final(self).pc, final(self).is_address_set)),
    {
        pseudo_commands::pass1(
            line,
            statement,
            &mut self.labels,
            &mut self.pc,
            &mut self.is_address_set,
        )
    }

    fn add_label(&mut self, name: &str, line: usize, address: u16)
        ensures
            final(self).opcode_table == old(self).opcode_table,
            final(self).pc == old(self).pc,
            final(self).is_address_set == old(self).is_address_set,
            final(self).current_label == old(self).current_label,
            final(self).labels@ == old(self).labels@.insert(name@, Address::Full(address)),
    {
        let entry = LabelEntry { name: text_of(name), line, address: Address::Full(address) };
        self.labels.insert(text_of(name), entry);
    }
}

/// Whether the line holds an origin statement.
fn line_sets_origin(line: &Line) -> (r: bool)
    ensures
        r == has_origin(*line),
{
    let mut j: usize = 0;
    while j < line.statements.len()
        invariant
            j <= line.statements@.len(),
            forall|k: int| 0 <= k < j ==> !is_origin(#[trigger] line.statements@[k]),
        decreases line.statements.len() - j,
    {
        if let Ok(c) = line.statements[j].command() {
            if crate::text::same_text(c.as_str(), "*") {
                assert(is_origin(line.statements@[j as int]));
                return true;
            }
        }
        j += 1;
    }
    false
}

proof fn lemma_lines_code_len(s: Seq<Line>, labels: Map<Seq<char>, Address>)
    requires
        lines_code(s, labels) is Some,
    ensures
        lines_code(s, labels)->Some_0.0.len() == s.len(),
    decreases s.len(),
{
    if s.len() > 0 {
        lemma_lines_code_len(s.drop_last(), labels);
    }
}

proof fn lemma_lines_code_prefix_some(s: Seq<Line>, k: int, labels: Map<Seq<char>, Address>)
    requires
        0 <= k <= s.len(),
        lines_code(s, labels) is Some,
    ensures
        lines_code(s.subrange(0, k), labels) is Some,
        lines_code(s.subrange(0, k), labels)->Some_0.0 == lines_code(s, labels)->Some_0.0.subrange(
            0,
            k,
        ),
    decreases s.len(),
{
    lemma_lines_code_len(s, labels);
    if k == s.len() {
        assert(s.subrange(0, k) =~= s);
        assert(lines_code(s, labels)->Some_0.0.subrange(0, k) =~= lines_code(s, labels)->Some_0.0);
    } else {
        let d = s.drop_last();
        lemma_lines_code_prefix_some(d, k, labels);
        lemma_lines_code_len(d, labels);
        assert(d.subrange(0, k) =~= s.subrange(0, k));
        assert(lines_code(s, labels)->Some_0.0.subrange(0, k) =~= lines_code(d, labels)->Some_0.0.subrange(0, k));
    }
}

proof fn lemma_total_prefix(codes: Seq<Seq<u8>>, k: int)
    requires
        0 <= k <= codes.len(),
    ensures
        total_size(codes.subrange(0, k)) <= total_size(codes),
    decreases codes.len(),
{
    if k == codes.len() {
        assert(codes.subrange(0, k) =~= codes);
    } else {
        lemma_total_prefix(codes.drop_last(), k);
        assert(codes.drop_last().subrange(0, k) =~= codes.subrange(0, k));
    }
}

fn advance_pc16(pc: u16, n: usize) -> (r: u16)
    ensures
        r == next_pc(pc, n as nat),
{
    proof {
        vstd::arithmetic::div_mod::lemma_add_mod_noop(pc as int, n as int, 65536);
    }
    ((pc as u64 + (n % 65536) as u64) % 65536) as u16
}

/// Whether `label` is local: it starts with `.`.
fn is_local(label: &str) -> (r: bool)
    ensures
        r == is_local_label(label@),
{
    label.unicode_len() > 0 && label.get_char(0) == '.'
}

/// The code of the lines depends on their labels, statements and addresses alone.
proof fn lemma_lines_code_fields(a: Seq<Line>, b: Seq<Line>, labels: Map<Seq<char>, Address>)
    requires
        a.len() == b.len(),
        forall|k: int|
            0 <= k < a.len() ==> {
                &&& (#[trigger] a[k]).label == b[k].label
                &&& a[k].statements@ == b[k].statements@
                &&& a[k].address == b[k].address
            },
    ensures
        lines_code(a, labels) == lines_code(b, labels),
    decreases a.len(),
{
    if a.len() > 0 {
        lemma_lines_code_fields(a.drop_last(), b.drop_last(), labels);
        assert(a.last().label == b.last().label);
    }
}

/// Whether the sizes agree depends on the lines' statements and addresses alone.
proof fn lemma_sizes_fields(a: Seq<Line>, b: Seq<Line>)
    requires
        a.len() == b.len(),
        forall|k: int|
            0 <= k < a.len() ==> {
                &&& (#[trigger] a[k]).statements@ == b[k].statements@
                &&& a[k].address == b[k].address
            },
    ensures
        forall|c: Seq<Seq<u8>>| sizes_agree(a, c) == sizes_agree(b, c),
{
    assert forall|k: int| 0 <= k < a.len() implies has_origin(a[k]) == has_origin(b[k]) by {
        assert(a[k].statements@ == b[k].statements@);
    }
}

proof fn lemma_statements_fault(
    sts: Seq<Statement>,
    k: int,
    label: Option<String>,
    s: (Map<Seq<char>, Address>, usize, bool),
)
    requires
        0 <= k < sts.len(),
        statements_pass1(sts.subrange(0, k), label, s) is Some,
        statement_pass1(sts[k], label, statements_pass1(sts.subrange(0, k), label, s)->Some_0)
            is None,
    ensures
        statements_fault(sts, label, s) == statement_fault(
            sts[k],
            statements_pass1(sts.subrange(0, k), label, s)->Some_0,
        ),
    decreases sts.len(),
{
    if sts.len() == k + 1 {
        assert(sts.drop_last() =~= sts.subrange(0, k));
    } else {
        let d = sts.drop_last();
        assert(d.subrange(0, k) =~= sts.subrange(0, k));
        assert(d.subrange(0, k + 1).drop_last() =~= sts.subrange(0, k));
        assert(d[k] == sts[k]);
        lemma_statements_pass1_prefix(d, k + 1, label, s);
        lemma_statements_fault(d, k, label, s);
    }
}

proof fn lemma_lines_fault(lines: Seq<Line>, k: int, s: PassState)
    requires
        0 <= k < lines.len(),
        lines_pass1(lines.subrange(0, k), s) is Some,
        line_pass1(lines[k], lines_pass1(lines.subrange(0, k), s)->Some_0) is None,
    ensures
        lines_fault(lines, s) == line_fault(lines[k], lines_pass1(lines.subrange(0, k), s)->Some_0),
    decreases lines.len(),
{
    if lines.len() == k + 1 {
        assert(lines.drop_last() =~= lines.subrange(0, k));
    } else {
        let d = lines.drop_last();
        assert(d.subrange(0, k) =~= lines.subrange(0, k));
        assert(d.subrange(0, k + 1).drop_last() =~= lines.subrange(0, k));
        assert(d[k] == lines[k]);
        lemma_lines_pass1_prefix(d, k + 1, s);
        lemma_lines_fault(d, k, s);
    }
}

proof fn lemma_statements_pass1_prefix(
    sts: Seq<Statement>,
    k: int,
    label: Option<String>,
    s: (Map<Seq<char>, Address>, usize, bool),
)
    requires
        0 <= k <= sts.len(),
        statements_pass1(sts.subrange(0, k), label, s) is None,
    ensures
        statements_pass1(sts, label, s) is None,
    decreases sts.len() - k,
{
    if k < sts.len() {
        assert(sts.subrange(0, k + 1).drop_last() =~= sts.subrange(0, k));
        lemma_statements_pass1_prefix(sts, k + 1, label, s);
    } else {
        assert(sts.subrange(0, k) =~= sts);
    }
}

proof fn lemma_lines_pass1_prefix(lines: Seq<Line>, k: int, s: PassState)
    requires
        0 <= k <= lines.len(),
        lines_pass1(lines.subrange(0, k), s) is None,
    ensures
        lines_pass1(lines, s) is None,
    decreases lines.len() - k,
{
    if k < lines.len() {
        assert(lines.subrange(0, k + 1).drop_last() =~= lines.subrange(0, k));
        lemma_lines_pass1_prefix(lines, k + 1, s);
    } else {
        assert(lines.subrange(0, k) =~= lines);
    }
}

proof fn lemma_statements_code_prefix(
    sts: Seq<Statement>,
    k: int,
    labels: Map<Seq<char>, Address>,
    current: Seq<char>,
    pc: u16,
)
    requires
        0 <= k <= sts.len(),
        statements_code(sts.subrange(0, k), labels, current, pc) is None,
    ensures
        statements_code(sts, labels, current, pc) is None,
    decreases sts.len() - k,
{
    if k < sts.len() {
        assert(sts.subrange(0, k + 1).drop_last() =~= sts.subrange(0, k));
        lemma_statements_code_prefix(sts, k + 1, labels, current, pc);
    } else {
        assert(sts.subrange(0, k) =~= sts);
    }
}

proof fn lemma_lines_code_prefix(lines: Seq<Line>, k: int, labels: Map<Seq<char>, Address>)
    requires
        0 <= k <= lines.len(),
        lines_code(lines.subrange(0, k), labels) is None,
    ensures
        lines_code(lines, labels) is None,
    decreases lines.len() - k,
{
    if k < lines.len() {
        assert(lines.subrange(0, k + 1).drop_last() =~= lines.subrange(0, k));
        lemma_lines_code_prefix(lines, k + 1, labels);
    } else {
        assert(lines.subrange(0, k) =~= lines);
    }
}

} // verus!
