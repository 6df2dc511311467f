//! The pseudo-commands: origin (`*`), label address (`:`), data (`?`) and fill (`$`).
use crate::error::AssemblyError;
use crate::expression::{address_of, comma_items, value_of, Expr, Operator};
use crate::labels::{Address, LabelTable};
use crate::statement::{agrees_bytes, command_text, word_bytes, Line, Statement};
use vstd::prelude::*;

verus! {

/// The highest program counter a program may reach.
pub const ADDRESS_LIMIT: usize = 0x10000;

/// The byte that stands for a character of a string literal: its code modulo 256.
pub open spec fn char_byte(c: char) -> u8 {
    ((c as u32) % 256) as u8
}

/// The number of bytes a data item occupies.
pub open spec fn item_size(e: Expr) -> Option<nat> {
    match e {
        Expr::ByteNum(_) => Some(1),
        Expr::WordNum(_) => Some(2),
        Expr::DecimalNum(_) => Some(1),
        Expr::StringLiteral(s) => Some(s@.len()),
        Expr::Identifier(_) => Some(2),
        _ => None,
    }
}

/// The number of bytes a list of data items occupies.
pub open spec fn data_size(items: Seq<Expr>) -> Option<nat>
    decreases items.len(),
{
    if items.len() == 0 {
        Some(0)
    } else {
        match (data_size(items.drop_last()), item_size(items.last())) {
            (Some(a), Some(b)) => Some(a + b),
            _ => None,
        }
    }
}

/// The bytes of a data item: a number, the characters of a string, or a label's full address.
pub open spec fn item_bytes(e: Expr, labels: Map<Seq<char>, Address>) -> Option<Seq<u8>> {
    match e {
        Expr::DecimalNum(n) => Some(seq![(n % 256) as u8]),
        Expr::ByteNum(n) => Some(seq![n]),
        Expr::WordNum(n) => Some(word_bytes(n)),
        Expr::StringLiteral(s) => Some(s@.map_values(|c: char| char_byte(c))),
        Expr::Identifier(name) => if labels.contains_key(name@) {
            match labels[name@] {
                Address::Full(a) => Some(word_bytes(a)),
                _ => None,
            }
        } else {
            None
        },
        _ => None,
    }
}

/// The bytes of a list of data items, in order.
pub open spec fn data_bytes(items: Seq<Expr>, labels: Map<Seq<char>, Address>) -> Option<
    Seq<u8>,
>
    decreases items.len(),
{
    if items.len() == 0 {
        Some(seq![])
    } else {
        match (data_bytes(items.drop_last(), labels), item_bytes(items.last(), labels)) {
            (Some(a), Some(b)) => Some(a + b),
            _ => None,
        }
    }
}

/// `value,count`: the repeat count and the fill value of a fill command.
pub open spec fn fill_parts(e: Expr, labels: Map<Seq<char>, Address>, pc: u16) -> Option<
    (Expr, u16),
> {
    match e {
        Expr::BinOp(l, Operator::Comma, r) => match value_of(*r, labels, pc) {
            Some(n) => Some((*l, n)),
            None => None,
        },
        _ => None,
    }
}

/// The number of bytes a fill command emits: the count, twice over for a word.
pub open spec fn fill_size(e: Expr, labels: Map<Seq<char>, Address>, pc: u16) -> Option<nat> {
    match fill_parts(e, labels, pc) {
        Some((Expr::ByteNum(_), n)) => Some(n as nat),
        Some((Expr::WordNum(_), n)) => Some((2 * n) as nat),
        _ => None,
    }
}

/// The byte at position `i` of a run of copies of the word `v`, low byte first.
pub open spec fn word_fill_byte(v: u16, i: int) -> u8 {
    if i % 2 == 0 {
        (v % 256) as u8
    } else {
        (v / 256) as u8
    }
}

/// The bytes a fill command emits: `count` copies of a byte, or of a word low byte first.
pub open spec fn fill_bytes(e: Expr, labels: Map<Seq<char>, Address>, pc: u16) -> Option<
    Seq<u8>,
> {
    match fill_parts(e, labels, pc) {
        Some((Expr::ByteNum(v), n)) => Some(Seq::new(n as nat, |i: int| v)),
        Some((Expr::WordNum(v), n)) => Some(Seq::new(2 * n as nat, |i: int| word_fill_byte(v, i))),
        _ => None,
    }
}

/// The program counter after `size` more bytes, where it stays within the address space.
pub open spec fn advance(pc: usize, size: Option<nat>) -> Option<usize> {
    match size {
        Some(n) => if pc + n <= ADDRESS_LIMIT {
            Some((pc + n) as usize)
        } else {
            None
        },
        None => None,
    }
}

/// What the first pass makes of a pseudo-command: the labels, the program counter and
/// whether the origin is set, afterwards.
pub open spec fn pass1_spec(
    line_label: Option<String>,
    statement: Statement,
    labels: Map<Seq<char>, Address>,
    pc: usize,
    is_address_set: bool,
) -> Option<(Map<Seq<char>, Address>, usize, bool)> {
    match command_text(statement.command) {
        None => None,
        Some(c) => if c == "*"@ {
            match statement.expression {
                Expr::WordNum(a) => Some((labels, a as usize, true)),
                _ => None,
            }
        } else if c == ":"@ {
            match (address_of(statement.expression, labels), line_label) {
                (Some(a), Some(name)) => if labels.contains_key(name@) {
                    Some(
                        (
                            labels.insert(name@, a),
                            pc,
                            is_address_set,
                        ),
                    )
                } else {
                    None
                },
                _ => None,
            }
        } else if c == "?"@ {
            match advance(pc, data_size(comma_items(statement.expression))) {
                Some(p) => Some((labels, p, is_address_set)),
                None => None,
            }
        } else if c == "$"@ {
            match advance(pc, fill_size(statement.expression, labels, pc as u16)) {
                Some(p) => Some((labels, p, is_address_set)),
                None => None,
            }
        } else {
            Some((labels, pc, is_address_set))
        },
    }
}

/// What the second pass emits for a pseudo-command at `pc`.
pub open spec fn pass2_spec(statement: Statement, labels: Map<Seq<char>, Address>, pc: u16) -> Option<
    Seq<u8>,
> {
    match command_text(statement.command) {
        None => None,
        Some(c) => if c == "?"@ {
            data_bytes(comma_items(statement.expression), labels)
        } else if c == "$"@ {
            fill_bytes(statement.expression, labels, pc)
        } else {
            Some(seq![])
        },
    }
}

fn text_is(s: &String, lit: &str) -> (r: bool)
    ensures
        r == (s@ == lit@),
{
    crate::text::same_text(s.as_str(), lit)
}

/// Runs a pseudo-command in the first pass: sets the origin, fixes a label's address, or
/// advances the program counter past data.
pub fn pass1(
    line: &Line,
    statement: &Statement,
    labels: &mut LabelTable,
    pc: &mut usize,
    is_address_set: &mut bool,
) -> (r: Result<(), AssemblyError>)
    ensures
        r is Ok <==> pass1_spec(line.label, *statement, old(labels)@, *old(pc), *old(is_address_set))
            is Some,
        r is Ok ==> pass1_spec(line.label, *statement, old(labels)@, *old(pc), *old(is_address_set))
            == Some((final(labels)@, *final(pc), *final(is_address_set))),
{
    let command = statement.command()?;
    if text_is(&command, "*") {
        let address = pass1_command_start_address(statement)?;
        *pc = address as usize;
        *is_address_set = true;
        Ok(())
    } else if text_is(&command, ":") {
        pass1_command_label_def(line, statement, labels)
    } else if text_is(&command, "?") {
        let bytes = pass1_command_data_def(statement)?;
        advance_pc(pc, bytes)
    } else if text_is(&command, "$") {
        let pc_u16 = *pc as u16;
        let bytes = pass1_command_data_fill(statement, labels, &pc_u16)?;
        advance_pc(pc, bytes)
    } else {
        Ok(())
    }
}

fn advance_pc(pc: &mut usize, bytes: usize) -> (r: Result<(), AssemblyError>)
    ensures
        r is Ok <==> advance(*old(pc), Some(bytes as nat)) is Some,
        r is Ok ==> Some(*final(pc)) == advance(*old(pc), Some(bytes as nat)),
        r is Err ==> r->Err_0 is Program,
{
    if bytes > ADDRESS_LIMIT || *pc > ADDRESS_LIMIT - bytes {
        Err(AssemblyError::program("address overflow"))
    } else {
        *pc = *pc + bytes;
        Ok(())
    }
}

// `label :=$addr` fixes the address of the line's label
fn pass1_command_label_def(line: &Line, statement: &Statement, labels: &mut LabelTable) -> (r:
    Result<(), AssemblyError>)
    ensures
        ({
            let s = match (address_of(statement.expression, old(labels)@), line.label) {
                (Some(a), Some(name)) => if old(labels)@.contains_key(name@) {
                    Some(old(labels)@.insert(name@, a))
                } else {
                    None
                },
                _ => None,
            };
            &&& r is Ok <==> s is Some
            &&& r is Ok ==> s == Some(final(labels)@)
        }),
{
    let address = statement.expression.calculate_address(labels)?;
    let label_name = match &line.label {
        Some(name) => name,
        None => {
            return Err(AssemblyError::program("label def need label"));
        },
    };
    if labels.set_address(label_name.as_str(), address) {
        Ok(())
    } else {
        Err(AssemblyError::program("label not found"))
    }
}

fn item_size_of(value: &Expr) -> (r: Result<usize, AssemblyError>)
    ensures
        r is Ok <==> item_size(*value) is Some,
        r matches Ok(n) ==> item_size(*value) == Some(n as nat),
{
    match value {
        Expr::ByteNum(_) => Ok(1),
        Expr::WordNum(_) => Ok(2),
        Expr::DecimalNum(_) => Ok(1),
        Expr::StringLiteral(s) => Ok(s.as_str().unicode_len()),
        Expr::Identifier(_) => Ok(2),
        _ => Err(AssemblyError::program("invalid data command")),
    }
}

// `?=1,$02,$0304,"text",label`: the size of the data
fn pass1_command_data_def(statement: &Statement) -> (r: Result<usize, AssemblyError>)
    ensures
        match r {
            Ok(n) => data_size(comma_items(statement.expression)) == Some(n as nat),
            Err(_) => data_size(comma_items(statement.expression)) is None
                || data_size(comma_items(statement.expression))->Some_0 > ADDRESS_LIMIT,
        },
{
    let values = statement.expression.traverse_comma();
    let mut size: usize = 0;
    let mut i: usize = 0;
    while i < values.len()
        invariant
            i <= values@.len(),
            values@ == comma_items(statement.expression),
            data_size(values@.subrange(0, i as int)) == Some(size as nat),
            size <= ADDRESS_LIMIT,
        decreases values.len() - i,
    {
        assert(values@.subrange(0, i + 1).drop_last() =~= values@.subrange(0, i as int));
        let n = match item_size_of(&values[i]) {
            Ok(n) => n,
            Err(e) => {
                proof {
                    lemma_data_size_prefix(values@, i as int + 1);
                }
                return Err(e);
            },
        };
        if n > ADDRESS_LIMIT || size > ADDRESS_LIMIT - n {
            proof {
                lemma_data_size_grows(values@, i as int + 1);
            }
            return Err(AssemblyError::program("address overflow"));
        }
        size = size + n;
        i += 1;
    }
    assert(values@.subrange(0, i as int) =~= values@);
    Ok(size)
}

/// Where a prefix has no size, neither has the whole list.
proof fn lemma_data_size_prefix(items: Seq<Expr>, k: int)
    requires
        0 <= k <= items.len(),
        data_size(items.subrange(0, k)) is None,
    ensures
        data_size(items) is None,
    decreases items.len() - k,
{
    if k < items.len() {
        assert(items.subrange(0, k + 1).drop_last() =~= items.subrange(0, k));
        lemma_data_size_prefix(items, k + 1);
    } else {
        assert(items.subrange(0, k) =~= items);
    }
}

/// The size of a list is at least the size of each of its prefixes.
proof fn lemma_data_size_grows(items: Seq<Expr>, k: int)
    requires
        0 <= k <= items.len(),
        data_size(items.subrange(0, k)) is Some,
    ensures
        data_size(items) is Some ==> data_size(items)->Some_0 >= data_size(
            items.subrange(0, k),
        )->Some_0,
    decreases items.len() - k,
{
    if k < items.len() {
        assert(items.subrange(0, k + 1).drop_last() =~= items.subrange(0, k));
        if data_size(items.subrange(0, k + 1)) is Some {
            lemma_data_size_grows(items, k + 1);
        } else {
            lemma_data_size_prefix(items, k + 1);
        }
    } else {
        assert(items.subrange(0, k) =~= items);
    }
}

// `$=$FF,12` fills 12 bytes with $FF; `$=$1234,12` fills 12 words
fn pass1_command_data_fill(statement: &Statement, labels: &LabelTable, current_address: &u16) -> (r:
    Result<usize, AssemblyError>)
    ensures
        r is Ok <==> fill_size(statement.expression, labels@, *current_address) is Some,
        r matches Ok(n) ==> fill_size(statement.expression, labels@, *current_address) == Some(
            n as nat,
        ),
{
    if let Expr::BinOp(left, Operator::Comma, right) = &statement.expression {
        let fill_count = right.evaluate(labels, current_address)?;
        if let Expr::ByteNum(_) = &**left {
            return Ok(fill_count as usize);
        }
        if let Expr::WordNum(_) = &**left {
            return Ok(fill_count as usize * 2);
        }
    }
    Err(AssemblyError::program("invalid fill command"))
}

fn pass1_command_start_address(statement: &Statement) -> (r: Result<u16, AssemblyError>)
    ensures
        match statement.expression {
            Expr::WordNum(a) => r == Ok::<u16, AssemblyError>(a),
            _ => r is Err,
        },
{
    if let Expr::WordNum(address) = statement.expression {
        return Ok(address);
    }
    Err(AssemblyError::program("invalid start address"))
}

/// Emits the bytes of a pseudo-command at `current_address` in the second pass: data and
/// fills; the other pseudo-commands emit nothing.
pub fn pass2(statement: &Statement, labels: &LabelTable, current_address: &u16) -> (r: Result<
    Vec<u8>,
    AssemblyError,
>)
    ensures
        agrees_bytes(r, pass2_spec(*statement, labels@, *current_address)),
        command_text(statement.command) == Some("?"@) ==> (r matches Err(e) ==> e is Program),
{
    let command = statement.command()?;
    let expression = &statement.expression;
    if text_is(&command, "?") {
        pass2_command_data_def(expression, labels)
    } else if text_is(&command, "$") {
        pass2_command_data_fill(statement, labels, current_address)
    } else {
        let v = Vec::new();
        assert(v@ =~= seq![]);
        Ok(v)
    }
}

fn push_word(objects: &mut Vec<u8>, value: u16)
    ensures
        final(objects)@ == old(objects)@ + word_bytes(value),
{
    objects.push((value % 256) as u8);
    objects.push((value / 256) as u8);
    assert(final(objects)@ =~= old(objects)@ + word_bytes(value));
}

fn push_item(objects: &mut Vec<u8>, value: &Expr, labels: &LabelTable) -> (r: Result<(), AssemblyError>)
    ensures
        r is Ok <==> item_bytes(*value, labels@) is Some,
        r is Ok ==> final(objects)@ == old(objects)@ + item_bytes(*value, labels@)->Some_0,
        r matches Err(e) ==> e is Program,
{
    match value {
        Expr::DecimalNum(num) => {
            objects.push((*num % 256) as u8);
            assert(final(objects)@ =~= old(objects)@ + seq![(*num % 256) as u8]);
        },
        Expr::ByteNum(num) => {
            objects.push(*num);
            assert(final(objects)@ =~= old(objects)@ + seq![*num]);
        },
        Expr::WordNum(num) => {
            push_word(objects, *num);
        },
        Expr::StringLiteral(s) => {
            let text = s.as_str();
            let n = text.unicode_len();
            let mut i: usize = 0;
            while i < n
                invariant
                    n == s@.len(),
                    text@ == s@,
                    i <= n,
                    objects@ == old(objects)@ + s@.subrange(0, i as int).map_values(
                        |c: char| char_byte(c),
                    ),
                decreases n - i,
            {
                let c = text.get_char(i);
                objects.push(((c as u32) % 256) as u8);
                i += 1;
                assert(objects@ =~= old(objects)@ + s@.subrange(0, i as int).map_values(
                    |c: char| char_byte(c),
                ));
            }
            assert(s@.subrange(0, n as int) =~= s@);
        },
        Expr::Identifier(name) => {
            match labels.get(name.as_str()) {
                Some(entry) => match entry.address {
                    Address::Full(address) => {
                        push_word(objects, address);
                    },
                    _ => {
                        return Err(AssemblyError::program("invalid data command"));
                    },
                },
                None => {
                    return Err(AssemblyError::program("label not found"));
                },
            }
        },
        _ => {
            return Err(AssemblyError::program("invalid data command"));
        },
    }
    Ok(())
}

/// The bytes of a data list are as many as the first pass counts for it.
pub proof fn lemma_data_bytes_size(items: Seq<Expr>, labels: Map<Seq<char>, Address>)
    requires
        data_bytes(items, labels) is Some,
    ensures
        data_size(items) == Some(data_bytes(items, labels)->Some_0.len()),
    decreases items.len(),
{
    if items.len() > 0 {
        lemma_data_bytes_size(items.drop_last(), labels);
    }
}

/// Where a prefix has no bytes, neither has the whole list.
proof fn lemma_data_bytes_prefix(items: Seq<Expr>, labels: Map<Seq<char>, Address>, k: int)
    requires
        0 <= k <= items.len(),
        data_bytes(items.subrange(0, k), labels) is None,
    ensures
        data_bytes(items, labels) is None,
    decreases items.len() - k,
{
    if k < items.len() {
        assert(items.subrange(0, k + 1).drop_last() =~= items.subrange(0, k));
        lemma_data_bytes_prefix(items, labels, k + 1);
    } else {
        assert(items.subrange(0, k) =~= items);
    }
}

fn pass2_command_data_def(expression: &Expr, labels: &LabelTable) -> (r: Result<Vec<u8>, AssemblyError>)
    ensures
        agrees_bytes(r, data_bytes(comma_items(*expression), labels@)),
        r matches Err(e) ==> e is Program,
{
    let mut objects = Vec::new();
    let values = expression.traverse_comma();
    let mut i: usize = 0;
    while i < values.len()
        invariant
            i <= values@.len(),
            values@ == comma_items(*expression),
            data_bytes(values@.subrange(0, i as int), labels@) == Some(objects@),
        decreases values.len() - i,
    {
        assert(values@.subrange(0, i + 1).drop_last() =~= values@.subrange(0, i as int));
        let pushed = push_item(&mut objects, &values[i], labels);
        if pushed.is_err() {
            proof {
                lemma_data_bytes_prefix(values@, labels@, i as int + 1);
            }
            let e = pushed.unwrap_err();
            return Err(e);
        }
        i += 1;
    }
    assert(values@.subrange(0, i as int) =~= values@);
    Ok(objects)
}

fn pass2_command_data_fill(statement: &Statement, labels: &LabelTable, current_address: &u16) -> (r:
    Result<Vec<u8>, AssemblyError>)
    ensures
        agrees_bytes(r, fill_bytes(statement.expression, labels@, *current_address)),
{
    let mut objects = Vec::new();
    if let Expr::BinOp(left, Operator::Comma, right) = &statement.expression {
        let fill_count = right.evaluate(labels, current_address)?;
        if let Expr::ByteNum(fill_value) = &**left {
            let mut i: u16 = 0;
            while i < fill_count
                invariant
                    i <= fill_count,
                    objects@ == Seq::new(i as nat, |k: int| *fill_value),
                decreases fill_count - i,
            {
                objects.push(*fill_value);
                i += 1;
                assert(objects@ =~= Seq::new(i as nat, |k: int| *fill_value));
            }
            return Ok(objects);
        }
        if let Expr::WordNum(fill_value) = &**left {
            let v = *fill_value;
            let mut i: u16 = 0;
            while i < fill_count
                invariant
                    i <= fill_count,
                    objects@ == Seq::new(2 * i as nat, |k: int| word_fill_byte(v, k)),
                decreases fill_count - i,
            {
                let ghost before = objects@;
                push_word(&mut objects, v);
                proof {
                    let j = 2 * i as int;
                    assert(j % 2 == 0) by (nonlinear_arith)
                        requires
                            j == 2 * i,
                    ;
                    assert((j + 1) % 2 == 1) by (nonlinear_arith)
                        requires
                            j == 2 * i,
                    ;
                    assert forall|k: int| 0 <= k < j + 2 implies objects@[k] == word_fill_byte(v, k) by {
                        if k < j {
                            assert(objects@[k] == before[k]);
                            assert(before[k] == Seq::new(j as nat, |k: int| word_fill_byte(v, k))[k]);
                        } else if k == j {
                            assert(objects@[k] == (v % 256) as u8);
                            assert(word_fill_byte(v, k) == (v % 256) as u8);
                        } else {
                            assert(objects@[k] == (v / 256) as u8);
                            assert(word_fill_byte(v, k) == (v / 256) as u8);
                        }
                    }
                }
                i += 1;
                assert(objects@ =~= Seq::new(2 * i as nat, |k: int| word_fill_byte(v, k)));
            }
            return Ok(objects);
        }
    }
    Err(AssemblyError::program("invalid fill command"))
}

} // verus!
