//! The object code as Intel HEX: data records of 40 bytes, then an end-of-file record.
use crate::error::AssemblyError;
use crate::expression::hex_text;
use crate::text::text_of;
use vstd::prelude::*;

verus! {

#[verifier::external_type_specification]
#[verifier::external_body]
pub struct ExWriterError(ihex::WriterError);

/// The sum of the bytes.
pub open spec fn byte_sum(bytes: Seq<u8>) -> nat
    decreases bytes.len(),
{
    if bytes.len() == 0 {
        0
    } else {
        byte_sum(bytes.drop_last()) + bytes.last() as nat
    }
}

/// Each byte as two uppercase hex digits.
pub open spec fn hex_bytes(bytes: Seq<u8>) -> Seq<char>
    decreases bytes.len(),
{
    if bytes.len() == 0 {
        seq![]
    } else {
        hex_bytes(bytes.drop_last()) + hex_text(bytes.last() as nat, 2)
    }
}

/// One record line: `:`, then length, offset (high byte first), type, data and a checksum
/// that makes all these bytes sum to 0 modulo 256, in hex; then a line feed.
pub open spec fn record_text(offset: u16, record_type: u8, data: Seq<u8>) -> Seq<char> {
    let b = seq![data.len() as u8, (offset / 256) as u8, (offset % 256) as u8, record_type] + data;
    ":"@ + hex_bytes(b.push(((256 - byte_sum(b) % 256) % 256) as u8)) + "\n"@
}

/// The data records (type 0), in order.
pub open spec fn data_records_text(records: Seq<(u16, Seq<u8>)>) -> Seq<char>
    decreases records.len(),
{
    if records.len() == 0 {
        seq![]
    } else {
        data_records_text(records.drop_last()) + record_text(
            records.last().0,
            0,
            records.last().1,
        )
    }
}

/// The Intel HEX text of data records (offset and bytes) followed by an end-of-file record.
pub open spec fn intel_hex_of(records: Seq<(u16, Seq<u8>)>) -> Seq<char> {
    data_records_text(records) + record_text(0, 1, seq![])
}

pub open spec fn records_view(records: Seq<(u16, Vec<u8>)>) -> Seq<(u16, Seq<u8>)> {
    records.map_values(|r: (u16, Vec<u8>)| (r.0, r.1@))
}

/// Relies on `ihex::create_object_file_representation`: given data records and one closing
/// end-of-file record it fails only on a record of more than 255 bytes, and otherwise writes
/// each record as `format_record` does, one per line.
#[verifier::external_body]
fn intel_hex(records: &Vec<(u16, Vec<u8>)>) -> (r: Result<String, ihex::WriterError>)
    ensures
        r is Ok <==> forall|i: int| 0 <= i < records@.len() ==> (#[trigger] records@[i]).1@.len() <= 255,
        r matches Ok(s) ==> s@ == intel_hex_of(records_view(records@)),
{
    let mut list: Vec<ihex::Record> = records
        .iter()
        .map(|(offset, value)| ihex::Record::Data { offset: *offset, value: value.clone() })
        .collect();
    list.push(ihex::Record::EndOfFile);
    ihex::create_object_file_representation(&list)
}

/// The number of bytes in each data record.
pub const CHUNK_SIZE: usize = 40;

/// The data records of `objects` loaded at `start`: consecutive runs of 40 bytes (the last
/// one shorter), each at its offset from `start` within 16 bits.
pub open spec fn ihex_records(objects: Seq<u8>, start: u16) -> Seq<(u16, Seq<u8>)> {
    Seq::new(
        ((objects.len() + 39) / 40) as nat,
        |i: int|
            (
                ((start + 40 * i) % 65536) as u16,
                objects.subrange(
                    40 * i,
                    if 40 * i + 40 <= objects.len() {
                        40 * i + 40
                    } else {
                        objects.len() as int
                    },
                ),
            ),
    )
}

/// The object code loaded at `start_address` in Intel HEX.
pub fn render_ihex(objects: &Vec<u8>, start_address: u16) -> (r: Result<String, AssemblyError>)
    ensures
        r matches Ok(s) && s@ == intel_hex_of(ihex_records(objects@, start_address)),
{
    let mut records: Vec<(u16, Vec<u8>)> = Vec::new();
    let n = objects.len();
    let mut index: usize = 0;
    let mut pos: usize = 0;
    while pos < n
        invariant
            n == objects@.len(),
            pos == if 40 * index <= n {
                40 * index
            } else {
                n as int
            },
            index <= (n + 39) / 40,
            records_view(records@) == ihex_records(objects@, start_address).subrange(
                0,
                index as int,
            ),
            forall|i: int| 0 <= i < records@.len() ==> (#[trigger] records@[i]).1@.len() <= 255,
        decreases n - pos,
    {
        assert(pos == 40 * index);
        let end = if n - pos >= CHUNK_SIZE {
            pos + CHUNK_SIZE
        } else {
            n
        };
        let mut chunk: Vec<u8> = Vec::new();
        let mut j: usize = pos;
        while j < end
            invariant
                pos <= j <= end <= n,
                n == objects@.len(),
                chunk@ == objects@.subrange(pos as int, j as int),
            decreases end - j,
        {
            chunk.push(objects[j]);
            j += 1;
            assert(chunk@ =~= objects@.subrange(pos as int, j as int));
        }
        let offset = ((start_address as usize + (pos % 65536)) % 65536) as u16;
        proof {
            vstd::arithmetic::div_mod::lemma_add_mod_noop(start_address as int, pos as int, 65536);
        }
        let ghost before = records@;
        records.push((offset, chunk));
        index += 1;
        pos = end;
        proof {
            assert(records_view(records@) =~= records_view(before).push((offset, chunk@)));
            assert(records_view(records@) =~= ihex_records(objects@, start_address).subrange(
                0,
                index as int,
            ));
        }
    }
    assert(index == (n + 39) / 40);
    assert(records_view(records@) =~= ihex_records(objects@, start_address));
    match intel_hex(&records) {
        Ok(s) => Ok(s),
        Err(_) => Err(AssemblyError::Io(text_of("cannot write Intel HEX"))),
    }
}

} // verus!
