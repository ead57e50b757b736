//! The spreadsheet as CSV text, written by the `csv` crate into memory.

use crate::report::{record_views, records_of, texts, Report};
use vstd::prelude::*;

verus! {

/// A `csv::Writer` with its default settings over a `Vec<u8>`. The verifier
/// sees nothing inside it: what it holds is told by [`csv_written`] and
/// [`csv_width`]. One is made empty, takes whole records, and is given up as
/// soon as it refuses one, so that none is ever left in the middle of a
/// record.
#[verifier::external_body]
pub struct CsvBuffer {
    writer: csv::Writer<Vec<u8>>,
}

/// `csv::Error`, which a writer hands back for a record that it refuses.
/// Nothing is known of what it holds.
#[verifier::external_type_specification]
#[verifier::external_body]
pub struct ExCsvError(csv::Error);

/// The bytes that have gone into a buffer so far.
pub uninterp spec fn csv_written(buffer: CsvBuffer) -> Seq<u8>;

/// The number of fields of the first record that a buffer took; `None` before
/// that.
pub uninterp spec fn csv_width(buffer: CsvBuffer) -> Option<nat>;

/// The bytes that the `csv` crate writes for one record: its fields, quoted
/// where need be, with commas between them and a line feed behind.
pub uninterp spec fn csv_record(fields: Seq<Seq<char>>) -> Seq<u8>;

/// Calls `csv::Writer::from_writer` on an empty `Vec<u8>`. Trusted: nothing
/// is written yet, and no record has fixed the number of fields.
#[verifier::external_body]
fn new_buffer() -> (r: CsvBuffer)
    ensures
        csv_written(r) == Seq::<u8>::empty(),
        csv_width(r) is None,
{
    CsvBuffer { writer: csv::Writer::from_writer(Vec::new()) }
}

/// Calls `csv::Writer::write_record`. Trusted: the writer refuses a record
/// whose number of fields differs from that of the first record it took, and
/// no other, since a `Vec<u8>` takes every write; a record that it takes adds
/// its bytes behind what is written, and the first one fixes the number of
/// fields. A writer that refused is dropped.
#[verifier::external_body]
fn put_record(buffer: CsvBuffer, record: &Vec<String>) -> (r: Result<CsvBuffer, csv::Error>)
    ensures
        r is Ok <==> (csv_width(buffer) matches Some(n) ==> n == record@.len()),
        r matches Ok(after) ==> csv_written(after) == csv_written(buffer) + csv_record(
            texts(record@),
        ) && csv_width(after) == Some(record@.len()),
{
    let mut buffer = buffer;
    match buffer.writer.write_record(record) {
        Ok(()) => Ok(buffer),
        Err(e) => Err(e),
    }
}

/// Calls `csv::Writer::into_inner`. Trusted: it hands back all the bytes
/// written, and always does: it fails only where the underlying writer fails
/// to flush, and a `Vec<u8>` takes every write.
#[verifier::external_body]
fn into_bytes(buffer: CsvBuffer) -> (r: Option<Vec<u8>>)
    ensures
        r is Some,
        r matches Some(bytes) ==> bytes@ == csv_written(buffer),
{
    buffer.writer.into_inner().ok()
}

/// The bytes of a list of records: those of each record, in order.
pub open spec fn csv_document(records: Seq<Seq<Seq<char>>>) -> Seq<u8>
    decreases records.len(),
{
    if records.len() == 0 {
        Seq::<u8>::empty()
    } else {
        csv_document(records.drop_last()) + csv_record(records.last())
    }
}

/// Whether all records have as many fields as the first.
pub open spec fn equal_widths(records: Seq<Seq<Seq<char>>>) -> bool {
    forall|i: int| 0 <= i < records.len() ==> (#[trigger] records[i]).len() == records[0].len()
}

/// The records as CSV text, or `None` where they differ in their number of
/// fields.
pub fn encode(records: &Vec<Vec<String>>) -> (r: Option<Vec<u8>>)
    ensures
        r is Some <==> equal_widths(record_views(records@)),
        r matches Some(bytes) ==> bytes@ == csv_document(record_views(records@)),
{
    let ghost lines = record_views(records@);
    let mut buffer = new_buffer();
    let mut i: usize = 0;
    while i < records.len()
        invariant
            i <= records@.len(),
            lines == record_views(records@),
            csv_written(buffer) == csv_document(lines.take(i as int)),
            equal_widths(lines.take(i as int)),
            i == 0 ==> csv_width(buffer) is None,
            i > 0 ==> csv_width(buffer) == Some(lines[0].len()),
        decreases records@.len() - i,
    {
        proof {
            assert(lines[i as int] == texts(records@[i as int]@));
            assert(lines.take(i + 1).drop_last() =~= lines.take(i as int));
        }
        match put_record(buffer, &records[i]) {
            Ok(after) => {
                buffer = after;
            },
            Err(_) => {
                return None;
            },
        }
        i += 1;
    }
    assert(lines.take(i as int) =~= lines);
    into_bytes(buffer)
}

impl Report {
    /// The spreadsheet as CSV text: the header, one line per row, a blank
    /// line, and the grand total under the totals.
    pub fn to_csv(&self) -> (r: Vec<u8>)
        ensures
            r@ == csv_document(records_of(self@)),
    {
        let records = self.records();
        match encode(&records) {
            Some(bytes) => bytes,
            None => unreached(),
        }
    }
}

} // verus!
