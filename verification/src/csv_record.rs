//! Records of comma-separated text.
//!
//! A record is a list of cells.  It is written as one line: the cells in
//! order with a comma between neighbours, and a line feed at the end.  A
//! cell that holds a comma, a double quote, a carriage return or a line feed
//! is wrapped in double quotes, and every double quote inside it is written
//! twice.  All other cells are written as they are.

use vstd::prelude::*;
use vstd::utf8::encode_utf8;

verus! {

pub const COMMA: u8 = 0x2C;

pub const QUOTE: u8 = 0x22;

pub const LINE_FEED: u8 = 0x0A;

pub const CARRIAGE_RETURN: u8 = 0x0D;

/// Whether a byte cannot stand in a cell that is written without quotes.
pub open spec fn is_special_byte(byte: u8) -> bool {
    byte == COMMA || byte == QUOTE || byte == CARRIAGE_RETURN || byte == LINE_FEED
}

/// Whether a cell has to be wrapped in quotes: it holds a special byte.
pub open spec fn needs_quotes(cell: Seq<u8>) -> bool {
    exists|i: int| 0 <= i < cell.len() && is_special_byte(#[trigger] cell[i])
}

/// The bytes of a cell with every double quote written twice.
pub open spec fn doubled_quotes(cell: Seq<u8>) -> Seq<u8>
    decreases cell.len(),
{
    if cell.len() == 0 {
        Seq::empty()
    } else if cell.last() == QUOTE {
        doubled_quotes(cell.drop_last()).push(QUOTE).push(QUOTE)
    } else {
        doubled_quotes(cell.drop_last()).push(cell.last())
    }
}

/// One cell as it is written into a record.
pub open spec fn csv_field(cell: Seq<u8>) -> Seq<u8> {
    if needs_quotes(cell) {
        seq![QUOTE] + doubled_quotes(cell) + seq![QUOTE]
    } else {
        cell
    }
}

/// The cells of a record as they are written, with a comma between
/// neighbours.
pub open spec fn csv_fields(cells: Seq<Seq<u8>>) -> Seq<u8>
    decreases cells.len(),
{
    if cells.len() == 0 {
        Seq::empty()
    } else if cells.len() == 1 {
        csv_field(cells[0])
    } else {
        csv_fields(cells.drop_last()) + seq![COMMA] + csv_field(cells.last())
    }
}

/// One record as it is written: its cells, then a line feed.  A record
/// whose cells come to no bytes at all (it has no cell, or one empty cell)
/// is written as a pair of double quotes, so that the line is not blank.
pub open spec fn csv_record(cells: Seq<Seq<u8>>) -> Seq<u8> {
    let body = csv_fields(cells);
    if body.len() == 0 {
        seq![QUOTE, QUOTE, LINE_FEED]
    } else {
        body.push(LINE_FEED)
    }
}

/// The text of each string of a sequence.
pub open spec fn texts(strings: Seq<String>) -> Seq<Seq<char>> {
    strings.map_values(|s: String| s@)
}

/// The bytes of each cell of a record of text, in UTF-8.
pub open spec fn cell_bytes(cells: Seq<Seq<char>>) -> Seq<Seq<u8>> {
    cells.map_values(|cell: Seq<char>| encode_utf8(cell))
}

/// The line that a record of text is written as.
pub open spec fn record_line(cells: Seq<Seq<char>>) -> Seq<u8> {
    csv_record(cell_bytes(cells))
}

#[verifier::external_type_specification]
#[verifier::external_body]
pub struct ExCsvError(csv::Error);

/// Whether `csv::Writer::write_record` and `csv::Writer::into_inner` report
/// no error for a record of these cells, on a writer in its default
/// configuration that starts empty and writes into memory.
pub uninterp spec fn record_is_written(cells: Seq<Seq<char>>) -> bool;

/// Writes one record with `csv::Writer::write_record`, on a writer in its
/// default configuration that writes into memory, and hands out what
/// `csv::Writer::into_inner` returns.
///
/// Trusted: whether the writer reports an error depends on the cells alone
/// and is named [`record_is_written`]; for which cells it does is not
/// claimed.  When the writer reports no error, the bytes are
/// those of [`csv_record`] over the UTF-8 bytes of the cells.  That is the
/// writer's default format: comma as delimiter, line feed as terminator,
/// quotes only where they are necessary, double quotes escaped by doubling.
#[verifier::external_body]
pub(crate) fn write_record(cells: &Vec<String>) -> (out: Result<Vec<u8>, csv::Error>)
    ensures
        out is Ok <==> record_is_written(texts(cells@)),
        out matches Ok(bytes) ==> bytes@ == record_line(texts(cells@)),
{
    let mut writer = csv::Writer::from_writer(Vec::new());
    writer.write_record(cells)?;
    match writer.into_inner() {
        Ok(bytes) => Ok(bytes),
        Err(e) => Err(csv::Error::from(e.into_error())),
    }
}

/// An empty cell is written as nothing at all.
pub proof fn lemma_empty_cell_is_written_empty()
    ensures
        csv_field(encode_utf8(Seq::<char>::empty())) == Seq::<u8>::empty(),
{
}

} // verus!
