//! The flattening writer: a page goes in, the lines of its rows come out.
//!
//! The sink is the content of the output file, held in memory.  The first
//! page of a run starts the file afresh with the header line; every later
//! page is appended to what is there.

use vstd::prelude::*;

use crate::catalog::{ProductView, ProductsResponse};
use crate::csv_record::{record_is_written, record_line, texts, write_record};
use crate::errors::WriteError;
use crate::rows::{flatten_page, page_rows, rows_view, FlatRow, FlatRowView};

verus! {

/// The names of the twelve columns, in the order of the cells of a row.
pub open spec fn header_names() -> Seq<Seq<char>> {
    seq![
        "product_handle"@,
        "product_title"@,
        "vendor"@,
        "product_type"@,
        "variant_id"@,
        "variant_title"@,
        "variant_price"@,
        "variant_sku"@,
        "variant_barcode"@,
        "variant_grams"@,
        "image_position"@,
        "image_src"@,
    ]
}

/// The cells of a row, in the order of the columns.
pub open spec fn row_cells(row: FlatRowView) -> Seq<Seq<char>> {
    seq![
        row.product_handle,
        row.product_title,
        row.vendor,
        row.product_type,
        row.variant_id,
        row.variant_title,
        row.variant_price,
        row.variant_sku,
        row.variant_barcode,
        row.variant_grams,
        row.image_position,
        row.image_src,
    ]
}

/// The header line of the table.
pub open spec fn header_line() -> Seq<u8> {
    record_line(header_names())
}

/// The line of one row.
pub open spec fn row_line(row: FlatRowView) -> Seq<u8> {
    record_line(row_cells(row))
}

/// The lines of a sequence of rows, one after the other.
pub open spec fn row_lines(rows: Seq<FlatRowView>) -> Seq<u8> {
    rows.map_values(|row: FlatRowView| row_line(row)).flatten()
}

/// The lines of the rows of a page.
pub open spec fn page_lines(products: Seq<ProductView>) -> Seq<u8> {
    row_lines(page_rows(products))
}

/// Whether every one of the rows can be encoded as a record.
pub open spec fn rows_are_written(rows: Seq<FlatRowView>) -> bool {
    forall|i: int| 0 <= i < rows.len() ==> record_is_written(row_cells(#[trigger] rows[i]))
}

/// Whether a page can be written: every record that it takes can be
/// encoded.  These are the header, where it is asked for, and the rows of
/// the page.  A later page without rows takes no record and can always be
/// written.
pub open spec fn page_is_written(products: Seq<ProductView>, is_first_page: bool) -> bool {
    &&& is_first_page ==> record_is_written(header_names())
    &&& rows_are_written(page_rows(products))
}

/// What the sink holds after a page has been written to it: for the first
/// page the header line and the page's lines, replacing whatever was there;
/// for a later page what was there, followed by the page's lines.
pub open spec fn sink_after_page(
    before: Seq<u8>,
    products: Seq<ProductView>,
    is_first_page: bool,
) -> Seq<u8> {
    if is_first_page {
        header_line() + page_lines(products)
    } else {
        before + page_lines(products)
    }
}

/// A later page without rows is always written, and leaves the sink as it
/// is: no record has to be encoded for it.
pub proof fn lemma_page_without_rows_is_written(products: Seq<ProductView>, before: Seq<u8>)
    requires
        page_rows(products).len() == 0,
    ensures
        page_is_written(products, false),
        sink_after_page(before, products, false) == before,
{
    assert(page_rows(products).map_values(|row: FlatRowView| row_line(row)) =~= Seq::empty());
    assert(sink_after_page(before, products, false) =~= before);
}

/// The column names as cells of a record.
pub fn header_cells() -> (cells: Vec<String>)
    ensures
        texts(cells@) == header_names(),
{
    let mut cells: Vec<String> = Vec::new();
    cells.push(String::from_str("product_handle"));
    cells.push(String::from_str("product_title"));
    cells.push(String::from_str("vendor"));
    cells.push(String::from_str("product_type"));
    cells.push(String::from_str("variant_id"));
    cells.push(String::from_str("variant_title"));
    cells.push(String::from_str("variant_price"));
    cells.push(String::from_str("variant_sku"));
    cells.push(String::from_str("variant_barcode"));
    cells.push(String::from_str("variant_grams"));
    cells.push(String::from_str("image_position"));
    cells.push(String::from_str("image_src"));
    cells
}

impl FlatRow {
    /// The cells of the row, in the order of the columns.
    pub fn cells(&self) -> (cells: Vec<String>)
        ensures
            texts(cells@) == row_cells(self@),
    {
        let mut cells: Vec<String> = Vec::new();
        cells.push(self.product_handle.clone());
        cells.push(self.product_title.clone());
        cells.push(self.vendor.clone());
        cells.push(self.product_type.clone());
        cells.push(self.variant_id.clone());
        cells.push(self.variant_title.clone());
        cells.push(self.variant_price.clone());
        cells.push(self.variant_sku.clone());
        cells.push(self.variant_barcode.clone());
        cells.push(self.variant_grams.clone());
        cells.push(self.image_position.clone());
        cells.push(self.image_src.clone());
        cells
    }
}

/// Takes the outcome of encoding one record and, where it succeeded, puts
/// the line at the end of `out`.  Where it failed, `out` stays as it is and
/// the failure is handed on.
pub fn append_line(out: &mut Vec<u8>, encoded: Result<Vec<u8>, csv::Error>) -> (result: Result<
    (),
    WriteError,
>)
    ensures
        encoded is Ok <==> result is Ok,
        encoded matches Ok(line) ==> final(out)@ == old(out)@ + line@,
        encoded is Err ==> final(out)@ == old(out)@,
{
    match encoded {
        Ok(line) => {
            let mut line = line;
            out.append(&mut line);
            Ok(())
        },
        Err(e) => Err(WriteError { cause: e.to_string() }),
    }
}

/// Writes one page to the sink.
///
/// With `write_headers` set the sink is started afresh and the header line
/// goes in front of the page's rows; without it the rows are appended to
/// what the sink holds.  The page is written exactly when each of its
/// records can be encoded; when one cannot, the sink is left untouched.
pub fn extract_product_data(
    products_response: &ProductsResponse,
    sink: &mut Vec<u8>,
    write_headers: bool,
) -> (result: Result<(), WriteError>)
    ensures
        result is Ok <==> page_is_written(products_response@, write_headers),
        result is Ok ==> final(sink)@ == sink_after_page(
            old(sink)@,
            products_response@,
            write_headers,
        ),
        result is Err ==> final(sink)@ == old(sink)@,
{
    let mut out: Vec<u8> = Vec::new();
    if write_headers {
        let cells = header_cells();
        let appended = append_line(&mut out, write_record(&cells));
        if let Err(e) = appended {
            return Err(e);
        }
    }
    let rows = flatten_page(products_response);
    let ghost head = out@;
    let mut k: usize = 0;
    while k < rows.len()
        invariant
            k <= rows.len(),
            rows_view(rows@) == page_rows(products_response@),
            rows_are_written(rows_view(rows@).take(k as int)),
            out@ == head + row_lines(rows_view(rows@).take(k as int)),
        decreases rows.len() - k,
    {
        let cells = rows[k].cells();
        let appended = append_line(&mut out, write_record(&cells));
        if let Err(e) = appended {
            assert(!record_is_written(row_cells(rows_view(rows@)[k as int])));
            return Err(e);
        }
        proof {
            let done = rows_view(rows@).take(k as int);
            let row = rows_view(rows@)[k as int];
            assert(rows_view(rows@).take(k + 1) =~= done.push(row));
            assert(done.push(row).map_values(|r: FlatRowView| row_line(r)) =~= done.map_values(
                |r: FlatRowView| row_line(r),
            ).push(row_line(row)));
            done.map_values(|r: FlatRowView| row_line(r)).lemma_flatten_push(row_line(row));
        }
        k = k + 1;
    }
    assert(rows_view(rows@).take(k as int) =~= rows_view(rows@));
    if write_headers {
        sink.clear();
    }
    sink.append(&mut out);
    Ok(())
}

} // verus!
