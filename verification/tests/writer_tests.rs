use catalog_export::catalog::{Images, Product, ProductsResponse, Variant};
use catalog_export::writer::extract_product_data;

const HEADER: &str = "product_handle,product_title,vendor,product_type,variant_id,variant_title,variant_price,variant_sku,variant_barcode,variant_grams,image_position,image_src\n";

fn variant(id: u64, title: &str, grams: Option<u32>) -> Variant {
    Variant {
        id,
        title: title.to_string(),
        price: "9.50".to_string(),
        sku: format!("SKU-{}", id),
        barcode: None,
        grams,
    }
}

fn image(position: u32, src: &str) -> Images {
    Images { position, src: src.to_string() }
}

fn product(handle: &str, variants: Vec<Variant>, images: Vec<Images>) -> Product {
    Product {
        handle: handle.to_string(),
        title: format!("The {}", handle),
        vendor: "Acme".to_string(),
        product_type: "Tools".to_string(),
        variants,
        images,
    }
}

#[test]
fn first_page_starts_with_header() {
    let page = ProductsResponse {
        products: vec![product("saw", vec![variant(7, "Small", Some(120))], vec![image(1, "https://cdn/saw.png")])],
    };
    let mut sink = b"stale content".to_vec();
    extract_product_data(&page, &mut sink, true).unwrap();
    let expected = format!("{}saw,The saw,Acme,Tools,7,Small,9.50,SKU-7,,120,1,https://cdn/saw.png\n", HEADER);
    assert_eq!(String::from_utf8(sink).unwrap(), expected);
}

#[test]
fn later_page_is_appended_without_header() {
    let page = ProductsResponse {
        products: vec![product("axe", vec![variant(8, "Large", None)], vec![])],
    };
    let mut sink = b"kept\n".to_vec();
    extract_product_data(&page, &mut sink, false).unwrap();
    assert_eq!(String::from_utf8(sink).unwrap(), "kept\naxe,The axe,Acme,Tools,8,Large,9.50,SKU-8,,,,\n");
}

#[test]
fn cells_with_special_characters_are_quoted() {
    let mut p = product("pen", vec![variant(1, "Red, fine", None)], vec![image(2, "a\"b")]);
    p.title = "Line one\nLine two".to_string();
    p.vendor = "back\\slash".to_string();
    p.product_type = "carriage\rreturn".to_string();
    let page = ProductsResponse { products: vec![p] };
    let mut sink = Vec::new();
    extract_product_data(&page, &mut sink, false).unwrap();
    assert_eq!(
        String::from_utf8(sink).unwrap(),
        "pen,\"Line one\nLine two\",back\\slash,\"carriage\rreturn\",1,\"Red, fine\",9.50,SKU-1,,,2,\"a\"\"b\"\n"
    );
}

#[test]
fn header_alone_for_an_empty_first_page() {
    let mut sink = Vec::new();
    extract_product_data(&ProductsResponse { products: vec![] }, &mut sink, true).unwrap();
    assert_eq!(String::from_utf8(sink).unwrap(), HEADER);
}

#[test]
fn empty_later_page_changes_nothing() {
    let mut sink = b"as it was\n".to_vec();
    extract_product_data(&ProductsResponse { products: vec![] }, &mut sink, false).unwrap();
    assert_eq!(sink, b"as it was\n".to_vec());
}

#[test]
fn three_variants_one_image_give_three_lines() {
    let page = ProductsResponse {
        products: vec![product(
            "saw",
            vec![variant(1, "S", Some(10)), variant(2, "M", Some(20)), variant(3, "L", Some(30))],
            vec![image(1, "saw.png")],
        )],
    };
    let mut sink = Vec::new();
    extract_product_data(&page, &mut sink, false).unwrap();
    assert_eq!(
        String::from_utf8(sink).unwrap(),
        "saw,The saw,Acme,Tools,1,S,9.50,SKU-1,,10,1,saw.png\n\
         saw,The saw,Acme,Tools,2,M,9.50,SKU-2,,20,,\n\
         saw,The saw,Acme,Tools,3,L,9.50,SKU-3,,30,,\n"
    );
}

#[test]
fn absent_weight_is_an_empty_column() {
    let page = ProductsResponse {
        products: vec![product("saw", vec![variant(1, "S", None)], vec![image(1, "saw.png")])],
    };
    let mut sink = Vec::new();
    extract_product_data(&page, &mut sink, false).unwrap();
    let text = String::from_utf8(sink).unwrap();
    assert_eq!(text, "saw,The saw,Acme,Tools,1,S,9.50,SKU-1,,,1,saw.png\n");
    let mut reader = csv::ReaderBuilder::new().has_headers(false).from_reader(text.as_bytes());
    let record = reader.records().next().unwrap().unwrap();
    assert_eq!(record.len(), 12);
    assert_eq!(&record[9], "");
}

#[test]
fn written_table_reads_back_cell_by_cell() {
    let mut p = product(
        "pen, the \"best\"",
        vec![variant(1, "multi\nline", Some(5)), variant(2, "", None)],
        vec![image(7, "https://cdn/\u{e9}t\u{e9}.png")],
    );
    p.vendor = "\u{65e5}\u{672c}".to_string();
    let page = ProductsResponse { products: vec![p, product("bare", vec![], vec![])] };
    let mut sink = Vec::new();
    extract_product_data(&page, &mut sink, true).unwrap();

    let mut reader = csv::ReaderBuilder::new().has_headers(false).from_reader(&sink[..]);
    let records: Vec<Vec<String>> = reader
        .records()
        .map(|r| r.unwrap().iter().map(|cell| cell.to_string()).collect())
        .collect();
    let rows = catalog_export::rows::flatten_page(&page);
    assert_eq!(records.len(), 1 + rows.len());
    assert_eq!(records[0], catalog_export::writer::header_cells());
    for (record, row) in records[1..].iter().zip(rows.iter()) {
        assert_eq!(record, &row.cells());
    }
}

#[test]
fn cells_beyond_ascii_are_written_in_utf8() {
    let mut p = product("caf\u{e9}", vec![], vec![image(1, "\u{1f600}")]);
    p.title = "\u{65e5}\u{672c}\u{8a9e}".to_string();
    let page = ProductsResponse { products: vec![p] };
    let mut sink = Vec::new();
    extract_product_data(&page, &mut sink, false).unwrap();
    assert_eq!(
        String::from_utf8(sink).unwrap(),
        "caf\u{e9},\u{65e5}\u{672c}\u{8a9e},Acme,Tools,,,,,,,1,\u{1f600}\n"
    );
}

#[test]
fn long_cells_are_written_in_full() {
    let long_plain = "x".repeat(20_000);
    let long_quoted = "\"".repeat(9_000);
    let mut p = product("big", vec![], vec![image(1, &long_plain)]);
    p.title = long_quoted.clone();
    let page = ProductsResponse { products: vec![p] };
    let mut sink = Vec::new();
    extract_product_data(&page, &mut sink, false).unwrap();
    let expected = format!("big,\"{}\",Acme,Tools,,,,,,,1,{}\n", "\"".repeat(18_000), long_plain);
    assert_eq!(String::from_utf8(sink).unwrap(), expected);
}

#[test]
fn failed_encoding_leaves_the_line_buffer_alone() {
    let mut out = b"kept".to_vec();
    let failure = csv::Error::from(std::io::Error::new(std::io::ErrorKind::Other, "broken pipe"));
    let result = catalog_export::writer::append_line(&mut out, Err(failure));
    assert_eq!(
        result,
        Err(catalog_export::errors::WriteError { cause: "broken pipe".to_string() })
    );
    assert_eq!(out, b"kept".to_vec());
}

#[test]
fn encoded_line_goes_to_the_end_of_the_buffer() {
    let mut out = b"kept\n".to_vec();
    let result = catalog_export::writer::append_line(&mut out, Ok(b"a,b\n".to_vec()));
    assert_eq!(result, Ok(()));
    assert_eq!(out, b"kept\na,b\n".to_vec());
}
