//! Extraction of a storefront's product catalog into a flat, comma-separated
//! table.
//!
//! The catalog is served one page at a time.  Every page is flattened into
//! rows that pair each product with its variants and images by position, the
//! rows are encoded as CSV records, and a small state machine decides which
//! page to ask for next and when the run is over.  Everything here works on
//! values in memory; the caller performs the network requests and owns the
//! output file.

pub mod decimal;
pub mod catalog;
pub mod rows;
pub mod errors;
pub mod csv_record;
pub mod writer;
pub mod request;
pub mod driver;
pub mod run;
pub mod run_date;
