//! The request for one page of the catalog, and the check of the status
//! that the storefront answers it with.

use vstd::prelude::*;

use crate::decimal::{decimal_string, decimal_text, signed_decimal_string, signed_decimal_text};
use crate::errors::FetchError;

verus! {

/// The address of page `page_number` of the product listing of the
/// storefront at `url_base`: the listing's path under the base address,
/// with the fixed page size of 250 products and the page number as query
/// parameters.
pub open spec fn page_url_text(url_base: Seq<char>, page_number: int) -> Seq<char> {
    url_base + "/products.json?limit=250&page="@ + signed_decimal_text(page_number)
}

/// Builds the address to fetch page `page_number` from.
pub fn page_url(url_base: &str, page_number: i32) -> (url: String)
    ensures
        url@ == page_url_text(url_base@, page_number as int),
{
    let mut url = String::from_str(url_base);
    url.append("/products.json?limit=250&page=");
    let number = signed_decimal_string(page_number as i64);
    url.append(number.as_str());
    url
}

/// Whether an HTTP status reports success: the statuses from 200 to 299.
pub open spec fn is_success_status(status: u16) -> bool {
    200 <= status <= 299
}

/// The text of the error for an answer with a status that does not report
/// success.
pub open spec fn status_error_text(status: u16) -> Seq<char> {
    "unexpected HTTP status "@ + decimal_text(status as nat)
}

/// Accepts the status of an answer if it reports success, and turns any
/// other status into a fetch error that names it.
pub fn check_status(status: u16) -> (result: Result<(), FetchError>)
    ensures
        result is Ok <==> is_success_status(status),
        result matches Err(e) ==> e@ == status_error_text(status),
{
    if 200 <= status && status <= 299 {
        Ok(())
    } else {
        let mut cause = String::from_str("unexpected HTTP status ");
        let number = decimal_string(status as u64);
        cause.append(number.as_str());
        Err(FetchError { cause })
    }
}

} // verus!
