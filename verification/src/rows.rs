//! Flattening of products into rows.
//!
//! A product's variants and images are two unrelated lists.  They are laid
//! side by side: row `i` of a product carries its `i`-th variant and its
//! `i`-th image, and where one list is shorter than the other the cells of
//! the missing entry are empty.

use vstd::prelude::*;

use crate::catalog::{Images, ImagesView, Product, ProductView, ProductsResponse, Variant, VariantView};
use crate::decimal::{decimal_string, decimal_text};

verus! {

/// One row of the output table: the product's own fields, beside at most
/// one of its variants and at most one of its images.  Every cell is text.
#[derive(Clone, Debug, PartialEq, Eq)]
pub struct FlatRow {
    pub product_handle: String,
    pub product_title: String,
    pub vendor: String,
    pub product_type: String,
    pub variant_id: String,
    pub variant_title: String,
    pub variant_price: String,
    pub variant_sku: String,
    pub variant_barcode: String,
    pub variant_grams: String,
    pub image_position: String,
    pub image_src: String,
}

/// The cells of a [`FlatRow`], as mathematical values.
pub struct FlatRowView {
    pub product_handle: Seq<char>,
    pub product_title: Seq<char>,
    pub vendor: Seq<char>,
    pub product_type: Seq<char>,
    pub variant_id: Seq<char>,
    pub variant_title: Seq<char>,
    pub variant_price: Seq<char>,
    pub variant_sku: Seq<char>,
    pub variant_barcode: Seq<char>,
    pub variant_grams: Seq<char>,
    pub image_position: Seq<char>,
    pub image_src: Seq<char>,
}

impl View for FlatRow {
    type V = FlatRowView;

    open spec fn view(&self) -> FlatRowView {
        FlatRowView {
            product_handle: self.product_handle@,
            product_title: self.product_title@,
            vendor: self.vendor@,
            product_type: self.product_type@,
            variant_id: self.variant_id@,
            variant_title: self.variant_title@,
            variant_price: self.variant_price@,
            variant_sku: self.variant_sku@,
            variant_barcode: self.variant_barcode@,
            variant_grams: self.variant_grams@,
            image_position: self.image_position@,
            image_src: self.image_src@,
        }
    }
}

/// The views of a sequence of rows.
pub open spec fn rows_view(rows: Seq<FlatRow>) -> Seq<FlatRowView> {
    rows.map_values(|r: FlatRow| r@)
}

/// The text of an optional piece of text: nothing where it is absent.
pub open spec fn text_or_empty(text: Option<Seq<char>>) -> Seq<char> {
    match text {
        Some(t) => t,
        None => Seq::empty(),
    }
}

/// The `i`-th variant of a product, if it has that many.
pub open spec fn variant_at(product: ProductView, i: int) -> Option<VariantView> {
    if 0 <= i < product.variants.len() {
        Some(product.variants[i])
    } else {
        None
    }
}

/// The `i`-th image of a product, if it has that many.
pub open spec fn image_at(product: ProductView, i: int) -> Option<ImagesView> {
    if 0 <= i < product.images.len() {
        Some(product.images[i])
    } else {
        None
    }
}

/// The row that carries the product's fields beside the given variant and
/// image.  The cells of an absent variant or image are empty, and so is the
/// cell of a barcode or weight that the variant does not have.
pub open spec fn row_of(
    product: ProductView,
    variant: Option<VariantView>,
    image: Option<ImagesView>,
) -> FlatRowView {
    FlatRowView {
        product_handle: product.handle,
        product_title: product.title,
        vendor: product.vendor,
        product_type: product.product_type,
        variant_id: match variant {
            Some(v) => decimal_text(v.id as nat),
            None => Seq::empty(),
        },
        variant_title: match variant {
            Some(v) => v.title,
            None => Seq::empty(),
        },
        variant_price: match variant {
            Some(v) => v.price,
            None => Seq::empty(),
        },
        variant_sku: match variant {
            Some(v) => v.sku,
            None => Seq::empty(),
        },
        variant_barcode: match variant {
            Some(v) => text_or_empty(v.barcode),
            None => Seq::empty(),
        },
        variant_grams: match variant {
            Some(v) => match v.grams {
                Some(g) => decimal_text(g as nat),
                None => Seq::empty(),
            },
            None => Seq::empty(),
        },
        image_position: match image {
            Some(img) => decimal_text(img.position as nat),
            None => Seq::empty(),
        },
        image_src: match image {
            Some(img) => img.src,
            None => Seq::empty(),
        },
    }
}

/// Row `i` of a product: its `i`-th variant beside its `i`-th image.
pub open spec fn row_at(product: ProductView, i: int) -> FlatRowView {
    row_of(product, variant_at(product, i), image_at(product, i))
}

/// The number of rows of a product: the length of the longer of its two
/// lists.
pub open spec fn row_count(product: ProductView) -> nat {
    if product.variants.len() >= product.images.len() {
        product.variants.len()
    } else {
        product.images.len()
    }
}

/// The rows of a product, in order.
pub open spec fn product_rows(product: ProductView) -> Seq<FlatRowView> {
    Seq::new(row_count(product), |i: int| row_at(product, i))
}

/// The rows of a page: the rows of its products, one product after the
/// other, in the order of the page.
pub open spec fn page_rows(products: Seq<ProductView>) -> Seq<FlatRowView> {
    products.map_values(|p: ProductView| product_rows(p)).flatten()
}

/// A product has as many rows as the longer of its two lists has entries,
/// and each row carries the product's own fields.
pub proof fn lemma_row_count(product: ProductView)
    ensures
        product_rows(product).len() >= product.variants.len(),
        product_rows(product).len() >= product.images.len(),
        product_rows(product).len() == product.variants.len() || product_rows(product).len()
            == product.images.len(),
        forall|i: int|
            0 <= i < product_rows(product).len() ==> {
                let row = #[trigger] product_rows(product)[i];
                &&& row.product_handle == product.handle
                &&& row.product_title == product.title
                &&& row.vendor == product.vendor
                &&& row.product_type == product.product_type
            },
{
}

/// A row that has no image to go with it has empty image cells, and a row
/// that has no variant to go with it has empty variant cells.
pub proof fn lemma_missing_entry_leaves_cells_empty(product: ProductView, i: int)
    requires
        0 <= i < row_count(product),
    ensures
        i >= product.images.len() ==> {
            let row = product_rows(product)[i];
            &&& row.image_position == Seq::<char>::empty()
            &&& row.image_src == Seq::<char>::empty()
        },
        i >= product.variants.len() ==> {
            let row = product_rows(product)[i];
            &&& row.variant_id == Seq::<char>::empty()
            &&& row.variant_title == Seq::<char>::empty()
            &&& row.variant_price == Seq::<char>::empty()
            &&& row.variant_sku == Seq::<char>::empty()
            &&& row.variant_barcode == Seq::<char>::empty()
            &&& row.variant_grams == Seq::<char>::empty()
        },
{
}

/// A product with neither variants nor images has no rows, and a page has
/// the same rows with it as without it.
pub proof fn lemma_bare_product_has_no_rows(products: Seq<ProductView>, product: ProductView)
    requires
        product.variants.len() == 0,
        product.images.len() == 0,
    ensures
        product_rows(product) == Seq::<FlatRowView>::empty(),
        page_rows(products.push(product)) == page_rows(products),
{
    let rows = products.map_values(|p: ProductView| product_rows(p));
    assert(products.push(product).map_values(|p: ProductView| product_rows(p)) =~= rows.push(
        product_rows(product),
    ));
    rows.lemma_flatten_push(product_rows(product));
}

/// The weight cell of a row is empty exactly when its variant has no
/// weight: a missing weight is never written as a number, and a weight
/// that is there is never written as nothing.
pub proof fn lemma_weight_cell_empty_iff_absent(product: ProductView, i: int)
    requires
        0 <= i < product.variants.len(),
    ensures
        product_rows(product)[i].variant_grams == match product.variants[i].grams {
            Some(g) => decimal_text(g as nat),
            None => Seq::<char>::empty(),
        },
        product_rows(product)[i].variant_grams.len() == 0 <==> product.variants[i].grams is None,
{
    match product.variants[i].grams {
        Some(g) => {
            crate::decimal::lemma_decimal_text_nonempty(g as nat);
        },
        None => {},
    }
}

/// Builds the row that pairs the `i`-th variant of the product with its
/// `i`-th image.
pub fn flat_row(product: &Product, i: usize) -> (row: FlatRow)
    ensures
        row@ == row_at(product@, i as int),
{
    let variant: Option<&Variant> = if i < product.variants.len() {
        Some(&product.variants[i])
    } else {
        None
    };
    let image: Option<&Images> = if i < product.images.len() {
        Some(&product.images[i])
    } else {
        None
    };
    let row = FlatRow {
        product_handle: product.handle.clone(),
        product_title: product.title.clone(),
        vendor: product.vendor.clone(),
        product_type: product.product_type.clone(),
        variant_id: match variant {
            Some(v) => decimal_string(v.id),
            None => String::new(),
        },
        variant_title: match variant {
            Some(v) => v.title.clone(),
            None => String::new(),
        },
        variant_price: match variant {
            Some(v) => v.price.clone(),
            None => String::new(),
        },
        variant_sku: match variant {
            Some(v) => v.sku.clone(),
            None => String::new(),
        },
        variant_barcode: match variant {
            Some(v) => match &v.barcode {
                Some(text) => text.clone(),
                None => String::new(),
            },
            None => String::new(),
        },
        variant_grams: match variant {
            Some(v) => match v.grams {
                Some(g) => decimal_string(g as u64),
                None => String::new(),
            },
            None => String::new(),
        },
        image_position: match image {
            Some(img) => decimal_string(img.position as u64),
            None => String::new(),
        },
        image_src: match image {
            Some(img) => img.src.clone(),
            None => String::new(),
        },
    };
    row
}

/// Flattens one product into its rows: as many as the longer of its two
/// lists has entries, and none for a product with neither variants nor
/// images.
pub fn flatten_product(product: &Product) -> (rows: Vec<FlatRow>)
    ensures
        rows_view(rows@) == product_rows(product@),
        rows@.len() == row_count(product@),
{
    let count = if product.variants.len() >= product.images.len() {
        product.variants.len()
    } else {
        product.images.len()
    };
    let mut rows: Vec<FlatRow> = Vec::new();
    let mut i: usize = 0;
    while i < count
        invariant
            i <= count,
            count == row_count(product@),
            rows@.len() == i,
            forall|k: int| 0 <= k < i ==> (#[trigger] rows@[k])@ == row_at(product@, k),
        decreases count - i,
    {
        let row = flat_row(product, i);
        rows.push(row);
        i = i + 1;
    }
    rows
}

/// Flattens a page into the rows of its products, in the order of the page.
pub fn flatten_page(page: &ProductsResponse) -> (rows: Vec<FlatRow>)
    ensures
        rows_view(rows@) == page_rows(page@),
{
    let mut rows: Vec<FlatRow> = Vec::new();
    let mut k: usize = 0;
    while k < page.products.len()
        invariant
            k <= page.products.len(),
            rows_view(rows@) == page_rows(page@.take(k as int)),
        decreases page.products.len() - k,
    {
        let mut more = flatten_product(&page.products[k]);
        rows.append(&mut more);
        proof {
            let done = page@.take(k as int);
            let product = page@[k as int];
            assert(page@.take(k + 1) =~= done.push(product));
            assert(done.push(product).map_values(|p: ProductView| product_rows(p))
                =~= done.map_values(|p: ProductView| product_rows(p)).push(product_rows(product)));
            done.map_values(|p: ProductView| product_rows(p)).lemma_flatten_push(
                product_rows(product),
            );
        }
        k = k + 1;
    }
    assert(page@.take(k as int) =~= page@);
    rows
}

} // verus!
